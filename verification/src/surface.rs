//! The surface: the rendering target plus its input-event source.
//!
//! A surface is built in one pass with no retry: initialize the native
//! toolkit, fix the context hints, create the window per the requested
//! dimension variant, then build the shared graphics state. The native
//! window itself belongs to the toolkit and lives with the embedding code;
//! this module owns everything the toolkit does not: the window plan that
//! decides size, mode and the exact error when a fullscreen request cannot
//! be met, the framebuffer-size bookkeeping fed by native events, the event
//! translation, and the shared graphics state handle that rendering code
//! clones and mutates through.

use vstd::prelude::*;

use core::cell::RefCell;
use std::rc::Rc;

use crate::error::{GlfwSurfaceError, StateQueryFailure};
use luminance::state::StateQueryError as NativeStateError;
use crate::event::{translate, translate_events, NativeEvent, WindowEvent};

verus! {

/// Major version of the OpenGL context requested at window creation.
pub const CONTEXT_VERSION_MAJOR: u32 = 3;

/// Minor version of the OpenGL context requested at window creation.
pub const CONTEXT_VERSION_MINOR: u32 = 3;

/// Buffer swaps synchronize with this many vertical blanks.
pub const SWAP_INTERVAL_SYNC: u32 = 1;

/// How the window is to be laid out on screen. Chosen once at construction
/// and immutable afterwards.
#[derive(Clone, Copy, PartialEq, Eq, Structural, Debug)]
pub enum WindowDim {
    /// A window of exactly the given width and height, in screen
    /// coordinates.
    Windowed(u32, u32),
    /// Fullscreen on the primary monitor, at the monitor's current video
    /// mode.
    Fullscreen,
    /// Fullscreen on the primary monitor, restricted to the given width and
    /// height rather than the monitor's native mode.
    FullscreenRestricted(u32, u32),
}

/// Window options read once at construction.
#[derive(Clone, Copy, PartialEq, Eq, Structural, Debug)]
pub struct WindowOpt {
    /// Whether the cursor is confined and invisible over the window.
    pub cursor_hidden: bool,
}

impl WindowOpt {
    /// Ask for the cursor to be hidden, or shown again.
    pub fn hide_cursor(self, hide: bool) -> (r: WindowOpt)
        ensures
            r.cursor_hidden == hide,
    {
        WindowOpt { cursor_hidden: hide }
    }

    /// Is the cursor to be hidden?
    pub fn is_cursor_hidden(&self) -> (r: bool)
        ensures
            r == self.cursor_hidden,
    {
        self.cursor_hidden
    }
}

impl Default for WindowOpt {
    /// By default the cursor stays visible and unconfined.
    fn default() -> (r: WindowOpt)
        ensures
            r.cursor_hidden == false,
    {
        WindowOpt { cursor_hidden: false }
    }
}

/// A monitor video mode's pixel dimensions.
#[derive(Clone, Copy, PartialEq, Eq, Structural, Debug)]
pub struct VideoMode {
    /// Width in pixels.
    pub width: u32,
    /// Height in pixels.
    pub height: u32,
}

/// What the native monitor query reported.
#[derive(Clone, Copy, PartialEq, Eq, Structural, Debug)]
pub enum MonitorProbe {
    /// No primary monitor is available.
    Absent,
    /// A primary monitor is available. `video_mode` carries the pixel width
    /// and height of its current video mode, or `None` when the monitor
    /// reports no usable mode.
    Present { video_mode: Option<VideoMode> },
}

/// The settled creation parameters for the native window.
#[derive(Clone, Copy, PartialEq, Eq, Structural, Debug)]
pub struct WindowPlan {
    /// Width to create the window at.
    pub width: u32,
    /// Height to create the window at.
    pub height: u32,
    /// Whether the window covers the primary monitor.
    pub fullscreen: bool,
}

/// The window plan owed for a dimension variant, given what the monitor
/// query reported.
///
/// A windowed request never consults the monitor. A fullscreen request
/// fails with `NoPrimaryMonitor` when no monitor is there; plain fullscreen
/// further fails with `NoVideoMode` when the monitor reports no mode, and
/// otherwise adopts the monitor's reported dimensions; restricted
/// fullscreen keeps the caller's dimensions.
pub open spec fn window_plan(dim: WindowDim, probe: MonitorProbe) -> Result<
    WindowPlan,
    GlfwSurfaceError,
> {
    match dim {
        WindowDim::Windowed(w, h) => Ok(WindowPlan { width: w, height: h, fullscreen: false }),
        WindowDim::Fullscreen => match probe {
            MonitorProbe::Absent => Err(GlfwSurfaceError::NoPrimaryMonitor),
            MonitorProbe::Present { video_mode } => match video_mode {
                Option::None => Err(GlfwSurfaceError::NoVideoMode),
                Option::Some(mode) => Ok(
                    WindowPlan { width: mode.width, height: mode.height, fullscreen: true },
                ),
            },
        },
        WindowDim::FullscreenRestricted(w, h) => match probe {
            MonitorProbe::Absent => Err(GlfwSurfaceError::NoPrimaryMonitor),
            MonitorProbe::Present { .. } => Ok(
                WindowPlan { width: w, height: h, fullscreen: true },
            ),
        },
    }
}

/// Settle how the native window is to be created, or with which error the
/// whole construction attempt aborts.
pub fn plan_window(dim: WindowDim, probe: MonitorProbe) -> (r: Result<
    WindowPlan,
    GlfwSurfaceError,
>)
    ensures
        r == window_plan(dim, probe),
{
    match dim {
        WindowDim::Windowed(w, h) => Ok(WindowPlan { width: w, height: h, fullscreen: false }),
        WindowDim::Fullscreen => match probe {
            MonitorProbe::Absent => Err(GlfwSurfaceError::NoPrimaryMonitor),
            MonitorProbe::Present { video_mode } => match video_mode {
                Option::None => Err(GlfwSurfaceError::NoVideoMode),
                Option::Some(mode) => Ok(
                    WindowPlan { width: mode.width, height: mode.height, fullscreen: true },
                ),
            },
        },
        WindowDim::FullscreenRestricted(w, h) => match probe {
            MonitorProbe::Absent => Err(GlfwSurfaceError::NoPrimaryMonitor),
            MonitorProbe::Present { .. } => Ok(
                WindowPlan { width: w, height: h, fullscreen: true },
            ),
        },
    }
}

/// A windowed request succeeds for every monitor probe, at exactly the
/// requested dimensions.
pub proof fn lemma_windowed_plan(w: u32, h: u32, probe: MonitorProbe)
    ensures
        window_plan(WindowDim::Windowed(w, h), probe) == Ok::<WindowPlan, GlfwSurfaceError>(
            WindowPlan { width: w, height: h, fullscreen: false },
        ),
{
}

/// Without a primary monitor, each fullscreen variant yields
/// `NoPrimaryMonitor`, so no window creation is ever planned.
pub proof fn lemma_no_monitor_plan(dim: WindowDim)
    ensures
        !(dim matches WindowDim::Windowed(_, _)) ==> window_plan(dim, MonitorProbe::Absent)
            == Err::<WindowPlan, GlfwSurfaceError>(GlfwSurfaceError::NoPrimaryMonitor),
{
}

/// Whenever a plan is owed, its dimensions are the requested ones, or the
/// monitor-reported ones for plain fullscreen; and only the fullscreen
/// variants cover the monitor.
pub proof fn lemma_plan_dimensions(dim: WindowDim, probe: MonitorProbe)
    ensures
        window_plan(dim, probe) matches Ok(p) ==> match dim {
            WindowDim::Windowed(w, h) => p == (WindowPlan {
                width: w,
                height: h,
                fullscreen: false,
            }),
            WindowDim::Fullscreen => probe matches MonitorProbe::Present { video_mode }
                && video_mode matches Some(mode) && p == (WindowPlan {
                width: mode.width,
                height: mode.height,
                fullscreen: true,
            }),
            WindowDim::FullscreenRestricted(w, h) => p == (WindowPlan {
                width: w,
                height: h,
                fullscreen: true,
            }),
        },
{
}

/// luminance's graphics state, declared opaque: this crate carries values
/// of it but never looks inside.
#[verifier::external_type_specification]
#[verifier::external_body]
pub struct ExGraphicsState(luminance::state::GraphicsState);

/// luminance's context-query error, declared opaque; its detail is carried
/// over to [`StateQueryFailure`] by `state_query_error_detail`.
#[verifier::external_type_specification]
#[verifier::external_body]
pub struct ExStateQueryError(luminance::state::StateQueryError);

/// The standard library's interior-mutability cell, declared opaque: the
/// graphics state handle is `Rc<RefCell<_>>`, as the graphics library
/// requires.
#[verifier::external_type_specification]
#[verifier::external_body]
#[verifier::reject_recursive_types(T)]
pub struct ExRefCell<T: ?Sized>(RefCell<T>);

/// Relies on `RefCell::new`: it wraps the value; nothing more is assumed.
pub assume_specification<T>[ RefCell::<T>::new ](value: T) -> RefCell<T>;

/// Relies on luminance's `GraphicsState::new`: it builds the graphics state
/// from the OpenGL context current on the calling thread, reporting
/// `UnavailableGraphicsState` when the thread already gave out its state,
/// and a query error when the context reports a value it cannot interpret.
/// The OpenGL entry points must be loaded before it runs.
#[verifier::external_body]
fn new_graphics_state() -> Result<luminance::state::GraphicsState, NativeStateError> {
    luminance::state::GraphicsState::new()
}

/// Relies on luminance's `StateQueryError`: each variant is carried over to
/// this crate's error vocabulary one for one, payloads moved unchanged.
#[verifier::external_body]
fn state_query_error_detail(e: NativeStateError) -> StateQueryFailure {
    match e {
        NativeStateError::UnavailableGraphicsState => StateQueryFailure::UnavailableGraphicsState,
        NativeStateError::UnknownBlendingState(b) => StateQueryFailure::UnknownBlendingState(b),
        NativeStateError::UnknownBlendingEquation(q) => StateQueryFailure::UnknownBlendingEquation(q),
        NativeStateError::UnknownBlendingSrcFactor(f) => StateQueryFailure::UnknownBlendingSrcFactor(f),
        NativeStateError::UnknownBlendingDstFactor(f) => StateQueryFailure::UnknownBlendingDstFactor(f),
        NativeStateError::UnknownDepthTestState(t) => StateQueryFailure::UnknownDepthTestState(t),
        NativeStateError::UnknownFaceCullingState(t) => StateQueryFailure::UnknownFaceCullingState(t),
        NativeStateError::UnknownFaceCullingOrder(o) => StateQueryFailure::UnknownFaceCullingOrder(o),
        NativeStateError::UnknownFaceCullingMode(m) => StateQueryFailure::UnknownFaceCullingMode(m),
        NativeStateError::UnknownVertexRestartState(t) => StateQueryFailure::UnknownVertexRestartState(t),
    }
}

/// A framebuffer dimension reported by the toolkit, in pixels. The toolkit
/// never reports a negative dimension; a negative value is clamped to zero
/// rather than reinterpreted.
pub open spec fn px(v: i32) -> u32 {
    if v < 0 {
        0u32
    } else {
        v as u32
    }
}

/// One event's effect on the tracked framebuffer size: only a
/// framebuffer-size event changes it.
pub open spec fn apply_size(sz: (u32, u32), e: NativeEvent) -> (u32, u32) {
    match e {
        NativeEvent::FramebufferSize(w, h) => (px(w), px(h)),
        _ => sz,
    }
}

/// The tracked framebuffer size after a batch of events: the last
/// framebuffer-size event wins, and a batch without one leaves the size
/// alone.
pub open spec fn size_after(sz: (u32, u32), evs: Seq<NativeEvent>) -> (u32, u32)
    decreases evs.len(),
{
    if evs.len() == 0 {
        sz
    } else {
        apply_size(size_after(sz, evs.drop_last()), evs.last())
    }
}

/// The rendering surface: the live window's framebuffer size and the shared
/// graphics state handle.
///
/// The graphics state is created once at construction and wrapped in a
/// reference-counted, mutably-shareable handle; every holder of the handle
/// works against the same state. The native window and its event queue live
/// with the embedding code, which feeds the decomposed native events into
/// [`GlfwSurface::process_events`].
pub struct GlfwSurface {
    size: (u32, u32),
    gfx_state: Rc<RefCell<luminance::state::GraphicsState>>,
}

impl GlfwSurface {
    /// The framebuffer size the surface currently knows, in pixels.
    pub closed spec fn spec_size(&self) -> (u32, u32) {
        self.size
    }

    /// The shared graphics state handle.
    pub closed spec fn spec_state(&self) -> Rc<RefCell<luminance::state::GraphicsState>> {
        self.gfx_state
    }

    /// Bring the surface live once the native window exists: record the
    /// framebuffer size the window reported and build the shared graphics
    /// state.
    ///
    /// This is the only construction step that can still fail, and it fails
    /// with `GraphicsStateError` alone, carrying the state constructor's
    /// detail.
    pub fn new(width: u32, height: u32) -> (r: Result<GlfwSurface, GlfwSurfaceError>)
        ensures
            r matches Ok(s) ==> s.spec_size() == (width, height),
            r matches Err(e) ==> e matches GlfwSurfaceError::GraphicsStateError(_),
    {
        match new_graphics_state() {
            Ok(st) => Ok(
                GlfwSurface { size: (width, height), gfx_state: Rc::new(RefCell::new(st)) },
            ),
            Err(e) => Err(GlfwSurfaceError::GraphicsStateError(state_query_error_detail(e))),
        }
    }

    /// The current framebuffer size in pixels: width, then height.
    ///
    /// Side-effect-free; in particular, presenting a frame between two size
    /// queries cannot change what they return, since only framebuffer-size
    /// events move the tracked size.
    pub fn size(&self) -> (r: [u32; 2])
        ensures
            r[0] == self.spec_size().0,
            r[1] == self.spec_size().1,
    {
        [self.size.0, self.size.1]
    }

    /// The shared graphics state handle, for rendering code that needs to
    /// coordinate context-scoped state.
    ///
    /// Every call returns the one handle made at construction, so all
    /// holders observe the same mutations.
    pub fn state(&self) -> (r: &Rc<RefCell<luminance::state::GraphicsState>>)
        ensures
            *r == self.spec_state(),
    {
        &self.gfx_state
    }

    /// Take one drained batch of native events, in arrival order, and hand
    /// back their neutral translations: exactly one out for each in, order
    /// kept, none dropped or coalesced.
    ///
    /// The tracked framebuffer size follows the batch's framebuffer-size
    /// events; the graphics state handle is never touched.
    pub fn process_events(&mut self, raw: &Vec<NativeEvent>) -> (r: Vec<WindowEvent>)
        ensures
            r@.len() == raw@.len(),
            forall|i: int| 0 <= i < raw@.len() ==> r@[i] == translate(raw@[i]),
            final(self).spec_state() == old(self).spec_state(),
            final(self).spec_size() == size_after(old(self).spec_size(), raw@),
    {
        let out = translate_events(raw);
        self.size = advance_size(self.size.0, self.size.1, raw);
        out
    }
}

/// Run a batch of native events over a tracked framebuffer size: the last
/// framebuffer-size event of the batch wins, and a batch without one leaves
/// the size alone.
pub fn advance_size(width: u32, height: u32, raw: &Vec<NativeEvent>) -> (r: (u32, u32))
    ensures
        r == size_after((width, height), raw@),
{
    let mut cur: (u32, u32) = (width, height);
    let mut i: usize = 0;
    while i < raw.len()
        invariant
            0 <= i <= raw@.len(),
            cur == size_after((width, height), raw@.take(i as int)),
        decreases raw@.len() - i,
    {
        match raw[i] {
            NativeEvent::FramebufferSize(w, h) => {
                let pw: u32 = if w < 0 { 0 } else { w as u32 };
                let ph: u32 = if h < 0 { 0 } else { h as u32 };
                cur = (pw, ph);
            },
            _ => {},
        }
        proof {
            assert(raw@.take(i + 1 as int).drop_last() =~= raw@.take(i as int));
            assert(raw@.take(i + 1 as int).last() == raw@[i as int]);
        }
        i = i + 1;
    }
    proof {
        assert(raw@.take(raw@.len() as int) =~= raw@);
    }
    cur
}

} // verus!
