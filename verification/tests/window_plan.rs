use luminance_glfw::error::{GlfwSurfaceError, InitError};
use luminance_glfw::event::NativeEvent;
use luminance_glfw::surface::{
    advance_size, plan_window, MonitorProbe, VideoMode, WindowDim, WindowOpt, WindowPlan,
    CONTEXT_VERSION_MAJOR, CONTEXT_VERSION_MINOR, SWAP_INTERVAL_SYNC,
};

#[test]
fn windowed_plan_keeps_requested_size() {
    let plan = plan_window(WindowDim::Windowed(800, 600), MonitorProbe::Absent);
    assert_eq!(plan, Ok(WindowPlan { width: 800, height: 600, fullscreen: false }));

    let probe = MonitorProbe::Present {
        video_mode: Some(VideoMode { width: 1920, height: 1080 }),
    };
    let plan = plan_window(WindowDim::Windowed(320, 240), probe);
    assert_eq!(plan, Ok(WindowPlan { width: 320, height: 240, fullscreen: false }));
}

#[test]
fn fullscreen_without_monitor_fails() {
    assert_eq!(
        plan_window(WindowDim::Fullscreen, MonitorProbe::Absent),
        Err(GlfwSurfaceError::NoPrimaryMonitor)
    );
    assert_eq!(
        plan_window(WindowDim::FullscreenRestricted(640, 480), MonitorProbe::Absent),
        Err(GlfwSurfaceError::NoPrimaryMonitor)
    );
}

#[test]
fn fullscreen_without_video_mode_fails() {
    let probe = MonitorProbe::Present { video_mode: None };
    assert_eq!(
        plan_window(WindowDim::Fullscreen, probe),
        Err(GlfwSurfaceError::NoVideoMode)
    );
}

#[test]
fn fullscreen_adopts_monitor_mode() {
    let probe = MonitorProbe::Present {
        video_mode: Some(VideoMode { width: 2560, height: 1440 }),
    };
    assert_eq!(
        plan_window(WindowDim::Fullscreen, probe),
        Ok(WindowPlan { width: 2560, height: 1440, fullscreen: true })
    );
}

#[test]
fn fullscreen_restricted_keeps_caller_size() {
    let probe = MonitorProbe::Present {
        video_mode: Some(VideoMode { width: 2560, height: 1440 }),
    };
    assert_eq!(
        plan_window(WindowDim::FullscreenRestricted(1024, 768), probe),
        Ok(WindowPlan { width: 1024, height: 768, fullscreen: true })
    );
    let no_mode = MonitorProbe::Present { video_mode: None };
    assert_eq!(
        plan_window(WindowDim::FullscreenRestricted(1024, 768), no_mode),
        Ok(WindowPlan { width: 1024, height: 768, fullscreen: true })
    );
}

#[test]
fn window_options_default_to_visible_cursor() {
    let opt = WindowOpt::default();
    assert!(!opt.is_cursor_hidden());
    assert!(opt.hide_cursor(true).is_cursor_hidden());
    assert!(!opt.hide_cursor(true).hide_cursor(false).is_cursor_hidden());
}

#[test]
fn init_failures_map_to_the_init_error() {
    assert_eq!(
        GlfwSurfaceError::of_init_error(InitError::Internal),
        GlfwSurfaceError::InitError(InitError::Internal)
    );
    assert_eq!(
        GlfwSurfaceError::of_init_error(InitError::AlreadyInitialized),
        GlfwSurfaceError::InitError(InitError::AlreadyInitialized)
    );
}

#[test]
fn context_constants_request_gl_3_3_with_vsync() {
    assert_eq!(CONTEXT_VERSION_MAJOR, 3);
    assert_eq!(CONTEXT_VERSION_MINOR, 3);
    assert_eq!(SWAP_INTERVAL_SYNC, 1);
}

#[test]
fn size_follows_the_last_framebuffer_size_event() {
    let raw = vec![
        NativeEvent::Close,
        NativeEvent::FramebufferSize(1024, 768),
        NativeEvent::Focus(true),
        NativeEvent::FramebufferSize(300, 200),
    ];
    assert_eq!(advance_size(800, 600, &raw), (300, 200));
}

#[test]
fn size_is_unmoved_without_framebuffer_size_events() {
    let raw = vec![NativeEvent::Pos(1, 2), NativeEvent::Size(3, 4), NativeEvent::Refresh];
    assert_eq!(advance_size(800, 600, &raw), (800, 600));
    let empty: Vec<NativeEvent> = Vec::new();
    assert_eq!(advance_size(800, 600, &empty), (800, 600));
}

#[test]
fn negative_reported_dimensions_clamp_to_zero() {
    let raw = vec![NativeEvent::FramebufferSize(-1, 50)];
    assert_eq!(advance_size(800, 600, &raw), (0, 50));
}
