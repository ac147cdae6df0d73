use presentation_window::{
    plan_open, plan_update, require_absent, require_present, PresentationWindowConfig,
    WindowError, WindowRegistry, WindowState, PRESENTATION_LABEL,
};

fn config(always_on_top: bool, background_color: &str, fullscreen: bool) -> PresentationWindowConfig {
    PresentationWindowConfig::new(always_on_top, background_color.to_string(), fullscreen)
}

fn state(always_on_top: bool, fullscreen: bool) -> WindowState {
    WindowState { always_on_top, fullscreen }
}

#[test]
fn open_query_close_query() {
    let mut reg = WindowRegistry::new();
    assert!(reg.open(&config(false, "#fff", false), Ok(())).is_ok());
    assert!(reg.is_open());
    assert!(reg.close(Ok(())).is_ok());
    assert!(!reg.is_open());
}

#[test]
fn second_open_is_refused() {
    let mut reg = WindowRegistry::new();
    assert!(reg.open(&config(false, "#fff", false), Ok(())).is_ok());
    let second = reg.open(&config(false, "#fff", false), Ok(()));
    assert!(matches!(second, Err(WindowError::WindowAlreadyOpen)));
}

#[test]
fn second_open_leaves_window_unchanged() {
    let mut reg = WindowRegistry::new();
    assert!(reg.open(&config(true, "#fff", false), Ok(())).is_ok());
    let second = reg.open(&config(false, "#000", true), Ok(()));
    assert!(matches!(second, Err(WindowError::WindowAlreadyOpen)));
    assert_eq!(reg.presentation_state(), Some(state(true, false)));
}

#[test]
fn repeated_opens_create_one_window() {
    let mut reg = WindowRegistry::new();
    for _ in 0..3 {
        let _ = reg.open(&config(false, "#fff", false), Ok(()));
    }
    assert!(reg.close(Ok(())).is_ok());
    assert!(!reg.is_open());
    assert!(matches!(reg.close(Ok(())), Err(WindowError::WindowNotFound)));
}

#[test]
fn open_sets_flags_from_config() {
    let mut reg = WindowRegistry::new();
    assert_eq!(reg.presentation_state(), None);
    assert!(reg.open(&config(true, "#123456", true), Ok(())).is_ok());
    assert_eq!(reg.presentation_state(), Some(state(true, true)));
}

#[test]
fn close_when_absent_is_not_found() {
    let mut reg = WindowRegistry::new();
    assert!(matches!(reg.close(Ok(())), Err(WindowError::WindowNotFound)));
    assert!(!reg.is_open());
}

#[test]
fn update_when_absent_is_not_found() {
    let mut reg = WindowRegistry::new();
    let r = reg.update(&config(true, "#000", true), Ok(()), Ok(()));
    assert!(matches!(r, Err(WindowError::WindowNotFound)));
    assert!(!reg.is_open());
}

#[test]
fn update_sets_both_flags() {
    let mut reg = WindowRegistry::new();
    assert!(reg.open(&config(false, "#fff", false), Ok(())).is_ok());
    assert!(reg.update(&config(true, "#000", true), Ok(()), Ok(())).is_ok());
    assert_eq!(reg.presentation_state(), Some(state(true, true)));
}

#[test]
fn update_clears_both_flags() {
    let mut reg = WindowRegistry::new();
    assert!(reg.open(&config(true, "#fff", true), Ok(())).is_ok());
    assert!(reg.update(&config(false, "#fff", false), Ok(()), Ok(())).is_ok());
    assert_eq!(reg.presentation_state(), Some(state(false, false)));
}

#[test]
fn failed_creation_opens_nothing() {
    let mut reg = WindowRegistry::new();
    let r = reg.open(&config(false, "#fff", false), Err("no display".to_string()));
    match r {
        Err(WindowError::PlatformError(m)) => assert_eq!(m, "no display"),
        other => panic!("unexpected result {:?}", other),
    }
    assert!(!reg.is_open());
}

#[test]
fn failed_destruction_keeps_window() {
    let mut reg = WindowRegistry::new();
    assert!(reg.open(&config(false, "#fff", false), Ok(())).is_ok());
    let r = reg.close(Err("busy".to_string()));
    assert!(matches!(r, Err(WindowError::PlatformError(ref m)) if m == "busy"));
    assert!(reg.is_open());
}

#[test]
fn failed_always_on_top_changes_nothing() {
    let mut reg = WindowRegistry::new();
    assert!(reg.open(&config(false, "#fff", false), Ok(())).is_ok());
    let r = reg.update(&config(true, "#fff", true), Err("denied".to_string()), Ok(()));
    assert!(matches!(r, Err(WindowError::PlatformError(ref m)) if m == "denied"));
    assert_eq!(reg.presentation_state(), Some(state(false, false)));
}

#[test]
fn failed_fullscreen_keeps_always_on_top() {
    let mut reg = WindowRegistry::new();
    assert!(reg.open(&config(false, "#fff", false), Ok(())).is_ok());
    let r = reg.update(&config(true, "#fff", true), Ok(()), Err("denied".to_string()));
    assert!(matches!(r, Err(WindowError::PlatformError(ref m)) if m == "denied"));
    assert_eq!(reg.presentation_state(), Some(state(true, false)));
}

#[test]
fn reopen_after_close() {
    let mut reg = WindowRegistry::new();
    assert!(reg.open(&config(false, "#fff", false), Ok(())).is_ok());
    assert!(reg.close(Ok(())).is_ok());
    assert!(reg.open(&config(true, "#fff", false), Ok(())).is_ok());
    assert_eq!(reg.presentation_state(), Some(state(true, false)));
}

#[test]
fn error_messages() {
    assert_eq!(WindowError::WindowAlreadyOpen.message(), "Presentation window already open");
    assert_eq!(WindowError::WindowNotFound.message(), "Presentation window not found");
    assert_eq!(WindowError::PlatformError("gone".to_string()).message(), "gone");
}

#[test]
fn plan_open_when_absent() {
    let spec = plan_open(false, &config(true, "#fff", false), true).unwrap();
    assert_eq!(spec.label, "presentation");
    assert_eq!(spec.label, PRESENTATION_LABEL);
    assert_eq!(spec.url, "index.html?mode=presentation");
    assert_eq!(spec.title, "Whiteboard - Presentation");
    assert_eq!(spec.width, 1920);
    assert_eq!(spec.height, 1080);
    assert!(spec.resizable);
    assert!(spec.decorations);
    assert!(spec.always_on_top);
    assert!(!spec.fullscreen);
}

#[test]
fn plan_open_frameless() {
    let spec = plan_open(false, &config(false, "#fff", true), false).unwrap();
    assert!(!spec.decorations);
    assert!(!spec.always_on_top);
    assert!(spec.fullscreen);
}

#[test]
fn plan_open_when_present() {
    assert!(matches!(
        plan_open(true, &config(false, "#fff", false), true),
        Err(WindowError::WindowAlreadyOpen)
    ));
}

#[test]
fn plan_update_cases() {
    assert_eq!(plan_update(true, &config(true, "#000", false)).unwrap(), state(true, false));
    assert!(matches!(
        plan_update(false, &config(true, "#000", true)),
        Err(WindowError::WindowNotFound)
    ));
}

#[test]
fn presence_checks() {
    assert!(require_absent(false).is_ok());
    assert!(matches!(require_absent(true), Err(WindowError::WindowAlreadyOpen)));
    assert!(require_present(true).is_ok());
    assert!(matches!(require_present(false), Err(WindowError::WindowNotFound)));
}

#[test]
fn config_window_state_ignores_background() {
    let a = config(true, "#000", false);
    let b = config(true, "#ffffff", false);
    assert_eq!(a.window_state(), b.window_state());
    assert_eq!(a.window_state(), state(true, false));
}
