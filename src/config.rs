use vstd::prelude::*;
use crate::error::WindowError;

verus! {

/// Name under which the host window manager knows the presentation window.
pub const PRESENTATION_LABEL: &'static str = "presentation";

/// Page loaded into the presentation window: the main page in presentation mode.
pub const PRESENTATION_URL: &'static str = "index.html?mode=presentation";

/// Title of the presentation window.
pub const PRESENTATION_TITLE: &'static str = "Whiteboard - Presentation";

/// Initial inner width of the presentation window, in logical pixels.
pub const WINDOW_WIDTH: u32 = 1920;

/// Initial inner height of the presentation window, in logical pixels.
pub const WINDOW_HEIGHT: u32 = 1080;

/// Display settings sent by the front end with `open` and `update`.
#[derive(Debug)]
pub struct PresentationWindowConfig {
    pub always_on_top: bool,
    /// A colour descriptor; it is carried but neither validated nor applied.
    pub background_color: String,
    pub fullscreen: bool,
}

/// The display properties of a live window that the commands set.
#[derive(Debug, Clone, Copy, PartialEq, Eq, Structural)]
pub struct WindowState {
    pub always_on_top: bool,
    pub fullscreen: bool,
}

/// Everything the host is asked for when the presentation window is created.
#[derive(Debug)]
pub struct WindowSpec {
    pub label: String,
    pub url: String,
    pub title: String,
    pub width: u32,
    pub height: u32,
    pub resizable: bool,
    pub decorations: bool,
    pub always_on_top: bool,
    pub fullscreen: bool,
}

impl PresentationWindowConfig {
    /// The properties a window gets from this configuration.
    pub open spec fn state_spec(&self) -> WindowState {
        WindowState { always_on_top: self.always_on_top, fullscreen: self.fullscreen }
    }

    pub fn new(always_on_top: bool, background_color: String, fullscreen: bool) -> (r: Self)
        ensures
            r.always_on_top == always_on_top,
            r.background_color == background_color,
            r.fullscreen == fullscreen,
    {
        PresentationWindowConfig { always_on_top, background_color, fullscreen }
    }

    /// The properties a window gets from this configuration; the background
    /// colour plays no part.
    pub fn window_state(&self) -> (r: WindowState)
        ensures
            r == self.state_spec(),
    {
        WindowState { always_on_top: self.always_on_top, fullscreen: self.fullscreen }
    }
}

impl WindowSpec {
    /// `self` is the creation request for the presentation window under
    /// `config`, with a title bar exactly when `decorated`.
    pub open spec fn describes(&self, config: PresentationWindowConfig, decorated: bool) -> bool {
        &&& self.label@ == PRESENTATION_LABEL@
        &&& self.url@ == PRESENTATION_URL@
        &&& self.title@ == PRESENTATION_TITLE@
        &&& self.width == WINDOW_WIDTH
        &&& self.height == WINDOW_HEIGHT
        &&& self.resizable
        &&& self.decorations == decorated
        &&& self.always_on_top == config.always_on_top
        &&& self.fullscreen == config.fullscreen
    }
}

/// The check made before creating the window: it must not exist yet.
pub fn require_absent(present: bool) -> (r: Result<(), WindowError>)
    ensures
        r == (if present { Err(WindowError::WindowAlreadyOpen) } else { Ok::<(), WindowError>(()) }),
{
    if present {
        Err(WindowError::WindowAlreadyOpen)
    } else {
        Ok(())
    }
}

/// The check made before closing or updating the window: it must exist.
pub fn require_present(present: bool) -> (r: Result<(), WindowError>)
    ensures
        r == (if present { Ok::<(), WindowError>(()) } else { Err(WindowError::WindowNotFound) }),
{
    if present {
        Ok(())
    } else {
        Err(WindowError::WindowNotFound)
    }
}

/// Decides `open`: given whether the presentation window exists, either the
/// request to hand to the host or the error for the caller.
pub fn plan_open(present: bool, config: &PresentationWindowConfig, decorated: bool) -> (r: Result<
    WindowSpec,
    WindowError,
>)
    ensures
        present ==> r == Err::<WindowSpec, WindowError>(WindowError::WindowAlreadyOpen),
        !present ==> (r matches Ok(s) && s.describes(*config, decorated)),
{
    match require_absent(present) {
        Err(e) => Err(e),
        Ok(()) => Ok(
            WindowSpec {
                label: PRESENTATION_LABEL.to_owned(),
                url: PRESENTATION_URL.to_owned(),
                title: PRESENTATION_TITLE.to_owned(),
                width: WINDOW_WIDTH,
                height: WINDOW_HEIGHT,
                resizable: true,
                decorations: decorated,
                always_on_top: config.always_on_top,
                fullscreen: config.fullscreen,
            },
        ),
    }
}

/// Decides `update`: given whether the presentation window exists, either the
/// properties to apply (always-on-top first, then fullscreen) or the error.
pub fn plan_update(present: bool, config: &PresentationWindowConfig) -> (r: Result<
    WindowState,
    WindowError,
>)
    ensures
        r == (if present {
            Ok::<WindowState, WindowError>(config.state_spec())
        } else {
            Err(WindowError::WindowNotFound)
        }),
{
    match require_present(present) {
        Err(e) => Err(e),
        Ok(()) => Ok(config.window_state()),
    }
}

} // verus!
