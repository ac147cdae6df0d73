//! Controller for the single secondary "presentation" window of a desktop
//! application.
//!
//! The host window manager owns the windows; this library decides, for each of
//! the four commands (open, close, update, query), what is asked of the host
//! and what the caller gets back, and models the host's registry of named
//! windows so that the commands' effects can be stated and proved.

pub mod config;
pub mod error;
pub mod laws;
pub mod registry;

pub use config::{
    plan_open, plan_update, require_absent, require_present, PresentationWindowConfig,
    WindowSpec, WindowState, PRESENTATION_LABEL, PRESENTATION_TITLE, PRESENTATION_URL,
    WINDOW_HEIGHT, WINDOW_WIDTH,
};
pub use error::WindowError;
pub use laws::Call;
pub use registry::{NamedWindow, WindowRegistry};
