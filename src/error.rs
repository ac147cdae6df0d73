use vstd::prelude::*;

verus! {

/// Why a window command failed.
#[derive(Debug)]
pub enum WindowError {
    /// `open` found a presentation window already in place.
    WindowAlreadyOpen,
    /// `close` or `update` found no presentation window.
    WindowNotFound,
    /// The host window manager rejected a request; its own message is kept.
    PlatformError(String),
}

impl WindowError {
    /// The text the caller receives for this error.
    pub open spec fn message_spec(&self) -> Seq<char> {
        match self {
            WindowError::WindowAlreadyOpen => "Presentation window already open"@,
            WindowError::WindowNotFound => "Presentation window not found"@,
            WindowError::PlatformError(m) => m@,
        }
    }

    /// Renders the error as the plain string handed back over the command bridge.
    pub fn message(&self) -> (r: String)
        ensures
            r@ == self.message_spec(),
    {
        match self {
            WindowError::WindowAlreadyOpen => "Presentation window already open".to_owned(),
            WindowError::WindowNotFound => "Presentation window not found".to_owned(),
            WindowError::PlatformError(m) => m.clone(),
        }
    }
}

} // verus!
