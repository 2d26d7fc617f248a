use vstd::prelude::*;

verus! {

/// A failure while attaching to a target window: either the display
/// connection could not be opened, or no window in the hierarchy carried the
/// requested title. Both abort startup; nothing is retried.
#[derive(Debug)]
pub enum Error {
    /// The connection to the windowing system could not be opened.
    Connection(String),
    /// No window in the hierarchy matched the requested title.
    Resolution(String),
}

impl Error {
    /// The human-readable message the error carries.
    pub open spec fn text(&self) -> Seq<char> {
        match self {
            Error::Connection(m) => m@,
            Error::Resolution(m) => m@,
        }
    }

    /// Read access to the carried message, for end-of-run reporting.
    pub fn message(&self) -> (m: &String)
        ensures
            m@ == self.text(),
    {
        match self {
            Error::Connection(m) => m,
            Error::Resolution(m) => m,
        }
    }
}

} // verus!
