//! What can go wrong, and how far each failure reaches.

use vstd::prelude::*;

verus! {

/// A failure before the session starts. Either one ends the process.
#[derive(Clone, Copy, Debug, PartialEq, Eq, Structural)]
pub enum StartupError {
    /// There is no configuration file: the user is told, and the process
    /// exits in good order.
    ConfigMissing,
    /// The configuration file does not hold the credentials: the process
    /// aborts.
    ConfigMalformed,
}

impl StartupError {
    /// Whether the process aborts, rather than exits in good order.
    pub open spec fn aborts(self) -> bool {
        self == StartupError::ConfigMalformed
    }

    /// Tells whether the process aborts, rather than exits in good order.
    pub fn is_fatal(self) -> (fatal: bool)
        ensures
            fatal == self.aborts(),
    {
        match self {
            StartupError::ConfigMissing => false,
            StartupError::ConfigMalformed => true,
        }
    }
}

/// A failure that ends one turn and leaves the session running.
#[derive(Clone, Copy, Debug, PartialEq, Eq, Structural)]
pub enum TurnError {
    /// The request could not be built: the credentials do not make a header
    /// value.
    RequestBuild,
    /// The request or the stream failed on the way.
    Transport,
}

} // verus!
