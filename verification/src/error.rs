//! The closed set of fatal conditions the library reports.

use vstd::prelude::*;

verus! {

/// The kinds of failure that can occur while timing a stream.
///
/// Every variant carries a human-readable description of the underlying fault.
#[derive(Debug)]
pub enum TimelnError {
    /// A fault while reading the input stream.
    Io(String),
    /// The filter pattern was rejected at startup, before any input was read.
    Regex(String),
    /// The snapshot transport could accept no further entry.
    SendError(String),
    /// Shared state was left unusable by a fault in another holder.
    MutexPoisonedError(String),
}

impl TimelnError {
    /// The description carried by the error.
    pub fn message(&self) -> (r: &String)
        ensures
            r@ == self.spec_message(),
    {
        match self {
            TimelnError::Io(m) => m,
            TimelnError::Regex(m) => m,
            TimelnError::SendError(m) => m,
            TimelnError::MutexPoisonedError(m) => m,
        }
    }

    /// The description carried by the error.
    pub open spec fn spec_message(&self) -> Seq<char> {
        match self {
            TimelnError::Io(m) => m@,
            TimelnError::Regex(m) => m@,
            TimelnError::SendError(m) => m@,
            TimelnError::MutexPoisonedError(m) => m@,
        }
    }
}

} // verus!
