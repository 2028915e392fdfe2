//! The options a run is configured with.

use vstd::prelude::*;

verus! {

/// Configuration for one timing run.
///
/// `color` turns on the colored annotation prefix and match highlighting,
/// `regex` restricts timing and output to lines matching the pattern, and
/// `plot` asks for chart files to be written when the run is finalized.
#[derive(Debug)]
pub struct TimelnOpt {
    pub color: bool,
    pub regex: Option<String>,
    pub plot: bool,
}

} // verus!
