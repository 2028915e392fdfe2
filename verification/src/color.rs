//! Coloring of output text, delegated to the `colored` crate.
//!
//! Whether color codes are actually emitted depends on the process
//! environment (terminal detection and the usual overriding variables), so
//! little can be claimed of the text these calls return. One thing holds
//! either way: the rendering only ever inserts around and into the text —
//! after each reset sequence found inside it — so a text that holds no
//! reset sequence comes through contiguously.

use vstd::prelude::*;

use colored::Colorize;

use crate::textutil::{ansi_reset_text, contains_text};

verus! {

/// Relies on colored::Colorize::green and the Display of its result: with
/// coloring off the text is returned unchanged; with coloring on it is
/// wrapped in color codes, with the style re-inserted after each reset
/// sequence inside the text. Either way a text free of the reset sequence
/// survives contiguously.
#[verifier::external_body]
pub(crate) fn green_text(s: &str) -> (r: String)
    ensures
        !contains_text(s@, ansi_reset_text()) ==> contains_text(r@, s@),
{
    s.green().to_string()
}

/// Relies on colored::Colorize::red, exactly as green_text above.
#[verifier::external_body]
pub(crate) fn red_text(s: &str) -> (r: String)
    ensures
        !contains_text(s@, ansi_reset_text()) ==> contains_text(r@, s@),
{
    s.red().to_string()
}

} // verus!
