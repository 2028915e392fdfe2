//! Annotation of a single line with its elapsed time and its delta.

use vstd::prelude::*;

use crate::color::green_text;
use crate::time_format::TimeFormat;

verus! {

/// A way of annotating a line of text with the elapsed time at which it
/// arrived and the delta since the previous event, both in whole nanoseconds.
pub trait TimelnAnnotation {
    /// Whether this annotator colors its prefix.
    spec fn spec_color(&self) -> bool;

    /// The exact annotated line produced when color is off.
    spec fn spec_plain(&self, line: Seq<char>, now: u64, delta: u64) -> Seq<char>;

    /// Annotates `line` with the elapsed time `now` and the delta `delta`.
    ///
    /// Without color the result is exactly `spec_plain`; with color the
    /// prefix text depends on the process environment, but the result still
    /// ends in a space followed by the unchanged line.
    fn format_line(&self, line: &String, now: u64, delta: u64) -> (r: String)
        ensures
            !self.spec_color() ==> r@ == self.spec_plain(line@, now, delta),
            r@.len() > line@.len(),
            r@.subrange(r@.len() - line@.len() - 1, r@.len() as int) == " "@ + line@,
    ;
}

/// Annotates lines as "[time: <elapsed>, delta: <delta>] <line>".
pub struct SimpleAnnotator<F: TimeFormat> {
    pub color: bool,
    pub time_format: F,
}

/// Annotates lines as "[T: <elapsed>, D: <delta>] <line>", with the capital
/// Greek tau and delta in place of the words.
pub struct UnicodeAnnotator<F: TimeFormat> {
    pub color: bool,
    pub time_format: F,
}

impl<F: TimeFormat> TimelnAnnotation for SimpleAnnotator<F> {
    open spec fn spec_color(&self) -> bool {
        self.color
    }

    open spec fn spec_plain(&self, line: Seq<char>, now: u64, delta: u64) -> Seq<char> {
        "[time: "@ + self.time_format.spec_format(now) + ", delta: "@
            + self.time_format.spec_format(delta) + "]"@ + " "@ + line
    }

    fn format_line(&self, line: &String, now: u64, delta: u64) -> (r: String) {
        let time_str = self.time_format.format_duration(now);
        let delta_str = self.time_format.format_duration(delta);
        let mut prefix = String::new();
        prefix.append("[time: ");
        prefix.append(time_str.as_str());
        prefix.append(", delta: ");
        prefix.append(delta_str.as_str());
        prefix.append("]");
        let mut r = if self.color {
            green_text(prefix.as_str())
        } else {
            prefix
        };
        r.append(" ");
        r.append(line.as_str());
        proof {
            reveal_strlit(" ");
            if !self.color {
                assert(r@ =~= self.spec_plain(line@, now, delta));
            }
            assert(r@.subrange(r@.len() - line@.len() - 1, r@.len() as int) =~= " "@ + line@);
        }
        r
    }
}

impl<F: TimeFormat> TimelnAnnotation for UnicodeAnnotator<F> {
    open spec fn spec_color(&self) -> bool {
        self.color
    }

    open spec fn spec_plain(&self, line: Seq<char>, now: u64, delta: u64) -> Seq<char> {
        "[\u{03a4}: "@ + self.time_format.spec_format(now) + ", \u{0394}: "@
            + self.time_format.spec_format(delta) + "]"@ + " "@ + line
    }

    fn format_line(&self, line: &String, now: u64, delta: u64) -> (r: String) {
        let time_str = self.time_format.format_duration(now);
        let delta_str = self.time_format.format_duration(delta);
        let mut prefix = String::new();
        prefix.append("[\u{03a4}: ");
        prefix.append(time_str.as_str());
        prefix.append(", \u{0394}: ");
        prefix.append(delta_str.as_str());
        prefix.append("]");
        let mut r = if self.color {
            green_text(prefix.as_str())
        } else {
            prefix
        };
        r.append(" ");
        r.append(line.as_str());
        proof {
            reveal_strlit(" ");
            if !self.color {
                assert(r@ =~= self.spec_plain(line@, now, delta));
            }
            assert(r@.subrange(r@.len() - line@.len() - 1, r@.len() as int) =~= " "@ + line@);
        }
        r
    }
}

} // verus!
