//! The end-of-run summary line.

use vstd::prelude::*;

use crate::color::green_text;
use crate::numfmt::{dec_str, u64_to_string};
use crate::textutil::{ansi_reset_text, contains_text};
use crate::time_format::TimeFormat;

verus! {

/// A way of summarizing a whole run from its totals: processed lines,
/// matches, and total elapsed time in whole nanoseconds.
pub trait Summarizer<F: TimeFormat> {
    /// Whether this summarizer colors its output.
    spec fn spec_color(&self) -> bool;

    /// The exact summary produced when color is off.
    spec fn spec_summary(&self, total_lines: u64, total_matches: u64, total_ns: u64, fmt: F) -> Seq<
        char,
    >;

    /// Summarizes a run that processed `total_lines` lines with
    /// `total_matches` matches in `total_ns` nanoseconds.
    ///
    /// With color off the result is exactly `spec_summary`; with color on
    /// the color codes depend on the process environment, but the plain
    /// summary text still appears contiguously inside the result (unless it
    /// itself holds a reset sequence, which the coloring rewrites).
    fn summarize(&self, total_lines: u64, total_matches: u64, total_ns: u64, fmt: &F) -> (r: String)
        ensures
            !self.spec_color() ==> r@ == self.spec_summary(total_lines, total_matches, total_ns, *fmt),
            self.spec_color() && !contains_text(
                self.spec_summary(total_lines, total_matches, total_ns, *fmt),
                ansi_reset_text(),
            ) ==> contains_text(r@, self.spec_summary(total_lines, total_matches, total_ns, *fmt)),
    ;
}

/// Summarizes as "[Processed Lines: L, Matches: M, Total Time: T]".
pub struct SimpleSummarizer {
    pub color: bool,
}

/// Summarizes as "Processed L lines in T with M matches. Average time per
/// line: A", where the average is the total time divided by the number of
/// lines (a zero span when no line was processed).
pub struct DetailedSummarizer {
    pub color: bool,
}

impl<F: TimeFormat> Summarizer<F> for SimpleSummarizer {
    open spec fn spec_color(&self) -> bool {
        self.color
    }

    open spec fn spec_summary(&self, total_lines: u64, total_matches: u64, total_ns: u64, fmt: F) -> Seq<
        char,
    > {
        "[Processed Lines: "@ + dec_str(total_lines as nat) + ", Matches: "@ + dec_str(
            total_matches as nat,
        ) + ", Total Time: "@ + fmt.spec_format(total_ns) + "]"@
    }

    fn summarize(&self, total_lines: u64, total_matches: u64, total_ns: u64, fmt: &F) -> (r: String) {
        let time_str = fmt.format_duration(total_ns);
        let mut r = String::new();
        r.append("[Processed Lines: ");
        r.append(u64_to_string(total_lines).as_str());
        r.append(", Matches: ");
        r.append(u64_to_string(total_matches).as_str());
        r.append(", Total Time: ");
        r.append(time_str.as_str());
        r.append("]");
        proof {
            assert(r@ =~= self.spec_summary(total_lines, total_matches, total_ns, *fmt));
        }
        let r = if self.color {
            green_text(r.as_str())
        } else {
            r
        };
        r
    }
}

impl<F: TimeFormat> Summarizer<F> for DetailedSummarizer {
    open spec fn spec_color(&self) -> bool {
        self.color
    }

    open spec fn spec_summary(&self, total_lines: u64, total_matches: u64, total_ns: u64, fmt: F) -> Seq<
        char,
    > {
        "Processed "@ + dec_str(total_lines as nat) + " lines in "@ + fmt.spec_format(total_ns)
            + " with "@ + dec_str(total_matches as nat) + " matches. Average time per line: "@
            + fmt.spec_format(
            if total_lines > 0 {
                (total_ns / total_lines) as u64
            } else {
                0u64
            },
        )
    }

    fn summarize(&self, total_lines: u64, total_matches: u64, total_ns: u64, fmt: &F) -> (r: String) {
        let time_str = fmt.format_duration(total_ns);
        let avg_ns: u64 = if total_lines > 0 {
            total_ns / total_lines
        } else {
            0
        };
        let avg_str = fmt.format_duration(avg_ns);
        let mut r = String::new();
        r.append("Processed ");
        r.append(u64_to_string(total_lines).as_str());
        r.append(" lines in ");
        r.append(time_str.as_str());
        r.append(" with ");
        r.append(u64_to_string(total_matches).as_str());
        r.append(" matches. Average time per line: ");
        r.append(avg_str.as_str());
        proof {
            assert(r@ =~= self.spec_summary(total_lines, total_matches, total_ns, *fmt));
        }
        let r = if self.color {
            green_text(r.as_str())
        } else {
            r
        };
        r
    }
}

} // verus!
