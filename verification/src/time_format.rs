//! Rendering of time spans, measured in whole nanoseconds, as text.
//!
//! The two-decimal formats round the exact nanosecond count, half a
//! hundredth rounding up. A pipeline that first converts to floating point
//! and then rounds its nearest approximation can land one hundredth lower
//! on exact half-hundredth ticks; this library defines the rendering on
//! integers, keeping floating point out of the verified code.

use vstd::prelude::*;

use crate::numfmt::{dec_str, dec_str2, u64_to_string, u64_to_string2};

verus! {

/// `ns` scaled down by `tick` nanoseconds per displayed hundredth, rounded
/// to the nearest hundredth; exactly half a tick rounds up, deliberately.
pub open spec fn centi_of(ns: nat, tick: nat) -> nat
    recommends
        tick >= 2,
{
    ns / tick + if ns % tick >= tick / 2 {
        1nat
    } else {
        0nat
    }
}

/// A count of hundredths rendered as "<whole>.<two digits>".
pub open spec fn centi_text(centi: nat) -> Seq<char> {
    dec_str(centi / 100) + "."@ + dec_str2(centi % 100)
}

/// A way of rendering a time span, given in whole nanoseconds, as text.
pub trait TimeFormat {
    /// The exact text this format produces for a span of `ns` nanoseconds.
    spec fn spec_format(&self, ns: u64) -> Seq<char>;

    /// Renders a span of `ns` nanoseconds as text.
    fn format_duration(&self, ns: u64) -> (r: String)
        ensures
            r@ == self.spec_format(ns),
    ;
}

/// Renders a time span as seconds with two decimals, for example "5.50 s".
#[derive(Debug, Clone, Copy)]
pub struct SecondsFormat;

/// Renders a time span as milliseconds with two decimals, for example
/// "5500.00 ms".
#[derive(Debug, Clone, Copy)]
pub struct MillisecondsFormat;

/// Renders a time span as whole minutes and leftover whole seconds, for
/// example "2m 5s".
#[derive(Debug, Clone, Copy)]
pub struct MinutesSecondsFormat;

/// Renders the rounded hundredths of a unit that is `tick * 100` nanoseconds
/// long as "<whole>.<two digits>".
fn centi_string(ns: u64, tick: u64) -> (r: String)
    requires
        100 <= tick <= 1_000_000_000,
    ensures
        r@ == centi_text(centi_of(ns as nat, tick as nat)),
{
    let q: u64 = ns / tick;
    let rem: u64 = ns % tick;
    assert(q <= u64::MAX / 100) by (nonlinear_arith)
        requires
            q == ns / tick,
            100 <= tick,
            ns <= u64::MAX,
    ;
    let centi: u64 = if rem >= tick / 2 {
        q + 1
    } else {
        q
    };
    assert(centi as nat == centi_of(ns as nat, tick as nat));
    let whole = u64_to_string(centi / 100);
    let frac = u64_to_string2(centi % 100);
    let r = whole.concat(".").concat(frac.as_str());
    proof {
        assert(r@ =~= centi_text(centi as nat));
    }
    r
}

impl TimeFormat for SecondsFormat {
    open spec fn spec_format(&self, ns: u64) -> Seq<char> {
        centi_text(centi_of(ns as nat, 10_000_000)) + " s"@
    }

    fn format_duration(&self, ns: u64) -> (r: String) {
        let r = centi_string(ns, 10_000_000).concat(" s");
        proof {
            assert(r@ =~= self.spec_format(ns));
        }
        r
    }
}

impl TimeFormat for MillisecondsFormat {
    open spec fn spec_format(&self, ns: u64) -> Seq<char> {
        centi_text(centi_of(ns as nat, 10_000)) + " ms"@
    }

    fn format_duration(&self, ns: u64) -> (r: String) {
        let r = centi_string(ns, 10_000).concat(" ms");
        proof {
            assert(r@ =~= self.spec_format(ns));
        }
        r
    }
}

impl TimeFormat for MinutesSecondsFormat {
    open spec fn spec_format(&self, ns: u64) -> Seq<char> {
        dec_str((ns as nat / 1_000_000_000) / 60) + "m "@ + dec_str((ns as nat / 1_000_000_000)
            % 60) + "s"@
    }

    fn format_duration(&self, ns: u64) -> (r: String) {
        let secs: u64 = ns / 1_000_000_000;
        let minutes = u64_to_string(secs / 60);
        let seconds = u64_to_string(secs % 60);
        let r = minutes.concat("m ").concat(seconds.as_str()).concat("s");
        proof {
            assert(r@ =~= self.spec_format(ns));
        }
        r
    }
}

} // verus!
