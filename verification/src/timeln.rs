//! The processing loop and the exactly-once finalization protocol.

use vstd::prelude::*;

use std::io::Write;

use crate::annotator::{SimpleAnnotator, TimelnAnnotation};
use crate::argopt::TimelnOpt;
use crate::clock::{elapsed_ns_since, instant_now};
use crate::color::red_text;
use crate::error::TimelnError;
use crate::model::{
    event_lines, events_clocked, init_model, lemma_run_from_lines, line_qualifies, run_from,
    step_model, LineEvent, SnapModel, StateModel,
};
use crate::pattern::{regex_accepts, PatternFilter};
use crate::reader::{lemma_line_len_le, line_len, lines_of, ReadData};
use crate::summarizer::{SimpleSummarizer, Summarizer};
use crate::textutil::{ansi_reset_text, contains_text, replace_all, trim_spec, trim_text};
use crate::time_format::SecondsFormat;

verus! {

/// The timing of one qualifying line, in whole nanoseconds: the delta since
/// the previous qualifying line and the elapsed time since the start of the
/// run.
#[derive(Debug, Clone, Copy, PartialEq, Eq, Structural)]
pub struct TimeSnapshot {
    pub delta: u64,
    pub elapsed: u64,
}

impl TimeSnapshot {
    /// The model value of this snapshot.
    pub open spec fn model(&self) -> SnapModel {
        SnapModel { delta: self.delta as int, elapsed: self.elapsed as int }
    }

    /// A snapshot with both spans zero.
    pub fn default() -> (r: Self)
        ensures
            r.delta == 0 && r.elapsed == 0,
    {
        TimeSnapshot { delta: 0, elapsed: 0 }
    }
}

/// The model view of a queue of snapshots, oldest first.
pub open spec fn snaps_model(snaps: Seq<TimeSnapshot>) -> Seq<SnapModel> {
    snaps.map_values(|s: TimeSnapshot| s.model())
}

/// The exact uncolored annotated line for `line` at elapsed time `now` with
/// delta `delta`: what the loop emits when color is off.
pub open spec fn annotation_text(line: Seq<char>, now: u64, delta: u64) -> Seq<char> {
    (SimpleAnnotator { color: false, time_format: SecondsFormat }).spec_plain(line, now, delta)
}

/// The exact uncolored summary line for the final counters and total time:
/// what finalization emits when color is off.
pub open spec fn summary_text(total_lines: u64, total_matches: u64, total_ns: u64) -> Seq<char> {
    (SimpleSummarizer { color: false }).spec_summary(
        total_lines,
        total_matches,
        total_ns,
        SecondsFormat,
    )
}

/// Relies on std::io::Stdout: writes the line and a newline to standard
/// output and flushes at once, so an interrupt loses no line already
/// emitted.
#[verifier::external_body]
fn print_line(s: &str) {
    let mut out = std::io::stdout();
    let _ = writeln!(out, "{}", s);
    let _ = out.flush();
}

/// The state of one timing run: the configuration, the counters, the queue
/// of published snapshots, and the one-shot finalization guard.
pub struct TimelnContext {
    color: bool,
    plot: bool,
    filter: Option<PatternFilter>,
    start: std::time::Instant,
    total_lines: u64,
    total_matches: u64,
    last_event_ns: u64,
    snapshots: Vec<TimeSnapshot>,
    finalized: bool,
}

impl TimelnContext {
    /// The pattern of the active filter, when one is set.
    pub closed spec fn spec_filter(&self) -> Option<Seq<char>> {
        match self.filter {
            Option::None => Option::None,
            Option::Some(f) => Option::Some(f.spec_pattern()),
        }
    }

    /// Whether annotations and the summary are colored.
    pub closed spec fn spec_color(&self) -> bool {
        self.color
    }

    /// Whether finalization is asked to plot the snapshots.
    pub closed spec fn spec_plot(&self) -> bool {
        self.plot
    }

    /// Whether the finalization guard has been taken.
    pub closed spec fn spec_finalized(&self) -> bool {
        self.finalized
    }

    /// The model state of this run.
    pub closed spec fn model(&self) -> StateModel {
        StateModel {
            total_lines: self.total_lines as int,
            total_matches: self.total_matches as int,
            last_event: self.last_event_ns as int,
            snapshots: snaps_model(self.snapshots@),
        }
    }

    /// Sets up a run from `opt`: counters at zero, no snapshot, the guard
    /// clear, and the filter compiled from the pattern when one is given.
    /// Fails exactly when the engine rejects the pattern, before any input
    /// is read.
    pub fn new(opt: TimelnOpt) -> (r: Result<TimelnContext, TimelnError>)
        ensures
            r is Ok <==> (opt.regex is None || regex_accepts(opt.regex.unwrap()@)),
            r matches Ok(c) ==> c.model() == init_model(),
            r matches Ok(c) ==> c.spec_finalized() == false,
            r matches Ok(c) ==> c.spec_color() == opt.color && c.spec_plot() == opt.plot,
            r matches Ok(c) ==> c.spec_filter() == (match opt.regex {
                Option::None => Option::<Seq<char>>::None,
                Option::Some(p) => Option::Some(p@),
            }),
            r matches Err(e) ==> e is Regex,
    {
        let filter = match opt.regex {
            Option::None => Option::None,
            Option::Some(p) => {
                match PatternFilter::new(p.as_str()) {
                    Ok(f) => Option::Some(f),
                    Err(e) => {
                        return Err(e);
                    },
                }
            },
        };
        let c = TimelnContext {
            color: opt.color,
            plot: opt.plot,
            filter,
            start: instant_now(),
            total_lines: 0,
            total_matches: 0,
            last_event_ns: 0,
            snapshots: Vec::new(),
            finalized: false,
        };
        proof {
            assert(c.model().snapshots =~= init_model().snapshots);
        }
        Ok(c)
    }

    /// The number of lines processed so far.
    pub fn total_lines(&self) -> (r: u64)
        ensures
            r == self.model().total_lines,
    {
        self.total_lines
    }

    /// The number of matching lines seen so far.
    pub fn total_matches(&self) -> (r: u64)
        ensures
            r == self.model().total_matches,
    {
        self.total_matches
    }

    /// Whether the finalization guard has been taken.
    pub fn finalized(&self) -> (r: bool)
        ensures
            r == self.spec_finalized(),
    {
        self.finalized
    }

    /// Whether finalization is asked to plot the snapshots.
    pub fn plot_enabled(&self) -> (r: bool)
        ensures
            r == self.spec_plot(),
    {
        self.plot
    }

    /// A reading of the monotonic clock: the nanoseconds elapsed since this
    /// run started. Nothing is claimed of the value; the processing methods
    /// state what holds of the state whatever it is.
    pub fn elapsed_ns(&self) -> u64 {
        elapsed_ns_since(&self.start)
    }

    /// Processes one raw input line, read at clock value `now_ns`.
    ///
    /// Every line advances the state by exactly one model step: the line
    /// counter always grows. A qualifying line — every line without a
    /// filter, a matching line with one — also bumps the match counter when
    /// a filter is set, publishes one snapshot, and yields the annotated
    /// line to emit; with color off that text is exactly the annotation of
    /// the trimmed line. A non-qualifying line yields nothing further.
    pub fn process_line(&mut self, line: &str, now_ns: u64) -> (r: Option<String>)
        requires
            old(self).spec_finalized() == false,
            old(self).model().total_lines < u64::MAX,
            old(self).model().total_matches < u64::MAX,
            old(self).model().last_event <= now_ns,
        ensures
            final(self).model() == step_model(
                old(self).spec_filter(),
                old(self).model(),
                LineEvent { line: line@, now: now_ns as int },
            ),
            final(self).spec_finalized() == false,
            final(self).spec_filter() == old(self).spec_filter(),
            final(self).spec_color() == old(self).spec_color(),
            final(self).spec_plot() == old(self).spec_plot(),
            r is Some <==> line_qualifies(old(self).spec_filter(), line@),
            r matches Some(out) ==> !old(self).spec_color() ==> out@ == annotation_text(
                trim_spec(line@),
                now_ns,
                (now_ns - old(self).model().last_event) as u64,
            ),
    {
        self.total_lines = self.total_lines + 1;
        let qualifies: bool = match &self.filter {
            Option::None => true,
            Option::Some(f) => f.is_match(line),
        };
        if !qualifies {
            return Option::None;
        }
        if self.filter.is_some() {
            self.total_matches = self.total_matches + 1;
        }
        let delta: u64 = now_ns - self.last_event_ns;
        let elapsed: u64 = now_ns;
        self.last_event_ns = now_ns;
        let ghost snaps0 = self.snapshots@;
        let snap = TimeSnapshot { delta, elapsed };
        self.snapshots.push(snap);
        proof {
            assert(snaps_model(snaps0.push(snap)) =~= snaps_model(snaps0).push(snap.model()));
        }
        let trimmed = trim_text(line);
        let display = if self.color {
            match &self.filter {
                Option::Some(f) => {
                    match f.find_text(line) {
                        Option::Some(m) => {
                            let colored_match = red_text(m.as_str());
                            replace_all(trimmed.as_str(), m.as_str(), colored_match.as_str())
                        },
                        Option::None => trimmed,
                    }
                },
                Option::None => trimmed,
            }
        } else {
            trimmed
        };
        let annotator = SimpleAnnotator { color: self.color, time_format: SecondsFormat };
        let out = annotator.format_line(&display, elapsed, delta);
        Option::Some(out)
    }

    /// Reads the clock and processes one raw input line at that instant,
    /// clamped so that time never runs backwards within the run. This is
    /// the per-event entry for a driver that interleaves reading with an
    /// interrupt path; it succeeds exactly when the line counter has room,
    /// and fails — leaving the state untouched — only when it is exhausted.
    /// With color off, the text it yields for a qualifying line is exactly
    /// the annotation of the trimmed line at the event's clock value.
    pub fn process_now(&mut self, line: &str) -> (r: Result<Option<String>, TimelnError>)
        requires
            old(self).spec_finalized() == false,
            old(self).model().total_matches <= old(self).model().total_lines,
        ensures
            r is Ok <==> old(self).model().total_lines < u64::MAX,
            final(self).spec_finalized() == false,
            final(self).spec_filter() == old(self).spec_filter(),
            final(self).spec_color() == old(self).spec_color(),
            final(self).spec_plot() == old(self).spec_plot(),
            final(self).model().total_matches <= final(self).model().total_lines,
            r matches Ok(out) ==> (out is Some <==> line_qualifies(
                old(self).spec_filter(),
                line@,
            )),
            r matches Ok(out) ==> exists|ev: LineEvent|
                ev.line == line@ && ev.now >= old(self).model().last_event && final(self).model()
                    == #[trigger] step_model(old(self).spec_filter(), old(self).model(), ev) && (
                out matches Some(text) ==> !old(self).spec_color() ==> text@ == annotation_text(
                    trim_spec(line@),
                    ev.now as u64,
                    (ev.now - old(self).model().last_event) as u64,
                )),
            r matches Err(e) ==> *final(self) == *old(self) && e is SendError,
    {
        if self.total_lines == u64::MAX {
            return Err(TimelnError::SendError("the line counter is exhausted".to_owned()));
        }
        let now = self.elapsed_ns();
        let now = if now < self.last_event_ns {
            self.last_event_ns
        } else {
            now
        };
        let out = self.process_line(line, now);
        proof {
            let ev = LineEvent { line: line@, now: now as int };
            assert(self.model() == step_model(old(self).spec_filter(), old(self).model(), ev));
            assert(ev.now as u64 == now);
        }
        Ok(out)
    }

    /// Runs the processing loop: reads lines from `reader` until end of
    /// stream, processes each at the clock value of its arrival, and emits
    /// each qualifying line's annotation to standard output. The state
    /// evolves by exactly one model step per line read — and when the
    /// reader's text is known, by exactly its lines, which are then fully
    /// consumed. The finalization guard is untouched. A read fault or an
    /// exhausted line counter aborts the loop with the error, without
    /// finalizing.
    pub fn run<R: ReadData>(&mut self, reader: &mut R) -> (r: Result<(), TimelnError>)
        requires
            old(self).spec_finalized() == false,
            old(self).model().total_matches <= old(self).model().total_lines,
        ensures
            final(self).spec_finalized() == false,
            final(self).spec_filter() == old(self).spec_filter(),
            final(self).spec_color() == old(self).spec_color(),
            final(self).spec_plot() == old(self).spec_plot(),
            final(self).model().total_matches <= final(self).model().total_lines,
            exists|evs: Seq<LineEvent>|
                final(self).model() == #[trigger] run_from(
                    old(self).spec_filter(),
                    old(self).model(),
                    evs,
                ) && events_clocked(old(self).spec_filter(), old(self).model(), evs),
            r matches Err(e) ==> e is Io || e is SendError,
            old(reader).spec_remaining() matches Some(rem) ==> (r is Ok <==> old(
                self,
            ).model().total_lines + lines_of(rem).len() <= u64::MAX),
            old(reader).spec_remaining() matches Some(rem) ==> r matches Err(e) ==> e
                is SendError,
            old(reader).spec_remaining() matches Some(rem) ==> r is Ok ==> ({
                &&& final(reader).spec_remaining() == Some(Seq::<char>::empty())
                &&& exists|evs: Seq<LineEvent>|
                    final(self).model() == #[trigger] run_from(
                        old(self).spec_filter(),
                        old(self).model(),
                        evs,
                    ) && events_clocked(old(self).spec_filter(), old(self).model(), evs)
                        && event_lines(evs) == lines_of(rem)
            }),
    {
        let ghost filter0 = self.spec_filter();
        let ghost m0 = self.model();
        let ghost color0 = self.spec_color();
        let ghost plot0 = self.spec_plot();
        let ghost srem0 = reader.spec_remaining();
        let ghost mut evs: Seq<LineEvent> = seq![];
        loop
            invariant_except_break
                filter0 == old(self).spec_filter(),
                color0 == old(self).spec_color(),
                plot0 == old(self).spec_plot(),
                m0 == old(self).model(),
                srem0 == old(reader).spec_remaining(),
                self.spec_finalized() == false,
                self.spec_filter() == filter0,
                self.spec_color() == color0,
                self.spec_plot() == plot0,
                self.model().total_matches <= self.model().total_lines,
                self.model() == run_from(filter0, m0, evs),
                events_clocked(filter0, m0, evs),
                srem0 matches Some(rem) ==> reader.spec_remaining() is Some,
                srem0 matches Some(rem) ==> lines_of(rem) == event_lines(evs) + lines_of(
                    reader.spec_remaining().unwrap(),
                ),
            ensures
                filter0 == old(self).spec_filter(),
                srem0 == old(reader).spec_remaining(),
                self.spec_finalized() == false,
                self.spec_filter() == filter0,
                self.spec_color() == color0,
                self.spec_plot() == plot0,
                self.model().total_matches <= self.model().total_lines,
                self.model() == run_from(filter0, m0, evs),
                events_clocked(filter0, m0, evs),
                srem0 matches Some(rem) ==> reader.spec_remaining() == Some(Seq::<char>::empty())
                    && lines_of(rem) == event_lines(evs),
            decreases u64::MAX - self.total_lines,
        {
            let mut buffer = String::new();
            let ghost left = if srem0 is Some {
                reader.spec_remaining().unwrap()
            } else {
                Seq::<char>::empty()
            };
            let n = match reader.read_line(&mut buffer) {
                Ok(n) => n,
                Err(e) => {
                    proof {
                        if srem0 is Some {
                            assert(false);
                        }
                    }
                    return Err(e);
                },
            };
            if n == 0 {
                proof {
                    if srem0 is Some {
                        lemma_line_len_le(left);
                        assert(left.len() == 0);
                        assert(reader.spec_remaining().unwrap() =~= Seq::<char>::empty());
                        assert(event_lines(evs) + lines_of(Seq::<char>::empty()) =~= event_lines(
                            evs,
                        ));
                    }
                }
                break;
            }
            if self.total_lines == u64::MAX {
                proof {
                    lemma_run_from_lines(filter0, m0, evs);
                    if srem0 is Some {
                        lemma_line_len_le(left);
                        assert(left.len() > 0);
                        assert(lines_of(left).len() >= 1);
                        assert(lines_of(srem0.unwrap()).len() == evs.len() + lines_of(left).len());
                    }
                }
                return Err(TimelnError::SendError("the line counter is exhausted".to_owned()));
            }
            let now = self.elapsed_ns();
            let now = if now < self.last_event_ns {
                self.last_event_ns
            } else {
                now
            };
            let ghost ev = LineEvent { line: buffer@, now: now as int };
            let ghost pre = self.model();
            let out = self.process_line(buffer.as_str(), now);
            proof {
                assert(evs.push(ev).drop_last() =~= evs);
                assert(ev.now >= pre.last_event);
                if srem0 is Some {
                    let k = line_len(left) as int;
                    lemma_line_len_le(left);
                    assert(left.len() > 0);
                    assert(buffer@ =~= left.take(k));
                    assert(lines_of(left) == seq![left.take(k)] + lines_of(left.skip(k)));
                    assert(event_lines(evs.push(ev)) =~= event_lines(evs) + seq![ev.line]);
                    assert(event_lines(evs) + lines_of(left) =~= (event_lines(evs) + seq![
                        left.take(k),
                    ]) + lines_of(left.skip(k)));
                }
                evs = evs.push(ev);
            }
            if let Option::Some(s) = out {
                print_line(s.as_str());
            }
        }
        proof {
            lemma_run_from_lines(filter0, m0, evs);
        }
        Ok(())
    }

    /// Takes the one-shot finalization guard. The first take — whichever
    /// path performs it, the normal end-of-stream path or the interrupt
    /// handler — receives the summary line and every published snapshot,
    /// oldest first, and empties the queue; every later take receives
    /// nothing and changes nothing. `now_ns` is the total elapsed time the
    /// summary reports.
    pub fn try_finalize(&mut self, now_ns: u64) -> (r: Option<(String, Vec<TimeSnapshot>)>)
        ensures
            r is Some <==> old(self).spec_finalized() == false,
            final(self).spec_finalized() == true,
            old(self).spec_finalized() ==> *final(self) == *old(self),
            final(self).model().total_lines == old(self).model().total_lines,
            final(self).model().total_matches == old(self).model().total_matches,
            final(self).model().last_event == old(self).model().last_event,
            final(self).spec_filter() == old(self).spec_filter(),
            final(self).spec_color() == old(self).spec_color(),
            final(self).spec_plot() == old(self).spec_plot(),
            r matches Some(p) ==> snaps_model(p.1@) == old(self).model().snapshots,
            r matches Some(p) ==> final(self).model().snapshots == Seq::<SnapModel>::empty(),
            r matches Some(p) ==> !old(self).spec_color() ==> p.0@ == summary_text(
                old(self).model().total_lines as u64,
                old(self).model().total_matches as u64,
                now_ns,
            ),
            r matches Some(p) ==> old(self).spec_color() && !contains_text(
                summary_text(
                    old(self).model().total_lines as u64,
                    old(self).model().total_matches as u64,
                    now_ns,
                ),
                ansi_reset_text(),
            ) ==> contains_text(
                p.0@,
                summary_text(
                    old(self).model().total_lines as u64,
                    old(self).model().total_matches as u64,
                    now_ns,
                ),
            ),
    {
        if self.finalized {
            return Option::None;
        }
        self.finalized = true;
        let summarizer = SimpleSummarizer { color: self.color };
        let summary = summarizer.summarize(
            self.total_lines,
            self.total_matches,
            now_ns,
            &SecondsFormat,
        );
        proof {
            assert(summarizer.spec_summary(self.total_lines, self.total_matches, now_ns, SecondsFormat)
                == summary_text(self.total_lines, self.total_matches, now_ns));
        }
        let drained = self.snapshots.split_off(0);
        proof {
            assert(self.snapshots@ =~= Seq::<TimeSnapshot>::empty());
            assert(snaps_model(self.snapshots@) =~= Seq::<SnapModel>::empty());
            assert(drained@ =~= old(self).snapshots@);
        }
        Option::Some((summary, drained))
    }
}

} // verus!
