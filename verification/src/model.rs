//! The mathematical model of a timing run: its state, one step per input
//! line, and the laws that hold of every run.

use vstd::prelude::*;

use crate::pattern::regex_match;

verus! {

/// One input line together with the clock reading taken for it, in
/// nanoseconds since the start of the run.
pub struct LineEvent {
    pub line: Seq<char>,
    pub now: int,
}

/// One qualifying line's timing: the delta since the previous qualifying
/// line and the elapsed time since the start of the run.
pub struct SnapModel {
    pub delta: int,
    pub elapsed: int,
}

/// The observable state of a run: the two counters, the time of the last
/// qualifying event, and every snapshot published so far, oldest first.
pub struct StateModel {
    pub total_lines: int,
    pub total_matches: int,
    pub last_event: int,
    pub snapshots: Seq<SnapModel>,
}

/// The state at the start of a run.
pub open spec fn init_model() -> StateModel {
    StateModel { total_lines: 0, total_matches: 0, last_event: 0, snapshots: seq![] }
}

/// Whether a line is timed and annotated: every line when no filter is set,
/// only lines the pattern matches otherwise.
pub open spec fn line_qualifies(filter: Option<Seq<char>>, line: Seq<char>) -> bool {
    match filter {
        Option::None => true,
        Option::Some(p) => regex_match(p, line),
    }
}

/// The state after processing one more line: the line count always grows by
/// one; a qualifying line also bumps the match count (when a filter is set),
/// moves the last-event time to `ev.now`, and publishes one snapshot whose
/// delta spans from the previous qualifying event.
pub open spec fn step_model(filter: Option<Seq<char>>, s: StateModel, ev: LineEvent) -> StateModel {
    if line_qualifies(filter, ev.line) {
        StateModel {
            total_lines: s.total_lines + 1,
            total_matches: s.total_matches + if filter is Some {
                1int
            } else {
                0int
            },
            last_event: ev.now,
            snapshots: s.snapshots.push(
                SnapModel { delta: ev.now - s.last_event, elapsed: ev.now },
            ),
        }
    } else {
        StateModel {
            total_lines: s.total_lines + 1,
            total_matches: s.total_matches,
            last_event: s.last_event,
            snapshots: s.snapshots,
        }
    }
}

/// The state after processing the lines of `evs` in order, starting from
/// `s0`.
pub open spec fn run_from(
    filter: Option<Seq<char>>,
    s0: StateModel,
    evs: Seq<LineEvent>,
) -> StateModel
    decreases evs.len(),
{
    if evs.len() == 0 {
        s0
    } else {
        step_model(filter, run_from(filter, s0, evs.drop_last()), evs.last())
    }
}

/// The state after a whole run over the lines of `evs`.
pub open spec fn run_state(filter: Option<Seq<char>>, evs: Seq<LineEvent>) -> StateModel {
    run_from(filter, init_model(), evs)
}

/// The raw line texts of the events, in order.
pub open spec fn event_lines(evs: Seq<LineEvent>) -> Seq<Seq<char>> {
    evs.map_values(|ev: LineEvent| ev.line)
}

/// How many of the events' lines the pattern matches.
pub open spec fn count_matching(pattern: Seq<char>, evs: Seq<LineEvent>) -> int
    decreases evs.len(),
{
    if evs.len() == 0 {
        0
    } else {
        count_matching(pattern, evs.drop_last()) + if regex_match(pattern, evs.last().line) {
            1int
        } else {
            0int
        }
    }
}

/// Whether each event's clock reading is at least the last-event time the
/// run starting at `s0` had reached before it: time, as the run uses it,
/// never runs backwards.
pub open spec fn events_clocked(
    filter: Option<Seq<char>>,
    s0: StateModel,
    evs: Seq<LineEvent>,
) -> bool
    decreases evs.len(),
{
    if evs.len() == 0 {
        true
    } else {
        events_clocked(filter, s0, evs.drop_last()) && evs.last().now >= run_from(
            filter,
            s0,
            evs.drop_last(),
        ).last_event
    }
}

/// A run counts exactly one line per event, whatever the filter.
pub proof fn lemma_run_from_lines(filter: Option<Seq<char>>, s0: StateModel, evs: Seq<LineEvent>)
    ensures
        run_from(filter, s0, evs).total_lines == s0.total_lines + evs.len(),
    decreases evs.len(),
{
    if evs.len() > 0 {
        lemma_run_from_lines(filter, s0, evs.drop_last());
    }
}

/// The sum of the deltas of `snaps`.
pub open spec fn sum_deltas(snaps: Seq<SnapModel>) -> int
    decreases snaps.len(),
{
    if snaps.len() == 0 {
        0
    } else {
        sum_deltas(snaps.drop_last()) + snaps.last().delta
    }
}

/// Law: with no filter, a run over any `evs` counts every line, counts no
/// match, and publishes exactly one snapshot per line.
pub proof fn lemma_no_filter_counts(evs: Seq<LineEvent>)
    ensures
        run_state(Option::<Seq<char>>::None, evs).total_lines == evs.len(),
        run_state(Option::<Seq<char>>::None, evs).total_matches == 0,
        run_state(Option::<Seq<char>>::None, evs).snapshots.len() == evs.len(),
    decreases evs.len(),
{
    if evs.len() > 0 {
        lemma_no_filter_counts(evs.drop_last());
    }
}

/// Law: with a filter, a run over any `evs` counts every line, counts
/// exactly the lines the pattern matches, publishes one snapshot per match,
/// and the match count never exceeds the line count.
pub proof fn lemma_filter_counts(pattern: Seq<char>, evs: Seq<LineEvent>)
    ensures
        run_state(Option::Some(pattern), evs).total_lines == evs.len(),
        run_state(Option::Some(pattern), evs).total_matches == count_matching(pattern, evs),
        run_state(Option::Some(pattern), evs).snapshots.len() == count_matching(pattern, evs),
        run_state(Option::Some(pattern), evs).total_matches <= run_state(
            Option::Some(pattern),
            evs,
        ).total_lines,
    decreases evs.len(),
{
    if evs.len() > 0 {
        lemma_filter_counts(pattern, evs.drop_last());
    }
}

/// Law: in any run, the first snapshot's delta equals its elapsed time (the
/// last-event time starts out at the start of the run), and the last-event
/// time is the elapsed time of the last snapshot (the start, while there is
/// none).
pub proof fn lemma_snapshot_shape(filter: Option<Seq<char>>, evs: Seq<LineEvent>)
    ensures
        run_state(filter, evs).snapshots.len() == 0 ==> run_state(filter, evs).last_event == 0,
        run_state(filter, evs).snapshots.len() > 0 ==> run_state(filter, evs).last_event
            == run_state(filter, evs).snapshots.last().elapsed,
        run_state(filter, evs).snapshots.len() > 0 ==> run_state(filter, evs).snapshots[0].delta
            == run_state(filter, evs).snapshots[0].elapsed,
    decreases evs.len(),
{
    if evs.len() > 0 {
        lemma_snapshot_shape(filter, evs.drop_last());
    }
}

/// Law: the deltas of the published snapshots telescope, so they sum exactly
/// to the last-event time, the elapsed time of the last qualifying line.
pub proof fn lemma_deltas_sum(filter: Option<Seq<char>>, evs: Seq<LineEvent>)
    ensures
        sum_deltas(run_state(filter, evs).snapshots) == run_state(filter, evs).last_event,
    decreases evs.len(),
{
    if evs.len() > 0 {
        lemma_deltas_sum(filter, evs.drop_last());
        let prev = run_state(filter, evs.drop_last());
        let ev = evs.last();
        if line_qualifies(filter, ev.line) {
            let snap = SnapModel { delta: ev.now - prev.last_event, elapsed: ev.now };
            assert(prev.snapshots.push(snap).drop_last() =~= prev.snapshots);
            assert(prev.snapshots.push(snap).last() == snap);
        }
    }
}

/// Law: in a run from the start whose events' clock readings never run
/// backwards, the snapshots are well ordered: every delta is nonnegative
/// and no larger than its elapsed time, and the elapsed times — published
/// in first-in-first-out order — never decrease.
pub proof fn lemma_snapshots_ordered(filter: Option<Seq<char>>, evs: Seq<LineEvent>)
    requires
        events_clocked(filter, init_model(), evs),
    ensures
        0 <= run_state(filter, evs).last_event,
        forall|i: int|
            0 <= i < run_state(filter, evs).snapshots.len() ==> 0 <= #[trigger] run_state(
                filter,
                evs,
            ).snapshots[i].delta,
        forall|i: int|
            0 <= i < run_state(filter, evs).snapshots.len() ==> #[trigger] run_state(
                filter,
                evs,
            ).snapshots[i].delta <= run_state(filter, evs).snapshots[i].elapsed,
        forall|i: int, j: int|
            0 <= i <= j < run_state(filter, evs).snapshots.len() ==> #[trigger] run_state(
                filter,
                evs,
            ).snapshots[i].elapsed <= #[trigger] run_state(filter, evs).snapshots[j].elapsed,
    decreases evs.len(),
{
    if evs.len() > 0 {
        lemma_snapshots_ordered(filter, evs.drop_last());
        lemma_snapshot_shape(filter, evs.drop_last());
        let prev = run_state(filter, evs.drop_last());
        let ev = evs.last();
        if line_qualifies(filter, ev.line) {
            assert(forall|i: int|
                0 <= i < prev.snapshots.len() ==> #[trigger] prev.snapshots[i].elapsed
                    <= prev.last_event);
        }
    }
}

/// What taking the one-shot finalization guard does: the guard is set either
/// way, and the finalize body may run exactly when the guard was not yet
/// set.
pub open spec fn guard_take(finalized: bool) -> (bool, bool) {
    (true, !finalized)
}

/// Law: from a fresh guard, of two takes in any interleaving — the normal
/// end-of-stream path and the interrupt path, in either order — exactly the
/// first runs the finalize body: never none, never both.
pub proof fn lemma_finalize_exactly_once()
    ensures
        guard_take(false).1 == true,
        guard_take(guard_take(false).0).1 == false,
{
}

} // verus!
