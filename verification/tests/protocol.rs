//! Tests of the processing loop and the exactly-once finalization protocol.

use timeln::argopt::TimelnOpt;
use timeln::error::TimelnError;
use timeln::pattern::PatternFilter;
use timeln::reader::TestReadData;
use timeln::timeln::{TimeSnapshot, TimelnContext};

fn plain_opt(regex: Option<String>) -> TimelnOpt {
    TimelnOpt { color: false, regex, plot: false }
}

#[test]
fn test_timeln_context_new() {
    let opt = plain_opt(None);
    let context = TimelnContext::new(opt);
    assert!(context.is_ok());
}

#[test]
fn test_run() {
    let opt = plain_opt(None);
    let mut context = TimelnContext::new(opt).unwrap();
    let mut test_data = TestReadData::new("test\n");
    assert!(context.run(&mut test_data).is_ok());
}

#[test]
fn test_run_counts_lines_and_snapshots() {
    // Any three-line input with no filter ends with both counters at their
    // spec values and one snapshot per line.
    let mut context = TimelnContext::new(plain_opt(None)).unwrap();
    let mut test_data = TestReadData::new("a\nb\nc\n");
    context.run(&mut test_data).unwrap();
    assert_eq!(context.total_lines(), 3);
    assert_eq!(context.total_matches(), 0);
    let now = context.elapsed_ns();
    let (_, snapshots) = context.try_finalize(now).unwrap();
    assert_eq!(snapshots.len(), 3);
}

#[test]
fn test_run_with_filter_counts_matches() {
    let mut context = TimelnContext::new(plain_opt(Some("x".to_string()))).unwrap();
    let mut test_data = TestReadData::new("x1\ny2\nx3\n");
    context.run(&mut test_data).unwrap();
    assert_eq!(context.total_lines(), 3);
    assert_eq!(context.total_matches(), 2);
    let now = context.elapsed_ns();
    let (_, snapshots) = context.try_finalize(now).unwrap();
    assert_eq!(snapshots.len(), 2);
}

#[test]
fn test_three_plain_lines_scenario() {
    // Input "a\nb\nc\n", no filter, no color, no plot: three annotated
    // lines, then the summary with the total time.
    let mut context = TimelnContext::new(plain_opt(None)).unwrap();
    let one: u64 = 1_000_000_000;
    let out_a = context.process_line("a\n", one).unwrap();
    let out_b = context.process_line("b\n", 2 * one).unwrap();
    let out_c = context.process_line("c\n", 3 * one).unwrap();
    assert_eq!(out_a, "[time: 1.00 s, delta: 1.00 s] a");
    assert_eq!(out_b, "[time: 2.00 s, delta: 1.00 s] b");
    assert_eq!(out_c, "[time: 3.00 s, delta: 1.00 s] c");
    let (summary, snapshots) = context.try_finalize(3 * one).unwrap();
    assert_eq!(summary, "[Processed Lines: 3, Matches: 0, Total Time: 3.00 s]");
    assert_eq!(snapshots.len(), 3);
}

#[test]
fn test_filtered_lines_scenario() {
    // Input "x1\ny2\nx3\n" with filter "x", no color: two annotated lines,
    // and the summary reports two matches out of three processed lines.
    let mut context = TimelnContext::new(plain_opt(Some("x".to_string()))).unwrap();
    let one: u64 = 1_000_000_000;
    let out_1 = context.process_line("x1\n", one);
    let out_2 = context.process_line("y2\n", 2 * one);
    let out_3 = context.process_line("x3\n", 3 * one);
    assert_eq!(out_1.unwrap(), "[time: 1.00 s, delta: 1.00 s] x1");
    assert!(out_2.is_none());
    assert_eq!(out_3.unwrap(), "[time: 3.00 s, delta: 2.00 s] x3");
    let (summary, snapshots) = context.try_finalize(3 * one).unwrap();
    assert_eq!(summary, "[Processed Lines: 3, Matches: 2, Total Time: 3.00 s]");
    assert_eq!(snapshots.len(), 2);
}

#[test]
fn test_invalid_pattern_fails_at_startup() {
    // An invalid pattern is rejected before any input is consumed.
    let context = TimelnContext::new(plain_opt(Some("(".to_string())));
    match context {
        Err(TimelnError::Regex(_)) => {}
        _ => panic!("an invalid pattern must fail with the pattern error"),
    }
}

#[test]
fn test_first_delta_equals_elapsed() {
    // The delta of the first qualifying line equals its elapsed time, since
    // the last-event time starts out at the start of the run.
    let mut context = TimelnContext::new(plain_opt(None)).unwrap();
    context.process_line("first\n", 123_456_789).unwrap();
    context.process_line("second\n", 200_000_000).unwrap();
    let (_, snapshots) = context.try_finalize(200_000_000).unwrap();
    assert_eq!(snapshots[0].delta, snapshots[0].elapsed);
    assert_eq!(snapshots[0].delta, 123_456_789);
}

#[test]
fn test_deltas_sum_to_elapsed() {
    // The deltas of the snapshots telescope to the elapsed time of the last
    // qualifying line.
    let mut context = TimelnContext::new(plain_opt(None)).unwrap();
    let nows: [u64; 4] = [10, 25, 70, 200];
    for now in nows {
        context.process_line("tick\n", now).unwrap();
    }
    let (_, snapshots) = context.try_finalize(250).unwrap();
    let sum: u64 = snapshots.iter().map(|s| s.delta).sum();
    assert_eq!(sum, 200);
    assert_eq!(snapshots.last().unwrap().elapsed, 200);
}

#[test]
fn test_finalize_exactly_once() {
    // Two finalize attempts, as when end-of-stream races the interrupt
    // path: the first takes the guard and the body's results, the second is
    // a no-op.
    let mut context = TimelnContext::new(plain_opt(None)).unwrap();
    context.process_line("only\n", 42).unwrap();
    assert!(!context.finalized());
    let first = context.try_finalize(100);
    assert!(first.is_some());
    assert!(context.finalized());
    let second = context.try_finalize(100);
    assert!(second.is_none());
    assert!(context.finalized());
    // The one drain took every snapshot; nothing is left behind.
    let (_, snapshots) = first.unwrap();
    assert_eq!(snapshots.len(), 1);
}

#[test]
fn test_snapshots_drain_in_order() {
    let mut context = TimelnContext::new(plain_opt(None)).unwrap();
    context.process_line("a\n", 5).unwrap();
    context.process_line("b\n", 9).unwrap();
    let (_, snapshots) = context.try_finalize(9).unwrap();
    assert_eq!(snapshots, vec![
        TimeSnapshot { delta: 5, elapsed: 5 },
        TimeSnapshot { delta: 4, elapsed: 9 },
    ]);
}

#[test]
fn test_pattern_filter_matches() {
    let filter = PatternFilter::new("ab+").unwrap();
    assert!(filter.is_match("xabby"));
    assert!(!filter.is_match("axb"));
    assert_eq!(filter.pattern().as_str(), "ab+");
    assert_eq!(filter.find_text("xabby").unwrap(), "abb");
    assert!(filter.find_text("axb").is_none());
}

#[test]
fn test_pattern_filter_rejects() {
    match PatternFilter::new("(") {
        Err(TimelnError::Regex(message)) => assert!(!message.is_empty()),
        _ => panic!("the engine must reject an unclosed group"),
    }
}

#[test]
fn test_trimmed_annotation() {
    // The emitted line is the input line without its surrounding blanks.
    let mut context = TimelnContext::new(plain_opt(None)).unwrap();
    let out = context.process_line("  padded \r\n", 1_000_000_000).unwrap();
    assert_eq!(out, "[time: 1.00 s, delta: 1.00 s] padded");
}

#[test]
fn test_default_snapshot_is_zero() {
    let snapshot = TimeSnapshot::default();
    assert_eq!(snapshot.delta, 0);
    assert_eq!(snapshot.elapsed, 0);
}

#[test]
fn test_highlighted_match_keeps_line_tail() {
    // With color on, the matched text may be rewritten, but the annotation
    // still yields a line for each match and none otherwise.
    let opt = TimelnOpt { color: true, regex: Some("x".to_string()), plot: false };
    let mut context = TimelnContext::new(opt).unwrap();
    assert!(context.process_line("x1\n", 10).is_some());
    assert!(context.process_line("y2\n", 20).is_none());
    assert_eq!(context.total_matches(), 1);
}

#[test]
fn test_process_now_counts() {
    // The per-event entry reads the clock itself and still advances the
    // counters by exactly one line each call.
    let mut context = TimelnContext::new(plain_opt(None)).unwrap();
    let out = context.process_now("alpha\n").unwrap();
    assert!(out.is_some());
    assert_eq!(context.total_lines(), 1);
    let out = context.process_now("beta\n").unwrap();
    assert!(out.is_some());
    assert_eq!(context.total_lines(), 2);
}

#[test]
fn test_empty_input_summary() {
    // A run over an empty stream processes nothing and summarizes zeros.
    let mut context = TimelnContext::new(plain_opt(None)).unwrap();
    let mut reader = TestReadData::new("");
    context.run(&mut reader).unwrap();
    assert_eq!(context.total_lines(), 0);
    let (summary, snapshots) = context.try_finalize(0).unwrap();
    assert_eq!(summary, "[Processed Lines: 0, Matches: 0, Total Time: 0.00 s]");
    assert!(snapshots.is_empty());
}

#[test]
fn test_blank_line_annotation() {
    // A blank line still qualifies without a filter; its annotated text
    // carries the empty trimmed line.
    let mut context = TimelnContext::new(plain_opt(None)).unwrap();
    let out = context.process_line("\n", 500_000_000).unwrap();
    assert_eq!(out, "[time: 0.50 s, delta: 0.50 s] ");
}
