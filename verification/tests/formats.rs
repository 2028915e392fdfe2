//! Tests of the pure formatting pieces: time formats, annotators,
//! summarizers, and the in-memory line source.

use timeln::annotator::{SimpleAnnotator, TimelnAnnotation, UnicodeAnnotator};
use timeln::reader::TestReadData;
use timeln::summarizer::{DetailedSummarizer, SimpleSummarizer, Summarizer};
use timeln::textutil::trim_text;
use timeln::time_format::{MillisecondsFormat, MinutesSecondsFormat, SecondsFormat, TimeFormat};

#[test]
fn test_seconds_format() {
    let format = SecondsFormat;
    let duration: u64 = 5_500_000_000; // 5.5 seconds
    assert_eq!(format.format_duration(duration), "5.50 s");
}

#[test]
fn test_milliseconds_format() {
    let format = MillisecondsFormat;
    let duration: u64 = 5_500_000_000; // 5.5 seconds
    assert_eq!(format.format_duration(duration), "5500.00 ms");
}

#[test]
fn test_minutes_seconds_format() {
    let format = MinutesSecondsFormat;
    let duration: u64 = 125_000_000_000; // 125 seconds = 2 minutes and 5 seconds
    assert_eq!(format.format_duration(duration), "2m 5s");
}

#[test]
fn test_zero_duration_formats() {
    assert_eq!(SecondsFormat.format_duration(0), "0.00 s");
    assert_eq!(MillisecondsFormat.format_duration(0), "0.00 ms");
    assert_eq!(MinutesSecondsFormat.format_duration(0), "0m 0s");
}

#[test]
fn test_rounding_to_hundredths() {
    // 5 ms is half a hundredth of a second and rounds up; just below stays.
    assert_eq!(SecondsFormat.format_duration(1_005_000_000), "1.01 s");
    assert_eq!(SecondsFormat.format_duration(1_004_999_999), "1.00 s");
    // 995 hundredths of a second carry into the whole part.
    assert_eq!(SecondsFormat.format_duration(9_995_000_000), "10.00 s");
}

#[test]
fn test_simple_annotation() {
    let annotator = SimpleAnnotator { color: false, time_format: SecondsFormat };
    let now: u64 = 5_500_000_000; // 5.5 seconds
    let delta: u64 = 1_500_000_000; // 1.5 seconds
    let line = "Sample line".to_string();
    assert_eq!(
        annotator.format_line(&line, now, delta),
        "[time: 5.50 s, delta: 1.50 s] Sample line"
    );
}

#[test]
fn test_unicode_annotator() {
    let annotator = UnicodeAnnotator { color: false, time_format: SecondsFormat };
    let now: u64 = 5_500_000_000; // 5.5 seconds
    let delta: u64 = 1_500_000_000; // 1.5 seconds
    let line = "Sample line".to_string();
    assert_eq!(
        annotator.format_line(&line, now, delta),
        "[\u{03a4}: 5.50 s, \u{0394}: 1.50 s] Sample line"
    );
}

#[test]
fn test_colored_annotation_keeps_line() {
    // With color on, the prefix text depends on the environment, but the
    // annotated line always ends in a space followed by the line itself.
    let annotator = SimpleAnnotator { color: true, time_format: SecondsFormat };
    let line = "Sample line".to_string();
    let annotated = annotator.format_line(&line, 1_000_000_000, 1_000_000_000);
    assert!(annotated.ends_with(" Sample line"));
}

#[test]
fn test_simple_summarizer() {
    let summarizer = SimpleSummarizer { color: false };
    let total_lines: u64 = 100;
    let total_time: u64 = 30_000_000_000; // 30 seconds
    let summary = summarizer.summarize(total_lines, 0, total_time, &SecondsFormat);
    assert_eq!(summary, "[Processed Lines: 100, Matches: 0, Total Time: 30.00 s]");
}

#[test]
fn test_detailed_summarizer() {
    let summarizer = DetailedSummarizer { color: false };
    let total_lines: u64 = 100;
    let total_time: u64 = 100_000_000_000; // 100 seconds
    let summary = summarizer.summarize(total_lines, 0, total_time, &SecondsFormat);
    assert_eq!(
        summary,
        "Processed 100 lines in 100.00 s with 0 matches. Average time per line: 1.00 s"
    );
}

#[test]
fn test_detailed_summarizer_no_lines() {
    // With no line processed the average is a zero span, not a division.
    let summarizer = DetailedSummarizer { color: false };
    let summary = summarizer.summarize(0, 0, 5_000_000_000, &SecondsFormat);
    assert_eq!(
        summary,
        "Processed 0 lines in 5.00 s with 0 matches. Average time per line: 0.00 s"
    );
}

#[test]
fn test_test_read_line() {
    // Arrange
    let input = "Hello, world!\n".to_string();
    let mut reader = TestReadData::new(&input);

    // Act
    let mut buf = String::new();
    let result = reader.read_line(&mut buf);

    // Assert
    assert_eq!(result.unwrap(), 14);
    assert_eq!(buf, "Hello, world!\n");
}

#[test]
fn test_test_read_line_to_end() {
    let mut reader = TestReadData::new("one\ntwo");
    let mut buf = String::new();
    assert_eq!(reader.read_line(&mut buf).unwrap(), 4);
    assert_eq!(buf, "one\n");
    let mut buf = String::new();
    assert_eq!(reader.read_line(&mut buf).unwrap(), 3);
    assert_eq!(buf, "two");
    let mut buf = String::new();
    assert_eq!(reader.read_line(&mut buf).unwrap(), 0);
    assert_eq!(buf, "");
}

#[test]
fn test_colored_summary_keeps_text() {
    // With color on, the codes depend on the environment, but the plain
    // summary text survives contiguously inside the result.
    let summarizer = SimpleSummarizer { color: true };
    let summary = summarizer.summarize(7, 2, 1_000_000_000, &SecondsFormat);
    assert!(summary.contains("[Processed Lines: 7, Matches: 2, Total Time: 1.00 s]"));
}

#[test]
fn test_trim_removes_unicode_whitespace() {
    // The trim strips the documented Unicode whitespace set at both ends,
    // as the original tool's trimming did.
    assert_eq!(trim_text(" \u{000c}padded\u{2003}\r\n"), "padded");
    assert_eq!(trim_text("kept\u{00a0}inside"), "kept\u{00a0}inside");
}
