use prettylog::{format_json_log, format_line, render_spans, visible_text};
use prettylog::{Color, LogRecord, Span, Style};

fn plain() -> Style {
    Style { color: Color::Unstyled, bold: false, dim: false }
}

fn vis(spans: &Vec<Span>) -> String {
    visible_text(spans)
}

#[test]
fn plain_line_without_triggers_is_unchanged() {
    let line = "all quiet on the western front";
    let spans = format_line(line).unwrap();
    assert_eq!(vis(&spans), line);
    assert!(spans.iter().all(|s| s.style == plain()));
    // With nothing but plain styles, rendering adds no escape bytes either.
    assert_eq!(render_spans(&spans), line);
}

#[test]
fn round_trip_on_invalid_json() {
    let line = "almost {\"json\": true";
    let spans = format_line(line).unwrap();
    assert_eq!(vis(&spans), line);
    assert_eq!(render_spans(&spans), line);
}

#[test]
fn non_object_json_is_plain_text() {
    let spans = format_line("42").unwrap();
    assert_eq!(vis(&spans), "42");
    let spans = format_line("[1,2]").unwrap();
    assert_eq!(vis(&spans), "[1,2]");
    let spans = format_line("\"error\"").unwrap();
    assert_eq!(vis(&spans), "\"error\"");
    assert_eq!(spans[0].style, Style { color: Color::Red, bold: false, dim: false });
}

#[test]
fn error_trigger_beats_warn_trigger() {
    let line = "warning: an error occurred";
    let spans = format_line(line).unwrap();
    assert_eq!(vis(&spans), line);
    for s in &spans {
        assert_eq!(s.style, Style { color: Color::Red, bold: false, dim: false });
    }
}

#[test]
fn warn_trigger_alone_is_yellow() {
    let line = "Warn: disk almost full";
    let spans = format_line(line).unwrap();
    assert_eq!(vis(&spans), line);
    assert_eq!(spans[0].style, Style { color: Color::Yellow, bold: false, dim: false });
}

#[test]
fn exotic_case_does_not_trigger() {
    let line = "an eRRor and a wARn";
    let spans = format_line(line).unwrap();
    assert!(spans.iter().all(|s| s.style == plain()));
}

#[test]
fn start_sentinel_is_suppressed() {
    assert!(format_line("{\"msg\":\"START\"}").is_none());
    assert!(format_line("{\"message\":\"END\"}").is_none());
}

#[test]
fn msg_takes_precedence_over_message() {
    let spans = format_line("{\"msg\":\"x\",\"message\":\"START\"}").unwrap();
    assert_eq!(vis(&spans), "x");
    assert!(format_line("{\"msg\":\"END\",\"message\":\"x\"}").is_none());
}

#[test]
fn http_detection_requires_all_three_fields() {
    let spans = format_line("{\"method\":\"GET\",\"path\":\"/x\"}").unwrap();
    assert_eq!(vis(&spans), "");
    let spans = format_line("{\"method\":\"GET\",\"path\":\"/x\",\"msg\":\"hi\"}").unwrap();
    assert_eq!(vis(&spans), "hi");
}

#[test]
fn out_of_range_status_code_means_no_http_record() {
    let spans =
        format_line("{\"method\":\"GET\",\"path\":\"/x\",\"statusCode\":70000,\"msg\":\"m\"}")
            .unwrap();
    assert_eq!(vis(&spans), "m");
    let spans =
        format_line("{\"method\":\"GET\",\"path\":\"/x\",\"statusCode\":65535}").unwrap();
    assert_eq!(vis(&spans), "GET    /x 65535");
}

#[test]
fn non_string_msg_counts_as_absent() {
    let spans = format_line("{\"msg\":7,\"message\":\"hello\"}").unwrap();
    assert_eq!(vis(&spans), "hello");
}

#[test]
fn end_to_end_http_record() {
    let line = "{\"time\":\"2024-01-02T03:04:05.000Z\",\"level\":\"info\",\"method\":\"GET\",\"path\":\"/health\",\"statusCode\":200}";
    let spans = format_line(line).unwrap();
    assert_eq!(vis(&spans), "03:04:05 INFO  GET    /health 200");
}

#[test]
fn generic_record_with_level_only_is_trimmed() {
    let spans = format_line("{\"level\":\"info\"}").unwrap();
    assert_eq!(vis(&spans), "INFO");
}

#[test]
fn time_without_t_is_hidden() {
    let spans = format_line("{\"time\":\"20240102\",\"msg\":\"hi\"}").unwrap();
    assert_eq!(vis(&spans), "hi");
}

#[test]
fn time_without_fraction_keeps_the_tail() {
    // The level is absent, so its empty slot leaves a double space inside
    // the line; only the ends are trimmed.
    let spans = format_line("{\"time\":\"2024-01-02T03:04:05Z\",\"msg\":\"hi\"}").unwrap();
    assert_eq!(vis(&spans), "03:04:05Z  hi");
}

#[test]
fn record_built_by_hand_formats_like_a_line() {
    let rec = LogRecord {
        time: None,
        level: Some("warn".to_owned()),
        msg: Some("careful".to_owned()),
        message: None,
        method: None,
        path: None,
        status_code: None,
    };
    let spans = format_json_log(&rec).unwrap();
    assert_eq!(vis(&spans), "WARN  careful");
}

#[test]
fn sentinel_record_built_by_hand_is_suppressed() {
    let rec = LogRecord {
        time: None,
        level: None,
        msg: None,
        message: Some("START".to_owned()),
        method: None,
        path: None,
        status_code: None,
    };
    assert!(format_json_log(&rec).is_none());
}

#[test]
fn trimming_works_across_span_boundaries() {
    let red = Style { color: Color::Red, bold: false, dim: false };
    let spans = vec![
        Span { text: "  ".to_owned(), style: plain() },
        Span { text: " hello ".to_owned(), style: red },
        Span { text: "\t ".to_owned(), style: plain() },
    ];
    let trimmed = prettylog::trim_spans(spans);
    assert_eq!(visible_text(&trimmed), "hello");
    assert!(trimmed.iter().all(|s| s.style == red || s.text.is_empty()));
}
