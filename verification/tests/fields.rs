use prettylog::{colorize_level, colorize_plain_text, extract_time, format_method, format_status};
use prettylog::{Color, Style};

#[test]
fn time_extraction_takes_the_middle() {
    assert_eq!(extract_time("2024-01-02T03:04:05.123Z").as_deref(), Some("03:04:05"));
    assert_eq!(extract_time("2024-01-02T03:04:05Z").as_deref(), Some("03:04:05Z"));
    assert_eq!(extract_time("20240102").as_deref(), None);
    assert_eq!(extract_time("T.").as_deref(), Some(""));
}

#[test]
fn level_names_are_matched_case_insensitively() {
    let s = colorize_level("error");
    assert_eq!(s.text, "ERROR");
    assert_eq!(s.style, Style { color: Color::Red, bold: true, dim: false });
    let s = colorize_level("FATAL");
    assert_eq!(s.text, "ERROR");
    let s = colorize_level("Warning");
    assert_eq!(s.text, "WARN ");
    assert_eq!(s.style, Style { color: Color::Yellow, bold: false, dim: false });
    let s = colorize_level("Info");
    assert_eq!(s.text, "INFO ");
    assert_eq!(s.style, Style { color: Color::Cyan, bold: false, dim: false });
    let s = colorize_level("debug");
    assert_eq!(s.text, "DEBUG");
    assert_eq!(s.style, Style { color: Color::Unstyled, bold: false, dim: true });
}

#[test]
fn unknown_level_is_kept_verbatim() {
    let s = colorize_level("trace");
    assert_eq!(s.text, "trace");
    assert_eq!(s.style, Style { color: Color::Unstyled, bold: false, dim: false });
}

#[test]
fn methods_are_padded_and_colored() {
    let s = format_method("GET");
    assert_eq!(s.text, "GET   ");
    assert_eq!(s.style, Style { color: Color::Blue, bold: false, dim: false });
    let s = format_method("POST");
    assert_eq!(s.text, "POST  ");
    assert_eq!(s.style, Style { color: Color::Green, bold: false, dim: false });
    let s = format_method("DELETE");
    assert_eq!(s.text, "DELETE");
    assert_eq!(s.style, Style { color: Color::Red, bold: false, dim: false });
}

#[test]
fn long_method_is_not_truncated() {
    let s = format_method("OPTIONS");
    assert_eq!(s.text, "OPTIONS");
    assert_eq!(s.style, Style { color: Color::Unstyled, bold: false, dim: false });
}

#[test]
fn status_range_boundaries() {
    let bold_green = Style { color: Color::Green, bold: true, dim: false };
    let cyan = Style { color: Color::Cyan, bold: false, dim: false };
    let none = Style { color: Color::Unstyled, bold: false, dim: false };
    assert_eq!(format_status(299).style, bold_green);
    assert_eq!(format_status(300).style, cyan);
    assert_ne!(format_status(299).style, format_status(300).style);
    assert_eq!(format_status(199).style, none);
    assert_eq!(format_status(600).style, none);
    assert_eq!(format_status(200).style, bold_green);
    assert_eq!(format_status(404).style, Style { color: Color::Yellow, bold: true, dim: false });
    assert_eq!(format_status(503).style, Style { color: Color::Red, bold: true, dim: false });
}

#[test]
fn status_text_is_decimal() {
    assert_eq!(format_status(200).text, "200");
    assert_eq!(format_status(0).text, "0");
    assert_eq!(format_status(65535).text, "65535");
}

#[test]
fn plain_colorizer_keeps_the_text() {
    let s = colorize_plain_text("  spaces stay  ");
    assert_eq!(s.text, "  spaces stay  ");
    assert_eq!(s.style, Style { color: Color::Unstyled, bold: false, dim: false });
    let s = colorize_plain_text("ERROR!");
    assert_eq!(s.text, "ERROR!");
    assert_eq!(s.style, Style { color: Color::Red, bold: false, dim: false });
}
