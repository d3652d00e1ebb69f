//! Rewrites newline-delimited log records for human readability.
//!
//! Each input line is classified as either a structured (JSON object) log
//! record or plain text.  Structured records are condensed to a short
//! summary (`time level msg`, or `time level method path status` for HTTP
//! request records); plain text is colorized by a substring heuristic.
//! The formatting logic is pure: it produces a sequence of [`style::Span`]s,
//! each a piece of text with a style descriptor.  Turning spans into
//! terminal escape sequences is a separate, presentation-only step.

pub mod style;
pub mod fields;
pub mod format;
pub mod laws;
pub mod record;
pub mod render;
pub mod text;
pub mod trim;

pub use fields::{colorize_level, colorize_plain_text, extract_time, format_method, format_status};
pub use format::{format_json_log, format_line};
pub use record::LogRecord;
pub use render::{render_spans, visible_text};
pub use style::{Color, Span, Style};
pub use trim::trim_spans;
