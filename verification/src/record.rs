//! The structured log record: the typed fields this tool reads from one
//! line of JSON, and the trusted decoding of a line into them.
//!
//! A field is present only when the line is a JSON object that carries the
//! field's key with a value of the expected type; a value of another type
//! counts as absent.

use vstd::prelude::*;

verus! {

/// The recognized fields of one structured log record, each optional.
///
/// `status_code` holds the raw unsigned value from the document; whether it
/// fits an unsigned 16-bit status is decided later, by the formatter.
pub struct LogRecord {
    pub time: Option<String>,
    pub level: Option<String>,
    pub msg: Option<String>,
    pub message: Option<String>,
    pub method: Option<String>,
    pub path: Option<String>,
    pub status_code: Option<u64>,
}

/// The mathematical view of a [`LogRecord`].
pub struct RecordView {
    pub time: Option<Seq<char>>,
    pub level: Option<Seq<char>>,
    pub msg: Option<Seq<char>>,
    pub message: Option<Seq<char>>,
    pub method: Option<Seq<char>>,
    pub path: Option<Seq<char>>,
    pub status_code: Option<u64>,
}

impl View for LogRecord {
    type V = RecordView;

    open spec fn view(&self) -> RecordView {
        RecordView {
            time: self.time.deep_view(),
            level: self.level.deep_view(),
            msg: self.msg.deep_view(),
            message: self.message.deep_view(),
            method: self.method.deep_view(),
            path: self.path.deep_view(),
            status_code: self.status_code.deep_view(),
        }
    }
}

/// The record encoded by a line, if the line is a JSON object: its string
/// fields `time`, `level`, `msg`, `message`, `method`, `path` and its
/// unsigned-integer field `statusCode`, a field being absent when its key
/// is missing or its value has another type.  `None` when the line is not
/// well-formed JSON or its top-level value is not an object.
pub uninterp spec fn fields_of(line: Seq<char>) -> Option<RecordView>;

/// Relies on `serde_json::from_str::<Value>` to decide whether the line is
/// well-formed JSON, on `Value::is_object` to single out object documents,
/// and on `Value::get`, `Value::as_str` and `Value::as_u64` for typed field
/// lookup (each returns `None` when the key is missing or the value has
/// another type).  The result is a function of the line alone; `fields_of`
/// names it.
#[verifier::external_body]
pub(crate) fn parse_fields(line: &str) -> (r: Option<LogRecord>)
    ensures
        match r {
            Some(rec) => fields_of(line@) == Some(rec@),
            None => fields_of(line@) is None,
        },
{
    let v: serde_json::Value = match serde_json::from_str(line) {
        Ok(v) => v,
        Err(_) => return None,
    };
    if !v.is_object() {
        return None;
    }
    let s = |k: &str| v.get(k).and_then(serde_json::Value::as_str).map(|x| x.to_owned());
    Some(LogRecord {
        time: s("time"), level: s("level"), msg: s("msg"), message: s("message"),
        method: s("method"), path: s("path"),
        status_code: v.get("statusCode").and_then(serde_json::Value::as_u64),
    })
}

} // verus!
