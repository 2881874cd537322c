use vstd::prelude::*;

verus! {

/// A JSON document as `serde_json` holds it; nothing of its inside is seen here.
#[verifier::external_type_specification]
#[verifier::external_body]
pub struct ExJsonValue(serde_json::Value);

/// The error of `serde_json`; nothing of its inside is seen here.
#[verifier::external_type_specification]
#[verifier::external_body]
pub struct ExJsonError(serde_json::Error);

/// The document that `serde_json::from_slice` reads out of a byte string,
/// and `None` where it reports an error.
pub uninterp spec fn json_document(bytes: Seq<u8>) -> Option<serde_json::Value>;

/// The member that `serde_json::Value::get` finds under a key.
pub uninterp spec fn json_member(value: serde_json::Value, key: Seq<char>) -> Option<
    serde_json::Value,
>;

/// The number that `serde_json::Value::as_u64` reads a value as.
pub uninterp spec fn json_unsigned(value: serde_json::Value) -> Option<u64>;

/// `serde_json::from_slice` reads a byte string as one JSON document. What
/// it returns depends on the bytes alone.
#[verifier::external_body]
fn json_from_slice(bytes: &[u8]) -> (r: Result<serde_json::Value, serde_json::Error>)
    ensures
        match r {
            Ok(doc) => json_document(bytes@) == Some(doc),
            Err(_) => json_document(bytes@) is None,
        },
{
    serde_json::from_slice::<serde_json::Value>(bytes)
}

/// `serde_json::Value::get` with a string key looks a member up. What it
/// returns depends on the value and the key alone.
#[verifier::external_body]
fn json_get<'a>(value: &'a serde_json::Value, key: &str) -> (r: Option<&'a serde_json::Value>)
    ensures
        match r {
            Some(member) => json_member(*value, key@) == Some(*member),
            None => json_member(*value, key@) is None,
        },
{
    value.get(key)
}

/// `serde_json::Value::as_u64` reads a value as an unsigned number. What it
/// returns depends on the value alone.
pub assume_specification[ serde_json::Value::as_u64 ](value: &serde_json::Value) -> (r: Option<u64>)
    ensures
        r == json_unsigned(*value),
;

/// The description that `serde_json::Error` gives of itself.
#[verifier::external_body]
fn json_error_text(error: &serde_json::Error) -> String {
    error.to_string()
}

/// The byte count of an earlier run, against which a new run is held.
#[derive(Debug, Clone, Copy, PartialEq, Eq, Structural)]
pub struct Baseline {
    pub baseline_new_bytes: u64,
}

/// Why a baseline could not be read.
#[derive(Debug, Clone, PartialEq, Eq)]
pub enum BaselineError {
    /// The baseline is no JSON document. `detail` is what the reader said.
    MalformedBaseline { detail: String },
}

impl BaselineError {
    /// The error in words.
    pub open spec fn text(self) -> Seq<char> {
        match self {
            BaselineError::MalformedBaseline { detail } => "parse json: "@ + detail@,
        }
    }

    /// The error in words.
    pub fn message(&self) -> (s: String)
        ensures
            s@ == self.text(),
    {
        match self {
            BaselineError::MalformedBaseline { detail } => {
                let mut s = String::new();
                s.append("parse json: ");
                s.append(detail.as_str());
                assert(s@ =~= "parse json: "@ + detail@);
                s
            },
        }
    }
}

/// The number under `metrics.new_bytes` of a report, where there is one.
pub open spec fn new_bytes_in(doc: serde_json::Value) -> Option<u64> {
    match json_member(doc, "metrics"@) {
        Some(metrics) => match json_member(metrics, "new_bytes"@) {
            Some(n) => json_unsigned(n),
            None => None,
        },
        None => None,
    }
}

/// The baseline that a report's counter gives: zero where it is absent.
pub open spec fn baseline_of(counter: Option<u64>) -> Baseline {
    Baseline {
        baseline_new_bytes: match counter {
            Some(n) => n,
            None => 0,
        },
    }
}

/// The baseline that the bytes of a report give, and `None` where they are
/// no JSON document.
pub open spec fn baseline_in(bytes: Seq<u8>) -> Option<Baseline> {
    match json_document(bytes) {
        Some(doc) => Some(baseline_of(new_bytes_in(doc))),
        None => None,
    }
}

impl Baseline {
    /// The baseline that a report's counter gives: zero where the report
    /// holds none.
    pub fn from_counter(counter: Option<u64>) -> (b: Baseline)
        ensures
            b == baseline_of(counter),
    {
        Baseline {
            baseline_new_bytes: match counter {
                Some(n) => n,
                None => 0,
            },
        }
    }

    /// Reads the baseline out of an earlier report. Only `metrics.new_bytes`
    /// is looked at; where it is missing or no unsigned number, the
    /// baseline is zero. Bytes that are no JSON document are an error.
    pub fn from_report_json(bytes: &[u8]) -> (r: Result<Baseline, BaselineError>)
        ensures
            match r {
                Ok(b) => baseline_in(bytes@) == Some(b),
                Err(_) => baseline_in(bytes@) is None,
            },
    {
        match json_from_slice(bytes) {
            Ok(doc) => {
                let counter = match json_get(&doc, "metrics") {
                    Some(metrics) => match json_get(metrics, "new_bytes") {
                        Some(n) => n.as_u64(),
                        None => None,
                    },
                    None => None,
                };
                Ok(Baseline::from_counter(counter))
            },
            Err(e) => Err(BaselineError::MalformedBaseline { detail: json_error_text(&e) }),
        }
    }
}

} // verus!
