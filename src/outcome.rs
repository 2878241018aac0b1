use vstd::prelude::*;
use vstd::string::StringExecFns;

use crate::value::{is_text, Value};

verus! {

/// Whether a keyword's check held.
#[derive(Clone, Copy, Debug, PartialEq, Eq, Structural)]
pub enum Status {
    Pass,
    Fail,
}

/// The word that stands for a status in a result dictionary.
pub open spec fn status_word(s: Status) -> Seq<char> {
    match s {
        Status::Pass => "PASS"@,
        Status::Fail => "FAIL"@,
    }
}

impl Status {
    /// The word that stands for this status in a result dictionary.
    pub fn word(&self) -> (r: &'static str)
        ensures
            r@ == status_word(*self),
    {
        match self {
            Status::Pass => "PASS",
            Status::Fail => "FAIL",
        }
    }
}

/// What a keyword handler produced.
#[derive(Debug)]
pub enum KeywordOutcome {
    Success { return_value: Option<Value>, output: String },
    Failure { output: String, error: String, traceback: Option<String> },
}

/// A protocol-level failure: the call could not be dispatched at all.
#[derive(Debug)]
pub struct RpcFault {
    pub code: i32,
    pub message: String,
}

/// What a dispatched call answers: a response value or a fault.
pub type HandlerResult = Result<Value, RpcFault>;

/// The outcome of a keyword call as the protocol reports it.
///
/// `return_value` is what the handler returned, if anything; the dictionary
/// holds a `return` entry for every passing call all the same.
#[derive(Debug)]
pub struct RemoteResult {
    pub status: Status,
    pub return_value: Option<Value>,
    pub output: String,
    pub error: Option<String>,
    pub traceback: Option<String>,
}

/// The text of an optional string.
pub open spec fn text_opt(o: Option<String>) -> Option<Seq<char>> {
    match o {
        Some(s) => Some(s@),
        None => None,
    }
}

impl RemoteResult {
    /// A return value only when passing; an error exactly when failing;
    /// a traceback only when failing.
    pub open spec fn well_formed(self) -> bool {
        &&& (self.return_value.is_some() ==> self.status == Status::Pass)
        &&& (self.error.is_some() <==> self.status == Status::Fail)
        &&& (self.traceback.is_some() ==> self.status == Status::Fail)
    }
}

/// The result that an outcome is reported as.
pub open spec fn reports(r: RemoteResult, outcome: KeywordOutcome) -> bool {
    match outcome {
        KeywordOutcome::Success { return_value, output } => {
            &&& r.status == Status::Pass
            &&& r.return_value == return_value
            &&& r.output@ == output@
            &&& r.error.is_none()
            &&& r.traceback.is_none()
        },
        KeywordOutcome::Failure { output, error, traceback } => {
            &&& r.status == Status::Fail
            &&& r.return_value.is_none()
            &&& r.output@ == output@
            &&& text_opt(r.error) == Some(error@)
            &&& text_opt(r.traceback) == text_opt(traceback)
        },
    }
}

/// Turns a keyword outcome into the protocol's result. It never fails.
pub fn encode(outcome: KeywordOutcome) -> (r: RemoteResult)
    ensures
        r.well_formed(),
        reports(r, outcome),
{
    match outcome {
        KeywordOutcome::Success { return_value, output } => RemoteResult {
            status: Status::Pass,
            return_value,
            output,
            error: None,
            traceback: None,
        },
        KeywordOutcome::Failure { output, error, traceback } => RemoteResult {
            status: Status::Fail,
            return_value: None,
            output,
            error: Some(error),
            traceback,
        },
    }
}

/// Entry `e` has key `key` and the string value `s`.
pub open spec fn text_entry(e: (String, Value), key: Seq<char>, s: Seq<char>) -> bool {
    e.0@ == key && is_text(e.1, s)
}

/// `m` is the result dictionary for the given fields, in this order:
/// `status`, `return` (when passing; the empty string when the handler
/// returned nothing), `output`, `error` (when failing), `traceback` (when
/// failing and given).
pub open spec fn result_dict(
    m: Seq<(String, Value)>,
    status: Status,
    return_value: Option<Value>,
    output: Seq<char>,
    error: Seq<char>,
    traceback: Option<Seq<char>>,
) -> bool {
    &&& m.len() >= 3
    &&& text_entry(m[0], "status"@, status_word(status))
    &&& match status {
        Status::Pass => {
            &&& m.len() == 3
            &&& m[1].0@ == "return"@
            &&& match return_value {
                Some(v) => m[1].1 == v,
                None => is_text(m[1].1, Seq::empty()),
            }
            &&& text_entry(m[2], "output"@, output)
        },
        Status::Fail => {
            &&& text_entry(m[1], "output"@, output)
            &&& text_entry(m[2], "error"@, error)
            &&& match traceback {
                Some(t) => m.len() == 4 && text_entry(m[3], "traceback"@, t),
                None => m.len() == 3,
            }
        },
    }
}

/// `v` is the result dictionary for the given fields.
pub open spec fn is_result_value(
    v: Value,
    status: Status,
    return_value: Option<Value>,
    output: Seq<char>,
    error: Seq<char>,
    traceback: Option<Seq<char>>,
) -> bool {
    match v {
        Value::Struct(m) => result_dict(m@, status, return_value, output, error, traceback),
        _ => false,
    }
}

/// `v` is the result dictionary of `r`.
pub open spec fn encodes(v: Value, r: RemoteResult) -> bool {
    is_result_value(
        v,
        r.status,
        r.return_value,
        r.output@,
        match r.error {
            Some(e) => e@,
            None => Seq::empty(),
        },
        text_opt(r.traceback),
    )
}

fn entry(key: &str, value: Value) -> (r: (String, Value))
    ensures
        r.0@ == key@,
        r.1 == value,
{
    (String::from_str(key), value)
}

fn text_value(s: String) -> (r: Value)
    ensures
        is_text(r, s@),
{
    Value::Str(s)
}

impl RemoteResult {
    /// The result dictionary as a generic value.
    pub fn to_value(self) -> (r: Value)
        requires
            self.well_formed(),
        ensures
            encodes(r, self),
    {
        let mut m: Vec<(String, Value)> = Vec::new();
        m.push(entry("status", text_value(String::from_str(self.status.word()))));
        match self.status {
            Status::Pass => {
                let ret = match self.return_value {
                    Some(v) => v,
                    None => text_value(String::new()),
                };
                m.push(entry("return", ret));
                m.push(entry("output", text_value(self.output)));
            },
            Status::Fail => {
                m.push(entry("output", text_value(self.output)));
                let error = match self.error {
                    Some(e) => e,
                    None => String::new(),
                };
                m.push(entry("error", text_value(error)));
                match self.traceback {
                    Some(t) => {
                        m.push(entry("traceback", text_value(t)));
                    },
                    None => {},
                }
            },
        }
        Value::Struct(m)
    }
}

} // verus!
