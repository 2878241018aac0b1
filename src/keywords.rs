use vstd::prelude::*;
use vstd::string::StringExecFns;

use crate::marshal::{
    accepts_value, any_strings, marshal_int, marshal_message, marshal_strings, marshal_two_strings,
    one_int, received_text, shape_text, two_strings, ShapeView, BAD_ARGUMENTS,
};
use crate::outcome::{encode, is_result_value, HandlerResult, KeywordOutcome, Status};
use crate::text::{append_decimal, decimal_text};
use crate::value::{field_of, is_text, Value};

verus! {

/// The fault that a keyword answers when its arguments do not fit `shape`.
pub open spec fn is_mismatch_fault(r: HandlerResult, keyword: Seq<char>, shape: ShapeView, params: Value) -> bool {
    r matches Err(f) && f.code == BAD_ARGUMENTS && f.message@ == marshal_message(
        keyword,
        shape_text(shape),
        received_text(params),
    )
}

/// The output of adding one to `n`.
pub open spec fn adding_one_text(n: int) -> Seq<char> {
    "Adding one to "@ + decimal_text(n)
}

/// The error when `n + 1` does not fit a 32-bit integer.
pub open spec fn add_one_overflow_text() -> Seq<char> {
    "The result does not fit a 32-bit integer."@
}

/// `v` reports adding one to `n`: it passes with `n + 1` where that fits
/// a 32-bit integer, and fails where it does not.
pub open spec fn reports_add_one(v: Value, n: int) -> bool {
    if n < i32::MAX {
        is_result_value(v, Status::Pass, Some(Value::Int((n + 1) as i32)), adding_one_text(n), Seq::empty(), None)
    } else {
        is_result_value(v, Status::Fail, None, adding_one_text(n), add_one_overflow_text(), None)
    }
}

/// `r` is what the add-one keyword answers for `params`.
pub open spec fn addone_answers(params: Value, r: HandlerResult) -> bool {
    &&& r is Ok <==> accepts_value(one_int(), params)
    &&& r is Err ==> is_mismatch_fault(r, "Addone"@, one_int(), params)
    &&& r matches Ok(v) ==> params matches Value::Array(items) && items@[0] matches Value::Int(n)
        && reports_add_one(v, n as int)
}

/// Answers `n + 1` for the one integer argument `n`.
pub fn keyword_addone(value: &Value) -> (r: HandlerResult)
    ensures
        addone_answers(*value, r),
{
    let n = match marshal_int("Addone", value) {
        Ok(n) => n,
        Err(e) => {
            return Err(e.to_fault());
        },
    };
    let mut output = String::from_str("Adding one to ");
    append_decimal(&mut output, n);
    let outcome = if n < i32::MAX {
        KeywordOutcome::Success { return_value: Some(Value::Int(n + 1)), output }
    } else {
        KeywordOutcome::Failure {
            output,
            error: String::from_str("The result does not fit a 32-bit integer."),
            traceback: None,
        }
    };
    Ok(encode(outcome).to_value())
}

/// The output of comparing `a` to `b`.
pub open spec fn comparing_text(a: Seq<char>, b: Seq<char>) -> Seq<char> {
    "Comparing '"@ + a + "' to '"@ + b + "'."@
}

/// The error when two strings differ.
pub open spec fn not_equal_text() -> Seq<char> {
    "Given strings are not equal."@
}

/// The traceback when two strings differ.
pub open spec fn not_equal_traceback() -> Seq<char> {
    "Strings Should Be Equal failed: the two arguments differ."@
}

/// `v` reports comparing `a` to `b`: it passes when they are equal and fails
/// with an error and a traceback when they are not.
pub open spec fn reports_comparison(v: Value, a: Seq<char>, b: Seq<char>) -> bool {
    if a == b {
        is_result_value(v, Status::Pass, None, comparing_text(a, b), Seq::empty(), None)
    } else {
        is_result_value(
            v,
            Status::Fail,
            None,
            comparing_text(a, b),
            not_equal_text(),
            Some(not_equal_traceback()),
        )
    }
}

/// `r` is what the string comparison keyword answers for `params`.
pub open spec fn strings_equal_answers(params: Value, r: HandlerResult) -> bool {
    &&& r is Ok <==> accepts_value(two_strings(), params)
    &&& r is Err ==> is_mismatch_fault(r, "Strings Should Be Equal"@, two_strings(), params)
    &&& r matches Ok(v) ==> params matches Value::Array(items) && items@[0] matches Value::Str(a)
        && items@[1] matches Value::Str(b) && reports_comparison(v, a@, b@)
}

/// Passes when its two string arguments are equal.
pub fn keyword_strings_should_be_equal(value: &Value) -> (r: HandlerResult)
    ensures
        strings_equal_answers(*value, r),
{
    let (a, b) = match marshal_two_strings("Strings Should Be Equal", value) {
        Ok(p) => p,
        Err(e) => {
            return Err(e.to_fault());
        },
    };
    let mut output = String::from_str("Comparing '");
    output.append(a.as_str());
    output.append("' to '");
    output.append(b.as_str());
    output.append("'.");
    let outcome = if a == b {
        KeywordOutcome::Success { return_value: None, output }
    } else {
        KeywordOutcome::Failure {
            output,
            error: String::from_str("Given strings are not equal."),
            traceback: Some(String::from_str("Strings Should Be Equal failed: the two arguments differ.")),
        }
    };
    Ok(encode(outcome).to_value())
}

/// `r` is what the directory keyword answers for `params`.
pub open spec fn count_items_answers(params: Value, r: HandlerResult) -> bool {
    &&& r is Ok <==> accepts_value(any_strings(), params)
    &&& r is Err ==> is_mismatch_fault(r, "Count Items In Directory"@, any_strings(), params)
    &&& r matches Ok(v) ==> is_result_value(v, Status::Pass, Some(Value::Int(1)), Seq::empty(), Seq::empty(), None)
}

/// Takes any number of directory paths and answers 1, with an empty output;
/// it lists no directory.
pub fn keyword_count_items_in_directory(value: &Value) -> (r: HandlerResult)
    ensures
        count_items_answers(*value, r),
{
    match marshal_strings("Count Items In Directory", value) {
        Ok(_) => {},
        Err(e) => {
            return Err(e.to_fault());
        },
    }
    let outcome = KeywordOutcome::Success { return_value: Some(Value::Int(1)), output: String::new() };
    Ok(encode(outcome).to_value())
}

/// The response passes and returns the integer 1.
pub fn validate_response_success_return_i32(response: &HandlerResult) -> (r: bool)
    ensures
        r == (*response matches Ok(v) && field_of(v, "status"@) matches Some(s) && is_text(s, "PASS"@)
            && field_of(v, "return"@) == Some(Value::Int(1))),
{
    match response {
        Ok(v) => {
            let passed = match v.field("status") {
                Some(Value::Str(s)) => *s == String::from_str("PASS"),
                _ => false,
            };
            let returned_one = match v.field("return") {
                Some(Value::Int(n)) => *n == 1,
                _ => false,
            };
            passed && returned_one
        },
        Err(_) => false,
    }
}

} // verus!
