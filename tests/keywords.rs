use robot_remote_server::keywords::{
    keyword_addone, keyword_count_items_in_directory, keyword_strings_should_be_equal,
    validate_response_success_return_i32,
};
use robot_remote_server::{HandlerResult, Value};

fn text(v: &Value) -> String {
    match v {
        Value::Str(s) => s.clone(),
        other => panic!("not a string: {:?}", other),
    }
}

fn params(items: Vec<Value>) -> Value {
    Value::Array(items)
}

fn validate_response_success(response: HandlerResult, output_expect: &str) {
    let response_val = response.expect("Can't parse response");
    let stat = text(response_val.field("status").expect("Can't convert status"));
    assert_eq!(stat, "PASS");
    let output = text(response_val.field("output").expect("Can't convert status"));
    assert_eq!(output_expect, output);
}

fn validate_response_fail(response: HandlerResult, output_expect: &str) {
    let response_val = response.expect("Can't parse response");
    let stat = text(response_val.field("status").expect("Can't convert status"));
    assert_ne!(stat, "PASS");
    let output = text(response_val.field("output").expect("Can't convert status"));
    assert_eq!(output_expect, output);
    let error = text(response_val.field("error").expect("Can't convert status"));
    assert_eq!("Given strings are not equal.", error);
}

fn validate_response_success_and_return_i32(response: HandlerResult, return_expect: i32, output_expect: &str) {
    let response_val = response.expect("Can't parse response");
    let stat = text(response_val.field("status").expect("Can't convert status"));
    assert_eq!(stat, "PASS");
    let output = text(response_val.field("output").expect("Can't convert status"));
    assert_eq!(output_expect, output);
    match response_val.field("return") {
        Some(Value::Int(n)) => assert_eq!(return_expect, *n),
        other => panic!("Can't convert status: {:?}", other),
    }
}

#[test]
fn test_run_count_items_in_directory() {
    let params = params(vec![Value::Str(String::from("/tmp"))]);
    let response: HandlerResult = keyword_count_items_in_directory(&params);
    assert!(validate_response_success_return_i32(&response));
}

#[test]
fn test_run_strings_should_be_equal() {
    let s1 = "Equal";
    let s2 = "Equal";
    let params = params(vec![Value::Str(String::from(s1)), Value::Str(String::from(s2))]);
    let response: HandlerResult = keyword_strings_should_be_equal(&params);
    validate_response_success(response, &format!("Comparing '{}' to '{}'.", &s1, &s2));
}

#[test]
fn test_run_strings_should_be_equal_fail() {
    let s1 = "Fail";
    let s2 = "Equal";
    let params = params(vec![Value::Str(String::from(s1)), Value::Str(String::from(s2))]);
    let response: HandlerResult = keyword_strings_should_be_equal(&params);
    validate_response_fail(response, &format!("Comparing '{}' to '{}'.", &s1, &s2));
}

#[test]
fn test_run_addone_handler() {
    let params = params(vec![Value::Int(88)]);
    let response: HandlerResult = keyword_addone(&params);
    validate_response_success_and_return_i32(response, 89, &format!("Adding one to 88"));
}

#[test]
fn strings_equal_pass_has_no_error_and_empty_return() {
    let p = params(vec![Value::Str(String::from("Equal")), Value::Str(String::from("Equal"))]);
    let v = keyword_strings_should_be_equal(&p).expect("a result");
    assert!(v.field("error").is_none());
    assert!(v.field("traceback").is_none());
    assert_eq!(text(v.field("return").expect("a return entry")), "");
}

#[test]
fn strings_equal_fail_has_traceback_and_no_return() {
    let p = params(vec![Value::Str(String::from("Fail")), Value::Str(String::from("Equal"))]);
    let v = keyword_strings_should_be_equal(&p).expect("a result");
    assert_eq!(text(v.field("status").unwrap()), "FAIL");
    assert_eq!(
        text(v.field("traceback").expect("a traceback")),
        "Strings Should Be Equal failed: the two arguments differ."
    );
    assert!(v.field("return").is_none());
}

#[test]
fn result_dictionary_keys_come_in_order() {
    let p = params(vec![Value::Str(String::from("a")), Value::Str(String::from("b"))]);
    match keyword_strings_should_be_equal(&p).expect("a result") {
        Value::Struct(m) => {
            let keys: Vec<&str> = m.iter().map(|e| e.0.as_str()).collect();
            assert_eq!(keys, vec!["status", "output", "error", "traceback"]);
        },
        other => panic!("not a struct: {:?}", other),
    }
}

#[test]
fn addone_negative_and_zero() {
    let v = keyword_addone(&params(vec![Value::Int(-5)])).unwrap();
    assert_eq!(text(v.field("output").unwrap()), "Adding one to -5");
    assert!(matches!(v.field("return"), Some(Value::Int(-4))));
    let v = keyword_addone(&params(vec![Value::Int(0)])).unwrap();
    assert_eq!(text(v.field("output").unwrap()), "Adding one to 0");
    assert!(matches!(v.field("return"), Some(Value::Int(1))));
}

#[test]
fn addone_smallest_integer() {
    let v = keyword_addone(&params(vec![Value::Int(i32::MIN)])).unwrap();
    assert_eq!(text(v.field("output").unwrap()), "Adding one to -2147483648");
    assert!(matches!(v.field("return"), Some(Value::Int(-2147483647))));
}

#[test]
fn addone_largest_integer_fails_without_fault() {
    let v = keyword_addone(&params(vec![Value::Int(i32::MAX)])).unwrap();
    assert_eq!(text(v.field("status").unwrap()), "FAIL");
    assert_eq!(text(v.field("output").unwrap()), "Adding one to 2147483647");
    assert_eq!(text(v.field("error").unwrap()), "The result does not fit a 32-bit integer.");
    assert!(v.field("return").is_none());
    assert!(v.field("traceback").is_none());
}

#[test]
fn addone_wrong_arity_is_fault() {
    let f = keyword_addone(&params(vec![])).unwrap_err();
    assert_eq!(f.code, 400);
    assert_eq!(f.message, "Keyword 'Addone' expects (i4), got ().");
    let f = keyword_addone(&params(vec![Value::Int(1), Value::Int(2)])).unwrap_err();
    assert_eq!(f.message, "Keyword 'Addone' expects (i4), got (i4, i4).");
}

#[test]
fn addone_wrong_type_is_fault() {
    let f = keyword_addone(&params(vec![Value::Str(String::from("88"))])).unwrap_err();
    assert_eq!(f.code, 400);
    assert_eq!(f.message, "Keyword 'Addone' expects (i4), got (string).");
    let f = keyword_addone(&Value::Int(88)).unwrap_err();
    assert_eq!(f.message, "Keyword 'Addone' expects (i4), got i4.");
}

#[test]
fn strings_equal_wrong_arguments_are_fault() {
    let p = params(vec![Value::Str(String::from("a")), Value::Bool(true)]);
    let f = keyword_strings_should_be_equal(&p).unwrap_err();
    assert_eq!(f.code, 400);
    assert_eq!(
        f.message,
        "Keyword 'Strings Should Be Equal' expects (string, string), got (string, boolean)."
    );
}

#[test]
fn count_items_takes_any_number_of_strings() {
    let v = keyword_count_items_in_directory(&params(vec![])).unwrap();
    assert!(matches!(v.field("return"), Some(Value::Int(1))));
    assert_eq!(text(v.field("output").unwrap()), "");
    let p = params(vec![Value::Str(String::from("/a")), Value::Other(String::from("double"))]);
    let f = keyword_count_items_in_directory(&p).unwrap_err();
    assert_eq!(f.code, 400);
    assert_eq!(
        f.message,
        "Keyword 'Count Items In Directory' expects (string...), got (string, double)."
    );
}

#[test]
fn validator_rejects_other_responses() {
    let v = keyword_addone(&params(vec![Value::Int(88)]));
    assert!(!validate_response_success_return_i32(&v));
    let v = keyword_addone(&params(vec![Value::Int(0)]));
    assert!(validate_response_success_return_i32(&v));
    let f = keyword_addone(&params(vec![]));
    assert!(!validate_response_success_return_i32(&f));
}
