use robot_remote_server::counter::{keyword_next_value, Counter};
use robot_remote_server::dispatcher::{KeywordDispatcher, KeywordKind};
use robot_remote_server::keywords::validate_response_success_return_i32;
use robot_remote_server::{HandlerResult, Value};

fn text(v: &Value) -> String {
    match v {
        Value::Str(s) => s.clone(),
        other => panic!("not a string: {:?}", other),
    }
}

fn names(v: &Value) -> Vec<String> {
    match v {
        Value::Array(items) => items.iter().map(text).collect(),
        other => panic!("not an array: {:?}", other),
    }
}

fn call(d: &KeywordDispatcher, name: &str, args: Vec<Value>, counter: &mut Counter) -> HandlerResult {
    let params = vec![Value::Str(String::from(name)), Value::Array(args)];
    d.run_keyword_handler(&params, counter)
}

#[test]
fn test_get_keyword_names_handler() {
    let d = KeywordDispatcher::standard();
    let val = &vec![Value::Str(String::from("nope"))];
    let response = d.get_keyword_names_handler(val);
    let mut response_expect = vec![
        "Addone".to_string(),
        "Strings Should Be Equal".to_string(),
        "Count Items In Directory".to_string(),
    ];
    let mut themap: Vec<String> = names(&response.expect("Can't parse response"));
    response_expect.sort();
    themap.sort();
    assert_eq!(response_expect, themap);
}

#[test]
fn test_run_keyword_handler_with_count_items_in_directory() {
    let d = KeywordDispatcher::standard();
    let dir = String::from("/home/micha/Repos/robot-remote-server-rs/tests/PythonRemoteServer_example");
    let params = vec![
        Value::Str(String::from("Count Items In Directory")),
        Value::Array(vec![Value::Str(dir)]),
    ];
    let mut counter = Counter::new(0);
    let response: HandlerResult = d.run_keyword_handler(&params, &mut counter);
    assert!(validate_response_success_return_i32(&response));
}

#[test]
fn keyword_names_are_stable_and_in_registration_order() {
    let d = KeywordDispatcher::standard();
    let first = names(&d.get_keyword_names_handler(&[]).unwrap());
    let second = names(&d.get_keyword_names_handler(&[Value::Int(3)]).unwrap());
    assert_eq!(first, second);
    assert_eq!(first, vec!["Addone", "Strings Should Be Equal", "Count Items In Directory"]);
}

#[test]
fn empty_registry_has_no_names() {
    let d = KeywordDispatcher::new();
    assert!(names(&d.get_keyword_names_handler(&[]).unwrap()).is_empty());
    assert!(d.keys().is_empty());
    assert!(d.get("Addone").is_none());
}

#[test]
fn insert_replaces_in_place() {
    let mut d = KeywordDispatcher::new();
    assert!(!d.insert("A", KeywordKind::Addone));
    assert!(!d.insert("B", KeywordKind::NextValue));
    assert!(d.insert("A", KeywordKind::CountItemsInDirectory));
    assert_eq!(d.keys(), vec!["A".to_string(), "B".to_string()]);
    assert_eq!(d.get("A"), Some(KeywordKind::CountItemsInDirectory));
    assert_eq!(d.get("B"), Some(KeywordKind::NextValue));
    assert_eq!(d.get("a"), None);
}

#[test]
fn addone_through_dispatcher() {
    let d = KeywordDispatcher::standard();
    let mut counter = Counter::new(0);
    let v = call(&d, "Addone", vec![Value::Int(88)], &mut counter).unwrap();
    assert_eq!(text(v.field("status").unwrap()), "PASS");
    assert!(matches!(v.field("return"), Some(Value::Int(89))));
    assert_eq!(text(v.field("output").unwrap()), "Adding one to 88");
}

#[test]
fn strings_through_dispatcher() {
    let d = KeywordDispatcher::standard();
    let mut counter = Counter::new(0);
    let args = vec![Value::Str(String::from("Fail")), Value::Str(String::from("Equal"))];
    let v = call(&d, "Strings Should Be Equal", args, &mut counter).unwrap();
    assert_eq!(text(v.field("status").unwrap()), "FAIL");
    assert_eq!(text(v.field("output").unwrap()), "Comparing 'Fail' to 'Equal'.");
    assert_eq!(text(v.field("error").unwrap()), "Given strings are not equal.");
    assert!(v.field("traceback").is_some());
}

#[test]
fn unknown_keyword_is_fault_naming_it() {
    let d = KeywordDispatcher::standard();
    let mut counter = Counter::new(0);
    let f = call(&d, "Frobnicate", vec![], &mut counter).unwrap_err();
    assert_eq!(f.code, 404);
    assert_eq!(f.message, "No keyword named 'Frobnicate'.");
    assert!(f.message.contains("Frobnicate"));
}

#[test]
fn keyword_names_are_case_exact() {
    let d = KeywordDispatcher::standard();
    let mut counter = Counter::new(0);
    let f = call(&d, "addone", vec![Value::Int(1)], &mut counter).unwrap_err();
    assert_eq!(f.code, 404);
}

#[test]
fn wrong_arguments_through_dispatcher_are_fault() {
    let d = KeywordDispatcher::standard();
    let mut counter = Counter::new(0);
    let f = call(&d, "Addone", vec![Value::Int(1), Value::Int(2)], &mut counter).unwrap_err();
    assert_eq!(f.code, 400);
    assert_eq!(f.message, "Keyword 'Addone' expects (i4), got (i4, i4).");
    let f = call(&d, "Strings Should Be Equal", vec![Value::Int(1)], &mut counter).unwrap_err();
    assert_eq!(f.code, 400);
}

#[test]
fn malformed_call_is_fault() {
    let d = KeywordDispatcher::standard();
    let mut counter = Counter::new(0);
    let f = d.run_keyword_handler(&[Value::Str(String::from("Addone"))], &mut counter).unwrap_err();
    assert_eq!(f.code, 400);
    assert_eq!(f.message, "run_keyword expects (string, array), got (string).");
    let f = d.run_keyword_handler(&[Value::Int(1), Value::Array(vec![])], &mut counter).unwrap_err();
    assert_eq!(f.message, "run_keyword expects (string, array), got (i4, array).");
}

#[test]
fn counter_hands_out_successive_values() {
    let mut d = KeywordDispatcher::standard();
    d.insert("Next Value", KeywordKind::NextValue);
    let mut counter = Counter::new(7);
    let mut seen = Vec::new();
    for _ in 0..5 {
        let v = call(&d, "Next Value", vec![], &mut counter).unwrap();
        match v.field("return") {
            Some(Value::Int(n)) => seen.push(*n),
            other => panic!("no integer returned: {:?}", other),
        }
    }
    assert_eq!(seen, vec![7, 8, 9, 10, 11]);
}

#[test]
fn counter_behind_a_lock_hands_out_each_value_once() {
    let counter = std::sync::Mutex::new(Counter::new(100));
    let mut seen = Vec::new();
    for _caller in 0..8 {
        for _ in 0..25 {
            let r = keyword_next_value(&Value::Array(vec![]), &mut counter.lock().unwrap());
            match r.unwrap().field("return") {
                Some(Value::Int(n)) => seen.push(*n),
                other => panic!("no integer returned: {:?}", other),
            }
        }
    }
    seen.sort();
    assert_eq!(seen, (100..300).collect::<Vec<i32>>());
}

#[test]
fn counter_exhausted_fails() {
    let mut counter = Counter::new(i32::MAX);
    let v = keyword_next_value(&Value::Array(vec![]), &mut counter).unwrap();
    assert!(matches!(v.field("return"), Some(Value::Int(i32::MAX))));
    let v = keyword_next_value(&Value::Array(vec![]), &mut counter).unwrap();
    assert_eq!(text(v.field("status").unwrap()), "FAIL");
    assert_eq!(text(v.field("error").unwrap()), "The counter has no value left.");
}

#[test]
fn counter_with_arguments_is_fault_and_keeps_value() {
    let mut counter = Counter::new(3);
    let f = keyword_next_value(&Value::Array(vec![Value::Int(1)]), &mut counter).unwrap_err();
    assert_eq!(f.code, 400);
    assert_eq!(f.message, "Keyword 'Next Value' expects (), got (i4).");
    assert_eq!(counter.next_value(), Some(3));
}
