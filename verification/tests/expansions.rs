use std::io::Write;

use rust_macros::arith::{compare, one_and_one, one_plus_one, ArithKeyword};
use rust_macros::enums::Verb;
use rust_macros::mocks::{HelloWorld, Speak, Tell};
use rust_macros::patterns::{strange_patterns, TokenShape};
use rust_macros::printer::print_debug;
use rust_macros::repeat::n_times;
use rust_macros::sets::{set_of, StrSet};
use rust_macros::web::{web_get, web_post};
use rust_macros::{register_handler, Response};

/// Expansion of the aggregate-plus-constructor rule set, invoked with a
/// float-valued field; the constructor takes one argument per listed field.
#[derive(Clone, Debug, PartialEq)]
pub struct Sensordata {
    pub value: f32,
    pub timestamp: u64,
}

impl Sensordata {
    pub fn new(value: f32, timestamp: u64) -> Self {
        Sensordata {
            value,
            timestamp,
        }
    }
}

/// Expansion of the named-function rule set: a zero-argument function whose
/// body is the given block.
fn fail() {
    assert!(false);
}

#[test]
fn test_dto() {
    let s = Sensordata::new(1.23f32, 123456);
    assert_eq!(s.value, 1.23f32);
    assert_eq!(s.timestamp, 123456);
}

#[test]
fn test_set() {
    let actual = set_of(&vec![
        "a".to_string(),
        "b".to_string(),
        "c".to_string(),
        "a".to_string(),
    ]);
    let mut desired = StrSet::new();
    desired.insert("a".to_string());
    desired.insert("b".to_string());
    desired.insert("c".to_string());
    assert_eq!(actual, desired);
}

#[test]
fn test_mock() {
    let mystr = "".to_owned();
    assert_eq!(mystr.tell(), "Hi!");

    let mynum = 67.to_owned();
    assert_eq!(mynum.speak(), "Number");

    let g = HelloWorld {
        greeting: "Hello World".to_owned(),
        when: 1560887098,
    };
    assert_eq!(g.greeting, "Hello World");
    assert_eq!(g.when, 1560887098);
}

#[test]
fn test_strange_patterns() {
    assert_eq!(strange_patterns(TokenShape::Words), "Text");
    assert_eq!(strange_patterns(TokenShape::Number), "Numeric");
    assert_eq!(strange_patterns(TokenShape::Punctuation), "Alpha");
}

#[test]
fn test_compare() {
    assert!(compare(1, 1));
}

#[test]
fn test_web() {
    web_get("/", &|| Response(2020));
    web_post("/", &|| Response(4203));
}

#[test]
#[should_panic]
fn test_failing_make_fn() {
    fail();
}

#[test]
fn test_make_fn() {
    // The generated function exists but is never invoked here.
    let _defined: fn() = fail;
}

#[test]
fn test_printer() {
    let mut err_line: Vec<u8> = vec![];
    print_debug(&mut err_line, &vec!["hello std err".to_string()]);
    let _ = std::io::stderr().write_all(&err_line);

    let mut out_line: Vec<u8> = vec![];
    print_debug(&mut out_line, &vec!["hello std out".to_string()]);
    let _ = std::io::stdout().write_all(&out_line);

    let mut v = vec![];
    print_debug(&mut v, &vec!["a".to_string()]);
    assert_eq!(v, vec![34, 97, 34, 10]);
}

#[test]
fn test_one_plus_one() {
    assert_eq!(one_plus_one(), 2);
}

#[test]
fn test_one_and_one() {
    assert_eq!(one_and_one(ArithKeyword::Plus), 2);
    assert_eq!(one_and_one(ArithKeyword::Minus), 0);
    assert_eq!(one_and_one(ArithKeyword::Mult), 1);
}

#[test]
fn test_compare_unequal() {
    assert!(!compare(1, 2));
}

#[test]
fn test_verb_default_and_codes() {
    assert_eq!(Verb::default(), Verb::Invalid);
    assert_eq!(Verb::Invalid.code(), 0);
    assert_eq!(Verb::Get.code(), 1);
    assert_eq!(Verb::Post.code(), 2);
}

#[test]
fn test_n_times() {
    let r = n_times(5, 0, |x: u64| x + 2);
    assert_eq!(r, 10);
}

#[test]
fn test_n_times_zero() {
    let r = n_times(0, 7, |x: u64| x + 2);
    assert_eq!(r, 7);
}

#[test]
fn test_set_order_insensitive() {
    let a = set_of(&vec![
        "a".to_string(),
        "b".to_string(),
        "c".to_string(),
        "a".to_string(),
    ]);
    let b = set_of(&vec![
        "c".to_string(),
        "b".to_string(),
        "b".to_string(),
        "a".to_string(),
    ]);
    assert_eq!(a, b);
    let c = set_of(&vec!["a".to_string(), "b".to_string()]);
    assert_ne!(a, c);
}

#[test]
fn test_set_contains_and_subset() {
    let a = set_of(&vec!["a".to_string(), "b".to_string()]);
    assert!(a.contains(&"a".to_string()));
    assert!(!a.contains(&"z".to_string()));
    let b = set_of(&vec!["b".to_string(), "a".to_string(), "c".to_string()]);
    assert!(a.subset_of(&b));
    assert!(!b.subset_of(&a));
}

#[test]
fn test_hello_world_constructor() {
    let g = HelloWorld::new("Hello World".to_owned(), 1560887098);
    assert_eq!(g.greeting, "Hello World");
    assert_eq!(g.when, 1560887098);
}

#[test]
fn test_register_handler_runs() {
    register_handler("GET", "/", &|| Response(7));
    let r = Response(7);
    assert_eq!(r.0, 7);
}

#[test]
fn test_printer_several_values() {
    let mut v: Vec<u8> = vec![];
    print_debug(&mut v, &vec!["a".to_string(), "b".to_string()]);
    assert_eq!(v, vec![34, 97, 34, 34, 98, 34, 10]);
}
