use corepc_node::serde_json::{Number, Value};
use electrsd::node::{needs_block, node_needs_block};

fn object(members: Vec<(&str, Value)>) -> Value {
    let mut map = corepc_node::serde_json::Map::new();
    for (name, value) in members {
        map.insert(String::from(name), value);
    }
    Value::Object(map)
}

#[test]
fn only_a_plain_yes_asks_for_a_block() {
    assert!(needs_block(Some(true)));
    assert!(!needs_block(Some(false)));
    assert!(!needs_block(None));
}

#[test]
fn the_flag_is_read_from_the_answer() {
    assert!(node_needs_block(&object(vec![("initialblockdownload", Value::Bool(true))])));
    assert!(!node_needs_block(&object(vec![("initialblockdownload", Value::Bool(false))])));
    assert!(node_needs_block(&object(vec![
        ("chain", Value::String(String::from("regtest"))),
        ("blocks", Value::Number(Number::from(0))),
        ("initialblockdownload", Value::Bool(true)),
    ])));
}

#[test]
fn an_answer_without_the_flag_asks_for_nothing() {
    assert!(!node_needs_block(&object(vec![])));
    assert!(!node_needs_block(&object(vec![("verificationprogress", Value::Bool(true))])));
    assert!(!node_needs_block(&Value::Null));
    assert!(!node_needs_block(&Value::Bool(true)));
    assert!(!node_needs_block(&Value::Array(vec![Value::Bool(true)])));
}

#[test]
fn a_flag_that_is_no_boolean_asks_for_nothing() {
    assert!(!node_needs_block(&object(vec![(
        "initialblockdownload",
        Value::String(String::from("true"))
    )])));
    assert!(!node_needs_block(&object(vec![("initialblockdownload", Value::Number(Number::from(1)))])));
    assert!(!node_needs_block(&object(vec![("initialblockdownload", Value::Null)])));
}
