use workflow_engine::context::Context;
use workflow_engine::utils::{set_string_var, str_eq};
use workflow_engine::value::Value;

fn str_value(ctx: &Context, name: &str) -> String {
    match ctx.get_variable(name) {
        Some(Value::Str(s)) => s.clone(),
        other => panic!("expected a string for {}, got {:?}", name, other),
    }
}

#[test]
fn set_and_get_variable() {
    let mut ctx = Context::new();
    assert!(ctx.get_variable("x").is_none());
    ctx.set_variable("x", Value::Int(1));
    match ctx.get_variable("x") {
        Some(Value::Int(1)) => {}
        other => panic!("unexpected: {:?}", other),
    }
}

#[test]
fn set_variable_overwrites() {
    let mut ctx = Context::new();
    ctx.set_variable("x", Value::Int(1));
    ctx.set_variable("x", Value::Str("two".to_string()));
    assert_eq!(str_value(&ctx, "x"), "two");
}

#[test]
fn with_inputs_seeds_all_bindings() {
    let inputs = vec![
        ("a".to_string(), Value::Null),
        ("b".to_string(), Value::Bool(true)),
        ("c".to_string(), Value::Int(7)),
        ("d".to_string(), Value::Str("hey".to_string())),
    ];
    let ctx = Context::with_inputs(&inputs);
    assert!(matches!(ctx.get_variable("a"), Some(Value::Null)));
    assert!(matches!(ctx.get_variable("b"), Some(Value::Bool(true))));
    assert!(matches!(ctx.get_variable("c"), Some(Value::Int(7))));
    assert_eq!(str_value(&ctx, "d"), "hey");
    assert!(ctx.get_variable("e").is_none());
}

#[test]
fn with_inputs_last_binding_wins() {
    let inputs = vec![
        ("a".to_string(), Value::Int(1)),
        ("a".to_string(), Value::Int(2)),
    ];
    let ctx = Context::with_inputs(&inputs);
    assert!(matches!(ctx.get_variable("a"), Some(Value::Int(2))));
}

#[test]
fn set_string_var_binds_string() {
    let mut ctx = Context::new();
    set_string_var("name", "value", &mut ctx);
    assert_eq!(str_value(&ctx, "name"), "value");
}

#[test]
fn evaluate_bool_arithmetic() {
    let mut ctx = Context::new();
    ctx.set_variable("x", Value::Int(10));
    assert_eq!(ctx.evaluate_bool("x > 5"), Ok(true));
    assert_eq!(ctx.evaluate_bool("x > 50"), Ok(false));
}

#[test]
fn evaluate_bool_failure_is_recoverable() {
    let ctx = Context::new();
    assert!(ctx.evaluate_bool("nosuchvar > 5").is_err());
    assert!(ctx.evaluate_bool("*garbage*").is_err());
}

#[test]
fn evaluate_str_reads_variables() {
    let mut ctx = Context::new();
    ctx.set_variable("greeting", Value::Str("hi".to_string()));
    assert_eq!(ctx.evaluate_str("greeting"), Ok("hi".to_string()));
    assert_eq!(ctx.evaluate_str("greeting + \" there\""), Ok("hi there".to_string()));
}

#[test]
fn evaluating_does_not_mutate_the_context() {
    let mut ctx = Context::new();
    ctx.set_variable("x", Value::Int(1));
    // Even an assigning script only touches the throwaway scope.
    let _ = ctx.evaluate_str("x = 99; \"done\"");
    assert!(matches!(ctx.get_variable("x"), Some(Value::Int(1))));
}

#[test]
fn read_only_evaluation_is_idempotent() {
    let mut ctx = Context::new();
    ctx.set_variable("x", Value::Int(21));
    let first = ctx.evaluate_str("(x * 2).to_string()");
    let second = ctx.evaluate_str("(x * 2).to_string()");
    assert_eq!(first, second);
    assert_eq!(first, Ok("42".to_string()));
    let b1 = ctx.evaluate_bool("x == 21");
    let b2 = ctx.evaluate_bool("x == 21");
    assert_eq!(b1, b2);
    assert_eq!(b1, Ok(true));
}

#[test]
fn str_eq_compares_by_characters() {
    assert!(str_eq("abc", "abc"));
    assert!(!str_eq("abc", "abd"));
    assert!(!str_eq("abc", "ab"));
    assert!(str_eq("", ""));
}

#[test]
fn value_duplicate_copies_the_value() {
    let v = Value::Str("text".to_string());
    match v.duplicate() {
        Value::Str(s) => assert_eq!(s, "text"),
        other => panic!("unexpected: {:?}", other),
    }
    assert!(matches!(Value::Null.duplicate(), Value::Null));
    assert!(matches!(Value::Int(-3).duplicate(), Value::Int(-3)));
    assert!(matches!(Value::Bool(false).duplicate(), Value::Bool(false)));
}
