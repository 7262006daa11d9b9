use serene_ast::ast::Expr;
use serene_ast::eval::{Env, RuntimeValue};
use serene_ast::types::{Expression, Number};

#[test]
fn symbol_resolves_through_the_environment() {
    let mut env = Env::new();
    env.bind("x".to_string(), RuntimeValue::Num(Number::new(10)));
    let r = Expr::make_symbol("x".to_string()).eval(&env);
    assert_eq!(r, Ok(RuntimeValue::Num(Number::new(10))));
}

#[test]
fn unbound_symbol_fails() {
    let env = Env::new();
    let r = Expr::make_symbol("missing".to_string()).eval(&env);
    assert_eq!(r, Err("unbound symbol".to_string()));
}

#[test]
fn newest_binding_shadows_older_ones() {
    let mut env = Env::new();
    env.bind("x".to_string(), RuntimeValue::Num(Number::new(1)));
    env.bind("y".to_string(), RuntimeValue::EmptyList);
    env.bind("x".to_string(), RuntimeValue::Num(Number::new(2)));
    let r = Expr::make_symbol("x".to_string()).eval(&env);
    assert_eq!(r, Ok(RuntimeValue::Num(Number::new(2))));
    let other = Expr::make_symbol("y".to_string()).eval(&env);
    assert_eq!(other, Ok(RuntimeValue::EmptyList));
}

#[test]
fn literals_self_evaluate() {
    let env = Env::new();
    assert_eq!(
        Expr::make_string("hi".to_string()).eval(&env),
        Ok(RuntimeValue::Str("hi".to_string()))
    );
    assert_eq!(
        Expr::make_number(Number::new(-7)).eval(&env),
        Ok(RuntimeValue::Num(Number::new(-7)))
    );
    assert_eq!(Expr::Nil.eval(&env), Ok(RuntimeValue::EmptyList));
}

#[test]
fn comment_evaluates_to_void() {
    let env = Env::new();
    assert_eq!(Expr::Comment.eval(&env), Ok(RuntimeValue::Void));
}

#[test]
fn no_match_evaluates_to_void() {
    let env = Env::new();
    assert_eq!(Expr::NoMatch.eval(&env), Ok(RuntimeValue::Void));
}

#[test]
fn error_node_propagates_as_failure() {
    let env = Env::new();
    let r = Expr::Error("bad input".to_string()).eval(&env);
    assert_eq!(r, Err("bad input".to_string()));
}

#[test]
fn application_operator_is_not_callable_here() {
    let mut env = Env::new();
    env.bind("f".to_string(), RuntimeValue::Num(Number::new(1)));
    let app = Expr::make_list(Expr::make_symbol("f".to_string()), Expr::Nil);
    let r = app.eval(&env);
    assert_eq!(r, Err("operator is not a callable value".to_string()));
}

#[test]
fn failing_operator_wins_over_not_callable() {
    let env = Env::new();
    let app = Expr::make_list(Expr::Error("x".to_string()), Expr::Nil);
    assert_eq!(app.eval(&env), Err("x".to_string()));
    let unbound = Expr::make_list(Expr::make_symbol("g".to_string()), Expr::Nil);
    assert_eq!(unbound.eval(&env), Err("unbound symbol".to_string()));
}
