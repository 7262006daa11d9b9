use serene_ast::ast::Expr;
use serene_ast::types::Number;

#[test]
fn make_symbol_wraps_unchanged() {
    let e = Expr::make_symbol("foo".to_string());
    match e {
        Expr::Sym(s) => assert_eq!(s.name, "foo"),
        _ => panic!("expected a symbol node"),
    }
}

#[test]
fn make_string_wraps_unchanged() {
    let e = Expr::make_string("hello world".to_string());
    match e {
        Expr::Str(s) => assert_eq!(s, "hello world"),
        _ => panic!("expected a string node"),
    }
}

#[test]
fn make_number_wraps_unchanged() {
    let e = Expr::make_number(Number::new(42));
    match e {
        Expr::Num(n) => assert_eq!(n.value, 42),
        _ => panic!("expected a number node"),
    }
}

#[test]
fn make_list_yields_cons_with_head_and_tail() {
    let a = Expr::make_symbol("a".to_string());
    let b = Expr::make_string("b".to_string());
    let e = Expr::make_list(a.clone(), b.clone());
    match e {
        Expr::Cons(l) => {
            assert_eq!(*l.head, a);
            assert_eq!(*l.tail, b);
        },
        _ => panic!("expected a pair node"),
    }
}

#[test]
fn two_element_list_traverses_to_nil() {
    let v1 = Expr::make_number(Number::new(1));
    let v2 = Expr::make_number(Number::new(2));
    let list = Expr::make_list(v1.clone(), Expr::make_list(v2.clone(), Expr::Nil));
    let (elems, proper) = list.list_elements();
    assert_eq!(elems.len(), 2);
    assert_eq!(elems[0], v1);
    assert_eq!(elems[1], v2);
    assert!(proper);
}

#[test]
fn chain_not_ending_in_nil_is_improper() {
    let v1 = Expr::make_number(Number::new(1));
    let list = Expr::make_list(v1.clone(), Expr::make_string("tail".to_string()));
    let (elems, proper) = list.list_elements();
    assert_eq!(elems.len(), 1);
    assert_eq!(elems[0], v1);
    assert!(!proper);
}

#[test]
fn nil_traverses_as_empty_proper_list() {
    let (elems, proper) = Expr::Nil.list_elements();
    assert!(elems.is_empty());
    assert!(proper);
}

#[test]
fn independently_built_trees_compare_equal() {
    let first = Expr::make_list(
        Expr::make_symbol("print".to_string()),
        Expr::make_list(Expr::make_number(Number::new(7)), Expr::Nil),
    );
    let second = Expr::make_list(
        Expr::make_symbol("print".to_string()),
        Expr::make_list(Expr::make_number(Number::new(7)), Expr::Nil),
    );
    assert_eq!(first, second);
    assert!(first.deep_eq(&second));
}

#[test]
fn differing_leaf_payload_makes_trees_unequal() {
    let first = Expr::make_list(
        Expr::make_symbol("print".to_string()),
        Expr::make_list(Expr::make_number(Number::new(7)), Expr::Nil),
    );
    let second = Expr::make_list(
        Expr::make_symbol("print".to_string()),
        Expr::make_list(Expr::make_number(Number::new(8)), Expr::Nil),
    );
    assert_ne!(first, second);
    assert!(!first.deep_eq(&second));
}

#[test]
fn differing_variants_make_trees_unequal() {
    assert_ne!(Expr::make_symbol("x".to_string()), Expr::make_string("x".to_string()));
    assert_ne!(Expr::Comment, Expr::Nil);
}

#[test]
fn no_match_never_equals_nil() {
    assert_ne!(Expr::NoMatch, Expr::Nil);
}

#[test]
fn no_match_never_equals_error() {
    assert_ne!(Expr::NoMatch, Expr::Error("".to_string()));
    assert_ne!(Expr::NoMatch, Expr::Error("NoMatch".to_string()));
    assert_ne!(Expr::NoMatch, Expr::Error("anything at all".to_string()));
}

#[test]
fn clone_is_a_deep_structural_copy() {
    let tree = Expr::make_list(
        Expr::make_symbol("head".to_string()),
        Expr::make_list(Expr::make_string("mid".to_string()), Expr::Nil),
    );
    let copy = tree.clone();
    assert_eq!(tree, copy);
}
