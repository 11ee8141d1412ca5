//! Statement grammar: local declarations, control flow, the desugaring
//! of `while` and `for` into `loop`, `switch` fallthrough, and the
//! placement rules for `break if`.

use wgsl_parse::arena::Handle;
use wgsl_parse::ast::{
    Block, Expression, GlobalDeclKind, LocalDecl, Statement, StatementKind, SwitchValue,
    TranslationUnit, UnaryOperator,
};
use wgsl_parse::error::Error;
use wgsl_parse::parser::Parser;

fn parse(src: &str) -> Result<TranslationUnit, Error> {
    let mut p = Parser::new();
    p.parse(src.as_bytes())
}

fn first_fn_body(tu: &TranslationUnit) -> &Block {
    match &tu.decls.get(Handle { index: 0 }).kind {
        GlobalDeclKind::Fn(f) => &f.body,
        other => panic!("expected a function declaration, got {:?}", other),
    }
}

#[test]
fn local_declarations_parse_in_order() {
    let tu = parse("fn f() { let a = 1; const b = 2; var c: u32; }").unwrap();
    let body = first_fn_body(&tu);
    assert_eq!(body.stmts.len(), 3);
    assert!(matches!(&body.stmts[0].kind, StatementKind::LocalDecl(LocalDecl::Let(_))));
    assert!(matches!(&body.stmts[1].kind, StatementKind::LocalDecl(LocalDecl::Const(_))));
    assert!(matches!(&body.stmts[2].kind, StatementKind::LocalDecl(LocalDecl::Var(_))));
}

#[test]
fn else_if_chain_folds_into_nested_ifs() {
    let tu = parse("fn f() { if a { } else if b { } else { return; } }").unwrap();
    let body = first_fn_body(&tu);
    match &body.stmts[0].kind {
        StatementKind::If { reject, .. } => {
            assert_eq!(reject.stmts.len(), 1);
            match &reject.stmts[0].kind {
                StatementKind::If { reject: inner_reject, .. } => {
                    assert_eq!(inner_reject.stmts.len(), 1);
                    assert!(matches!(
                        &inner_reject.stmts[0].kind,
                        StatementKind::Return { value: None }
                    ));
                },
                other => panic!("expected the folded else-if, got {:?}", other),
            }
        },
        other => panic!("expected an if statement, got {:?}", other),
    }
}

#[test]
fn while_desugars_to_loop_with_leading_conditional_break() {
    let tu = parse("fn f() { while c { g(); } }").unwrap();
    let body = first_fn_body(&tu);
    match &body.stmts[0].kind {
        StatementKind::Loop { body: loop_body, continuing, break_if } => {
            assert!(break_if.is_none());
            assert!(continuing.stmts.is_empty());
            assert_eq!(loop_body.stmts.len(), 2);
            match &loop_body.stmts[0].kind {
                StatementKind::If { accept, reject, .. } => {
                    assert!(accept.stmts.is_empty());
                    assert_eq!(reject.stmts.len(), 1);
                    assert!(matches!(&reject.stmts[0].kind, StatementKind::Break));
                },
                other => panic!("expected the conditional break first, got {:?}", other),
            }
            assert!(matches!(&loop_body.stmts[1].kind, StatementKind::Block(_)));
        },
        other => panic!("expected a loop, got {:?}", other),
    }
}

#[test]
fn for_desugars_with_update_in_continuing() {
    let tu = parse("fn f() { for (var i = 0; i < n; i++) { g(); } }").unwrap();
    let body = first_fn_body(&tu);
    // the initializer lands in the enclosing block, before the loop
    assert_eq!(body.stmts.len(), 2);
    assert!(matches!(&body.stmts[0].kind, StatementKind::LocalDecl(LocalDecl::Var(_))));
    match &body.stmts[1].kind {
        StatementKind::Loop { body: loop_body, continuing, break_if } => {
            assert!(break_if.is_none());
            assert_eq!(loop_body.stmts.len(), 2);
            match &loop_body.stmts[0].kind {
                StatementKind::If { condition, accept, reject } => {
                    assert!(accept.stmts.is_empty());
                    assert_eq!(reject.stmts.len(), 1);
                    assert!(matches!(&reject.stmts[0].kind, StatementKind::Break));
                    // the break triggers when `i < n` no longer holds
                    assert!(matches!(
                        tu.expressions.get(*condition),
                        Expression::Binary { .. }
                    ));
                },
                other => panic!("expected the conditional break first, got {:?}", other),
            }
            assert_eq!(continuing.stmts.len(), 1);
            assert!(matches!(&continuing.stmts[0].kind, StatementKind::Increment(_)));
        },
        other => panic!("expected a loop, got {:?}", other),
    }
}

#[test]
fn for_initializer_name_is_invisible_outside() {
    // `i` exists inside the loop, so a second `i` after it is fresh
    let src = "fn f() { for (var i = 0; i < 2; i++) { } let i = 3; }";
    assert!(parse(src).is_ok());
}

#[test]
fn switch_selector_lists_share_a_body_by_fallthrough() {
    let tu = parse("fn f() { switch s { case 1, 2: { } default: { } } }").unwrap();
    let body = first_fn_body(&tu);
    match &body.stmts[0].kind {
        StatementKind::Switch { cases, .. } => {
            assert_eq!(cases.len(), 3);
            assert!(cases[0].fall_through);
            assert!(cases[0].body.stmts.is_empty());
            assert!(!cases[1].fall_through);
            assert!(matches!(cases[2].value, SwitchValue::Default));
            assert!(!cases[2].fall_through);
        },
        other => panic!("expected a switch, got {:?}", other),
    }
}

#[test]
fn loop_with_continuing_and_break_if() {
    let tu = parse("fn f() { loop { g(); continuing { h(); break if x; } } }").unwrap();
    let body = first_fn_body(&tu);
    match &body.stmts[0].kind {
        StatementKind::Loop { body: loop_body, continuing, break_if } => {
            assert_eq!(loop_body.stmts.len(), 1);
            assert_eq!(continuing.stmts.len(), 1);
            assert!(break_if.is_some());
        },
        other => panic!("expected a loop, got {:?}", other),
    }
}

#[test]
fn break_if_outside_continuing_is_rejected() {
    match parse("fn f() { loop { break if x; } }") {
        Err(Error::InvalidBreakIf(_)) => {},
        other => panic!("expected the break-if position error, got {:?}", other),
    }
}

#[test]
fn phony_assignment_evaluates_an_expression() {
    let tu = parse("fn f() { _ = g(); }").unwrap();
    let body = first_fn_body(&tu);
    assert!(matches!(&body.stmts[0].kind, StatementKind::Phony(_)));
}

#[test]
fn compound_assignment_keeps_its_operator() {
    let tu = parse("fn f() { var a = 1; a += 2; a--; }").unwrap();
    let body = first_fn_body(&tu);
    match &body.stmts[1].kind {
        StatementKind::Assign { op, .. } => {
            assert_eq!(*op, Some(wgsl_parse::ast::BinaryOperator::Add));
        },
        other => panic!("expected a compound assignment, got {:?}", other),
    }
    assert!(matches!(&body.stmts[2].kind, StatementKind::Decrement(_)));
}

#[test]
fn call_statement_is_distinguished_from_assignment() {
    let tu = parse("fn f() { g(1); }").unwrap();
    let body = first_fn_body(&tu);
    match &body.stmts[0].kind {
        StatementKind::Call { function, arguments } => {
            assert_eq!(function.name.as_slice(), b"g");
            assert_eq!(arguments.len(), 1);
        },
        other => panic!("expected a call statement, got {:?}", other),
    }
}

#[test]
fn discard_and_continue_parse() {
    let tu = parse("fn f() { loop { continue; } discard; }").unwrap();
    let body = first_fn_body(&tu);
    assert!(matches!(&body.stmts[1].kind, StatementKind::Kill));
}

#[test]
fn const_assert_statement_parses_with_or_without_parens() {
    let tu = parse("fn f() { const_assert(true); const_assert true;}").unwrap();
    let body = first_fn_body(&tu);
    assert!(matches!(&body.stmts[0].kind, StatementKind::ConstAssert(_)));
    assert!(matches!(&body.stmts[1].kind, StatementKind::ConstAssert(_)));
}

#[test]
fn statement_spans_cover_their_text() {
    let src = "fn f() { return; }";
    let tu = parse(src).unwrap();
    let body = first_fn_body(&tu);
    let Statement { span, .. } = &body.stmts[0];
    assert_eq!(&src[span.start..span.end], "return;");
}

#[test]
fn negated_condition_in_while_is_the_written_expression() {
    let tu = parse("fn f() { while !done { } }").unwrap();
    let body = first_fn_body(&tu);
    match &body.stmts[0].kind {
        StatementKind::Loop { body: loop_body, .. } => match &loop_body.stmts[0].kind {
            StatementKind::If { condition, .. } => {
                match tu.expressions.get(*condition) {
                    Expression::Unary { op, .. } => assert_eq!(*op, UnaryOperator::LogicalNot),
                    other => panic!("expected the written negation, got {:?}", other),
                }
            },
            other => panic!("expected the conditional break, got {:?}", other),
        },
        other => panic!("expected a loop, got {:?}", other),
    }
}
