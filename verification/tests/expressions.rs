//! Expression grammar: precedence, associativity, unary and postfix
//! chains, calls, and the generic-versus-comparison reading of angle
//! brackets.

use wgsl_parse::arena::Handle;
use wgsl_parse::ast::{
    BinaryOperator, Expression, GlobalDeclKind, IdentExpr, Literal, TranslationUnit, UnaryOperator,
};
use wgsl_parse::error::Error;
use wgsl_parse::parser::Parser;
use wgsl_parse::token::Number;

fn parse(src: &str) -> Result<TranslationUnit, Error> {
    let mut p = Parser::new();
    p.parse(src.as_bytes())
}

fn first_const_init(tu: &TranslationUnit) -> Handle {
    match &tu.decls.get(Handle { index: 0 }).kind {
        GlobalDeclKind::Const(c) => c.init,
        other => panic!("expected a const declaration, got {:?}", other),
    }
}

fn expr<'a>(tu: &'a TranslationUnit, h: Handle) -> &'a Expression {
    tu.expressions.get(h)
}

fn as_abstract_int(tu: &TranslationUnit, h: Handle) -> i64 {
    match expr(tu, h) {
        Expression::Literal(Literal::Number(Number::AbstractInt(v))) => *v,
        other => panic!("expected an integer literal, got {:?}", other),
    }
}

#[test]
fn multiplication_binds_tighter_than_addition() {
    let tu = parse("const x = 1 + 2 * 3;").unwrap();
    let root = first_const_init(&tu);
    match expr(&tu, root) {
        Expression::Binary { op, left, right } => {
            assert_eq!(*op, BinaryOperator::Add);
            assert_eq!(as_abstract_int(&tu, *left), 1);
            match expr(&tu, *right) {
                Expression::Binary { op, left, right } => {
                    assert_eq!(*op, BinaryOperator::Multiply);
                    assert_eq!(as_abstract_int(&tu, *left), 2);
                    assert_eq!(as_abstract_int(&tu, *right), 3);
                },
                other => panic!("expected the product on the right, got {:?}", other),
            }
        },
        other => panic!("expected a sum at the root, got {:?}", other),
    }
}

#[test]
fn comparisons_bind_tighter_than_logical_and() {
    let tu = parse("const x = 1 < 2 && 3 > 4;").unwrap();
    let root = first_const_init(&tu);
    match expr(&tu, root) {
        Expression::Binary { op, left, right } => {
            assert_eq!(*op, BinaryOperator::LogicalAnd);
            match expr(&tu, *left) {
                Expression::Binary { op, .. } => assert_eq!(*op, BinaryOperator::Less),
                other => panic!("expected a comparison on the left, got {:?}", other),
            }
            match expr(&tu, *right) {
                Expression::Binary { op, .. } => assert_eq!(*op, BinaryOperator::Greater),
                other => panic!("expected a comparison on the right, got {:?}", other),
            }
        },
        other => panic!("expected a conjunction at the root, got {:?}", other),
    }
}

#[test]
fn subtraction_associates_to_the_left() {
    let tu = parse("const x = a - b - c;").unwrap();
    let root = first_const_init(&tu);
    match expr(&tu, root) {
        Expression::Binary { op, left, right } => {
            assert_eq!(*op, BinaryOperator::Subtract);
            match expr(&tu, *right) {
                Expression::Ident(IdentExpr::Unresolved(n)) => assert_eq!(n.as_slice(), b"c"),
                other => panic!("expected the last operand on the right, got {:?}", other),
            }
            match expr(&tu, *left) {
                Expression::Binary { op, .. } => assert_eq!(*op, BinaryOperator::Subtract),
                other => panic!("expected the inner difference on the left, got {:?}", other),
            }
        },
        other => panic!("expected a difference at the root, got {:?}", other),
    }
}

#[test]
fn shifts_bind_looser_than_addition() {
    let tu = parse("const x = 1 << 2 + 3;").unwrap();
    let root = first_const_init(&tu);
    match expr(&tu, root) {
        Expression::Binary { op, .. } => assert_eq!(*op, BinaryOperator::ShiftLeft),
        other => panic!("expected a shift at the root, got {:?}", other),
    }
}

#[test]
fn parentheses_override_precedence() {
    let tu = parse("const x = (1 + 2) * 3;").unwrap();
    let root = first_const_init(&tu);
    match expr(&tu, root) {
        Expression::Binary { op, left, .. } => {
            assert_eq!(*op, BinaryOperator::Multiply);
            match expr(&tu, *left) {
                Expression::Binary { op, .. } => assert_eq!(*op, BinaryOperator::Add),
                other => panic!("expected the sum inside the parens, got {:?}", other),
            }
        },
        other => panic!("expected a product at the root, got {:?}", other),
    }
}

#[test]
fn prefix_operators_nest() {
    let tu = parse("const x = -!y;").unwrap();
    let root = first_const_init(&tu);
    match expr(&tu, root) {
        Expression::Unary { op, expr: inner } => {
            assert_eq!(*op, UnaryOperator::Negate);
            match expr(&tu, *inner) {
                Expression::Unary { op, .. } => assert_eq!(*op, UnaryOperator::LogicalNot),
                other => panic!("expected the logical not inside, got {:?}", other),
            }
        },
        other => panic!("expected a negation at the root, got {:?}", other),
    }
}

#[test]
fn postfix_chain_applies_left_to_right() {
    let tu = parse("const x = v.field[0];").unwrap();
    let root = first_const_init(&tu);
    match expr(&tu, root) {
        Expression::Index { base, index } => {
            assert_eq!(as_abstract_int(&tu, *index), 0);
            match expr(&tu, *base) {
                Expression::Member { field, .. } => assert_eq!(field.name.as_slice(), b"field"),
                other => panic!("expected the member access below, got {:?}", other),
            }
        },
        other => panic!("expected the index at the root, got {:?}", other),
    }
}

#[test]
fn call_records_a_dependency() {
    let tu = parse("const x = foo(1, 2);").unwrap();
    let root = first_const_init(&tu);
    match expr(&tu, root) {
        Expression::Call { function, arguments } => {
            assert_eq!(function.name.as_slice(), b"foo");
            assert_eq!(arguments.len(), 2);
        },
        other => panic!("expected a call at the root, got {:?}", other),
    }
    let decl = tu.decls.get(Handle { index: 0 });
    assert!(decl.dependencies.iter().any(|d| d.ident.as_slice() == b"foo"));
}

#[test]
fn bitcast_takes_a_generic_target_type() {
    let tu = parse("const x = bitcast<u32>(1);").unwrap();
    let root = first_const_init(&tu);
    assert!(matches!(expr(&tu, root), Expression::Bitcast { .. }));
}

#[test]
fn construction_expression_carries_its_components() {
    let tu = parse("const x = vec2<f32>(0, 1);").unwrap();
    let root = first_const_init(&tu);
    match expr(&tu, root) {
        Expression::Construct { components, .. } => assert_eq!(components.len(), 2),
        other => panic!("expected a construction, got {:?}", other),
    }
}

#[test]
fn double_close_of_generic_lists_splits_the_shift_token() {
    assert!(parse("alias a = array<vec2<f32>>;").is_ok());
}

#[test]
fn named_constants_become_unsigned_literals() {
    let tu = parse("const x = RAY_FLAG_TERMINATE_ON_FIRST_HIT;").unwrap();
    let root = first_const_init(&tu);
    match expr(&tu, root) {
        Expression::Literal(Literal::Number(Number::U32(v))) => assert_eq!(*v, 4),
        other => panic!("expected an unsigned literal, got {:?}", other),
    }
}

#[test]
fn boolean_literals_parse() {
    let tu = parse("const x = true || false;").unwrap();
    let root = first_const_init(&tu);
    match expr(&tu, root) {
        Expression::Binary { op, left, right } => {
            assert_eq!(*op, BinaryOperator::LogicalOr);
            assert!(matches!(expr(&tu, *left), Expression::Literal(Literal::Bool(true))));
            assert!(matches!(expr(&tu, *right), Expression::Literal(Literal::Bool(false))));
        },
        other => panic!("expected a disjunction, got {:?}", other),
    }
}

#[test]
fn address_of_and_dereference_parse() {
    let tu = parse("const x = *&y;").unwrap();
    let root = first_const_init(&tu);
    match expr(&tu, root) {
        Expression::Deref(inner) => {
            assert!(matches!(expr(&tu, *inner), Expression::AddrOf(_)));
        },
        other => panic!("expected a dereference at the root, got {:?}", other),
    }
}
