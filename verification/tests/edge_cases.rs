//! Remaining corners: the attribute vocabularies, workgroup sizes,
//! switch items, separator rules, numeric literal forms, and the
//! boundary of the nesting counter.

use wgsl_parse::arena::{Handle, Span};
use wgsl_parse::ast::{
    Binding, Block, GlobalDeclKind, Interpolation, Sampling, StatementKind, TranslationUnit,
};
use wgsl_parse::error::{Error, ExpectedToken};
use wgsl_parse::parser::Parser;
use wgsl_parse::stmt::{increase_brace_nesting, loop_shell};
use wgsl_parse::token::{Number, NumberError, Token};

fn parse(src: &str) -> Result<TranslationUnit, Error> {
    let mut p = Parser::new();
    p.parse(src.as_bytes())
}

#[test]
fn an_unknown_builtin_name_is_rejected() {
    match parse("fn f(@builtin(sparkles) x: vec4f) { }") {
        Err(Error::UnknownBuiltin(_)) => {},
        other => panic!("expected the unknown-builtin error, got {:?}", other),
    }
}

#[test]
fn an_unknown_interpolation_is_rejected() {
    match parse("fn f(@interpolate(wavy) x: f32) { }") {
        Err(Error::UnknownInterpolation(_)) => {},
        other => panic!("expected the unknown-interpolation error, got {:?}", other),
    }
}

#[test]
fn an_unknown_sampling_is_rejected() {
    match parse("fn f(@interpolate(flat, sometimes) x: f32) { }") {
        Err(Error::UnknownSampling(_)) => {},
        other => panic!("expected the unknown-sampling error, got {:?}", other),
    }
}

#[test]
fn interpolation_may_carry_a_sampling() {
    let tu = parse("fn f(@location(0) @interpolate(perspective, centroid) x: f32) { }").unwrap();
    match &tu.decls.get(Handle { index: 0 }).kind {
        GlobalDeclKind::Fn(f) => match &f.arguments[0].binding {
            Some(Binding::Location { interpolation, sampling, .. }) => {
                assert_eq!(*interpolation, Some(Interpolation::Perspective));
                assert_eq!(*sampling, Some(Sampling::Centroid));
            },
            other => panic!("expected a location binding, got {:?}", other),
        },
        other => panic!("expected a function, got {:?}", other),
    }
}

#[test]
fn an_unknown_storage_access_is_rejected() {
    match parse("@group(0) @binding(0) var<storage, scribble> b: u32;") {
        Err(Error::UnknownStorageAccess(_)) => {},
        other => panic!("expected the unknown-access error, got {:?}", other),
    }
}

#[test]
fn an_unknown_conservative_depth_is_rejected() {
    match parse("@fragment @early_depth_test(sideways) fn f() { }") {
        Err(Error::UnknownConservativeDepth(_)) => {},
        other => panic!("expected the unknown-depth error, got {:?}", other),
    }
}

#[test]
fn early_depth_test_reaches_the_entry_point() {
    let tu = parse("@fragment @early_depth_test(greater_equal) fn f() { }").unwrap();
    match &tu.decls.get(Handle { index: 0 }).kind {
        GlobalDeclKind::Fn(f) => {
            let ep = f.entry_point.as_ref().unwrap();
            assert!(ep.early_depth_test.is_some());
        },
        other => panic!("expected a function, got {:?}", other),
    }
}

#[test]
fn a_partial_workgroup_size_leaves_the_rest_unset() {
    let tu = parse("@compute @workgroup_size(4) fn f() { }").unwrap();
    match &tu.decls.get(Handle { index: 0 }).kind {
        GlobalDeclKind::Fn(f) => {
            let wgs = f.entry_point.as_ref().unwrap().workgroup_size.unwrap();
            assert!(wgs[0].is_some());
            assert!(wgs[1].is_none());
            assert!(wgs[2].is_none());
        },
        other => panic!("expected a function, got {:?}", other),
    }
}

#[test]
fn workgroup_sizes_are_separated_by_commas() {
    match parse("@compute @workgroup_size(1 2) fn f() { }") {
        Err(Error::Unexpected(_, ExpectedToken::WorkgroupSizeSeparator)) => {},
        other => panic!("expected the separator error, got {:?}", other),
    }
}

#[test]
fn a_switch_body_holds_only_cases_and_defaults() {
    match parse("fn f() { switch x { banana } }") {
        Err(Error::Unexpected(_, ExpectedToken::SwitchItem)) => {},
        other => panic!("expected the switch-item error, got {:?}", other),
    }
}

#[test]
fn struct_members_are_separated_by_commas() {
    match parse("struct S { a: f32 b: f32 }") {
        Err(Error::Unexpected(_, ExpectedToken::Token(Token::Separator(44)))) => {},
        other => panic!("expected the missing-comma error, got {:?}", other),
    }
}

#[test]
fn a_trailing_comma_in_a_struct_is_fine() {
    assert!(parse("struct S { a: f32, }").is_ok());
}

#[test]
fn an_identifier_list_allows_a_trailing_comma() {
    let tu = parse("enable dual_source_blending,;").unwrap();
    assert!(tu.enable_extensions.dual_source_blending);
}

#[test]
fn an_identifier_list_continues_only_with_a_name_or_ends() {
    match parse("enable dual_source_blending, 4;") {
        Err(Error::Unexpected(_, ExpectedToken::AfterIdentListComma)) => {},
        other => panic!("expected the list-continuation error, got {:?}", other),
    }
}

#[test]
fn an_identifier_list_ends_with_a_semicolon() {
    match parse("requires pointer_composite_access pointer_composite_access;") {
        Err(Error::Unexpected(_, ExpectedToken::AfterIdentListArg)) => {},
        other => panic!("expected the list-end error, got {:?}", other),
    }
}

#[test]
fn decimal_integers_reject_leading_zeros() {
    match parse("const x = 010;") {
        Err(Error::BadNumber(_, NumberError::Invalid)) => {},
        other => panic!("expected the bad-number error, got {:?}", other),
    }
}

#[test]
fn float_forms_keep_their_text() {
    let sources = ["const x = .5;", "const x = 1e3;", "const x = 0x1p4;"];
    for src in sources {
        let tu = parse(src).unwrap();
        let mut found = false;
        for i in 0..tu.expressions.len() {
            if let wgsl_parse::ast::Expression::Literal(wgsl_parse::ast::Literal::Number(
                Number::AbstractFloat(_),
            )) = tu.expressions.get(Handle { index: i })
            {
                found = true;
            }
        }
        assert!(found, "no float literal found for {src}");
    }
}

#[test]
fn a_misspelled_suffix_is_invalid() {
    match parse("const x = 1if;") {
        Err(Error::BadNumber(_, NumberError::Invalid)) => {},
        other => panic!("expected the bad-number error, got {:?}", other),
    }
}

#[test]
fn a_byte_outside_the_language_surfaces_as_unexpected() {
    assert!(parse("const x = 1 ` 2;").is_err());
}

#[test]
fn parentheses_inside_a_generic_restore_comparisons() {
    // inside the parens `>` is a comparison again; outside it closes
    // the generic list
    assert!(parse("alias a = array<u32, (4 > 2)>;").is_ok());
    // arithmetic in a generic argument terminates at the closing angle
    assert!(parse("alias b = array<u32, 1 + 2>;").is_ok());
}

#[test]
fn a_call_result_takes_postfix_accesses() {
    let tu = parse("const x = foo().y;").unwrap();
    match &tu.decls.get(Handle { index: 0 }).kind {
        GlobalDeclKind::Const(c) => {
            assert!(matches!(
                tu.expressions.get(c.init),
                wgsl_parse::ast::Expression::Member { .. }
            ));
        },
        other => panic!("expected a const, got {:?}", other),
    }
}

#[test]
fn the_nesting_counter_stops_exactly_at_its_maximum() {
    let span = Span { start: 5, end: 6 };
    assert_eq!(increase_brace_nesting(63, span), Ok(64));
    match increase_brace_nesting(64, span) {
        Err(Error::ExceededLimitForNestedBraces { limit, span: s }) => {
            assert_eq!(limit, 64);
            assert_eq!(s, span);
        },
        other => panic!("expected the nesting-limit error, got {:?}", other),
    }
}

#[test]
fn the_loop_shell_without_a_condition_wraps_only_the_body() {
    let kind = loop_shell(None, Block::new(), Span { start: 0, end: 2 }, Block::new());
    match kind {
        StatementKind::Loop { body, continuing, break_if } => {
            assert!(break_if.is_none());
            assert!(continuing.stmts.is_empty());
            assert_eq!(body.stmts.len(), 1);
            assert!(matches!(&body.stmts[0].kind, StatementKind::Block(_)));
        },
        other => panic!("expected a loop, got {:?}", other),
    }
}

#[test]
fn binding_attributes_on_a_function_are_an_internal_error() {
    match parse("@group(0) @binding(0) fn f() { }") {
        Err(Error::Internal(wgsl_parse::error::InternalError::AttributeWithoutVariable)) => {},
        other => panic!("expected the internal error, got {:?}", other),
    }
}

#[test]
fn identifiers_may_hold_multi_byte_characters() {
    let tu = parse("const προφητεία = 1; fn f() { let übel = προφητεία; }").unwrap();
    match &tu.decls.get(Handle { index: 0 }).kind {
        GlobalDeclKind::Const(c) => {
            assert_eq!(c.name.name.as_slice(), "προφητεία".as_bytes());
        },
        other => panic!("expected a const, got {:?}", other),
    }
}

#[test]
fn time_values_order_by_their_seconds() {
    let a = wgsl_parse::time::Time::from_seconds(3);
    let b = wgsl_parse::time::Time::from_seconds(11);
    assert!(a < b);
    assert_eq!(a, wgsl_parse::time::Time::from_seconds(a.seconds()));
}
