//! Error behaviour: redefinition with both spans, the nesting limit's
//! exact boundary, binding consistency, numeric literal failures, and
//! the other hard errors of the grammar.

use wgsl_parse::ast::TranslationUnit;
use wgsl_parse::error::Error;
use wgsl_parse::parser::Parser;
use wgsl_parse::token::NumberError;

fn parse(src: &str) -> Result<TranslationUnit, Error> {
    let mut p = Parser::new();
    p.parse(src.as_bytes())
}

fn nested_braces(count: usize) -> String {
    let mut src = String::from("fn f() ");
    for _ in 0..count {
        src.push('{');
    }
    for _ in 0..count {
        src.push('}');
    }
    src
}

#[test]
fn redeclaring_a_name_in_one_block_is_a_redefinition() {
    let src = "fn f() { let x = 1; let x = 2; }";
    match parse(src) {
        Err(Error::Redefinition { previous, current }) => {
            // the spans point at both occurrences of the name
            assert_eq!(&src[previous.start..previous.end], "x");
            assert_eq!(&src[current.start..current.end], "x");
            assert!(previous.start < current.start);
        },
        other => panic!("expected a redefinition error, got {:?}", other),
    }
}

#[test]
fn shadowing_in_a_nested_block_is_legal() {
    assert!(parse("fn f() { let x = 1; { let x = 2; } }").is_ok());
}

#[test]
fn an_argument_name_cannot_be_redeclared_at_body_top_level() {
    match parse("fn f(x: u32) { let x = 1; }") {
        Err(Error::Redefinition { .. }) => {},
        other => panic!("expected a redefinition error, got {:?}", other),
    }
}

#[test]
fn sixty_four_nested_braces_parse() {
    assert!(parse(&nested_braces(64)).is_ok());
}

#[test]
fn sixty_five_nested_braces_exceed_the_limit() {
    match parse(&nested_braces(65)) {
        Err(Error::ExceededLimitForNestedBraces { limit, .. }) => assert_eq!(limit, 64),
        other => panic!("expected the nesting-limit error, got {:?}", other),
    }
}

#[test]
fn location_and_builtin_together_are_inconsistent() {
    match parse("fn f(@location(0) @builtin(position) x: vec4f) { }") {
        Err(Error::InconsistentBinding(_)) => {},
        other => panic!("expected the inconsistent-binding error, got {:?}", other),
    }
}

#[test]
fn invariant_on_the_position_builtin_is_accepted() {
    let tu = parse("fn f(@builtin(position) @invariant x: vec4f) { }").unwrap();
    match &tu.decls.get(wgsl_parse::arena::Handle { index: 0 }).kind {
        wgsl_parse::ast::GlobalDeclKind::Fn(f) => {
            assert!(matches!(
                f.arguments[0].binding,
                Some(wgsl_parse::ast::Binding::BuiltIn(
                    wgsl_parse::ast::BuiltIn::Position { invariant: true }
                ))
            ));
        },
        other => panic!("expected a function, got {:?}", other),
    }
}

#[test]
fn invariant_without_a_builtin_is_inconsistent() {
    match parse("fn f(@invariant x: vec4f) { }") {
        Err(Error::InconsistentBinding(_)) => {},
        other => panic!("expected the inconsistent-binding error, got {:?}", other),
    }
}

#[test]
fn a_repeated_attribute_is_rejected() {
    match parse("fn f(@location(0) @location(1) x: f32) { }") {
        Err(Error::RepeatedAttribute(_)) => {},
        other => panic!("expected the repeated-attribute error, got {:?}", other),
    }
}

#[test]
fn an_unknown_attribute_is_rejected() {
    match parse("fn f(@glitter x: f32) { }") {
        Err(Error::UnknownAttribute(_)) => {},
        other => panic!("expected the unknown-attribute error, got {:?}", other),
    }
}

#[test]
fn an_integer_too_large_for_its_suffix_is_not_representable() {
    match parse("const x = 4294967296u;") {
        Err(Error::BadNumber(_, NumberError::NotRepresentable)) => {},
        other => panic!("expected the not-representable error, got {:?}", other),
    }
}

#[test]
fn the_half_precision_suffix_needs_an_extension() {
    match parse("const x = 1h;") {
        Err(Error::EnableExtensionNotEnabled { .. }) => {},
        other => panic!("expected the extension-not-enabled error, got {:?}", other),
    }
}

#[test]
fn a_malformed_literal_is_a_bad_number() {
    match parse("const x = 0x;") {
        Err(Error::BadNumber(_, NumberError::Invalid)) => {},
        other => panic!("expected the bad-number error, got {:?}", other),
    }
}

#[test]
fn a_sampled_texture_needs_a_four_byte_component() {
    match parse("@group(0) @binding(0) var t: texture_2d<bool>;") {
        Err(Error::BadTextureSampleType { .. }) => {},
        other => panic!("expected the sample-type error, got {:?}", other),
    }
}

#[test]
fn opaque_types_cannot_be_constructed() {
    match parse("const s = sampler();") {
        Err(Error::TypeNotConstructible(_)) => {},
        other => panic!("expected the not-constructible error, got {:?}", other),
    }
}

#[test]
fn an_unknown_address_space_is_rejected() {
    match parse("var<attic> x: f32;") {
        Err(Error::UnknownAddressSpace(_)) => {},
        other => panic!("expected the unknown-address-space error, got {:?}", other),
    }
}

#[test]
fn an_unknown_storage_format_is_rejected() {
    match parse("@group(0) @binding(0) var t: texture_storage_2d<sparkle8, write>;") {
        Err(Error::UnknownStorageFormat(_)) => {},
        other => panic!("expected the unknown-format error, got {:?}", other),
    }
}

#[test]
fn a_for_initializer_must_declare_assign_or_call() {
    match parse("fn f() { for (return;;) { } }") {
        Err(Error::InvalidForInitializer(_)) => {},
        other => panic!("expected the invalid-initializer error, got {:?}", other),
    }
}

#[test]
fn an_unexpected_token_reports_what_was_expected() {
    match parse("const = 1;") {
        Err(Error::Unexpected(_, wgsl_parse::error::ExpectedToken::Identifier)) => {},
        other => panic!("expected an unexpected-token error, got {:?}", other),
    }
}

#[test]
fn a_stray_symbol_is_not_a_global_item() {
    match parse("^") {
        Err(Error::Unexpected(_, wgsl_parse::error::ExpectedToken::GlobalItem)) => {},
        other => panic!("expected an unexpected-token error, got {:?}", other),
    }
}

#[test]
fn an_unterminated_expression_fails() {
    assert!(parse("const x = 1 +;").is_err());
}

#[test]
fn an_invalid_severity_is_rejected() {
    match parse("diagnostic(loud, derivative_uniformity);") {
        Err(Error::DiagnosticInvalidSeverity { .. }) => {},
        other => panic!("expected the invalid-severity error, got {:?}", other),
    }
}

#[test]
fn an_unknown_enable_extension_is_rejected() {
    match parse("enable warp_drive;") {
        Err(Error::UnknownEnableExtension { .. }) => {},
        other => panic!("expected the unknown-extension error, got {:?}", other),
    }
}
