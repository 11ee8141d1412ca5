//! The supporting components on their own: the tokenizer, the rule-span
//! tracker's race, the scope table, the diagnostic filter map, number
//! literals, types, and the time value.

use wgsl_parse::arena::{Arena, Handle, Span};
use wgsl_parse::ast::{ArraySize, Expression, Literal, ScalarKind, TranslationUnit, Type};
use wgsl_parse::diag::{DiagnosticFilter, DiagnosticFilterMap, DuplicatePolicy, Severity,
    StandardRule, TriggeringRule};
use wgsl_parse::error::Error;
use wgsl_parse::lexer::tokenize;
use wgsl_parse::parser::Parser;
use wgsl_parse::rules::{Rule, RuleStack};
use wgsl_parse::scope::SymbolTable;
use wgsl_parse::time::Time;
use wgsl_parse::token::{bytes_eq, Number, Token};

fn parse(src: &str) -> Result<TranslationUnit, Error> {
    let mut p = Parser::new();
    p.parse(src.as_bytes())
}

#[test]
fn tokenizer_classifies_operators_and_words() {
    let (toks, spans) = tokenize(b"x >= 1 << 2 // trailing\n");
    assert_eq!(toks.len(), 6);
    assert!(matches!(&toks[0], Token::Word(w) if w.as_slice() == b"x"));
    assert!(matches!(toks[1], Token::LogicalOperation(62)));
    assert!(matches!(toks[2], Token::Number(Ok(Number::AbstractInt(1)))));
    assert!(matches!(toks[3], Token::ShiftOperation(60)));
    assert!(matches!(toks[5], Token::End));
    assert_eq!(spans.len(), toks.len());
    assert_eq!(spans[0].start, 0);
    assert_eq!(spans[0].end, 1);
}

#[test]
fn tokenizer_skips_nested_block_comments() {
    let (toks, _) = tokenize(b"/* a /* b */ c */ ;");
    assert!(matches!(toks[0], Token::Separator(59)));
}

#[test]
fn tokenizer_reads_hex_and_suffixed_numbers() {
    let (toks, _) = tokenize(b"0x10 7i 8u 1.5 2f");
    assert!(matches!(toks[0], Token::Number(Ok(Number::AbstractInt(16)))));
    assert!(matches!(toks[1], Token::Number(Ok(Number::I32(7)))));
    assert!(matches!(toks[2], Token::Number(Ok(Number::U32(8)))));
    assert!(matches!(&toks[3], Token::Number(Ok(Number::AbstractFloat(t))) if t.as_slice() == b"1.5"));
    assert!(matches!(&toks[4], Token::Number(Ok(Number::F32(t))) if t.as_slice() == b"2f"));
}

#[test]
fn byte_string_equality_is_by_contents() {
    assert!(bytes_eq(b"vec2", b"vec2"));
    assert!(!bytes_eq(b"vec2", b"vec3"));
    assert!(!bytes_eq(b"vec2", b"vec2f"));
}

#[test]
fn the_rule_race_finds_the_nearest_of_two_rules() {
    let mut rules = RuleStack::new();
    assert_eq!(rules.race(Rule::GenericExpr, Rule::EnclosedExpr), None);
    rules.push(Rule::GenericExpr, 0);
    rules.push(Rule::Statement, 4);
    rules.push(Rule::EnclosedExpr, 9);
    rules.push(Rule::UnaryExpr, 12);
    assert_eq!(
        rules.race(Rule::GenericExpr, Rule::EnclosedExpr),
        Some(Rule::EnclosedExpr)
    );
    let _ = rules.pop();
    let _ = rules.pop();
    assert_eq!(
        rules.race(Rule::GenericExpr, Rule::EnclosedExpr),
        Some(Rule::GenericExpr)
    );
}

#[test]
fn the_scope_table_shadows_across_frames_only() {
    let mut table = SymbolTable::new();
    table.push_scope();
    assert!(table.add(b"x".to_vec(), Handle { index: 0 }).is_none());
    // same frame: the earlier local comes back
    assert_eq!(table.add(b"x".to_vec(), Handle { index: 1 }), Some(Handle { index: 0 }));
    table.push_scope();
    // nested frame: shadowing is legal
    assert!(table.add(b"x".to_vec(), Handle { index: 2 }).is_none());
    assert_eq!(table.lookup(b"x"), Some(Handle { index: 2 }));
    table.pop_scope();
    assert_eq!(table.lookup(b"x"), Some(Handle { index: 0 }));
    assert_eq!(table.lookup(b"y"), None);
}

#[test]
fn the_filter_map_applies_its_duplicate_policy() {
    let span = Span { start: 0, end: 1 };
    let rule = || TriggeringRule::Standard(StandardRule::SubgroupUniformity);
    let mut strict = DiagnosticFilterMap::new();
    strict
        .add(
            DiagnosticFilter { triggering_rule: rule(), new_severity: Severity::Off },
            span,
            DuplicatePolicy::Conflict,
        )
        .unwrap();
    let second = strict.add(
        DiagnosticFilter { triggering_rule: rule(), new_severity: Severity::Error },
        span,
        DuplicatePolicy::Conflict,
    );
    assert!(matches!(second, Err(Error::DiagnosticDuplicateTriggeringRule { .. })));

    let mut lenient = DiagnosticFilterMap::new();
    lenient
        .add(
            DiagnosticFilter { triggering_rule: rule(), new_severity: Severity::Off },
            span,
            DuplicatePolicy::KeepLatest,
        )
        .unwrap();
    lenient
        .add(
            DiagnosticFilter { triggering_rule: rule(), new_severity: Severity::Error },
            span,
            DuplicatePolicy::KeepLatest,
        )
        .unwrap();
    let entries = lenient.into_entries();
    assert_eq!(entries.len(), 1);
    assert_eq!(entries[0].severity, Severity::Error);
}

#[test]
fn arenas_hand_out_consecutive_handles() {
    let mut arena: Arena<u32> = Arena::new();
    let a = arena.append(10, Span { start: 0, end: 2 });
    let b = arena.append(20, Span { start: 3, end: 5 });
    assert_eq!(a.index, 0);
    assert_eq!(b.index, 1);
    assert_eq!(*arena.get(a), 10);
    assert_eq!(*arena.get(b), 20);
    assert_eq!(arena.get_span(b), Span { start: 3, end: 5 });
    assert_eq!(arena.len(), 2);
}

#[test]
fn scalar_types_resolve_by_keyword() {
    let tu = parse("var<private> a: i32; var<private> b: f64;").unwrap();
    let mut kinds = Vec::new();
    for i in 0..tu.types.len() {
        if let Type::Scalar(s) = tu.types.get(Handle { index: i }) {
            kinds.push((s.kind, s.width));
        }
    }
    assert!(kinds.contains(&(ScalarKind::Sint, 4)));
    assert!(kinds.contains(&(ScalarKind::Float, 8)));
}

#[test]
fn suffixed_vector_keywords_fix_their_component_type() {
    let tu = parse("var<private> v: vec3u;").unwrap();
    let mut found = false;
    for i in 0..tu.types.len() {
        if let Type::Vector { ty, .. } = tu.types.get(Handle { index: i }) {
            if let Type::Scalar(s) = tu.types.get(*ty) {
                assert_eq!(s.kind, ScalarKind::Uint);
                found = true;
            }
        }
    }
    assert!(found);
}

#[test]
fn arrays_without_a_size_are_runtime_sized() {
    let tu = parse("var<private> v: array<u32>; var<private> w: array<u32, 4>;").unwrap();
    let mut sizes = Vec::new();
    for i in 0..tu.types.len() {
        if let Type::Array { size, .. } = tu.types.get(Handle { index: i }) {
            sizes.push(matches!(size, ArraySize::Constant(_)));
        }
    }
    assert_eq!(sizes, vec![false, true]);
}

#[test]
fn pointer_types_take_an_address_space_and_access() {
    assert!(parse("fn f(p: ptr<storage, u32, read_write>) { }").is_ok());
    assert!(parse("fn f(p: ptr<function, u32>) { }").is_ok());
}

#[test]
fn literal_spans_point_into_the_source() {
    let src = "const x = 42;";
    let tu = parse(src).unwrap();
    let mut found = false;
    for i in 0..tu.expressions.len() {
        let h = Handle { index: i };
        if matches!(
            tu.expressions.get(h),
            Expression::Literal(Literal::Number(Number::AbstractInt(42)))
        ) {
            let span = tu.expressions.get_span(h);
            assert_eq!(&src[span.start..span.end], "42");
            found = true;
        }
    }
    assert!(found);
}

#[test]
fn time_round_trips_seconds() {
    let t = Time::from_seconds(75);
    assert_eq!(t.seconds(), 75);
    assert!(!t.is_zero());
}

#[test]
fn the_zero_time_is_zero() {
    let z = Time::zero();
    assert_eq!(z.seconds(), 0);
    assert!(z.is_zero());
    assert_eq!(z, Time::from_seconds(0));
}
