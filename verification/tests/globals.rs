//! Global declarations: structs, aliases, constants, overrides,
//! resource variables, entry points, directives, diagnostic filters,
//! and the idempotence of parsing.

use wgsl_parse::arena::Handle;
use wgsl_parse::ast::{
    AddressSpace, Binding, BuiltIn, GlobalDeclKind, ShaderStage, StorageAccess, TranslationUnit,
    WarningKind,
};
use wgsl_parse::diag::{resolve_severity, Severity, StandardRule, TriggeringRule};
use wgsl_parse::error::Error;
use wgsl_parse::parser::Parser;

fn parse(src: &str) -> Result<TranslationUnit, Error> {
    let mut p = Parser::new();
    p.parse(src.as_bytes())
}

#[test]
fn struct_members_carry_their_attributes() {
    let src = "struct S { @size(16) a: f32, @builtin(position) b: vec4f, }";
    let tu = parse(src).unwrap();
    match &tu.decls.get(Handle { index: 0 }).kind {
        GlobalDeclKind::Struct(s) => {
            assert_eq!(s.name.name.as_slice(), b"S");
            assert_eq!(s.members.len(), 2);
            assert!(s.members[0].size.is_some());
            assert!(s.members[0].binding.is_none());
            assert!(matches!(
                s.members[1].binding,
                Some(Binding::BuiltIn(BuiltIn::Position { invariant: false }))
            ));
        },
        other => panic!("expected a struct, got {:?}", other),
    }
}

#[test]
fn alias_and_const_and_override_parse() {
    let tu = parse("alias A = u32; const c: u32 = 1; @id(7) override o: f32;").unwrap();
    assert_eq!(tu.decls.len(), 3);
    assert!(matches!(&tu.decls.get(Handle { index: 0 }).kind, GlobalDeclKind::Type(_)));
    assert!(matches!(&tu.decls.get(Handle { index: 1 }).kind, GlobalDeclKind::Const(_)));
    match &tu.decls.get(Handle { index: 2 }).kind {
        GlobalDeclKind::Override(o) => assert!(o.id.is_some()),
        other => panic!("expected an override, got {:?}", other),
    }
}

#[test]
fn resource_variable_takes_group_and_binding() {
    let tu = parse("@group(0) @binding(1) var<uniform> u: f32;").unwrap();
    match &tu.decls.get(Handle { index: 0 }).kind {
        GlobalDeclKind::Var(v) => {
            assert!(v.binding.is_some());
            assert_eq!(v.space, AddressSpace::Uniform);
        },
        other => panic!("expected a variable, got {:?}", other),
    }
}

#[test]
fn storage_variable_defaults_to_read_access() {
    let tu = parse("@group(0) @binding(0) var<storage> s: u32;").unwrap();
    match &tu.decls.get(Handle { index: 0 }).kind {
        GlobalDeclKind::Var(v) => {
            assert_eq!(v.space, AddressSpace::Storage { access: StorageAccess::Read });
        },
        other => panic!("expected a variable, got {:?}", other),
    }
}

#[test]
fn storage_variable_accepts_an_access_mode() {
    let tu = parse("@group(0) @binding(0) var<storage, read_write> s: u32;").unwrap();
    match &tu.decls.get(Handle { index: 0 }).kind {
        GlobalDeclKind::Var(v) => {
            assert_eq!(v.space, AddressSpace::Storage { access: StorageAccess::ReadWrite });
        },
        other => panic!("expected a variable, got {:?}", other),
    }
}

#[test]
fn group_without_binding_names_the_missing_attribute() {
    match parse("@group(0) var<uniform> u: f32;") {
        Err(Error::MissingAttribute { needed, .. }) => {
            assert_eq!(needed, wgsl_parse::error::PairedAttribute::Binding);
        },
        other => panic!("expected the missing-attribute error, got {:?}", other),
    }
}

#[test]
fn binding_without_group_names_the_missing_attribute() {
    match parse("@binding(0) var<uniform> u: f32;") {
        Err(Error::MissingAttribute { needed, .. }) => {
            assert_eq!(needed, wgsl_parse::error::PairedAttribute::Group);
        },
        other => panic!("expected the missing-attribute error, got {:?}", other),
    }
}

#[test]
fn compute_without_workgroup_size_is_rejected() {
    match parse("@compute fn main() {}") {
        Err(Error::MissingWorkgroupSize(_)) => {},
        other => panic!("expected the missing-workgroup-size error, got {:?}", other),
    }
}

#[test]
fn compute_with_workgroup_size_is_an_entry_point() {
    let tu = parse("@compute @workgroup_size(1, 1, 1) fn main() {}").unwrap();
    match &tu.decls.get(Handle { index: 0 }).kind {
        GlobalDeclKind::Fn(f) => {
            let ep = f.entry_point.as_ref().expect("an entry point");
            assert_eq!(ep.stage, ShaderStage::Compute);
            let wgs = ep.workgroup_size.as_ref().expect("a workgroup size");
            assert!(wgs[0].is_some() && wgs[1].is_some() && wgs[2].is_some());
        },
        other => panic!("expected a function, got {:?}", other),
    }
}

#[test]
fn vertex_stage_marks_an_entry_point() {
    let tu = parse("@vertex fn main() -> @builtin(position) vec4f { return p; }").unwrap();
    match &tu.decls.get(Handle { index: 0 }).kind {
        GlobalDeclKind::Fn(f) => {
            assert_eq!(f.entry_point.as_ref().unwrap().stage, ShaderStage::Vertex);
            let result = f.result.as_ref().unwrap();
            assert!(matches!(
                result.binding,
                Some(Binding::BuiltIn(BuiltIn::Position { .. }))
            ));
        },
        other => panic!("expected a function, got {:?}", other),
    }
}

#[test]
fn function_arguments_declare_locals() {
    let tu = parse("fn add2(a: u32, b: u32) -> u32 { return a + b; }").unwrap();
    match &tu.decls.get(Handle { index: 0 }).kind {
        GlobalDeclKind::Fn(f) => {
            assert_eq!(f.arguments.len(), 2);
            assert_eq!(f.locals.len(), 2);
            // `a` and `b` resolved as locals, so nothing is deferred
            assert!(tu.decls.get(Handle { index: 0 }).dependencies.is_empty());
        },
        other => panic!("expected a function, got {:?}", other),
    }
}

#[test]
fn forward_references_become_dependencies() {
    let tu = parse("fn f() { g(); } fn g() { }").unwrap();
    let first = tu.decls.get(Handle { index: 0 });
    assert!(first.dependencies.iter().any(|d| d.ident.as_slice() == b"g"));
}

#[test]
fn user_types_are_deferred_for_resolution() {
    let tu = parse("var<private> v: Light;").unwrap();
    let decl = tu.decls.get(Handle { index: 0 });
    assert!(decl.dependencies.iter().any(|d| d.ident.as_slice() == b"Light"));
}

#[test]
fn enable_directive_sets_the_extension() {
    let tu = parse("enable dual_source_blending; const x = 1;").unwrap();
    assert!(tu.enable_extensions.dual_source_blending);
    assert!(!tu.enable_extensions.clip_distances);
}

#[test]
fn enable_of_an_unimplemented_extension_is_rejected() {
    match parse("enable f16;") {
        Err(Error::EnableExtensionNotYetImplemented { .. }) => {},
        other => panic!("expected the not-yet-implemented error, got {:?}", other),
    }
}

#[test]
fn requires_accepts_known_language_extensions() {
    assert!(parse("requires unrestricted_pointer_parameters, pointer_composite_access;").is_ok());
}

#[test]
fn requires_rejects_unknown_language_extensions() {
    match parse("requires from_the_future;") {
        Err(Error::UnknownLanguageExtension { .. }) => {},
        other => panic!("expected the unknown-extension error, got {:?}", other),
    }
}

#[test]
fn directives_may_not_follow_a_declaration() {
    match parse("const x = 1; enable dual_source_blending;") {
        Err(Error::DirectiveAfterFirstGlobalDecl { .. }) => {},
        other => panic!("expected the misplaced-directive error, got {:?}", other),
    }
}

#[test]
fn unknown_diagnostic_rule_warns_but_does_not_abort() {
    let tu = parse("diagnostic(off, some_future_rule); const x = 1;").unwrap();
    assert_eq!(tu.warnings.len(), 1);
    assert_eq!(tu.warnings[0].kind, WarningKind::UnknownDiagnosticRuleName);
    // the filter is kept under an opaque key, with the requested severity
    let rule = TriggeringRule::Unknown(b"some_future_rule".to_vec());
    let sev = resolve_severity(&tu.diagnostic_filters, tu.diagnostic_filter_leaf, &rule);
    assert_eq!(sev, Some(Severity::Off));
}

#[test]
fn inner_diagnostic_filters_override_outer_ones() {
    let src = "diagnostic(off, derivative_uniformity);\n\
               @diagnostic(error, derivative_uniformity) fn f() { }";
    let tu = parse(src).unwrap();
    let rule = TriggeringRule::Standard(StandardRule::DerivativeUniformity);
    let root = resolve_severity(&tu.diagnostic_filters, tu.diagnostic_filter_leaf, &rule);
    assert_eq!(root, Some(Severity::Off));
    match &tu.decls.get(Handle { index: 0 }).kind {
        GlobalDeclKind::Fn(f) => {
            let leaf = resolve_severity(&tu.diagnostic_filters, f.diagnostic_filter_leaf, &rule);
            assert_eq!(leaf, Some(Severity::Error));
        },
        other => panic!("expected a function, got {:?}", other),
    }
}

#[test]
fn duplicate_filter_in_one_attribute_list_conflicts() {
    let src = "@diagnostic(off, derivative_uniformity) \
               @diagnostic(error, derivative_uniformity) fn f() { }";
    match parse(src) {
        Err(Error::DiagnosticDuplicateTriggeringRule { .. }) => {},
        other => panic!("expected the duplicate-rule error, got {:?}", other),
    }
}

#[test]
fn module_level_duplicate_filters_keep_the_latest() {
    let src = "diagnostic(off, derivative_uniformity);\n\
               diagnostic(error, derivative_uniformity);\n\
               const x = 1;";
    let tu = parse(src).unwrap();
    let rule = TriggeringRule::Standard(StandardRule::DerivativeUniformity);
    let sev = resolve_severity(&tu.diagnostic_filters, tu.diagnostic_filter_leaf, &rule);
    assert_eq!(sev, Some(Severity::Error));
}

#[test]
fn diagnostic_attribute_on_a_block_is_not_yet_supported() {
    match parse("fn f() { @diagnostic(off, derivative_uniformity) { } }") {
        Err(Error::DiagnosticAttributeNotYetImplemented { .. }) => {},
        other => panic!("expected the unsupported-site error, got {:?}", other),
    }
}

#[test]
fn diagnostic_attribute_on_a_const_is_not_supported() {
    match parse("@diagnostic(off, derivative_uniformity) const x = 1;") {
        Err(Error::DiagnosticAttributeNotSupported { .. }) => {},
        other => panic!("expected the unsupported-site error, got {:?}", other),
    }
}

#[test]
fn parsing_twice_yields_equal_results() {
    let src = "enable clip_distances;\n\
               diagnostic(off, derivative_uniformity);\n\
               struct S { a: f32, b: vec3<u32> }\n\
               @group(0) @binding(0) var<storage, read_write> buf: array<u32>;\n\
               @compute @workgroup_size(8, 1, 1)\n\
               fn main() { for (var i = 0; i < 8; i++) { buf[i] = buf[i] * 2 + 1; } }";
    let first = parse(src).unwrap();
    let second = parse(src).unwrap();
    assert_eq!(first, second);
}

#[test]
fn a_lone_semicolon_is_an_empty_declaration() {
    let tu = parse(";;").unwrap();
    assert_eq!(tu.decls.len(), 0);
}

#[test]
fn an_empty_source_parses_to_an_empty_unit() {
    let tu = parse("").unwrap();
    assert_eq!(tu.decls.len(), 0);
    assert_eq!(tu.expressions.len(), 0);
}
