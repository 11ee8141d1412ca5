//! Statements of the grammar's cross-cutting guarantees, proved from
//! the components' own contracts: lexical scoping, the nesting limit's
//! boundary, binding-attribute consistency, and entry-point validation.
//!
//! The precedence and associativity guarantees of the expression ladder
//! are stated directly as postconditions of
//! [`crate::parser::Parser::general_expression`] and
//! [`crate::parser::Parser::binary_expression`].

use vstd::prelude::*;

use crate::arena::{Handle, Span};
use crate::ast::{Binding, BuiltIn, EarlyDepthTest, EntryPoint, Interpolation, Sampling, ShaderStage};
use crate::attr::binding_finish_spec;
use crate::error::Error;
use crate::global::entry_point_spec;
use crate::scope::{frame_has, lookup_spec, ScopeEntry};
use crate::stmt::{increase_nesting_spec, BRACE_NESTING_MAXIMUM};

verus! {

/// Lexical scoping: after declaring a name in the innermost scope,
/// declaring it again in that same scope collides; a nested scope is
/// fresh, so the same name may shadow there, and until it does, the
/// outer declaration still resolves through the nested scope.
pub proof fn lemma_scoping(frames: Seq<Seq<ScopeEntry>>, e1: ScopeEntry, n: Seq<u8>)
    requires
        e1.name@ =~= n,
    ensures
        frame_has(frames.push(seq![e1]).last(), n),
        !frame_has(frames.push(seq![e1]).push(Seq::<ScopeEntry>::empty()).last(), n),
        lookup_spec(frames.push(seq![e1]).push(Seq::<ScopeEntry>::empty()), n) == Some(e1.local),
{
    let one = frames.push(seq![e1]);
    let two = one.push(Seq::<ScopeEntry>::empty());
    assert(one.last() == seq![e1]);
    assert(one.last()[0] == e1);
    assert(frame_has(one.last(), n));
    assert(two.last() =~= Seq::<ScopeEntry>::empty());
    assert(crate::scope::frame_lookup(two.last(), n) is None);
    assert(two.drop_last() =~~= one);
    assert(crate::scope::frame_lookup(one.last(), n) == Some(e1.local));
    assert(lookup_spec(one, n) == Some(e1.local));
    assert(lookup_spec(two, n) == lookup_spec(two.drop_last(), n));
}

/// The nesting limit's boundary: the deepest allowed level is reached
/// from the level just below it, and one step beyond the limit is the
/// nesting-limit error carrying the limit itself.
pub proof fn lemma_nesting_limit_boundary(span: Span)
    ensures
        increase_nesting_spec((BRACE_NESTING_MAXIMUM - 1) as u8, span) == Ok::<u8, Error>(
            BRACE_NESTING_MAXIMUM,
        ),
        increase_nesting_spec(BRACE_NESTING_MAXIMUM, span) == Err::<u8, Error>(
            Error::ExceededLimitForNestedBraces { span, limit: BRACE_NESTING_MAXIMUM },
        ),
{
}

/// A binding may not combine a location with a built-in, whatever else
/// is set.
pub proof fn lemma_location_and_builtin_conflict(
    location: Handle,
    built_in: BuiltIn,
    interpolation: Option<Interpolation>,
    sampling: Option<Sampling>,
    inv: bool,
    second_blend_source: bool,
    span: Span,
)
    ensures
        binding_finish_spec(
            Some(location),
            Some(built_in),
            interpolation,
            sampling,
            inv,
            second_blend_source,
            span,
        ) == Err::<Option<Binding>, Error>(Error::InconsistentBinding(span)),
{
}

/// The invariant marker combines only with the position built-in: on
/// position it is kept in the binding, and alone it is inconsistent.
pub proof fn lemma_invariant_marker(span: Span)
    ensures
        binding_finish_spec(
            None,
            Some(BuiltIn::Position { invariant: false }),
            None,
            None,
            true,
            false,
            span,
        ) == Ok::<Option<Binding>, Error>(
            Some(Binding::BuiltIn(BuiltIn::Position { invariant: true })),
        ),
        binding_finish_spec(None, None, None, None, true, false, span) == Err::<
            Option<Binding>,
            Error,
        >(Error::InconsistentBinding(span)),
{
}

/// The invariant marker on any built-in other than position is
/// inconsistent.
pub proof fn lemma_invariant_requires_position(built_in: BuiltIn, span: Span)
    requires
        !(built_in is Position),
    ensures
        binding_finish_spec(None, Some(built_in), None, None, true, false, span) == Err::<
            Option<Binding>,
            Error,
        >(Error::InconsistentBinding(span)),
{
}

/// Entry-point validation: a compute stage without a workgroup size is
/// the missing-workgroup-size error, and with one the function becomes
/// a compute entry point carrying it.
pub proof fn lemma_compute_needs_workgroup_size(
    compute_span: Span,
    early_depth_test: Option<EarlyDepthTest>,
    workgroup_size: [Option<Handle>; 3],
)
    ensures
        entry_point_spec(Some(ShaderStage::Compute), compute_span, early_depth_test, None) == Err::<
            Option<EntryPoint>,
            Error,
        >(Error::MissingWorkgroupSize(compute_span)),
        entry_point_spec(
            Some(ShaderStage::Compute),
            compute_span,
            early_depth_test,
            Some(workgroup_size),
        ) == Ok::<Option<EntryPoint>, Error>(
            Some(
                EntryPoint {
                    stage: ShaderStage::Compute,
                    early_depth_test,
                    workgroup_size: Some(workgroup_size),
                },
            ),
        ),
{
}

} // verus!



