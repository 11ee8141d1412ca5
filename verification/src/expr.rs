//! The expression engine: a precedence-climbing parser over the binary
//! operator tiers, with unary, postfix and primary levels below them.
//!
//! Whether `<` and `>` read as comparison operators or as generic-list
//! delimiters depends on the nearest enclosing construct; the engine
//! asks the rule-span tracker once per expression and threads the answer
//! down the tiers as an explicit mode.
//!
//! The contracts here carry the grammar's precedence and associativity
//! facts: for any three operands joined by two operators at levels
//! `l1 >= l2`, the tree built is `op2(op1(a, b), c)` — the tighter or
//! earlier operator binds first, and equal tiers associate to the left.

use vstd::prelude::*;
use vstd::string::StringSliceAdditionalSpecFns;

use crate::arena::{Arena, Handle, Span};
use crate::ast::{
    BinaryOperator, Dependency, Expression, Ident, IdentExpr, Literal, Local, TranslationUnit,
    UnaryOperator,
};
use crate::error::{Error, ExpectedToken};
use crate::parser::Parser;
use crate::rules::{race_spec, Rule};
use crate::scope::{frame_lookup, lookup_spec, SymbolTable};
use crate::stream::TokenStream;
use crate::token::{bytes_eq, number_eq_spec, token_eq_spec, Number, NumberError, Token};

verus! {

/// How `<`, `>` and `>>` classify at the relational and shift tiers:
/// as ordinary operators, or reserved for closing the generic argument
/// list the expression sits in.
#[derive(Clone, Copy, Debug, PartialEq, Eq, Structural)]
pub enum ExprMode {
    Normal,
    Generic,
}

/// The binary-operator table: each operator token's meaning and its
/// precedence tier, counted from the loosest (logical or) upward.
/// Inside a generic argument list the `<`/`>` comparisons and the right
/// shift are reserved for the list's delimiters and classify as nothing.
pub open spec fn binop_level_spec(t: Token, mode: ExprMode) -> Option<(BinaryOperator, u32)> {
    match t {
        Token::LogicalOperation(c) => if c == 124 {
            Some((BinaryOperator::LogicalOr, 0u32))
        } else if c == 38 {
            Some((BinaryOperator::LogicalAnd, 1u32))
        } else if c == 61 {
            Some((BinaryOperator::Equal, 5u32))
        } else if c == 33 {
            Some((BinaryOperator::NotEqual, 5u32))
        } else if c == 60 {
            Some((BinaryOperator::LessEqual, 6u32))
        } else if c == 62 {
            Some((BinaryOperator::GreaterEqual, 6u32))
        } else {
            None
        },
        Token::Operation(c) => if c == 124 {
            Some((BinaryOperator::InclusiveOr, 2u32))
        } else if c == 94 {
            Some((BinaryOperator::ExclusiveOr, 3u32))
        } else if c == 38 {
            Some((BinaryOperator::And, 4u32))
        } else if c == 43 {
            Some((BinaryOperator::Add, 8u32))
        } else if c == 45 {
            Some((BinaryOperator::Subtract, 8u32))
        } else if c == 42 {
            Some((BinaryOperator::Multiply, 9u32))
        } else if c == 47 {
            Some((BinaryOperator::Divide, 9u32))
        } else if c == 37 {
            Some((BinaryOperator::Modulo, 9u32))
        } else {
            None
        },
        Token::Paren(c) => if mode is Normal && c == 60 {
            Some((BinaryOperator::Less, 6u32))
        } else if mode is Normal && c == 62 {
            Some((BinaryOperator::Greater, 6u32))
        } else {
            None
        },
        Token::ShiftOperation(c) => if c == 60 {
            Some((BinaryOperator::ShiftLeft, 7u32))
        } else if mode is Normal && c == 62 {
            Some((BinaryOperator::ShiftRight, 7u32))
        } else {
            None
        },
        _ => None,
    }
}

/// Every classified operator sits on a tier between the loosest and the
/// tightest.
pub proof fn lemma_binop_level_bounded(t: Token, mode: ExprMode)
    ensures
        match binop_level_spec(t, mode) {
            Some(ol) => ol.1 <= 9,
            None => true,
        },
{
}

/// Decides [`binop_level_spec`].
pub fn binop_level(t: &Token, mode: ExprMode) -> (r: Option<(BinaryOperator, u32)>)
    ensures
        r == binop_level_spec(*t, mode),
{
    match t {
        Token::LogicalOperation(c) => {
            if *c == 124 {
                Some((BinaryOperator::LogicalOr, 0u32))
            } else if *c == 38 {
                Some((BinaryOperator::LogicalAnd, 1u32))
            } else if *c == 61 {
                Some((BinaryOperator::Equal, 5u32))
            } else if *c == 33 {
                Some((BinaryOperator::NotEqual, 5u32))
            } else if *c == 60 {
                Some((BinaryOperator::LessEqual, 6u32))
            } else if *c == 62 {
                Some((BinaryOperator::GreaterEqual, 6u32))
            } else {
                None
            }
        },
        Token::Operation(c) => {
            if *c == 124 {
                Some((BinaryOperator::InclusiveOr, 2u32))
            } else if *c == 94 {
                Some((BinaryOperator::ExclusiveOr, 3u32))
            } else if *c == 38 {
                Some((BinaryOperator::And, 4u32))
            } else if *c == 43 {
                Some((BinaryOperator::Add, 8u32))
            } else if *c == 45 {
                Some((BinaryOperator::Subtract, 8u32))
            } else if *c == 42 {
                Some((BinaryOperator::Multiply, 9u32))
            } else if *c == 47 {
                Some((BinaryOperator::Divide, 9u32))
            } else if *c == 37 {
                Some((BinaryOperator::Modulo, 9u32))
            } else {
                None
            }
        },
        Token::Paren(c) => {
            if mode == ExprMode::Normal && *c == 60 {
                Some((BinaryOperator::Less, 6u32))
            } else if mode == ExprMode::Normal && *c == 62 {
                Some((BinaryOperator::Greater, 6u32))
            } else {
                None
            }
        },
        Token::ShiftOperation(c) => {
            if *c == 60 {
                Some((BinaryOperator::ShiftLeft, 7u32))
            } else if mode == ExprMode::Normal && *c == 62 {
                Some((BinaryOperator::ShiftRight, 7u32))
            } else {
                None
            }
        },
        _ => None,
    }
}

/// The translation unit's arenas are well formed, and the diagnostic
/// filter tree's parent links point backwards.
pub open spec fn tu_wf(tu: TranslationUnit) -> bool {
    &&& tu.expressions.wf()
    &&& tu.types.wf()
    &&& tu.decls.wf()
    &&& tu.diagnostic_filters.wf()
    &&& crate::diag::filter_arena_wf(tu.diagnostic_filters.view())
    &&& match tu.diagnostic_filter_leaf {
        Some(h) => h.index < tu.diagnostic_filters.view().len(),
        None => true,
    }
}

/// `post` is `pre` with material only appended: the arenas are
/// append-only.
pub open spec fn tu_extends(post: TranslationUnit, pre: TranslationUnit) -> bool {
    &&& pre.expressions.view().is_prefix_of(post.expressions.view())
    &&& pre.types.view().is_prefix_of(post.types.view())
    &&& pre.decls.view().is_prefix_of(post.decls.view())
    &&& pre.diagnostic_filters.view().is_prefix_of(post.diagnostic_filters.view())
}

/// The per-declaration mutable state an expression writes into besides
/// the translation unit: the current function's locals, the scope table,
/// and the declaration's dependency set.
pub struct FnCtx {
    pub locals: Arena<Local>,
    pub table: SymbolTable,
    pub deps: Vec<Dependency>,
}

/// Whether `deps` already records `name` used at `span`.
pub open spec fn dep_recorded(deps: Seq<Dependency>, name: Seq<u8>, span: Span) -> bool {
    exists|i: int|
        0 <= i < deps.len() && (#[trigger] deps[i]).ident@ =~= name && deps[i].usage == span
}

/// `post` is `pre` with locals and dependencies only appended.
pub open spec fn fx_extends(post: FnCtx, pre: FnCtx) -> bool {
    &&& pre.locals.view().len() <= post.locals.view().len()
    &&& pre.locals.spans().is_prefix_of(post.locals.spans())
    &&& pre.deps@.is_prefix_of(post.deps@)
}

/// Every local the scope table mentions exists in the locals arena.
pub open spec fn scope_handles_ok(fx: FnCtx) -> bool {
    forall|f: int, e: int|
        0 <= f < fx.table.view().len() && 0 <= e < fx.table.view()[f].len() ==> (
        #[trigger] fx.table.view()[f][e]).local.index < fx.locals.view().len()
}

/// The scope-handle invariant survives anything that leaves the table
/// alone and only appends locals.
pub proof fn lemma_scope_handles_persist(pre: FnCtx, post: FnCtx)
    requires
        scope_handles_ok(pre),
        post.table.view() == pre.table.view(),
        pre.locals.view().len() <= post.locals.view().len(),
    ensures
        scope_handles_ok(post),
{
}

/// The scope-handle invariant survives opening a fresh scope.
pub proof fn lemma_scope_handles_push_frame(pre: FnCtx, post: FnCtx)
    requires
        scope_handles_ok(pre),
        post.table.view() == pre.table.view().push(Seq::<crate::scope::ScopeEntry>::empty()),
        pre.locals.view().len() <= post.locals.view().len(),
    ensures
        scope_handles_ok(post),
{
    assert forall|f: int, e: int|
        0 <= f < post.table.view().len() && 0 <= e < post.table.view()[f].len() implies (
    #[trigger] post.table.view()[f][e]).local.index < post.locals.view().len() by {
        if f < pre.table.view().len() {
            assert(post.table.view()[f] == pre.table.view()[f]);
        } else {
            assert(post.table.view()[f] == Seq::<crate::scope::ScopeEntry>::empty());
        }
    }
}

/// The scope-handle invariant survives closing the innermost scope.
pub proof fn lemma_scope_handles_pop_frame(pre: FnCtx, post: FnCtx)
    requires
        scope_handles_ok(pre),
        pre.table.view().len() > 0,
        post.table.view() == pre.table.view().drop_last(),
        pre.locals.view().len() <= post.locals.view().len(),
    ensures
        scope_handles_ok(post),
{
    assert forall|f: int, e: int|
        0 <= f < post.table.view().len() && 0 <= e < post.table.view()[f].len() implies (
    #[trigger] post.table.view()[f][e]).local.index < post.locals.view().len() by {
        assert(post.table.view()[f] == pre.table.view()[f]);
    }
}

impl FnCtx {
    pub open spec fn wf(&self) -> bool {
        self.locals.wf()
    }

    pub fn new() -> (r: FnCtx)
        ensures
            r.wf(),
            r.locals.view().len() == 0,
            r.table.view().len() == 0,
            r.deps@.len() == 0,
    {
        FnCtx { locals: Arena::new(), table: SymbolTable::new(), deps: Vec::new() }
    }

    /// Records that `name` was used at `span` with no local definition;
    /// the set keeps one entry per distinct use.
    pub fn record_dependency(&mut self, name: Vec<u8>, span: Span)
        requires
            old(self).wf(),
        ensures
            final(self).wf(),
            fx_extends(*final(self), *old(self)),
            final(self).table.view() == old(self).table.view(),
            final(self).locals == old(self).locals,
            dep_recorded(final(self).deps@, name@, span),
            if dep_recorded(old(self).deps@, name@, span) {
                final(self).deps@ == old(self).deps@
            } else {
                final(self).deps@ =~= old(self).deps@.push(Dependency { ident: name, usage: span })
            },
    {
        let mut i: usize = 0;
        let len = self.deps.len();
        while i < len
            invariant
                i <= len,
                len == self.deps@.len(),
                *self == *old(self),
                self.wf(),
                forall|j: int|
                    0 <= j < i ==> !((#[trigger] self.deps@[j]).ident@ =~= name@ && self.deps@[j].usage
                        == span),
            decreases len - i,
        {
            let hit = bytes_eq(self.deps[i].ident.as_slice(), name.as_slice()) && self.deps[i].usage.start
                == span.start && self.deps[i].usage.end == span.end;
            if hit {
                proof {
                    assert((#[trigger] self.deps@[i as int]).ident@ =~= name@ && self.deps@[i as int].usage
                        == span);
                }
                return ;
            }
            i = i + 1;
        }
        self.deps.push(Dependency { ident: name, usage: span });
        proof {
            assert((#[trigger] self.deps@[self.deps@.len() - 1]).ident@ =~= name@
                && self.deps@[self.deps@.len() - 1].usage == span);
        }
    }

    /// Resolves a plain identifier: a name in scope becomes a reference
    /// to its local; any other name is recorded as a dependency and
    /// deferred for global resolution.
    pub fn ident_expr(&mut self, name: Vec<u8>, span: Span) -> (r: IdentExpr)
        requires
            old(self).wf(),
        ensures
            final(self).wf(),
            fx_extends(*final(self), *old(self)),
            final(self).table.view() == old(self).table.view(),
            final(self).locals == old(self).locals,
            match lookup_spec(old(self).table.view(), name@) {
                Some(h) => r == IdentExpr::Local(h) && final(self).deps@ == old(self).deps@,
                None => (r matches IdentExpr::Unresolved(n) && n@ =~= name@) && dep_recorded(
                    final(self).deps@,
                    name@,
                    span,
                ),
            },
    {
        match self.table.lookup(name.as_slice()) {
            Some(local) => IdentExpr::Local(local),
            None => {
                let kept = crate::token::clone_bytes(name.as_slice());
                self.record_dependency(kept, span);
                IdentExpr::Unresolved(name)
            },
        }
    }

    /// Declares a new local: appends its handle and registers the name
    /// in the innermost scope.  A name already declared in that same
    /// scope is a redefinition error whose spans point at both
    /// occurrences.
    pub fn declare_local(&mut self, name: Vec<u8>, span: Span) -> (r: Result<Handle, Error>)
        requires
            old(self).wf(),
            old(self).table.view().len() > 0,
            scope_handles_ok(*old(self)),
        ensures
            final(self).wf(),
            fx_extends(*final(self), *old(self)),
            final(self).deps@ == old(self).deps@,
            final(self).locals.view().len() == old(self).locals.view().len() + 1,
            final(self).locals.spans() =~= old(self).locals.spans().push(span),
            scope_handles_ok(*final(self)),
            match r {
                Ok(h) => h.index == old(self).locals.view().len() && !crate::scope::frame_has(
                    old(self).table.view().last(),
                    name@,
                ) && final(self).table.view().len() == old(self).table.view().len() && final(self).table.view().drop_last() =~~= old(self).table.view().drop_last() && final(self).table.view().last().drop_last() =~~= old(self).table.view().last() && final(self).table.view().last().last().name@ =~= name@ && final(self).table.view().last().last().local == h && crate::scope::frame_has(
                    final(self).table.view().last(),
                    name@,
                ),
                Err(e) => crate::scope::frame_has(old(self).table.view().last(), name@) && final(self).table.view() == old(self).table.view() && (e matches Error::Redefinition {
                    previous,
                    current,
                } && current == span && (frame_lookup(old(self).table.view().last(), name@)
                    matches Some(prev) && previous == old(self).locals.spans()[prev.index as int])),
            },
    {
        let handle = self.locals.append(Local {}, span);
        let kept = crate::token::clone_bytes(name.as_slice());
        match self.table.add(kept, handle) {
            Some(prev) => {
                proof {
                    crate::scope::lemma_frame_lookup_member(self.table.view().last(), kept@);
                    let w = choose|i: int|
                        0 <= i < self.table.view().last().len() && (#[trigger] self.table.view().last()[i]).name@
                            =~= kept@ && self.table.view().last()[i].local == frame_lookup(
                            self.table.view().last(),
                            kept@,
                        )->Some_0;
                    assert(self.table.view().last()[w].local.index < old(self).locals.view().len());
                }
                let previous = self.locals.get_span(prev);
                Err(Error::Redefinition { previous, current: span })
            },
            None => {
                proof {
                    assert forall|f: int, e: int|
                        0 <= f < self.table.view().len() && 0 <= e < self.table.view()[f].len()
                            implies (#[trigger] self.table.view()[f][e]).local.index
                        < self.locals.view().len() by {
                        if f < self.table.view().len() - 1 {
                            assert(self.table.view()[f] == old(self).table.view()[f]);
                        } else {
                            if e < self.table.view()[f].len() - 1 {
                                assert(self.table.view()[f][e] == old(self).table.view().last()[e]);
                            }
                        }
                    }
                }
                Ok(handle)
            },
        }
    }
}

/// A token that can stand alone as an operand in the associativity
/// facts below: a well-formed numeric literal.
pub open spec fn law_atom(t: Token) -> bool {
    t matches Token::Number(Ok(_))
}

/// The expression node an atom token produces.
pub open spec fn atom_matches(e: Expression, t: Token) -> bool {
    match (e, t) {
        (Expression::Literal(Literal::Number(m)), Token::Number(Ok(n))) => number_eq_spec(m, n),
        _ => false,
    }
}

/// `t` does not continue a postfix chain.
pub open spec fn no_postfix(t: Token) -> bool {
    &&& !(t matches Token::Separator(c) && c == 46)
    &&& !(t matches Token::Paren(c) && c == 91)
}

/// At `p` the tokens hold an atom whose follower starts no postfix
/// chain.
pub open spec fn atom_step(toks: Seq<Token>, p: int) -> bool {
    &&& 0 <= p
    &&& p + 1 < toks.len()
    &&& law_atom(toks[p])
    &&& no_postfix(toks[p + 1])
}

/// `t` ends every binary tier at or above `min`: it is no operator, or
/// one looser than `min`, and starts no postfix chain.
pub open spec fn stops(t: Token, mode: ExprMode, min: u32) -> bool {
    &&& match binop_level_spec(t, mode) {
        Some(ol) => ol.1 < min,
        None => true,
    }
    &&& no_postfix(t)
}

/// `t` is a binary operator at tier `min` or tighter.
pub open spec fn op_at_least(t: Token, mode: ExprMode, min: u32) -> bool {
    match binop_level_spec(t, mode) {
        Some(ol) => ol.1 >= min,
        None => false,
    }
}

/// The operator `t` names.
pub open spec fn op_of(t: Token, mode: ExprMode) -> BinaryOperator
    recommends
        binop_level_spec(t, mode) is Some,
{
    binop_level_spec(t, mode)->Some_0.0
}

/// The tier `t` sits on.
pub open spec fn level_of(t: Token, mode: ExprMode) -> u32
    recommends
        binop_level_spec(t, mode) is Some,
{
    binop_level_spec(t, mode)->Some_0.1
}

/// At `p`: one atom and then a stopper — the degenerate ladder input.
pub open spec fn single_atom_input(toks: Seq<Token>, p: int, mode: ExprMode, min: u32) -> bool {
    &&& atom_step(toks, p)
    &&& stops(toks[p + 1], mode, min)
}

/// At `p`: `a OP1 b OP2 c` and then a stopper, where both operators are
/// at tier `min` or tighter and OP1 binds at least as tightly as OP2.
pub open spec fn two_op_input(toks: Seq<Token>, p: int, mode: ExprMode, min: u32) -> bool {
    &&& 0 <= p
    &&& p + 5 < toks.len()
    &&& atom_step(toks, p)
    &&& op_at_least(toks[p + 1], mode, min)
    &&& atom_step(toks, p + 2)
    &&& op_at_least(toks[p + 3], mode, min)
    &&& level_of(toks[p + 3], mode) <= level_of(toks[p + 1], mode)
    &&& atom_step(toks, p + 4)
    &&& stops(toks[p + 5], mode, min)
}

/// The conclusion of the associativity fact: starting from `b`
/// expressions, the five nodes appended for `a OP1 b OP2 c` form
/// `OP2(OP1(a, b), c)`.
pub open spec fn two_op_result(
    exprs: Seq<Expression>,
    b: int,
    toks: Seq<Token>,
    p: int,
    mode: ExprMode,
) -> bool {
    &&& exprs.len() == b + 5
    &&& atom_matches(exprs[b], toks[p])
    &&& atom_matches(exprs[b + 1], toks[p + 2])
    &&& exprs[b + 2] == (Expression::Binary {
        op: op_of(toks[p + 1], mode),
        left: Handle { index: b as usize },
        right: Handle { index: (b + 1) as usize },
    })
    &&& atom_matches(exprs[b + 3], toks[p + 4])
    &&& exprs[b + 4] == (Expression::Binary {
        op: op_of(toks[p + 3], mode),
        left: Handle { index: (b + 2) as usize },
        right: Handle { index: (b + 3) as usize },
    })
}

impl Parser {
    /// Parses a full expression at the loosest tier.  The reading of
    /// angle brackets is decided by whichever of a generic argument list
    /// or an enclosed sub-expression is nearest on the rule stack.
    ///
    /// The final clauses are the grammar's precedence and associativity
    /// facts, for any `a OP1 b OP2 c` input with literal operands
    /// outside a generic list: the tree is `OP2(OP1(a, b), c)` when OP1
    /// binds at least as tightly as OP2 — so `a - b - c` associates to
    /// the left — and `OP1(a, OP2(b, c))` when OP2 binds strictly
    /// tighter, so the product of `1 + 2 * 3` binds first.
    pub fn general_expression(
        &mut self,
        ts: &mut TokenStream,
        tu: &mut TranslationUnit,
        fx: &mut FnCtx,
    ) -> (r: Result<Handle, Error>)
        requires
            old(ts).wf(),
            tu_wf(*old(tu)),
            old(fx).wf(),
        ensures
            final(ts).wf(),
            tu_wf(*final(tu)),
            final(fx).wf(),
            TokenStream::stepped_from(*final(ts), *old(ts)),
            tu_extends(*final(tu), *old(tu)),
            fx_extends(*final(fx), *old(fx)),
            final(fx).table.view() == old(fx).table.view(),
            r is Ok ==> final(ts).pos() > old(ts).pos(),
            r is Ok ==> final(self).rules.view() == old(self).rules.view(),
            match r {
                Ok(h) => h.index < final(tu).expressions.view().len(),
                Err(_) => true,
            },
            race_spec(old(self).rules.view(), Rule::GenericExpr, Rule::EnclosedExpr) != Some(
                Rule::GenericExpr,
            ) && single_atom_input(old(ts).tokens(), old(ts).pos(), ExprMode::Normal, 0) ==> r
                == Ok::<Handle, Error>(
                Handle { index: old(tu).expressions.view().len() as usize },
            ) && final(tu).expressions.view().len() == old(tu).expressions.view().len() + 1
                && atom_matches(
                final(tu).expressions.view().last(),
                old(ts).tokens()[old(ts).pos()],
            ) && final(ts).pos() == old(ts).pos() + 1 && final(ts).tokens() == old(ts).tokens() && final(ts).spans() == old(ts).spans(),
            race_spec(old(self).rules.view(), Rule::GenericExpr, Rule::EnclosedExpr) == Some(
                Rule::GenericExpr,
            ) && single_atom_input(old(ts).tokens(), old(ts).pos(), ExprMode::Generic, 0) ==> r
                == Ok::<Handle, Error>(
                Handle { index: old(tu).expressions.view().len() as usize },
            ) && final(tu).expressions.view().len() == old(tu).expressions.view().len() + 1
                && atom_matches(
                final(tu).expressions.view().last(),
                old(ts).tokens()[old(ts).pos()],
            ) && final(ts).pos() == old(ts).pos() + 1 && final(ts).tokens() == old(ts).tokens() && final(ts).spans() == old(ts).spans(),
            race_spec(old(self).rules.view(), Rule::GenericExpr, Rule::EnclosedExpr) != Some(
                Rule::GenericExpr,
            ) && two_op_input(old(ts).tokens(), old(ts).pos(), ExprMode::Normal, 0) ==> r
                == Ok::<Handle, Error>(
                Handle { index: (old(tu).expressions.view().len() + 4) as usize },
            ) && two_op_result(
                final(tu).expressions.view(),
                old(tu).expressions.view().len() as int,
                old(ts).tokens(),
                old(ts).pos(),
                ExprMode::Normal,
            ) && final(ts).pos() == old(ts).pos() + 5 && final(ts).tokens() == old(ts).tokens() && final(ts).spans() == old(ts).spans(),
            race_spec(old(self).rules.view(), Rule::GenericExpr, Rule::EnclosedExpr) != Some(
                Rule::GenericExpr,
            ) && two_op_right_input(old(ts).tokens(), old(ts).pos(), ExprMode::Normal, 0) ==> r
                == Ok::<Handle, Error>(
                Handle { index: (old(tu).expressions.view().len() + 4) as usize },
            ) && two_op_right_result(
                final(tu).expressions.view(),
                old(tu).expressions.view().len() as int,
                old(ts).tokens(),
                old(ts).pos(),
                ExprMode::Normal,
            ) && final(ts).pos() == old(ts).pos() + 5 && final(ts).tokens() == old(ts).tokens() && final(ts).spans() == old(ts).spans(),
        decreases old(ts).remaining(), 20int,
    {
        let enclosing = self.rules.race(Rule::GenericExpr, Rule::EnclosedExpr);
        let mode = match enclosing {
            Some(Rule::GenericExpr) => ExprMode::Generic,
            _ => ExprMode::Normal,
        };
        self.push_rule_span(Rule::GeneralExpr, ts);
        match self.binary_expression(0, mode, ts, tu, fx) {
            Ok(h) => {
                let _span = self.pop_rule_span(ts);
                proof {
                    assert(final(self).rules.view() =~= old(self).rules.view());
                }
                Ok(h)
            },
            Err(e) => Err(e),
        }
    }

    /// Parses one expression and reports the span it consumed.
    pub fn general_expression_with_span(
        &mut self,
        ts: &mut TokenStream,
        tu: &mut TranslationUnit,
        fx: &mut FnCtx,
    ) -> (r: Result<(Handle, Span), Error>)
        requires
            old(ts).wf(),
            tu_wf(*old(tu)),
            old(fx).wf(),
        ensures
            final(ts).wf(),
            tu_wf(*final(tu)),
            final(fx).wf(),
            TokenStream::stepped_from(*final(ts), *old(ts)),
            tu_extends(*final(tu), *old(tu)),
            fx_extends(*final(fx), *old(fx)),
            final(fx).table.view() == old(fx).table.view(),
            r is Ok ==> final(ts).pos() > old(ts).pos(),
            r is Ok ==> final(self).rules.view() == old(self).rules.view(),
            match r {
                Ok(p) => p.0.index < final(tu).expressions.view().len(),
                Err(_) => true,
            },
            race_spec(old(self).rules.view(), Rule::GenericExpr, Rule::EnclosedExpr) != Some(
                Rule::GenericExpr,
            ) && single_atom_input(old(ts).tokens(), old(ts).pos(), ExprMode::Normal, 0) ==> (
            r matches Ok(p) && p.0 == Handle { index: old(tu).expressions.view().len() as usize }
                && p.1 == old(ts).spans()[old(ts).pos()]) && final(tu).expressions.view().len()
                == old(tu).expressions.view().len() + 1 && atom_matches(
                final(tu).expressions.view().last(),
                old(ts).tokens()[old(ts).pos()],
            ) && final(ts).pos() == old(ts).pos() + 1 && final(ts).tokens() == old(ts).tokens()
                && final(ts).spans() == old(ts).spans(),
        decreases old(ts).remaining(), 21int,
    {
        let start = ts.start_byte_offset();
        let h = self.general_expression(ts, tu, fx)?;
        let span = ts.span_from(start);
        Ok((h, span))
    }

    /// The precedence climb: parses one operand at the tier above, then
    /// greedily extends it with operators at tier `min` or tighter,
    /// associating to the left.
    pub fn binary_expression(
        &mut self,
        min: u32,
        mode: ExprMode,
        ts: &mut TokenStream,
        tu: &mut TranslationUnit,
        fx: &mut FnCtx,
    ) -> (r: Result<Handle, Error>)
        requires
            old(ts).wf(),
            tu_wf(*old(tu)),
            old(fx).wf(),
        ensures
            final(ts).wf(),
            tu_wf(*final(tu)),
            final(fx).wf(),
            TokenStream::stepped_from(*final(ts), *old(ts)),
            tu_extends(*final(tu), *old(tu)),
            fx_extends(*final(fx), *old(fx)),
            final(fx).table.view() == old(fx).table.view(),
            r is Ok ==> final(ts).pos() > old(ts).pos(),
            r is Ok ==> final(self).rules.view() == old(self).rules.view(),
            match r {
                Ok(h) => h.index < final(tu).expressions.view().len(),
                Err(_) => true,
            },
            single_atom_input(old(ts).tokens(), old(ts).pos(), mode, min) ==> r == Ok::<
                Handle,
                Error,
            >(Handle { index: old(tu).expressions.view().len() as usize }) && final(tu).expressions.view().len() == old(tu).expressions.view().len() + 1 && atom_matches(
                final(tu).expressions.view().last(),
                old(ts).tokens()[old(ts).pos()],
            ) && final(ts).pos() == old(ts).pos() + 1 && final(ts).tokens() == old(ts).tokens() && final(ts).spans() == old(ts).spans(),
            two_op_input(old(ts).tokens(), old(ts).pos(), mode, min) ==> r == Ok::<Handle, Error>(
                Handle { index: (old(tu).expressions.view().len() + 4) as usize },
            ) && two_op_result(
                final(tu).expressions.view(),
                old(tu).expressions.view().len() as int,
                old(ts).tokens(),
                old(ts).pos(),
                mode,
            ) && final(ts).pos() == old(ts).pos() + 5 && final(ts).tokens() == old(ts).tokens() && final(ts).spans() == old(ts).spans(),
            one_op_input(old(ts).tokens(), old(ts).pos(), mode, min) ==> r == Ok::<Handle, Error>(
                Handle { index: (old(tu).expressions.view().len() + 2) as usize },
            ) && final(tu).expressions.view().len() == old(tu).expressions.view().len() + 3
                && atom_matches(
                final(tu).expressions.view()[old(tu).expressions.view().len() as int],
                old(ts).tokens()[old(ts).pos()],
            ) && atom_matches(
                final(tu).expressions.view()[old(tu).expressions.view().len() as int + 1],
                old(ts).tokens()[old(ts).pos() + 2],
            ) && final(tu).expressions.view()[old(tu).expressions.view().len() as int + 2] == (
            Expression::Binary {
                op: op_of(old(ts).tokens()[old(ts).pos() + 1], mode),
                left: Handle { index: old(tu).expressions.view().len() as usize },
                right: Handle { index: (old(tu).expressions.view().len() + 1) as usize },
            }) && final(ts).pos() == old(ts).pos() + 3 && final(ts).tokens() == old(ts).tokens() && final(ts).spans() == old(ts).spans(),
            two_op_right_input(old(ts).tokens(), old(ts).pos(), mode, min) ==> r == Ok::<
                Handle,
                Error,
            >(Handle { index: (old(tu).expressions.view().len() + 4) as usize })
                && two_op_right_result(
                final(tu).expressions.view(),
                old(tu).expressions.view().len() as int,
                old(ts).tokens(),
                old(ts).pos(),
                mode,
            ) && final(ts).pos() == old(ts).pos() + 5 && final(ts).tokens() == old(ts).tokens() && final(ts).spans() == old(ts).spans(),
        decreases old(ts).remaining(), 18int,
    {
        let start = ts.start_byte_offset();
        let lhs = self.unary_expression(mode, ts, tu, fx)?;
        let ghost ts1 = *ts;
        let ghost tu1 = *tu;
        let r = self.binary_tail(min, mode, lhs, start, ts, tu, fx);
        proof {
            let toks = old(ts).tokens();
            let p = old(ts).pos();
            let b = old(tu).expressions.view().len() as int;
            if two_op_input(toks, p, mode, min) {
                assert(atom_step(toks, p));
                assert(ts1.tokens() == toks && ts1.pos() == p + 1);
                assert(tu1.expressions.view().len() == b + 1);
                assert(tail_two_input(ts1.tokens(), ts1.pos(), mode, min));
                assert(tail_two_result(
                    final(tu).expressions.view(),
                    b + 1,
                    toks,
                    p + 1,
                    mode,
                    Handle { index: b as usize },
                ));
                assert(tu1.expressions.view().is_prefix_of(final(tu).expressions.view()));
                assert(final(tu).expressions.view()[b] == tu1.expressions.view()[b]);
                assert(two_op_result(final(tu).expressions.view(), b, toks, p, mode));
            }
            if one_op_input(toks, p, mode, min) {
                assert(atom_step(toks, p));
                assert(ts1.tokens() == toks && ts1.pos() == p + 1);
                assert(tu1.expressions.view().len() == b + 1);
                assert(tail_one_input(ts1.tokens(), ts1.pos(), mode, min));
                assert(tu1.expressions.view().is_prefix_of(final(tu).expressions.view()));
                assert(final(tu).expressions.view()[b] == tu1.expressions.view()[b]);
            }
            if two_op_right_input(toks, p, mode, min) {
                assert(atom_step(toks, p));
                assert(ts1.tokens() == toks && ts1.pos() == p + 1);
                assert(tu1.expressions.view().len() == b + 1);
                assert(tail_two_right_input(ts1.tokens(), ts1.pos(), mode, min));
                assert(tail_two_right_result(
                    final(tu).expressions.view(),
                    b + 1,
                    toks,
                    p + 1,
                    mode,
                    Handle { index: b as usize },
                ));
                assert(tu1.expressions.view().is_prefix_of(final(tu).expressions.view()));
                assert(final(tu).expressions.view()[b] == tu1.expressions.view()[b]);
                assert(two_op_right_result(final(tu).expressions.view(), b, toks, p, mode));
            }
        }
        r
    }

    /// The climb's loop, written as recursion: while the next token is
    /// an operator at tier `min` or tighter, consume it, parse the right
    /// operand at the next-tighter tier, and fold the pair into a
    /// left-associated `Binary` node.
    fn binary_tail(
        &mut self,
        min: u32,
        mode: ExprMode,
        lhs: Handle,
        start: usize,
        ts: &mut TokenStream,
        tu: &mut TranslationUnit,
        fx: &mut FnCtx,
    ) -> (r: Result<Handle, Error>)
        requires
            old(ts).wf(),
            tu_wf(*old(tu)),
            old(fx).wf(),
            lhs.index < old(tu).expressions.view().len(),
        ensures
            final(ts).wf(),
            tu_wf(*final(tu)),
            final(fx).wf(),
            TokenStream::stepped_from(*final(ts), *old(ts)),
            tu_extends(*final(tu), *old(tu)),
            fx_extends(*final(fx), *old(fx)),
            final(fx).table.view() == old(fx).table.view(),
            r is Ok ==> final(self).rules.view() == old(self).rules.view(),
            match r {
                Ok(h) => h.index < final(tu).expressions.view().len(),
                Err(_) => true,
            },
            stops(old(ts).cur(), mode, min) ==> r == Ok::<Handle, Error>(lhs) && *final(ts) == *old(ts) && final(tu).expressions.view() == old(tu).expressions.view() && final(self).rules.view()
                == old(self).rules.view(),
            tail_one_input(old(ts).tokens(), old(ts).pos(), mode, min) ==> r == Ok::<Handle, Error>(
                Handle { index: (old(tu).expressions.view().len() + 1) as usize },
            ) && final(tu).expressions.view().len() == old(tu).expressions.view().len() + 2
                && atom_matches(
                final(tu).expressions.view()[old(tu).expressions.view().len() as int],
                old(ts).tokens()[old(ts).pos() + 1],
            ) && final(tu).expressions.view()[old(tu).expressions.view().len() as int + 1] == (
            Expression::Binary {
                op: op_of(old(ts).cur(), mode),
                left: lhs,
                right: Handle { index: old(tu).expressions.view().len() as usize },
            }) && final(ts).pos() == old(ts).pos() + 2 && final(ts).tokens() == old(ts).tokens() && final(ts).spans() == old(ts).spans(),
            tail_two_input(old(ts).tokens(), old(ts).pos(), mode, min) ==> r == Ok::<Handle, Error>(
                Handle { index: (old(tu).expressions.view().len() + 3) as usize },
            ) && tail_two_result(
                final(tu).expressions.view(),
                old(tu).expressions.view().len() as int,
                old(ts).tokens(),
                old(ts).pos(),
                mode,
                lhs,
            ) && final(ts).pos() == old(ts).pos() + 4 && final(ts).tokens() == old(ts).tokens() && final(ts).spans() == old(ts).spans(),
            tail_two_right_input(old(ts).tokens(), old(ts).pos(), mode, min) ==> r == Ok::<
                Handle,
                Error,
            >(Handle { index: (old(tu).expressions.view().len() + 3) as usize })
                && tail_two_right_result(
                final(tu).expressions.view(),
                old(tu).expressions.view().len() as int,
                old(ts).tokens(),
                old(ts).pos(),
                mode,
                lhs,
            ) && final(ts).pos() == old(ts).pos() + 4 && final(ts).tokens() == old(ts).tokens() && final(ts).spans() == old(ts).spans(),
        decreases old(ts).remaining(), 19int,
    {
        let next = binop_level(ts.peek(), mode);
        match next {
            None => Ok(lhs),
            Some((op, lvl)) => {
                if lvl < min {
                    Ok(lhs)
                } else {
                    let _ = ts.next();
                    proof {
                        lemma_binop_level_bounded(old(ts).cur(), mode);
                    }
                    let ghost ts1 = *ts;
                    let right = self.binary_expression(lvl + 1, mode, ts, tu, fx)?;
                    let ghost ts2 = *ts;
                    let ghost tu2 = *tu;
                    let span = ts.span_from(start);
                    let h = tu.expressions.append(
                        Expression::Binary { op, left: lhs, right },
                        span,
                    );
                    let ghost ts3 = *ts;
                    let ghost tu3 = *tu;
                    let r = self.binary_tail(min, mode, h, start, ts, tu, fx);
                    proof {
                        let toks = old(ts).tokens();
                        let p = old(ts).pos();
                        let b = old(tu).expressions.view().len() as int;
                        if tail_two_input(toks, p, mode, min) {
                            assert(lvl == level_of(toks[p], mode));
                            assert(ts1.tokens() == toks && ts1.pos() == p + 1);
                            assert(single_atom_input(toks, p + 1, mode, (lvl + 1) as u32)) by {
                                assert(atom_step(toks, p + 1));
                                assert(level_of(toks[p + 2], mode) <= lvl);
                                assert(stops(toks[p + 2], mode, (lvl + 1) as u32));
                            }
                            assert(ts2.tokens() == toks && ts2.pos() == p + 2);
                            assert(tu2.expressions.view().len() == b + 1);
                            assert(atom_matches(tu2.expressions.view()[b], toks[p + 1]));
                            assert(right == Handle { index: b as usize });
                            assert(tu3.expressions.view().len() == b + 2);
                            assert(tu3.expressions.view()[b + 1] == (Expression::Binary {
                                op: op_of(toks[p], mode),
                                left: lhs,
                                right: Handle { index: b as usize },
                            }));
                            assert(tail_one_input(toks, p + 2, mode, min));
                            assert(final(tu).expressions.view().len() == b + 4);
                            assert(atom_matches(
                                final(tu).expressions.view()[b + 2],
                                toks[p + 3],
                            ));
                            assert(final(tu).expressions.view()[b + 3] == (Expression::Binary {
                                op: op_of(toks[p + 2], mode),
                                left: Handle { index: (b + 1) as usize },
                                right: Handle { index: (b + 2) as usize },
                            }));
                            assert(tu3.expressions.view().is_prefix_of(
                                final(tu).expressions.view(),
                            ));
                            assert(final(tu).expressions.view()[b] == tu3.expressions.view()[b]);
                            assert(final(tu).expressions.view()[b + 1] == tu3.expressions.view()[b
                                + 1]);
                            assert(tail_two_result(
                                final(tu).expressions.view(),
                                b,
                                toks,
                                p,
                                mode,
                                lhs,
                            ));
                        }
                        if tail_two_right_input(toks, p, mode, min) {
                            assert(lvl == level_of(toks[p], mode));
                            assert(ts1.tokens() == toks && ts1.pos() == p + 1);
                            assert(one_op_input(toks, p + 1, mode, (lvl + 1) as u32)) by {
                                assert(atom_step(toks, p + 1));
                                assert(level_of(toks[p + 2], mode) >= lvl + 1);
                                assert(op_at_least(toks[p + 2], mode, (lvl + 1) as u32));
                                assert(atom_step(toks, p + 3));
                                assert(stops(toks[p + 4], mode, (lvl + 1) as u32));
                            }
                            assert(ts2.tokens() == toks && ts2.pos() == p + 4);
                            assert(tu2.expressions.view().len() == b + 3);
                            assert(atom_matches(tu2.expressions.view()[b], toks[p + 1]));
                            assert(atom_matches(tu2.expressions.view()[b + 1], toks[p + 3]));
                            assert(tu2.expressions.view()[b + 2] == (Expression::Binary {
                                op: op_of(toks[p + 2], mode),
                                left: Handle { index: b as usize },
                                right: Handle { index: (b + 1) as usize },
                            }));
                            assert(right == Handle { index: (b + 2) as usize });
                            assert(tu3.expressions.view().len() == b + 4);
                            assert(tu3.expressions.view()[b + 3] == (Expression::Binary {
                                op: op_of(toks[p], mode),
                                left: lhs,
                                right: Handle { index: (b + 2) as usize },
                            }));
                            assert(stops(toks[p + 4], mode, min));
                            assert(final(tu).expressions.view() == tu3.expressions.view());
                            assert(tail_two_right_result(
                                final(tu).expressions.view(),
                                b,
                                toks,
                                p,
                                mode,
                                lhs,
                            ));
                        }
                    }
                    r
                }
            },
        }
    }

    /// The unary tier: prefix `-`, `!`, `~`, `*` and `&` apply to a
    /// unary operand; anything else is a singular expression.
    pub fn unary_expression(
        &mut self,
        mode: ExprMode,
        ts: &mut TokenStream,
        tu: &mut TranslationUnit,
        fx: &mut FnCtx,
    ) -> (r: Result<Handle, Error>)
        requires
            old(ts).wf(),
            tu_wf(*old(tu)),
            old(fx).wf(),
        ensures
            final(ts).wf(),
            tu_wf(*final(tu)),
            final(fx).wf(),
            TokenStream::stepped_from(*final(ts), *old(ts)),
            tu_extends(*final(tu), *old(tu)),
            fx_extends(*final(fx), *old(fx)),
            final(fx).table.view() == old(fx).table.view(),
            r is Ok ==> final(ts).pos() > old(ts).pos(),
            r is Ok ==> final(self).rules.view() == old(self).rules.view(),
            match r {
                Ok(h) => h.index < final(tu).expressions.view().len(),
                Err(_) => true,
            },
            atom_step(old(ts).tokens(), old(ts).pos()) ==> r == Ok::<Handle, Error>(
                Handle { index: old(tu).expressions.view().len() as usize },
            ) && final(tu).expressions.view().len() == old(tu).expressions.view().len() + 1
                && atom_matches(
                final(tu).expressions.view().last(),
                old(ts).tokens()[old(ts).pos()],
            ) && final(ts).pos() == old(ts).pos() + 1 && final(ts).tokens() == old(ts).tokens() && final(ts).spans() == old(ts).spans(),
        decreases old(ts).remaining(), 16int,
    {
        self.push_rule_span(Rule::UnaryExpr, ts);
        let kind: u8 = match ts.peek() {
            Token::Operation(c) => {
                if *c == 45 {
                    1
                } else if *c == 33 {
                    2
                } else if *c == 126 {
                    3
                } else if *c == 42 {
                    4
                } else if *c == 38 {
                    5
                } else {
                    0
                }
            },
            _ => 0,
        };
        let expr: Handle = if kind == 0 {
            match self.singular_expression(mode, ts, tu, fx) {
                Ok(h) => h,
                Err(e) => {
                    return Err(e);
                },
            }
        } else {
            let _ = ts.next();
            let inner = match self.unary_expression(mode, ts, tu, fx) {
                Ok(h) => h,
                Err(e) => {
                    return Err(e);
                },
            };
            let node = if kind == 1 {
                Expression::Unary { op: UnaryOperator::Negate, expr: inner }
            } else if kind == 2 {
                Expression::Unary { op: UnaryOperator::LogicalNot, expr: inner }
            } else if kind == 3 {
                Expression::Unary { op: UnaryOperator::BitwiseNot, expr: inner }
            } else if kind == 4 {
                Expression::Deref(inner)
            } else {
                Expression::AddrOf(inner)
            };
            let span = self.peek_rule_span(ts);
            tu.expressions.append(node, span)
        };
        let _ = self.pop_rule_span(ts);
        proof {
            assert(final(self).rules.view() =~= old(self).rules.view());
        }
        Ok(expr)
    }

    /// The singular tier: a primary expression extended by a postfix
    /// chain of `.field` and `[index]` accesses.
    pub fn singular_expression(
        &mut self,
        mode: ExprMode,
        ts: &mut TokenStream,
        tu: &mut TranslationUnit,
        fx: &mut FnCtx,
    ) -> (r: Result<Handle, Error>)
        requires
            old(ts).wf(),
            tu_wf(*old(tu)),
            old(fx).wf(),
        ensures
            final(ts).wf(),
            tu_wf(*final(tu)),
            final(fx).wf(),
            TokenStream::stepped_from(*final(ts), *old(ts)),
            tu_extends(*final(tu), *old(tu)),
            fx_extends(*final(fx), *old(fx)),
            final(fx).table.view() == old(fx).table.view(),
            r is Ok ==> final(ts).pos() > old(ts).pos(),
            r is Ok ==> final(self).rules.view() == old(self).rules.view(),
            match r {
                Ok(h) => h.index < final(tu).expressions.view().len(),
                Err(_) => true,
            },
            atom_step(old(ts).tokens(), old(ts).pos()) ==> r == Ok::<Handle, Error>(
                Handle { index: old(tu).expressions.view().len() as usize },
            ) && final(tu).expressions.view().len() == old(tu).expressions.view().len() + 1
                && atom_matches(
                final(tu).expressions.view().last(),
                old(ts).tokens()[old(ts).pos()],
            ) && final(ts).pos() == old(ts).pos() + 1 && final(ts).tokens() == old(ts).tokens() && final(ts).spans() == old(ts).spans(),
        decreases old(ts).remaining(), 14int,
    {
        let start = ts.start_byte_offset();
        self.push_rule_span(Rule::SingularExpr, ts);
        let primary = match self.primary_expression(ts, tu, fx) {
            Ok(h) => h,
            Err(e) => {
                return Err(e);
            },
        };
        let singular = match self.postfix(start, primary, ts, tu, fx) {
            Ok(h) => h,
            Err(e) => {
                return Err(e);
            },
        };
        let _ = self.pop_rule_span(ts);
        proof {
            assert(final(self).rules.view() =~= old(self).rules.view());
        }
        Ok(singular)
    }

    /// The postfix chain: `.field` and `[index]` applied repeatedly,
    /// left to right, each node re-spanned from the chain's start.
    fn postfix(
        &mut self,
        start: usize,
        expr: Handle,
        ts: &mut TokenStream,
        tu: &mut TranslationUnit,
        fx: &mut FnCtx,
    ) -> (r: Result<Handle, Error>)
        requires
            old(ts).wf(),
            tu_wf(*old(tu)),
            old(fx).wf(),
            expr.index < old(tu).expressions.view().len(),
        ensures
            final(ts).wf(),
            tu_wf(*final(tu)),
            final(fx).wf(),
            TokenStream::stepped_from(*final(ts), *old(ts)),
            tu_extends(*final(tu), *old(tu)),
            fx_extends(*final(fx), *old(fx)),
            final(fx).table.view() == old(fx).table.view(),
            r is Ok ==> final(self).rules.view() == old(self).rules.view(),
            match r {
                Ok(h) => h.index < final(tu).expressions.view().len(),
                Err(_) => true,
            },
            no_postfix(old(ts).cur()) ==> r == Ok::<Handle, Error>(expr) && *final(ts) == *old(ts)
                && final(tu).expressions.view() == old(tu).expressions.view() && final(self).rules.view() == old(self).rules.view(),
        decreases old(ts).remaining(), 13int,
    {
        let kind: u8 = match ts.peek() {
            Token::Separator(c) => {
                if *c == 46 {
                    1
                } else {
                    0
                }
            },
            Token::Paren(c) => {
                if *c == 91 {
                    2
                } else {
                    0
                }
            },
            _ => 0,
        };
        if kind == 0 {
            return Ok(expr);
        }
        let _ = ts.next();
        let node: Expression = if kind == 1 {
            let (name, name_span) = match ts.next_ident_with_span() {
                Ok(p) => p,
                Err(e) => {
                    return Err(e);
                },
            };
            Expression::Member { base: expr, field: Ident { name, span: name_span } }
        } else {
            let index = match self.enclosed_expression(ts, tu, fx) {
                Ok(h) => h,
                Err(e) => {
                    return Err(e);
                },
            };
            match ts.expect(&Token::Paren(93)) {
                Ok(()) => (),
                Err(e) => {
                    return Err(e);
                },
            }
            Expression::Index { base: expr, index }
        };
        let span = ts.span_from(start);
        let h = tu.expressions.append(node, span);
        self.postfix(start, h, ts, tu, fx)
    }

    /// A parenthesized or bracketed sub-expression: inside it the angle
    /// brackets read as comparison operators again.
    pub fn enclosed_expression(
        &mut self,
        ts: &mut TokenStream,
        tu: &mut TranslationUnit,
        fx: &mut FnCtx,
    ) -> (r: Result<Handle, Error>)
        requires
            old(ts).wf(),
            tu_wf(*old(tu)),
            old(fx).wf(),
        ensures
            final(ts).wf(),
            tu_wf(*final(tu)),
            final(fx).wf(),
            TokenStream::stepped_from(*final(ts), *old(ts)),
            tu_extends(*final(tu), *old(tu)),
            fx_extends(*final(fx), *old(fx)),
            final(fx).table.view() == old(fx).table.view(),
            r is Ok ==> final(ts).pos() > old(ts).pos(),
            r is Ok ==> final(self).rules.view() == old(self).rules.view(),
            match r {
                Ok(h) => h.index < final(tu).expressions.view().len(),
                Err(_) => true,
            },
            single_atom_input(old(ts).tokens(), old(ts).pos(), ExprMode::Normal, 0) ==> r == Ok::<
                Handle,
                Error,
            >(Handle { index: old(tu).expressions.view().len() as usize }) && final(tu).expressions.view().len() == old(tu).expressions.view().len() + 1 && atom_matches(
                final(tu).expressions.view().last(),
                old(ts).tokens()[old(ts).pos()],
            ) && final(ts).pos() == old(ts).pos() + 1 && final(ts).tokens() == old(ts).tokens()
                && final(ts).spans() == old(ts).spans(),
        decreases old(ts).remaining(), 22int,
    {
        self.push_rule_span(Rule::EnclosedExpr, ts);
        proof {
            assert(race_spec(self.rules.view(), Rule::GenericExpr, Rule::EnclosedExpr) == Some(
                Rule::EnclosedExpr,
            ));
        }
        let expr = match self.general_expression(ts, tu, fx) {
            Ok(h) => h,
            Err(e) => {
                return Err(e);
            },
        };
        let _ = self.pop_rule_span(ts);
        proof {
            assert(final(self).rules.view() =~= old(self).rules.view());
        }
        Ok(expr)
    }

    /// A constant expression inside a generic argument list: `<` and `>`
    /// are reserved for the list's delimiters while it is parsed.
    pub fn const_generic_expression(
        &mut self,
        ts: &mut TokenStream,
        tu: &mut TranslationUnit,
        fx: &mut FnCtx,
    ) -> (r: Result<Handle, Error>)
        requires
            old(ts).wf(),
            tu_wf(*old(tu)),
            old(fx).wf(),
        ensures
            final(ts).wf(),
            tu_wf(*final(tu)),
            final(fx).wf(),
            TokenStream::stepped_from(*final(ts), *old(ts)),
            tu_extends(*final(tu), *old(tu)),
            fx_extends(*final(fx), *old(fx)),
            final(fx).table.view() == old(fx).table.view(),
            r is Ok ==> final(ts).pos() > old(ts).pos(),
            r is Ok ==> final(self).rules.view() == old(self).rules.view(),
            match r {
                Ok(h) => h.index < final(tu).expressions.view().len(),
                Err(_) => true,
            },
            single_atom_input(old(ts).tokens(), old(ts).pos(), ExprMode::Generic, 0) ==> r == Ok::<
                Handle,
                Error,
            >(Handle { index: old(tu).expressions.view().len() as usize }) && final(tu).expressions.view().len() == old(tu).expressions.view().len() + 1 && atom_matches(
                final(tu).expressions.view().last(),
                old(ts).tokens()[old(ts).pos()],
            ) && final(ts).pos() == old(ts).pos() + 1 && final(ts).tokens() == old(ts).tokens()
                && final(ts).spans() == old(ts).spans(),
        decreases old(ts).remaining(), 22int,
    {
        self.push_rule_span(Rule::GenericExpr, ts);
        proof {
            assert(race_spec(self.rules.view(), Rule::GenericExpr, Rule::EnclosedExpr) == Some(
                Rule::GenericExpr,
            ));
        }
        let expr = match self.general_expression(ts, tu, fx) {
            Ok(h) => h,
            Err(e) => {
                return Err(e);
            },
        };
        let _ = self.pop_rule_span(ts);
        proof {
            assert(final(self).rules.view() =~= old(self).rules.view());
        }
        Ok(expr)
    }

    /// A parenthesized, comma-separated argument list, the opening `(`
    /// still unconsumed.
    pub fn arguments(
        &mut self,
        ts: &mut TokenStream,
        tu: &mut TranslationUnit,
        fx: &mut FnCtx,
    ) -> (r: Result<Vec<Handle>, Error>)
        requires
            old(ts).wf(),
            tu_wf(*old(tu)),
            old(fx).wf(),
        ensures
            final(ts).wf(),
            tu_wf(*final(tu)),
            final(fx).wf(),
            TokenStream::stepped_from(*final(ts), *old(ts)),
            tu_extends(*final(tu), *old(tu)),
            fx_extends(*final(fx), *old(fx)),
            final(fx).table.view() == old(fx).table.view(),
            r is Ok ==> final(ts).pos() > old(ts).pos(),
            r is Ok ==> final(self).rules.view() == old(self).rules.view(),
            ((old(ts).cur() matches Token::Paren(c) && c == 40) && (old(ts).second()
                matches Token::Paren(c2) && c2 == 41)) ==> (r matches Ok(a) && a@.len() == 0)
                && final(ts).pos() == old(ts).pos() + 2 && final(ts).tokens() == old(ts).tokens()
                && final(ts).spans() == old(ts).spans() && *final(tu) == *old(tu) && *final(fx)
                == *old(fx),
        decreases old(ts).remaining(), 10int,
    {
        self.push_rule_span(Rule::EnclosedExpr, ts);
        match ts.expect(&Token::Paren(40)) {
            Ok(()) => (),
            Err(e) => {
                return Err(e);
            },
        }
        let mut args: Vec<Handle> = Vec::new();
        if ts.skip(&Token::Paren(41)) {
            let _ = self.pop_rule_span(ts);
            proof {
                assert(final(self).rules.view() =~= old(self).rules.view());
            }
            return Ok(args);
        }
        loop
            invariant
                ts.wf(),
                tu_wf(*tu),
                fx.wf(),
                TokenStream::stepped_from(*ts, *old(ts)),
                tu_extends(*tu, *old(tu)),
                fx_extends(*fx, *old(fx)),
                fx.table.view() == old(fx).table.view(),
                ts.pos() > old(ts).pos(),
                !((old(ts).cur() matches Token::Paren(c) && c == 40) && (old(ts).second()
                    matches Token::Paren(c2) && c2 == 41)),
                self.rules.view() =~= old(self).rules.view().push(
                    crate::rules::RuleEntry {
                        rule: Rule::EnclosedExpr,
                        start: old(ts).cur_span().start,
                    },
                ),
            ensures
                ts.wf(),
                tu_wf(*tu),
                fx.wf(),
                TokenStream::stepped_from(*ts, *old(ts)),
                tu_extends(*tu, *old(tu)),
                fx_extends(*fx, *old(fx)),
                fx.table.view() == old(fx).table.view(),
                ts.pos() > old(ts).pos(),
                !((old(ts).cur() matches Token::Paren(c) && c == 40) && (old(ts).second()
                    matches Token::Paren(c2) && c2 == 41)),
                self.rules.view() =~= old(self).rules.view().push(
                    crate::rules::RuleEntry {
                        rule: Rule::EnclosedExpr,
                        start: old(ts).cur_span().start,
                    },
                ),
            decreases ts.remaining(),
        {
            if args.len() > 0 {
                let (tok, tok_span) = ts.next();
                let c = match tok {
                    Token::Separator(c) => c,
                    Token::Paren(c) => c,
                    _ => 0,
                };
                if c == 41 {
                    break ;
                }
                if c != 44 {
                    return Err(
                        Error::Unexpected(tok_span, ExpectedToken::Token(Token::Separator(44))),
                    );
                }
            } else {
                if ts.skip(&Token::Paren(41)) {
                    break ;
                }
            }
            let arg = match self.general_expression(ts, tu, fx) {
                Ok(h) => h,
                Err(e) => {
                    return Err(e);
                },
            };
            args.push(arg);
        }
        let _ = self.pop_rule_span(ts);
        proof {
            assert(final(self).rules.view() =~= old(self).rules.view());
        }
        Ok(args)
    }

    /// A call expression, its callee name already consumed.  `bitcast`
    /// is an operator needing a generic target type; every other name is
    /// recorded as an unresolved dependency, since a user function may
    /// shadow a built-in one.
    pub fn function_call(
        &mut self,
        name: Vec<u8>,
        name_span: Span,
        ts: &mut TokenStream,
        tu: &mut TranslationUnit,
        fx: &mut FnCtx,
    ) -> (r: Result<Handle, Error>)
        requires
            old(ts).wf(),
            tu_wf(*old(tu)),
            old(fx).wf(),
            old(self).rules.view().len() > 0,
        ensures
            final(ts).wf(),
            tu_wf(*final(tu)),
            final(fx).wf(),
            TokenStream::stepped_from(*final(ts), *old(ts)),
            tu_extends(*final(tu), *old(tu)),
            fx_extends(*final(fx), *old(fx)),
            final(fx).table.view() == old(fx).table.view(),
            r is Ok ==> final(ts).pos() > old(ts).pos(),
            r is Ok ==> final(self).rules.view() == old(self).rules.view(),
            match r {
                Ok(h) => h.index < final(tu).expressions.view().len(),
                Err(_) => true,
            },
            (name@ != "bitcast".spec_bytes() && (old(ts).cur() matches Token::Paren(c) && c == 40)
                && (old(ts).second() matches Token::Paren(c2) && c2 == 41)) ==> r == Ok::<
                Handle,
                Error,
            >(Handle { index: old(tu).expressions.view().len() as usize }) && final(tu).expressions.view().len() == old(tu).expressions.view().len() + 1 && (final(tu).expressions.view().last() matches Expression::Call { function, arguments }
                && function.name@ == name@ && function.span == name_span && arguments@.len() == 0)
                && dep_recorded(final(fx).deps@, name@, name_span) && final(ts).pos() == old(ts).pos() + 2 && final(ts).tokens() == old(ts).tokens(),
        decreases old(ts).remaining(), 30int,
    {
        let expr: Expression = if bytes_eq(name.as_slice(), "bitcast".as_bytes()) {
            let (to, ty_span) = match self.singular_generic(ts, tu, fx) {
                Ok(p) => p,
                Err(e) => {
                    return Err(e);
                },
            };
            match ts.expect(&Token::Paren(40)) {
                Ok(()) => (),
                Err(e) => {
                    return Err(e);
                },
            }
            let inner = match self.general_expression(ts, tu, fx) {
                Ok(h) => h,
                Err(e) => {
                    return Err(e);
                },
            };
            match ts.expect(&Token::Paren(41)) {
                Ok(()) => (),
                Err(e) => {
                    return Err(e);
                },
            }
            Expression::Bitcast { expr: inner, to, ty_span }
        } else {
            let arguments = match self.arguments(ts, tu, fx) {
                Ok(a) => a,
                Err(e) => {
                    return Err(e);
                },
            };
            let kept = crate::token::clone_bytes(name.as_slice());
            fx.record_dependency(kept, name_span);
            Expression::Call { function: Ident { name, span: name_span }, arguments }
        };
        let span = self.peek_rule_span(ts);
        let h = tu.expressions.append(expr, span);
        Ok(h)
    }

    /// The primary tier: a parenthesized sub-expression, a literal, a
    /// named constant, a type constructor, a function call, or a plain
    /// identifier resolved against the scope table.
    pub fn primary_expression(
        &mut self,
        ts: &mut TokenStream,
        tu: &mut TranslationUnit,
        fx: &mut FnCtx,
    ) -> (r: Result<Handle, Error>)
        requires
            old(ts).wf(),
            tu_wf(*old(tu)),
            old(fx).wf(),
            old(self).rules.view().len() > 0,
        ensures
            final(ts).wf(),
            tu_wf(*final(tu)),
            final(fx).wf(),
            TokenStream::stepped_from(*final(ts), *old(ts)),
            tu_extends(*final(tu), *old(tu)),
            fx_extends(*final(fx), *old(fx)),
            final(fx).table.view() == old(fx).table.view(),
            r is Ok ==> final(ts).pos() > old(ts).pos(),
            r is Ok ==> final(self).rules.view() == old(self).rules.view(),
            match r {
                Ok(h) => h.index < final(tu).expressions.view().len(),
                Err(_) => true,
            },
            (law_atom(old(ts).cur()) && !(old(ts).cur() is End)) ==> r == Ok::<Handle, Error>(
                Handle { index: old(tu).expressions.view().len() as usize },
            ) && final(tu).expressions.view().len() == old(tu).expressions.view().len() + 1
                && atom_matches(final(tu).expressions.view().last(), old(ts).cur()) && final(ts).pos() == old(ts).pos() + 1 && final(ts).tokens() == old(ts).tokens() && final(ts).spans() == old(ts).spans() && final(self).rules.view() == old(self).rules.view(),
        decreases old(ts).remaining(), 12int,
    {
        self.push_rule_span(Rule::PrimaryExpr, ts);
        let (tok, tok_span) = ts.next();
        let expr: Expression = match tok {
            Token::Paren(c) => {
                if c == 40 {
                    let inner = match self.enclosed_expression(ts, tu, fx) {
                        Ok(h) => h,
                        Err(e) => {
                            return Err(e);
                        },
                    };
                    match ts.expect(&Token::Paren(41)) {
                        Ok(()) => (),
                        Err(e) => {
                            return Err(e);
                        },
                    }
                    let _ = self.pop_rule_span(ts);
                    proof {
                        assert(final(self).rules.view() =~= old(self).rules.view());
                    }
                    return Ok(inner);
                } else {
                    return Err(Error::Unexpected(tok_span, ExpectedToken::PrimaryExpression));
                }
            },
            Token::Number(res) => {
                match res {
                    Ok(num) => Expression::Literal(Literal::Number(num)),
                    Err(NumberError::UnimplementedF16) => {
                        return Err(Error::EnableExtensionNotEnabled { span: tok_span });
                    },
                    Err(e) => {
                        return Err(Error::BadNumber(tok_span, e));
                    },
                }
            },
            Token::Word(name) => {
                if bytes_eq(name.as_slice(), "true".as_bytes()) {
                    Expression::Literal(Literal::Bool(true))
                } else if bytes_eq(name.as_slice(), "false".as_bytes()) {
                    Expression::Literal(Literal::Bool(false))
                } else if let Some(flag) = ray_constant(name.as_slice()) {
                    Expression::Literal(Literal::Number(Number::U32(flag)))
                } else {
                    let start = tok_span.start;
                    let ctor = match self.constructor_type(
                        name.as_slice(),
                        tok_span,
                        ts,
                        tu,
                        fx,
                    ) {
                        Ok(c) => c,
                        Err(e) => {
                            return Err(e);
                        },
                    };
                    match ctor {
                        Some(ty) => {
                            let ty_span = ts.span_from(start);
                            let components = match self.arguments(ts, tu, fx) {
                                Ok(a) => a,
                                Err(e) => {
                                    return Err(e);
                                },
                            };
                            Expression::Construct { ty, ty_span, components }
                        },
                        None => {
                            let next_is_paren = match ts.peek() {
                                Token::Paren(c) => *c == 40,
                                _ => false,
                            };
                            if next_is_paren || bytes_eq(name.as_slice(), "bitcast".as_bytes()) {
                                let _ = self.pop_rule_span(ts);
                                let h = match self.function_call(name, tok_span, ts, tu, fx) {
                                    Ok(h) => h,
                                    Err(e) => {
                                        return Err(e);
                                    },
                                };
                                proof {
                                    assert(final(self).rules.view() =~= old(self).rules.view());
                                }
                                return Ok(h);
                            } else {
                                let ident = fx.ident_expr(name, tok_span);
                                Expression::Ident(ident)
                            }
                        },
                    }
                }
            },
            _ => {
                return Err(Error::Unexpected(tok_span, ExpectedToken::PrimaryExpression));
            },
        };
        let span = self.pop_rule_span(ts);
        let h = tu.expressions.append(expr, span);
        proof {
            assert(final(self).rules.view() =~= old(self).rules.view());
        }
        Ok(h)
    }
}

/// At `p`: one operator at tier `min` or tighter, an atom, and then a
/// stopper — one more fold for the climb's tail.
pub open spec fn tail_one_input(toks: Seq<Token>, p: int, mode: ExprMode, min: u32) -> bool {
    &&& 0 <= p
    &&& p + 2 < toks.len()
    &&& op_at_least(toks[p], mode, min)
    &&& no_postfix(toks[p])
    &&& atom_step(toks, p + 1)
    &&& stops(toks[p + 2], mode, min)
}

/// At `p`: `OP1 b OP2 c` then a stopper, with OP1 at least as tight as
/// OP2 and both at tier `min` or tighter — two more folds for the tail.
pub open spec fn tail_two_input(toks: Seq<Token>, p: int, mode: ExprMode, min: u32) -> bool {
    &&& 0 <= p
    &&& p + 4 < toks.len()
    &&& op_at_least(toks[p], mode, min)
    &&& no_postfix(toks[p])
    &&& atom_step(toks, p + 1)
    &&& op_at_least(toks[p + 2], mode, min)
    &&& no_postfix(toks[p + 2])
    &&& level_of(toks[p + 2], mode) <= level_of(toks[p], mode)
    &&& atom_step(toks, p + 3)
    &&& stops(toks[p + 4], mode, min)
}

/// The tail's two-fold conclusion: operand `b`, the fold of `lhs` with
/// it, operand `c`, and the fold of the two folds.
pub open spec fn tail_two_result(
    exprs: Seq<Expression>,
    b: int,
    toks: Seq<Token>,
    p: int,
    mode: ExprMode,
    lhs: Handle,
) -> bool {
    &&& exprs.len() == b + 4
    &&& atom_matches(exprs[b], toks[p + 1])
    &&& exprs[b + 1] == (Expression::Binary {
        op: op_of(toks[p], mode),
        left: lhs,
        right: Handle { index: b as usize },
    })
    &&& atom_matches(exprs[b + 2], toks[p + 3])
    &&& exprs[b + 3] == (Expression::Binary {
        op: op_of(toks[p + 2], mode),
        left: Handle { index: (b + 1) as usize },
        right: Handle { index: (b + 2) as usize },
    })
}

/// At `p`: one atom, one operator at tier `min` or tighter, one atom,
/// and then a stopper.
pub open spec fn one_op_input(toks: Seq<Token>, p: int, mode: ExprMode, min: u32) -> bool {
    &&& 0 <= p
    &&& p + 3 < toks.len()
    &&& atom_step(toks, p)
    &&& op_at_least(toks[p + 1], mode, min)
    &&& no_postfix(toks[p + 1])
    &&& atom_step(toks, p + 2)
    &&& stops(toks[p + 3], mode, min)
}

/// At `p`: `a OP1 b OP2 c` and then a stopper, where OP2 binds strictly
/// tighter than OP1 — the orientation where the right side groups first.
pub open spec fn two_op_right_input(toks: Seq<Token>, p: int, mode: ExprMode, min: u32) -> bool {
    &&& 0 <= p
    &&& p + 5 < toks.len()
    &&& atom_step(toks, p)
    &&& op_at_least(toks[p + 1], mode, min)
    &&& no_postfix(toks[p + 1])
    &&& atom_step(toks, p + 2)
    &&& binop_level_spec(toks[p + 3], mode) is Some
    &&& level_of(toks[p + 3], mode) > level_of(toks[p + 1], mode)
    &&& no_postfix(toks[p + 3])
    &&& atom_step(toks, p + 4)
    &&& stops(toks[p + 5], mode, min)
}

/// The conclusion of the dual associativity fact: for `a OP1 b OP2 c`
/// with OP2 strictly tighter, the five nodes appended form
/// `OP1(a, OP2(b, c))`.
pub open spec fn two_op_right_result(
    exprs: Seq<Expression>,
    b: int,
    toks: Seq<Token>,
    p: int,
    mode: ExprMode,
) -> bool {
    &&& exprs.len() == b + 5
    &&& atom_matches(exprs[b], toks[p])
    &&& atom_matches(exprs[b + 1], toks[p + 2])
    &&& atom_matches(exprs[b + 2], toks[p + 4])
    &&& exprs[b + 3] == (Expression::Binary {
        op: op_of(toks[p + 3], mode),
        left: Handle { index: (b + 1) as usize },
        right: Handle { index: (b + 2) as usize },
    })
    &&& exprs[b + 4] == (Expression::Binary {
        op: op_of(toks[p + 1], mode),
        left: Handle { index: b as usize },
        right: Handle { index: (b + 3) as usize },
    })
}

/// At `p` for the climb's tail: one operator at tier `min` or tighter,
/// then an atom bound to a strictly tighter operator and a second atom —
/// the dual orientation, where the right side folds first.
pub open spec fn tail_two_right_input(toks: Seq<Token>, p: int, mode: ExprMode, min: u32) -> bool {
    &&& 0 <= p
    &&& p + 4 < toks.len()
    &&& op_at_least(toks[p], mode, min)
    &&& no_postfix(toks[p])
    &&& atom_step(toks, p + 1)
    &&& binop_level_spec(toks[p + 2], mode) is Some
    &&& level_of(toks[p + 2], mode) > level_of(toks[p], mode)
    &&& no_postfix(toks[p + 2])
    &&& atom_step(toks, p + 3)
    &&& stops(toks[p + 4], mode, min)
}

/// The tail's dual conclusion: the right pair folds first, then `lhs`
/// folds with it.
pub open spec fn tail_two_right_result(
    exprs: Seq<Expression>,
    b: int,
    toks: Seq<Token>,
    p: int,
    mode: ExprMode,
    lhs: Handle,
) -> bool {
    &&& exprs.len() == b + 4
    &&& atom_matches(exprs[b], toks[p + 1])
    &&& atom_matches(exprs[b + 1], toks[p + 3])
    &&& exprs[b + 2] == (Expression::Binary {
        op: op_of(toks[p + 2], mode),
        left: Handle { index: b as usize },
        right: Handle { index: (b + 1) as usize },
    })
    &&& exprs[b + 3] == (Expression::Binary {
        op: op_of(toks[p], mode),
        left: lhs,
        right: Handle { index: (b + 2) as usize },
    })
}

/// The named bit-flag and enum-like constants the primary tier maps to
/// unsigned literals.
pub open spec fn ray_constant_spec(w: Seq<u8>) -> Option<u32> {
    if w == "RAY_FLAG_NONE".spec_bytes() {
        Some(0u32)
    } else if w == "RAY_FLAG_FORCE_OPAQUE".spec_bytes() {
        Some(1u32)
    } else if w == "RAY_FLAG_FORCE_NO_OPAQUE".spec_bytes() {
        Some(2u32)
    } else if w == "RAY_FLAG_TERMINATE_ON_FIRST_HIT".spec_bytes() {
        Some(4u32)
    } else if w == "RAY_FLAG_SKIP_CLOSEST_HIT_SHADER".spec_bytes() {
        Some(8u32)
    } else if w == "RAY_FLAG_CULL_BACK_FACING".spec_bytes() {
        Some(16u32)
    } else if w == "RAY_FLAG_CULL_FRONT_FACING".spec_bytes() {
        Some(32u32)
    } else if w == "RAY_FLAG_CULL_OPAQUE".spec_bytes() {
        Some(64u32)
    } else if w == "RAY_FLAG_CULL_NO_OPAQUE".spec_bytes() {
        Some(128u32)
    } else if w == "RAY_FLAG_SKIP_TRIANGLES".spec_bytes() {
        Some(256u32)
    } else if w == "RAY_FLAG_SKIP_AABBS".spec_bytes() {
        Some(512u32)
    } else if w == "RAY_QUERY_INTERSECTION_NONE".spec_bytes() {
        Some(0u32)
    } else if w == "RAY_QUERY_INTERSECTION_TRIANGLE".spec_bytes() {
        Some(1u32)
    } else if w == "RAY_QUERY_INTERSECTION_GENERATED".spec_bytes() {
        Some(2u32)
    } else if w == "RAY_QUERY_INTERSECTION_AABB".spec_bytes() {
        Some(3u32)
    } else {
        None
    }
}

/// Decides [`ray_constant_spec`].
pub fn ray_constant(w: &[u8]) -> (r: Option<u32>)
    ensures
        r == ray_constant_spec(w@),
{
    if bytes_eq(w, "RAY_FLAG_NONE".as_bytes()) {
        Some(0u32)
    } else if bytes_eq(w, "RAY_FLAG_FORCE_OPAQUE".as_bytes()) {
        Some(1u32)
    } else if bytes_eq(w, "RAY_FLAG_FORCE_NO_OPAQUE".as_bytes()) {
        Some(2u32)
    } else if bytes_eq(w, "RAY_FLAG_TERMINATE_ON_FIRST_HIT".as_bytes()) {
        Some(4u32)
    } else if bytes_eq(w, "RAY_FLAG_SKIP_CLOSEST_HIT_SHADER".as_bytes()) {
        Some(8u32)
    } else if bytes_eq(w, "RAY_FLAG_CULL_BACK_FACING".as_bytes()) {
        Some(16u32)
    } else if bytes_eq(w, "RAY_FLAG_CULL_FRONT_FACING".as_bytes()) {
        Some(32u32)
    } else if bytes_eq(w, "RAY_FLAG_CULL_OPAQUE".as_bytes()) {
        Some(64u32)
    } else if bytes_eq(w, "RAY_FLAG_CULL_NO_OPAQUE".as_bytes()) {
        Some(128u32)
    } else if bytes_eq(w, "RAY_FLAG_SKIP_TRIANGLES".as_bytes()) {
        Some(256u32)
    } else if bytes_eq(w, "RAY_FLAG_SKIP_AABBS".as_bytes()) {
        Some(512u32)
    } else if bytes_eq(w, "RAY_QUERY_INTERSECTION_NONE".as_bytes()) {
        Some(0u32)
    } else if bytes_eq(w, "RAY_QUERY_INTERSECTION_TRIANGLE".as_bytes()) {
        Some(1u32)
    } else if bytes_eq(w, "RAY_QUERY_INTERSECTION_GENERATED".as_bytes()) {
        Some(2u32)
    } else if bytes_eq(w, "RAY_QUERY_INTERSECTION_AABB".as_bytes()) {
        Some(3u32)
    } else {
        None
    }
}

} // verus!
