//! The statement and block parser: statement dispatch, the scope stack,
//! the desugaring of `while` and `for` into the primitive `loop`, and
//! the brace-nesting limit that bounds recursion depth.

use vstd::prelude::*;
use vstd::string::StringSliceAdditionalSpecFns;

use crate::arena::{Handle, Span};
use crate::ast::{
    Block, Ident, LetDecl, LocalConst, LocalDecl, LocalVariable, Statement, StatementKind,
    SwitchCase, SwitchValue, TranslationUnit,
};
use crate::ast::BinaryOperator;
use crate::error::{Error, ExpectedToken};
use crate::expr::{
    fx_extends, lemma_scope_handles_persist, lemma_scope_handles_pop_frame,
    lemma_scope_handles_push_frame, scope_handles_ok, tu_extends, tu_wf, FnCtx,
};
use crate::parser::Parser;
use crate::rules::Rule;
use crate::stream::TokenStream;
use crate::token::{bytes_eq, Token};

verus! {

/// The deepest allowed nesting of brace-enclosed statements, bounding
/// recursion depth against adversarial input.
pub const BRACE_NESTING_MAXIMUM: u8 = 64;

/// One more level of brace nesting: allowed up to the maximum, and an
/// error carrying the offending brace's span and the limit beyond it.
pub open spec fn increase_nesting_spec(level: u8, brace_span: Span) -> Result<u8, Error> {
    if level + 1 > BRACE_NESTING_MAXIMUM {
        Err(Error::ExceededLimitForNestedBraces { span: brace_span, limit: BRACE_NESTING_MAXIMUM })
    } else {
        Ok((level + 1) as u8)
    }
}

/// Decides [`increase_nesting_spec`].
pub fn increase_brace_nesting(level: u8, brace_span: Span) -> (r: Result<u8, Error>)
    requires
        level <= BRACE_NESTING_MAXIMUM,
    ensures
        r == increase_nesting_spec(level, brace_span),
        r matches Ok(l) ==> l <= BRACE_NESTING_MAXIMUM,
{
    if level + 1 > BRACE_NESTING_MAXIMUM {
        Err(Error::ExceededLimitForNestedBraces { span: brace_span, limit: BRACE_NESTING_MAXIMUM })
    } else {
        Ok(level + 1)
    }
}

/// Builds the `loop` statement that `while` and `for` desugar into: the
/// body opens with a conditional break on the negated condition (when
/// there is one), then runs the original body as a nested block; the
/// update of a `for` goes into the `continuing` block.
pub fn loop_shell(
    condition: Option<(Handle, Span)>,
    body_block: Block,
    body_span: Span,
    continuing: Block,
) -> (r: StatementKind)
    ensures
        r matches StatementKind::Loop { body, continuing: c, break_if } && break_if is None && c
            == continuing && (match condition {
            Some((cond, span)) => {
                &&& body.stmts@.len() == 2
                &&& body.stmts@[0].span == span
                &&& (body.stmts@[0].kind matches StatementKind::If { condition: c2, accept, reject }
                    && c2 == cond && accept.stmts@.len() == 0 && reject.stmts@.len() == 1
                    && reject.stmts@[0].kind is Break && reject.stmts@[0].span == span)
                &&& (body.stmts@[1].kind matches StatementKind::Block(b) && b == body_block)
                &&& body.stmts@[1].span == body_span
            },
            None => {
                &&& body.stmts@.len() == 1
                &&& (body.stmts@[0].kind matches StatementKind::Block(b) && b == body_block)
                &&& body.stmts@[0].span == body_span
            },
        }),
{
    let mut body = Block::new();
    match condition {
        Some((cond, span)) => {
            let mut reject = Block::new();
            reject.stmts.push(Statement { kind: StatementKind::Break, span });
            body.stmts.push(
                Statement {
                    kind: StatementKind::If { condition: cond, accept: Block::new(), reject },
                    span,
                },
            );
        },
        None => {},
    }
    body.stmts.push(Statement { kind: StatementKind::Block(body_block), span: body_span });
    StatementKind::Loop { body, continuing, break_if: None }
}

/// Which statement keyword a word starts, if any.
#[derive(Clone, Copy, Debug, PartialEq, Eq, Structural)]
pub enum StmtKw {
    Underscore,
    Let,
    Const,
    Var,
    Return,
    If,
    Switch,
    Loop,
    While,
    For,
    Break,
    Continue,
    Discard,
    ConstAssert,
    Other,
}

/// The statement-keyword table.
pub open spec fn statement_kw_spec(w: Seq<u8>) -> StmtKw {
    if w == "_".spec_bytes() {
        StmtKw::Underscore
    } else if w == "let".spec_bytes() {
        StmtKw::Let
    } else if w == "const".spec_bytes() {
        StmtKw::Const
    } else if w == "var".spec_bytes() {
        StmtKw::Var
    } else if w == "return".spec_bytes() {
        StmtKw::Return
    } else if w == "if".spec_bytes() {
        StmtKw::If
    } else if w == "switch".spec_bytes() {
        StmtKw::Switch
    } else if w == "loop".spec_bytes() {
        StmtKw::Loop
    } else if w == "while".spec_bytes() {
        StmtKw::While
    } else if w == "for".spec_bytes() {
        StmtKw::For
    } else if w == "break".spec_bytes() {
        StmtKw::Break
    } else if w == "continue".spec_bytes() {
        StmtKw::Continue
    } else if w == "discard".spec_bytes() {
        StmtKw::Discard
    } else if w == "const_assert".spec_bytes() {
        StmtKw::ConstAssert
    } else {
        StmtKw::Other
    }
}

/// Decides [`statement_kw_spec`].
fn statement_kw(w: &[u8]) -> (r: StmtKw)
    ensures
        r == statement_kw_spec(w@),
{
    if bytes_eq(w, "_".as_bytes()) {
        StmtKw::Underscore
    } else if bytes_eq(w, "let".as_bytes()) {
        StmtKw::Let
    } else if bytes_eq(w, "const".as_bytes()) {
        StmtKw::Const
    } else if bytes_eq(w, "var".as_bytes()) {
        StmtKw::Var
    } else if bytes_eq(w, "return".as_bytes()) {
        StmtKw::Return
    } else if bytes_eq(w, "if".as_bytes()) {
        StmtKw::If
    } else if bytes_eq(w, "switch".as_bytes()) {
        StmtKw::Switch
    } else if bytes_eq(w, "loop".as_bytes()) {
        StmtKw::Loop
    } else if bytes_eq(w, "while".as_bytes()) {
        StmtKw::While
    } else if bytes_eq(w, "for".as_bytes()) {
        StmtKw::For
    } else if bytes_eq(w, "break".as_bytes()) {
        StmtKw::Break
    } else if bytes_eq(w, "continue".as_bytes()) {
        StmtKw::Continue
    } else if bytes_eq(w, "discard".as_bytes()) {
        StmtKw::Discard
    } else if bytes_eq(w, "const_assert".as_bytes()) {
        StmtKw::ConstAssert
    } else {
        StmtKw::Other
    }
}

impl Parser {
    /// Parses one `case` or `default` selector of a `switch`.
    pub fn switch_value(
        &mut self,
        ts: &mut TokenStream,
        tu: &mut TranslationUnit,
        fx: &mut FnCtx,
    ) -> (r: Result<SwitchValue, Error>)
        requires
            old(ts).wf(),
            tu_wf(*old(tu)),
            old(fx).wf(),
        ensures
            final(ts).wf(),
            tu_wf(*final(tu)),
            final(fx).wf(),
            TokenStream::stepped_from(*final(ts), *old(ts)),
            tu_extends(*final(tu), *old(tu)),
            fx_extends(*final(fx), *old(fx)),
            final(fx).table.view() == old(fx).table.view(),
            r is Ok ==> final(ts).pos() > old(ts).pos(),
            r is Ok ==> final(self).rules.view() == old(self).rules.view(),
            (old(ts).cur() matches Token::Word(w) && w@ == "default".spec_bytes()) ==> r == Ok::<
                SwitchValue,
                Error,
            >(SwitchValue::Default) && final(ts).pos() == old(ts).pos() + 1 && final(ts).tokens()
                == old(ts).tokens() && *final(tu) == *old(tu) && *final(fx) == *old(fx) && final(self).rules.view() == old(self).rules.view(),
        decreases old(ts).remaining(), 21int,
    {
        if ts.skip_word("default") {
            return Ok(SwitchValue::Default);
        }
        let expr = match self.general_expression(ts, tu, fx) {
            Ok(h) => h,
            Err(e) => {
                return Err(e);
            },
        };
        Ok(SwitchValue::Expr(expr))
    }

    /// Parses a call statement, its callee name already consumed.
    fn function_statement(
        &mut self,
        name: Vec<u8>,
        name_span: Span,
        span_start: usize,
        ts: &mut TokenStream,
        tu: &mut TranslationUnit,
        fx: &mut FnCtx,
        block: &mut Block,
    ) -> (r: Result<(), Error>)
        requires
            old(ts).wf(),
            tu_wf(*old(tu)),
            old(fx).wf(),
        ensures
            final(ts).wf(),
            tu_wf(*final(tu)),
            final(fx).wf(),
            TokenStream::stepped_from(*final(ts), *old(ts)),
            tu_extends(*final(tu), *old(tu)),
            fx_extends(*final(fx), *old(fx)),
            final(fx).table.view() == old(fx).table.view(),
            r is Ok ==> final(ts).pos() > old(ts).pos(),
            r is Ok ==> final(self).rules.view() == old(self).rules.view(),
            ((old(ts).cur() matches Token::Paren(c) && c == 40) && (old(ts).second()
                matches Token::Paren(c2) && c2 == 41)) ==> r == Ok::<(), Error>(()) && final(block).stmts@.len() == old(block).stmts@.len() + 1 && (final(block).stmts@.last().kind
                matches StatementKind::Call { function, arguments } && function.name@ == name@
                && function.span == name_span && arguments@.len() == 0) && final(ts).pos() == old(ts).pos() + 2 && final(ts).tokens() == old(ts).tokens() && *final(tu) == *old(tu),
        decreases old(ts).remaining(), 32int,
    {
        self.push_rule_span(Rule::SingularExpr, ts);
        let kept = crate::token::clone_bytes(name.as_slice());
        fx.record_dependency(kept, name_span);
        let arguments = match self.arguments(ts, tu, fx) {
            Ok(a) => a,
            Err(e) => {
                return Err(e);
            },
        };
        let span = ts.span_from(span_start);
        block.stmts.push(
            Statement {
                kind: StatementKind::Call {
                    function: Ident { name, span: name_span },
                    arguments,
                },
                span,
            },
        );
        let _ = self.pop_rule_span(ts);
        proof {
            assert(final(self).rules.view() =~= old(self).rules.view());
        }
        Ok(())
    }

    /// Parses the operator and right-hand side of an assignment whose
    /// target is already parsed, or the `++`/`--` that completes an
    /// increment or decrement statement.
    fn assignment_op_and_rhs(
        &mut self,
        target: Handle,
        span_start: usize,
        ts: &mut TokenStream,
        tu: &mut TranslationUnit,
        fx: &mut FnCtx,
        block: &mut Block,
    ) -> (r: Result<(), Error>)
        requires
            old(ts).wf(),
            tu_wf(*old(tu)),
            old(fx).wf(),
        ensures
            final(ts).wf(),
            tu_wf(*final(tu)),
            final(fx).wf(),
            TokenStream::stepped_from(*final(ts), *old(ts)),
            tu_extends(*final(tu), *old(tu)),
            fx_extends(*final(fx), *old(fx)),
            final(fx).table.view() == old(fx).table.view(),
            r is Ok ==> final(ts).pos() > old(ts).pos(),
            r is Ok ==> final(self).rules.view() == old(self).rules.view(),
            old(ts).cur() is IncrementOperation ==> r == Ok::<(), Error>(()) && final(block).stmts@.len() == old(block).stmts@.len() + 1 && final(block).stmts@.last().kind
                == StatementKind::Increment(target) && final(ts).pos() == old(ts).pos() + 1
                && final(ts).tokens() == old(ts).tokens() && *final(tu) == *old(tu) && *final(fx)
                == *old(fx),
        decreases old(ts).remaining(), 33int,
    {
        let (op_tok, op_span) = ts.next();
        let op: Option<BinaryOperator> = match &op_tok {
            Token::Operation(c) => {
                if *c == 61 {
                    None
                } else {
                    return Err(Error::Unexpected(op_span, ExpectedToken::Assignment));
                }
            },
            Token::AssignmentOperation(c) => {
                if *c == 60 {
                    Some(BinaryOperator::ShiftLeft)
                } else if *c == 62 {
                    Some(BinaryOperator::ShiftRight)
                } else if *c == 43 {
                    Some(BinaryOperator::Add)
                } else if *c == 45 {
                    Some(BinaryOperator::Subtract)
                } else if *c == 42 {
                    Some(BinaryOperator::Multiply)
                } else if *c == 47 {
                    Some(BinaryOperator::Divide)
                } else if *c == 37 {
                    Some(BinaryOperator::Modulo)
                } else if *c == 38 {
                    Some(BinaryOperator::And)
                } else if *c == 124 {
                    Some(BinaryOperator::InclusiveOr)
                } else if *c == 94 {
                    Some(BinaryOperator::ExclusiveOr)
                } else {
                    return Err(Error::Unexpected(op_span, ExpectedToken::Assignment));
                }
            },
            Token::IncrementOperation => {
                let span = ts.span_from(span_start);
                block.stmts.push(Statement { kind: StatementKind::Increment(target), span });
                return Ok(());
            },
            Token::DecrementOperation => {
                let span = ts.span_from(span_start);
                block.stmts.push(Statement { kind: StatementKind::Decrement(target), span });
                return Ok(());
            },
            _ => {
                return Err(Error::Unexpected(op_span, ExpectedToken::Assignment));
            },
        };
        let value = match self.general_expression(ts, tu, fx) {
            Ok(h) => h,
            Err(e) => {
                return Err(e);
            },
        };
        let span = ts.span_from(span_start);
        block.stmts.push(Statement { kind: StatementKind::Assign { target, op, value }, span });
        Ok(())
    }

    /// Parses an assignment, increment or decrement statement from its
    /// target onward.
    fn assignment_statement(
        &mut self,
        ts: &mut TokenStream,
        tu: &mut TranslationUnit,
        fx: &mut FnCtx,
        block: &mut Block,
    ) -> (r: Result<(), Error>)
        requires
            old(ts).wf(),
            tu_wf(*old(tu)),
            old(fx).wf(),
        ensures
            final(ts).wf(),
            tu_wf(*final(tu)),
            final(fx).wf(),
            TokenStream::stepped_from(*final(ts), *old(ts)),
            tu_extends(*final(tu), *old(tu)),
            fx_extends(*final(fx), *old(fx)),
            final(fx).table.view() == old(fx).table.view(),
            r is Ok ==> final(ts).pos() > old(ts).pos(),
            r is Ok ==> final(self).rules.view() == old(self).rules.view(),
            (crate::expr::single_atom_input(old(ts).tokens(), old(ts).pos(), crate::expr::ExprMode::Normal, 0)
                && old(ts).tokens()[old(ts).pos() + 1] is IncrementOperation) ==> r == Ok::<
                (),
                Error,
            >(()) && final(block).stmts@.len() == old(block).stmts@.len() + 1 && final(block).stmts@.last().kind == StatementKind::Increment(
                Handle { index: old(tu).expressions.view().len() as usize },
            ) && final(ts).pos() == old(ts).pos() + 2 && final(ts).tokens() == old(ts).tokens(),
        decreases old(ts).remaining(), 34int,
    {
        let span_start = ts.start_byte_offset();
        let target = match self.general_expression(ts, tu, fx) {
            Ok(h) => h,
            Err(e) => {
                return Err(e);
            },
        };
        self.assignment_op_and_rhs(target, span_start, ts, tu, fx, block)
    }

    /// Two-token lookahead decides: an identifier followed by `(` is a
    /// call statement; anything else parses as an assignment target.
    fn function_call_or_assignment_statement(
        &mut self,
        ts: &mut TokenStream,
        tu: &mut TranslationUnit,
        fx: &mut FnCtx,
        block: &mut Block,
    ) -> (r: Result<(), Error>)
        requires
            old(ts).wf(),
            tu_wf(*old(tu)),
            old(fx).wf(),
        ensures
            final(ts).wf(),
            tu_wf(*final(tu)),
            final(fx).wf(),
            TokenStream::stepped_from(*final(ts), *old(ts)),
            tu_extends(*final(tu), *old(tu)),
            fx_extends(*final(fx), *old(fx)),
            final(fx).table.view() == old(fx).table.view(),
            r is Ok ==> final(ts).pos() > old(ts).pos(),
            r is Ok ==> final(self).rules.view() == old(self).rules.view(),
            (old(ts).cur() is Word && (old(ts).second() matches Token::Paren(c) && c == 40) && (old(ts).pos() + 2 < old(ts).tokens().len()) && (old(ts).tokens()[old(ts).pos() + 2]
                matches Token::Paren(c2) && c2 == 41)) ==> r == Ok::<(), Error>(()) && final(block).stmts@.len() == old(block).stmts@.len() + 1 && (final(block).stmts@.last().kind
                matches StatementKind::Call { arguments, .. } && arguments@.len() == 0) && final(ts).pos() == old(ts).pos() + 3 && final(ts).tokens() == old(ts).tokens(),
        decreases old(ts).remaining(), 36int,
    {
        let span_start = ts.start_byte_offset();
        let is_word = match ts.peek() {
            Token::Word(_) => true,
            _ => false,
        };
        let second_is_paren = match ts.peek_second() {
            Token::Paren(c) => *c == 40,
            _ => false,
        };
        if is_word && second_is_paren {
            let (tok, span) = ts.next();
            match tok {
                Token::Word(name) => self.function_statement(name, span, span_start, ts, tu, fx, block),
                _ => Err(Error::Unexpected(span, ExpectedToken::Identifier)),
            }
        } else {
            self.assignment_statement(ts, tu, fx, block)
        }
    }

    /// Parses one statement into `block`.
    pub fn statement(
        &mut self,
        ts: &mut TokenStream,
        tu: &mut TranslationUnit,
        fx: &mut FnCtx,
        block: &mut Block,
        level: u8,
    ) -> (r: Result<(), Error>)
        requires
            old(ts).wf(),
            tu_wf(*old(tu)),
            old(fx).wf(),
            old(fx).table.view().len() >= 1,
            scope_handles_ok(*old(fx)),
            level <= BRACE_NESTING_MAXIMUM,
        ensures
            final(ts).wf(),
            tu_wf(*final(tu)),
            final(fx).wf(),
            TokenStream::stepped_from(*final(ts), *old(ts)),
            tu_extends(*final(tu), *old(tu)),
            fx_extends(*final(fx), *old(fx)),
            r is Ok ==> final(ts).pos() > old(ts).pos(),
            r is Ok ==> final(self).rules.view() == old(self).rules.view(),
            r is Ok ==> final(fx).table.view().len() == old(fx).table.view().len() && final(fx).table.view().len() >= 1 && scope_handles_ok(*final(fx)),
            (old(ts).cur() matches Token::Separator(c) && c == 59) ==> r == Ok::<(), Error>(())
                && final(ts).pos() == old(ts).pos() + 1 && final(ts).tokens() == old(ts).tokens()
                && *final(block) == *old(block) && *final(tu) == *old(tu) && *final(fx) == *old(fx),
            ((old(ts).cur() matches Token::Word(w) && statement_kw_spec(w@) is Break) && (old(ts).second() matches Token::Separator(c) && c == 59)) ==> r == Ok::<(), Error>(())
                && final(ts).pos() == old(ts).pos() + 2 && final(ts).tokens() == old(ts).tokens()
                && final(block).stmts@.len() == old(block).stmts@.len() + 1 && final(block).stmts@.last().kind is Break && *final(tu) == *old(tu) && *final(fx) == *old(fx),
        decreases old(ts).remaining(), 40int,
    {
        self.push_rule_span(Rule::Statement, ts);
        let starts_block = match ts.peek() {
            Token::Paren(c) => *c == 123,
            Token::Attribute => true,
            _ => false,
        };
        if starts_block {
            let (inner, span) = match self.block(ts, tu, fx, level) {
                Ok(p) => p,
                Err(e) => {
                    return Err(e);
                },
            };
            block.stmts.push(Statement { kind: StatementKind::Block(inner), span });
            let _ = self.pop_rule_span(ts);
            proof {
                assert(final(self).rules.view() =~= old(self).rules.view());
            }
            return Ok(());
        }
        let is_semi = match ts.peek() {
            Token::Separator(c) => *c == 59,
            _ => false,
        };
        if is_semi {
            let _ = ts.next();
            let _ = self.pop_rule_span(ts);
            proof {
                assert(final(self).rules.view() =~= old(self).rules.view());
            }
            return Ok(());
        }
        let kw = match ts.peek() {
            Token::Word(w) => statement_kw(w.as_slice()),
            _ => StmtKw::Other,
        };
        let is_word = match ts.peek() {
            Token::Word(_) => true,
            _ => false,
        };
        if !is_word {
            match self.assignment_statement(ts, tu, fx, block) {
                Ok(()) => (),
                Err(e) => {
                    return Err(e);
                },
            }
            match ts.expect(&Token::Separator(59)) {
                Ok(()) => (),
                Err(e) => {
                    return Err(e);
                },
            }
            let _ = self.pop_rule_span(ts);
            proof {
                assert(final(self).rules.view() =~= old(self).rules.view());
            }
            return Ok(());
        }
        let kind: StatementKind = match kw {
            StmtKw::Underscore => {
                let _ = ts.next();
                match ts.expect(&Token::Operation(61)) {
                    Ok(()) => (),
                    Err(e) => {
                        return Err(e);
                    },
                }
                let expr = match self.general_expression(ts, tu, fx) {
                    Ok(h) => h,
                    Err(e) => {
                        return Err(e);
                    },
                };
                match ts.expect(&Token::Separator(59)) {
                    Ok(()) => (),
                    Err(e) => {
                        return Err(e);
                    },
                }
                proof {
                    lemma_scope_handles_persist(*old(fx), *fx);
                }
                StatementKind::Phony(expr)
            },
            StmtKw::Let => {
                let _ = ts.next();
                let (name, name_span) = match ts.next_ident_with_span() {
                    Ok(p) => p,
                    Err(e) => {
                        return Err(e);
                    },
                };
                let given_ty = if ts.skip(&Token::Separator(58)) {
                    let ty = match self.type_decl(ts, tu, fx) {
                        Ok(h) => h,
                        Err(e) => {
                            return Err(e);
                        },
                    };
                    Some(ty)
                } else {
                    None
                };
                match ts.expect(&Token::Operation(61)) {
                    Ok(()) => (),
                    Err(e) => {
                        return Err(e);
                    },
                }
                let init = match self.general_expression(ts, tu, fx) {
                    Ok(h) => h,
                    Err(e) => {
                        return Err(e);
                    },
                };
                match ts.expect(&Token::Separator(59)) {
                    Ok(()) => (),
                    Err(e) => {
                        return Err(e);
                    },
                }
                proof {
                    lemma_scope_handles_persist(*old(fx), *fx);
                }
                let kept = crate::token::clone_bytes(name.as_slice());
                let handle = match fx.declare_local(kept, name_span) {
                    Ok(h) => h,
                    Err(e) => {
                        return Err(e);
                    },
                };
                StatementKind::LocalDecl(
                    LocalDecl::Let(
                        LetDecl { name: Ident { name, span: name_span }, ty: given_ty, init, handle },
                    ),
                )
            },
            StmtKw::Const => {
                let _ = ts.next();
                let (name, name_span) = match ts.next_ident_with_span() {
                    Ok(p) => p,
                    Err(e) => {
                        return Err(e);
                    },
                };
                let given_ty = if ts.skip(&Token::Separator(58)) {
                    let ty = match self.type_decl(ts, tu, fx) {
                        Ok(h) => h,
                        Err(e) => {
                            return Err(e);
                        },
                    };
                    Some(ty)
                } else {
                    None
                };
                match ts.expect(&Token::Operation(61)) {
                    Ok(()) => (),
                    Err(e) => {
                        return Err(e);
                    },
                }
                let init = match self.general_expression(ts, tu, fx) {
                    Ok(h) => h,
                    Err(e) => {
                        return Err(e);
                    },
                };
                match ts.expect(&Token::Separator(59)) {
                    Ok(()) => (),
                    Err(e) => {
                        return Err(e);
                    },
                }
                proof {
                    lemma_scope_handles_persist(*old(fx), *fx);
                }
                let kept = crate::token::clone_bytes(name.as_slice());
                let handle = match fx.declare_local(kept, name_span) {
                    Ok(h) => h,
                    Err(e) => {
                        return Err(e);
                    },
                };
                StatementKind::LocalDecl(
                    LocalDecl::Const(
                        LocalConst {
                            name: Ident { name, span: name_span },
                            ty: given_ty,
                            init,
                            handle,
                        },
                    ),
                )
            },
            StmtKw::Var => {
                let _ = ts.next();
                let (name, name_span) = match ts.next_ident_with_span() {
                    Ok(p) => p,
                    Err(e) => {
                        return Err(e);
                    },
                };
                let given_ty = if ts.skip(&Token::Separator(58)) {
                    let ty = match self.type_decl(ts, tu, fx) {
                        Ok(h) => h,
                        Err(e) => {
                            return Err(e);
                        },
                    };
                    Some(ty)
                } else {
                    None
                };
                let init = if ts.skip(&Token::Operation(61)) {
                    let init = match self.general_expression(ts, tu, fx) {
                        Ok(h) => h,
                        Err(e) => {
                            return Err(e);
                        },
                    };
                    Some(init)
                } else {
                    None
                };
                match ts.expect(&Token::Separator(59)) {
                    Ok(()) => (),
                    Err(e) => {
                        return Err(e);
                    },
                }
                proof {
                    lemma_scope_handles_persist(*old(fx), *fx);
                }
                let kept = crate::token::clone_bytes(name.as_slice());
                let handle = match fx.declare_local(kept, name_span) {
                    Ok(h) => h,
                    Err(e) => {
                        return Err(e);
                    },
                };
                StatementKind::LocalDecl(
                    LocalDecl::Var(
                        LocalVariable {
                            name: Ident { name, span: name_span },
                            ty: given_ty,
                            init,
                            handle,
                        },
                    ),
                )
            },
            StmtKw::Return => {
                let _ = ts.next();
                let at_semi = match ts.peek() {
                    Token::Separator(c) => *c == 59,
                    _ => false,
                };
                let value = if at_semi {
                    None
                } else {
                    let h = match self.general_expression(ts, tu, fx) {
                        Ok(h) => h,
                        Err(e) => {
                            return Err(e);
                        },
                    };
                    Some(h)
                };
                match ts.expect(&Token::Separator(59)) {
                    Ok(()) => (),
                    Err(e) => {
                        return Err(e);
                    },
                }
                proof {
                    lemma_scope_handles_persist(*old(fx), *fx);
                }
                StatementKind::Return { value }
            },
            StmtKw::If => {
                let _ = ts.next();
                let condition = match self.general_expression(ts, tu, fx) {
                    Ok(h) => h,
                    Err(e) => {
                        return Err(e);
                    },
                };
                let accept = match self.block(ts, tu, fx, level) {
                    Ok(p) => p.0,
                    Err(e) => {
                        return Err(e);
                    },
                };
                let mut elsif_stack: Vec<(usize, Handle, Block)> = Vec::new();
                let mut elseif_span_start = ts.start_byte_offset();
                let mut reject = Block::new();
                loop
                    invariant
                        ts.wf(),
                        tu_wf(*tu),
                        fx.wf(),
                        TokenStream::stepped_from(*ts, *old(ts)),
                        tu_extends(*tu, *old(tu)),
                        fx_extends(*fx, *old(fx)),
                        fx.table.view().len() == old(fx).table.view().len(),
                        fx.table.view().len() >= 1,
                        scope_handles_ok(*fx),
                        level <= BRACE_NESTING_MAXIMUM,
                        ts.pos() > old(ts).pos(),
                !(old(ts).cur() matches Token::Separator(c3) && c3 == 59),
                !((old(ts).cur() matches Token::Word(w3) && statement_kw_spec(w3@) is Break) && (old(ts).second() matches Token::Separator(c4) && c4 == 59)),
                        self.rules.view() =~= old(self).rules.view().push(
                            crate::rules::RuleEntry {
                                rule: Rule::Statement,
                                start: old(ts).cur_span().start,
                            },
                        ),
                    ensures
                        ts.wf(),
                        tu_wf(*tu),
                        fx.wf(),
                        TokenStream::stepped_from(*ts, *old(ts)),
                        tu_extends(*tu, *old(tu)),
                        fx_extends(*fx, *old(fx)),
                        fx.table.view().len() == old(fx).table.view().len(),
                        fx.table.view().len() >= 1,
                        scope_handles_ok(*fx),
                        ts.pos() > old(ts).pos(),
                !(old(ts).cur() matches Token::Separator(c3) && c3 == 59),
                !((old(ts).cur() matches Token::Word(w3) && statement_kw_spec(w3@) is Break) && (old(ts).second() matches Token::Separator(c4) && c4 == 59)),
                        self.rules.view() =~= old(self).rules.view().push(
                            crate::rules::RuleEntry {
                                rule: Rule::Statement,
                                start: old(ts).cur_span().start,
                            },
                        ),
                    decreases ts.remaining(),
                {
                    if !ts.skip_word("else") {
                        break ;
                    }
                    if !ts.skip_word("if") {
                        reject = match self.block(ts, tu, fx, level) {
                            Ok(p) => p.0,
                            Err(e) => {
                                return Err(e);
                            },
                        };
                        break ;
                    }
                    let other_condition = match self.general_expression(ts, tu, fx) {
                        Ok(h) => h,
                        Err(e) => {
                            return Err(e);
                        },
                    };
                    let other_block = match self.block(ts, tu, fx, level) {
                        Ok(p) => p.0,
                        Err(e) => {
                            return Err(e);
                        },
                    };
                    elsif_stack.push((elseif_span_start, other_condition, other_block));
                    elseif_span_start = ts.start_byte_offset();
                }
                // fold the `else if` chain right to left: each clause
                // becomes the sole statement of the previous one's
                // reject branch
                loop
                    invariant
                        ts.wf(),
                    decreases elsif_stack@.len(),
                {
                    let entry = elsif_stack.pop();
                    match entry {
                        None => {
                            break ;
                        },
                        Some((other_span_start, other_cond, other_block)) => {
                            let sub = StatementKind::If {
                                condition: other_cond,
                                accept: other_block,
                                reject,
                            };
                            reject = Block::new();
                            reject.stmts.push(
                                Statement { kind: sub, span: ts.span_from(other_span_start) },
                            );
                        },
                    }
                }
                StatementKind::If { condition, accept, reject }
            },
            StmtKw::Switch => {
                let _ = ts.next();
                let selector = match self.general_expression(ts, tu, fx) {
                    Ok(h) => h,
                    Err(e) => {
                        return Err(e);
                    },
                };
                let brace_span = match ts.expect_span(&Token::Paren(123)) {
                    Ok(s) => s,
                    Err(e) => {
                        return Err(e);
                    },
                };
                let inner_level = match increase_brace_nesting(level, brace_span) {
                    Ok(l) => l,
                    Err(e) => {
                        return Err(e);
                    },
                };
                let mut cases: Vec<SwitchCase> = Vec::new();
                loop
                    invariant
                        ts.wf(),
                        tu_wf(*tu),
                        fx.wf(),
                        TokenStream::stepped_from(*ts, *old(ts)),
                        tu_extends(*tu, *old(tu)),
                        fx_extends(*fx, *old(fx)),
                        fx.table.view().len() == old(fx).table.view().len(),
                        fx.table.view().len() >= 1,
                        scope_handles_ok(*fx),
                        inner_level <= BRACE_NESTING_MAXIMUM,
                        ts.pos() > old(ts).pos(),
                !(old(ts).cur() matches Token::Separator(c3) && c3 == 59),
                !((old(ts).cur() matches Token::Word(w3) && statement_kw_spec(w3@) is Break) && (old(ts).second() matches Token::Separator(c4) && c4 == 59)),
                        self.rules.view() =~= old(self).rules.view().push(
                            crate::rules::RuleEntry {
                                rule: Rule::Statement,
                                start: old(ts).cur_span().start,
                            },
                        ),
                    ensures
                        ts.wf(),
                        tu_wf(*tu),
                        fx.wf(),
                        TokenStream::stepped_from(*ts, *old(ts)),
                        tu_extends(*tu, *old(tu)),
                        fx_extends(*fx, *old(fx)),
                        fx.table.view().len() == old(fx).table.view().len(),
                        fx.table.view().len() >= 1,
                        scope_handles_ok(*fx),
                        ts.pos() > old(ts).pos(),
                !(old(ts).cur() matches Token::Separator(c3) && c3 == 59),
                !((old(ts).cur() matches Token::Word(w3) && statement_kw_spec(w3@) is Break) && (old(ts).second() matches Token::Separator(c4) && c4 == 59)),
                        self.rules.view() =~= old(self).rules.view().push(
                            crate::rules::RuleEntry {
                                rule: Rule::Statement,
                                start: old(ts).cur_span().start,
                            },
                        ),
                    decreases ts.remaining(),
                {
                    if ts.skip_word("case") {
                        // a comma-separated selector list shares one
                        // body; all but the last fall through to it
                        let ghost pre_vals = *ts;
                        let mut picked: Option<SwitchValue> = None;
                        loop
                            invariant
                                ts.pos() >= pre_vals.pos(),
                                ts.wf(),
                                tu_wf(*tu),
                                fx.wf(),
                                TokenStream::stepped_from(*ts, *old(ts)),
                                tu_extends(*tu, *old(tu)),
                                fx_extends(*fx, *old(fx)),
                                fx.table.view().len() == old(fx).table.view().len(),
                                fx.table.view().len() >= 1,
                                scope_handles_ok(*fx),
                                ts.pos() > old(ts).pos(),
                                !(old(ts).cur() matches Token::Separator(c5) && c5 == 59),
                                !((old(ts).cur() matches Token::Word(w5) && statement_kw_spec(w5@) is Break) && (old(ts).second() matches Token::Separator(c6) && c6 == 59)),
                                self.rules.view() =~= old(self).rules.view().push(
                                    crate::rules::RuleEntry {
                                        rule: Rule::Statement,
                                        start: old(ts).cur_span().start,
                                    },
                                ),
                            ensures
                                ts.pos() >= pre_vals.pos(),
                                ts.wf(),
                                tu_wf(*tu),
                                fx.wf(),
                                TokenStream::stepped_from(*ts, *old(ts)),
                                tu_extends(*tu, *old(tu)),
                                fx_extends(*fx, *old(fx)),
                                fx.table.view().len() == old(fx).table.view().len(),
                                fx.table.view().len() >= 1,
                                scope_handles_ok(*fx),
                                ts.pos() > old(ts).pos(),
                                !(old(ts).cur() matches Token::Separator(c5) && c5 == 59),
                                !((old(ts).cur() matches Token::Word(w5) && statement_kw_spec(w5@) is Break) && (old(ts).second() matches Token::Separator(c6) && c6 == 59)),
                                picked is Some,
                                self.rules.view() =~= old(self).rules.view().push(
                                    crate::rules::RuleEntry {
                                        rule: Rule::Statement,
                                        start: old(ts).cur_span().start,
                                    },
                                ),
                            decreases ts.remaining(),
                        {
                            let value = match self.switch_value(ts, tu, fx) {
                                Ok(v) => v,
                                Err(e) => {
                                    return Err(e);
                                },
                            };
                            if ts.skip(&Token::Separator(44)) {
                                if ts.skip(&Token::Separator(58)) {
                                    picked = Some(value);
                                    break ;
                                }
                            } else {
                                let _ = ts.skip(&Token::Separator(58));
                                picked = Some(value);
                                break ;
                            }
                            cases.push(
                                SwitchCase { value, body: Block::new(), fall_through: true },
                            );
                        }
                        let value = match picked {
                            Some(v) => v,
                            // the selector loop always leaves a value
                            None => unreached(),
                        };
                        let body = match self.block(ts, tu, fx, inner_level) {
                            Ok(p) => p.0,
                            Err(e) => {
                                return Err(e);
                            },
                        };
                        cases.push(SwitchCase { value, body, fall_through: false });
                    } else if ts.skip_word("default") {
                        let _ = ts.skip(&Token::Separator(58));
                        let body = match self.block(ts, tu, fx, inner_level) {
                            Ok(p) => p.0,
                            Err(e) => {
                                return Err(e);
                            },
                        };
                        cases.push(
                            SwitchCase { value: SwitchValue::Default, body, fall_through: false },
                        );
                    } else if ts.skip(&Token::Paren(125)) {
                        break ;
                    } else {
                        let span = ts.peek_span();
                        return Err(Error::Unexpected(span, ExpectedToken::SwitchItem));
                    }
                }
                StatementKind::Switch { selector, cases }
            },
            StmtKw::Loop => {
                let _ = ts.next();
                match self.loop_statement(ts, tu, fx, level) {
                    Ok(k) => k,
                    Err(e) => {
                        return Err(e);
                    },
                }
            },
            StmtKw::While => {
                let _ = ts.next();
                let (condition, cond_span) = match self.general_expression_with_span(ts, tu, fx) {
                    Ok(p) => p,
                    Err(e) => {
                        return Err(e);
                    },
                };
                let (body_block, body_span) = match self.block(ts, tu, fx, level) {
                    Ok(p) => p,
                    Err(e) => {
                        return Err(e);
                    },
                };
                loop_shell(Some((condition, cond_span)), body_block, body_span, Block::new())
            },
            StmtKw::For => {
                let _ = ts.next();
                match ts.expect(&Token::Paren(40)) {
                    Ok(()) => (),
                    Err(e) => {
                        return Err(e);
                    },
                }
                fx.table.push_scope();
                proof {
                    lemma_scope_handles_push_frame(*old(fx), *fx);
                }
                if !ts.skip(&Token::Separator(59)) {
                    let init_start = ts.start_byte_offset();
                    let n_before = block.stmts.len();
                    match self.statement(ts, tu, fx, block, level) {
                        Ok(()) => (),
                        Err(e) => {
                            return Err(e);
                        },
                    }
                    let init_span = ts.span_from(init_start);
                    let n_after = block.stmts.len();
                    if n_after > n_before {
                        let ok_kind = match &block.stmts[n_after - 1].kind {
                            StatementKind::Call { .. } => true,
                            StatementKind::Assign { .. } => true,
                            StatementKind::LocalDecl(_) => true,
                            _ => false,
                        };
                        if !ok_kind {
                            return Err(Error::InvalidForInitializer(init_span));
                        }
                    }
                }
                let condition: Option<(Handle, Span)> = if !ts.skip(&Token::Separator(59)) {
                    let start = ts.start_byte_offset();
                    let cond = match self.general_expression(ts, tu, fx) {
                        Ok(h) => h,
                        Err(e) => {
                            return Err(e);
                        },
                    };
                    match ts.expect(&Token::Separator(59)) {
                        Ok(()) => (),
                        Err(e) => {
                            return Err(e);
                        },
                    }
                    Some((cond, ts.span_from(start)))
                } else {
                    None
                };
                let mut continuing = Block::new();
                if !ts.skip(&Token::Paren(41)) {
                    match self.function_call_or_assignment_statement(ts, tu, fx, &mut continuing) {
                        Ok(()) => (),
                        Err(e) => {
                            return Err(e);
                        },
                    }
                    match ts.expect(&Token::Paren(41)) {
                        Ok(()) => (),
                        Err(e) => {
                            return Err(e);
                        },
                    }
                }
                let (body_block, body_span) = match self.block(ts, tu, fx, level) {
                    Ok(p) => p,
                    Err(e) => {
                        return Err(e);
                    },
                };
                let ghost before_pop = *fx;
                fx.table.pop_scope();
                proof {
                    lemma_scope_handles_pop_frame(before_pop, *fx);
                }
                loop_shell(condition, body_block, body_span, continuing)
            },
            StmtKw::Break => {
                let (_, kw_span) = ts.next();
                // `break if` is valid only at the end of a `continuing`
                // block; anywhere else it is its own error
                let next_is_if = match ts.peek() {
                    Token::Word(w) => bytes_eq(w.as_slice(), "if".as_bytes()),
                    _ => false,
                };
                if next_is_if {
                    let peeked = ts.peek_span();
                    return Err(Error::InvalidBreakIf(kw_span.until(&peeked)));
                }
                match ts.expect(&Token::Separator(59)) {
                    Ok(()) => (),
                    Err(e) => {
                        return Err(e);
                    },
                }
                proof {
                    lemma_scope_handles_persist(*old(fx), *fx);
                }
                StatementKind::Break
            },
            StmtKw::Continue => {
                let _ = ts.next();
                match ts.expect(&Token::Separator(59)) {
                    Ok(()) => (),
                    Err(e) => {
                        return Err(e);
                    },
                }
                proof {
                    lemma_scope_handles_persist(*old(fx), *fx);
                }
                StatementKind::Continue
            },
            StmtKw::Discard => {
                let _ = ts.next();
                match ts.expect(&Token::Separator(59)) {
                    Ok(()) => (),
                    Err(e) => {
                        return Err(e);
                    },
                }
                proof {
                    lemma_scope_handles_persist(*old(fx), *fx);
                }
                StatementKind::Kill
            },
            StmtKw::ConstAssert => {
                let _ = ts.next();
                // parentheses are optional
                let paren = ts.skip(&Token::Paren(40));
                let condition = match self.general_expression(ts, tu, fx) {
                    Ok(h) => h,
                    Err(e) => {
                        return Err(e);
                    },
                };
                if paren {
                    match ts.expect(&Token::Paren(41)) {
                        Ok(()) => (),
                        Err(e) => {
                            return Err(e);
                        },
                    }
                }
                match ts.expect(&Token::Separator(59)) {
                    Ok(()) => (),
                    Err(e) => {
                        return Err(e);
                    },
                }
                proof {
                    lemma_scope_handles_persist(*old(fx), *fx);
                }
                StatementKind::ConstAssert(condition)
            },
            StmtKw::Other => {
                match self.function_call_or_assignment_statement(ts, tu, fx, block) {
                    Ok(()) => (),
                    Err(e) => {
                        return Err(e);
                    },
                }
                match ts.expect(&Token::Separator(59)) {
                    Ok(()) => (),
                    Err(e) => {
                        return Err(e);
                    },
                }
                let _ = self.pop_rule_span(ts);
                proof {
                    lemma_scope_handles_persist(*old(fx), *fx);
                    assert(final(self).rules.view() =~= old(self).rules.view());
                }
                return Ok(());
            },
        };
        let span = self.pop_rule_span(ts);
        block.stmts.push(Statement { kind, span });
        proof {
            assert(final(self).rules.view() =~= old(self).rules.view());
        }
        Ok(())
    }

    /// Parses the body of a `loop` statement, whose `continuing` block,
    /// if present, must be the last content of the body, and whose
    /// `break if` must be the last statement of the `continuing` block.
    #[verifier::rlimit(30)]
    fn loop_statement(
        &mut self,
        ts: &mut TokenStream,
        tu: &mut TranslationUnit,
        fx: &mut FnCtx,
        level: u8,
    ) -> (r: Result<StatementKind, Error>)
        requires
            old(ts).wf(),
            tu_wf(*old(tu)),
            old(fx).wf(),
            old(fx).table.view().len() >= 1,
            scope_handles_ok(*old(fx)),
            level <= BRACE_NESTING_MAXIMUM,
        ensures
            final(ts).wf(),
            tu_wf(*final(tu)),
            final(fx).wf(),
            TokenStream::stepped_from(*final(ts), *old(ts)),
            tu_extends(*final(tu), *old(tu)),
            fx_extends(*final(fx), *old(fx)),
            r is Ok ==> final(ts).pos() > old(ts).pos(),
            r is Ok ==> final(self).rules.view() == old(self).rules.view(),
            r is Ok ==> final(fx).table.view().len() == old(fx).table.view().len() && final(fx).table.view().len() >= 1 && scope_handles_ok(*final(fx)),
            ((old(ts).cur() matches Token::Paren(c) && c == 123) && (old(ts).second()
                matches Token::Paren(c2) && c2 == 125) && level < BRACE_NESTING_MAXIMUM) ==> (
            r matches Ok(k) && (k matches StatementKind::Loop { body, continuing, break_if }
                && body.stmts@.len() == 0 && continuing.stmts@.len() == 0 && break_if is None))
                && final(ts).pos() == old(ts).pos() + 2 && final(ts).tokens() == old(ts).tokens()
                && *final(tu) == *old(tu),
        decreases old(ts).remaining(), 39int,
    {
        let mut body = Block::new();
        let mut continuing = Block::new();
        let mut break_if: Option<Handle> = None;

        let brace_span = match ts.expect_span(&Token::Paren(123)) {
            Ok(s) => s,
            Err(e) => {
                return Err(e);
            },
        };
        let inner_level = match increase_brace_nesting(level, brace_span) {
            Ok(l) => l,
            Err(e) => {
                return Err(e);
            },
        };
        fx.table.push_scope();
        proof {
            lemma_scope_handles_push_frame(*old(fx), *fx);
        }
        if ts.skip(&Token::Paren(125)) {
            let ghost early_pop = *fx;
            fx.table.pop_scope();
            proof {
                lemma_scope_handles_pop_frame(early_pop, *fx);
            }
            return Ok(StatementKind::Loop { body, continuing, break_if });
        }
        loop
            invariant
                ts.wf(),
                tu_wf(*tu),
                fx.wf(),
                TokenStream::stepped_from(*ts, *old(ts)),
                tu_extends(*tu, *old(tu)),
                fx_extends(*fx, *old(fx)),
                fx.table.view().len() == old(fx).table.view().len() + 1,
                scope_handles_ok(*fx),
                inner_level <= BRACE_NESTING_MAXIMUM,
                ts.pos() > old(ts).pos(),
                !((old(ts).cur() matches Token::Paren(ca) && ca == 123) && (old(ts).second() matches Token::Paren(cb) && cb == 125) && level < BRACE_NESTING_MAXIMUM),
                self.rules.view() =~= old(self).rules.view(),
            ensures
                ts.wf(),
                tu_wf(*tu),
                fx.wf(),
                TokenStream::stepped_from(*ts, *old(ts)),
                tu_extends(*tu, *old(tu)),
                fx_extends(*fx, *old(fx)),
                fx.table.view().len() == old(fx).table.view().len() + 1,
                scope_handles_ok(*fx),
                ts.pos() > old(ts).pos(),
                !((old(ts).cur() matches Token::Paren(ca) && ca == 123) && (old(ts).second() matches Token::Paren(cb) && cb == 125) && level < BRACE_NESTING_MAXIMUM),
                self.rules.view() =~= old(self).rules.view(),
            decreases ts.remaining(),
        {
            if ts.skip_word("continuing") {
                let cont_span = match ts.expect_span(&Token::Paren(123)) {
                    Ok(s) => s,
                    Err(e) => {
                        return Err(e);
                    },
                };
                let cont_level = match increase_brace_nesting(inner_level, cont_span) {
                    Ok(l) => l,
                    Err(e) => {
                        return Err(e);
                    },
                };
                loop
                    invariant
                        ts.wf(),
                        tu_wf(*tu),
                        fx.wf(),
                        TokenStream::stepped_from(*ts, *old(ts)),
                        tu_extends(*tu, *old(tu)),
                        fx_extends(*fx, *old(fx)),
                        fx.table.view().len() == old(fx).table.view().len() + 1,
                        scope_handles_ok(*fx),
                        cont_level <= BRACE_NESTING_MAXIMUM,
                        ts.pos() > old(ts).pos(),
                        !((old(ts).cur() matches Token::Paren(ca) && ca == 123) && (old(ts).second() matches Token::Paren(cb) && cb == 125) && level < BRACE_NESTING_MAXIMUM),
                        self.rules.view() =~= old(self).rules.view(),
                    ensures
                        ts.wf(),
                        tu_wf(*tu),
                        fx.wf(),
                        TokenStream::stepped_from(*ts, *old(ts)),
                        tu_extends(*tu, *old(tu)),
                        fx_extends(*fx, *old(fx)),
                        fx.table.view().len() == old(fx).table.view().len() + 1,
                        scope_handles_ok(*fx),
                        ts.pos() > old(ts).pos(),
                        !((old(ts).cur() matches Token::Paren(ca) && ca == 123) && (old(ts).second() matches Token::Paren(cb) && cb == 125) && level < BRACE_NESTING_MAXIMUM),
                        self.rules.view() =~= old(self).rules.view(),
                    decreases ts.remaining(),
                {
                    if ts.skip_word("break") {
                        // `break if <expr>;` must close the continuing
                        // block
                        match ts.expect_word("if") {
                            Ok(()) => (),
                            Err(e) => {
                                return Err(e);
                            },
                        }
                        let condition = match self.general_expression(ts, tu, fx) {
                            Ok(h) => h,
                            Err(e) => {
                                return Err(e);
                            },
                        };
                        break_if = Some(condition);
                        match ts.expect(&Token::Separator(59)) {
                            Ok(()) => (),
                            Err(e) => {
                                return Err(e);
                            },
                        }
                        match ts.expect(&Token::Paren(125)) {
                            Ok(()) => (),
                            Err(e) => {
                                return Err(e);
                            },
                        }
                        break ;
                    } else if ts.skip(&Token::Paren(125)) {
                        break ;
                    } else {
                        match self.statement(ts, tu, fx, &mut continuing, cont_level) {
                            Ok(()) => (),
                            Err(e) => {
                                return Err(e);
                            },
                        }
                    }
                }
                match ts.expect(&Token::Paren(125)) {
                    Ok(()) => (),
                    Err(e) => {
                        return Err(e);
                    },
                }
                break ;
            }
            if ts.skip(&Token::Paren(125)) {
                break ;
            }
            match self.statement(ts, tu, fx, &mut body, inner_level) {
                Ok(()) => (),
                Err(e) => {
                    return Err(e);
                },
            }
        }
        let ghost before_pop = *fx;
        fx.table.pop_scope();
        proof {
            lemma_scope_handles_pop_frame(before_pop, *fx);
        }
        Ok(StatementKind::Loop { body, continuing, break_if })
    }

    /// Parses a brace-enclosed statement list in its own scope.  A
    /// leading `@diagnostic(...)` run is accepted by the grammar but
    /// diagnostic filters on compound statements are not yet supported,
    /// so a non-empty run is its own error.
    pub fn block(
        &mut self,
        ts: &mut TokenStream,
        tu: &mut TranslationUnit,
        fx: &mut FnCtx,
        level: u8,
    ) -> (r: Result<(Block, Span), Error>)
        requires
            old(ts).wf(),
            tu_wf(*old(tu)),
            old(fx).wf(),
            old(fx).table.view().len() >= 1,
            scope_handles_ok(*old(fx)),
            level <= BRACE_NESTING_MAXIMUM,
        ensures
            final(ts).wf(),
            tu_wf(*final(tu)),
            final(fx).wf(),
            TokenStream::stepped_from(*final(ts), *old(ts)),
            tu_extends(*final(tu), *old(tu)),
            fx_extends(*final(fx), *old(fx)),
            r is Ok ==> final(ts).pos() > old(ts).pos(),
            r is Ok ==> final(self).rules.view() == old(self).rules.view(),
            r is Ok ==> final(fx).table.view().len() == old(fx).table.view().len() && final(fx).table.view().len() >= 1 && scope_handles_ok(*final(fx)),
            ((old(ts).cur() matches Token::Paren(c) && c == 123) && (old(ts).second()
                matches Token::Paren(c2) && c2 == 125) && level < BRACE_NESTING_MAXIMUM) ==> (
            r matches Ok(p) && p.0.stmts@.len() == 0) && final(ts).pos() == old(ts).pos() + 2
                && final(ts).tokens() == old(ts).tokens() && *final(tu) == *old(tu),
        decreases old(ts).remaining(), 38int,
    {
        self.push_rule_span(Rule::Block, ts);
        fx.table.push_scope();
        proof {
            lemma_scope_handles_push_frame(*old(fx), *fx);
        }

        let mut filters = crate::diag::DiagnosticFilterMap::new();
        self.push_rule_span(Rule::Attribute, ts);
        let has_attributes = match ts.peek() {
            Token::Attribute => true,
            _ => false,
        };
        if has_attributes {
            loop
            invariant
                ts.wf(),
                tu_wf(*tu),
                fx.wf(),
                TokenStream::stepped_from(*ts, *old(ts)),
                tu_extends(*tu, *old(tu)),
                fx_extends(*fx, *old(fx)),
                fx.table.view().len() == old(fx).table.view().len() + 1,
                scope_handles_ok(*fx),
                filters.wf(),
                !((old(ts).cur() matches Token::Paren(ca) && ca == 123) && (old(ts).second() matches Token::Paren(cb) && cb == 125) && level < BRACE_NESTING_MAXIMUM),
                self.rules.view() =~= old(self).rules.view().push(
                    crate::rules::RuleEntry {
                        rule: Rule::Block,
                        start: old(ts).cur_span().start,
                    },
                ).push(
                    crate::rules::RuleEntry {
                        rule: Rule::Attribute,
                        start: old(ts).cur_span().start,
                    },
                ),
            ensures
                ts.wf(),
                tu_wf(*tu),
                fx.wf(),
                TokenStream::stepped_from(*ts, *old(ts)),
                tu_extends(*tu, *old(tu)),
                fx_extends(*fx, *old(fx)),
                fx.table.view().len() == old(fx).table.view().len() + 1,
                scope_handles_ok(*fx),
                filters.wf(),
                !((old(ts).cur() matches Token::Paren(ca) && ca == 123) && (old(ts).second() matches Token::Paren(cb) && cb == 125) && level < BRACE_NESTING_MAXIMUM),
                self.rules.view() =~= old(self).rules.view().push(
                    crate::rules::RuleEntry {
                        rule: Rule::Block,
                        start: old(ts).cur_span().start,
                    },
                ).push(
                    crate::rules::RuleEntry {
                        rule: Rule::Attribute,
                        start: old(ts).cur_span().start,
                    },
                ),
            decreases ts.remaining(),
        {
            if !ts.skip(&Token::Attribute) {
                break ;
            }
            let (word, word_span) = match ts.next_ident_with_span() {
                Ok(p) => p,
                Err(e) => {
                    return Err(e);
                },
            };
            let is_diag = match crate::conv::map_directive_kind(word.as_slice()) {
                Some(crate::conv::DirectiveKind::Diagnostic) => true,
                _ => false,
            };
            if !is_diag {
                return Err(Error::Unexpected(word_span, ExpectedToken::DiagnosticAttribute));
            }
            let filter = match self.diagnostic_filter(ts, tu) {
                Ok(f) => f,
                Err(e) => {
                    return Err(e);
                },
            };
            let span = self.peek_rule_span(ts);
            match filters.add(filter, span, crate::diag::DuplicatePolicy::Conflict) {
                Ok(()) => (),
                Err(e) => {
                    return Err(e);
                },
            }
        }
        }
        let _ = self.pop_rule_span(ts);

        if !filters.is_empty() {
            let span = filters.first_span();
            return Err(Error::DiagnosticAttributeNotYetImplemented { span });
        }

        let brace_span = match ts.expect_span(&Token::Paren(123)) {
            Ok(s) => s,
            Err(e) => {
                return Err(e);
            },
        };
        let inner_level = match increase_brace_nesting(level, brace_span) {
            Ok(l) => l,
            Err(e) => {
                return Err(e);
            },
        };
        let mut block = Block::new();
        if ts.skip(&Token::Paren(125)) {
            let ghost early_pop = *fx;
            fx.table.pop_scope();
            proof {
                lemma_scope_handles_pop_frame(early_pop, *fx);
            }
            let span = self.pop_rule_span(ts);
            proof {
                assert(final(self).rules.view() =~= old(self).rules.view());
            }
            return Ok((block, span));
        }
        loop
            invariant
                ts.wf(),
                tu_wf(*tu),
                fx.wf(),
                TokenStream::stepped_from(*ts, *old(ts)),
                tu_extends(*tu, *old(tu)),
                fx_extends(*fx, *old(fx)),
                fx.table.view().len() == old(fx).table.view().len() + 1,
                scope_handles_ok(*fx),
                inner_level <= BRACE_NESTING_MAXIMUM,
                ts.pos() > old(ts).pos(),
                !((old(ts).cur() matches Token::Paren(ca) && ca == 123) && (old(ts).second() matches Token::Paren(cb) && cb == 125) && level < BRACE_NESTING_MAXIMUM),
                self.rules.view() =~= old(self).rules.view().push(
                    crate::rules::RuleEntry {
                        rule: Rule::Block,
                        start: old(ts).cur_span().start,
                    },
                ),
            ensures
                ts.wf(),
                tu_wf(*tu),
                fx.wf(),
                TokenStream::stepped_from(*ts, *old(ts)),
                tu_extends(*tu, *old(tu)),
                fx_extends(*fx, *old(fx)),
                fx.table.view().len() == old(fx).table.view().len() + 1,
                scope_handles_ok(*fx),
                ts.pos() > old(ts).pos(),
                !((old(ts).cur() matches Token::Paren(ca) && ca == 123) && (old(ts).second() matches Token::Paren(cb) && cb == 125) && level < BRACE_NESTING_MAXIMUM),
                self.rules.view() =~= old(self).rules.view().push(
                    crate::rules::RuleEntry {
                        rule: Rule::Block,
                        start: old(ts).cur_span().start,
                    },
                ),
            decreases ts.remaining(),
        {
            if ts.skip(&Token::Paren(125)) {
                break ;
            }
            match self.statement(ts, tu, fx, &mut block, inner_level) {
                Ok(()) => (),
                Err(e) => {
                    return Err(e);
                },
            }
        }

        let ghost before_pop = *fx;
        fx.table.pop_scope();
        proof {
            lemma_scope_handles_pop_frame(before_pop, *fx);
        }
        let span = self.pop_rule_span(ts);
        proof {
            assert(final(self).rules.view() =~= old(self).rules.view());
        }
        Ok((block, span))
    }
}

} // verus!
