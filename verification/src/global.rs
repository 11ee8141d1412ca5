//! The global-declaration driver: leading directives, per-declaration
//! attribute runs, the declaration grammar, dependency capture, and the
//! top-level parse loop.

use vstd::prelude::*;
use vstd::string::StringSliceAdditionalSpecFns;

use crate::arena::{Handle, Span};
use crate::ast::{
    Binding, Block, ConstDecl, EarlyDepthTest, EntryPoint, Function, FunctionArgument,
    FunctionResult, GlobalDecl, GlobalDeclKind, GlobalVariable, Ident, OverrideDecl,
    ResourceBinding, ShaderStage, StructDecl, StructMember, TranslationUnit, TypeAlias, Warning,
    WarningKind,
};
use crate::ast::AddressSpace;
use crate::ast::StorageAccess;
use crate::attr::{BindingParser, ParsedAttribute};
use crate::conv;
use crate::diag::{DiagnosticFilter, DiagnosticFilterMap, DuplicatePolicy, TriggeringRule};
use crate::error::{Error, ExpectedToken, InternalError, PairedAttribute};
use crate::expr::{
    fx_extends, lemma_scope_handles_pop_frame, lemma_scope_handles_push_frame, scope_handles_ok,
    tu_extends, tu_wf, FnCtx,
};
use crate::parser::Parser;
use crate::rules::Rule;
use crate::stream::TokenStream;
use crate::token::{bytes_eq, Token};

verus! {

/// Entry-point validation: a stage marker makes the function an entry
/// point, and a compute stage without a workgroup size is an error.
pub open spec fn entry_point_spec(
    stage: Option<ShaderStage>,
    compute_span: Span,
    early_depth_test: Option<EarlyDepthTest>,
    workgroup_size: Option<[Option<Handle>; 3]>,
) -> Result<Option<EntryPoint>, Error> {
    match stage {
        None => Ok(None),
        Some(s) => if s is Compute && workgroup_size is None {
            Err(Error::MissingWorkgroupSize(compute_span))
        } else {
            Ok(Some(EntryPoint { stage: s, early_depth_test, workgroup_size }))
        },
    }
}

/// Decides [`entry_point_spec`].
pub fn entry_point_of(
    stage: Option<ShaderStage>,
    compute_span: Span,
    early_depth_test: Option<EarlyDepthTest>,
    workgroup_size: Option<[Option<Handle>; 3]>,
) -> (r: Result<Option<EntryPoint>, Error>)
    ensures
        r == entry_point_spec(stage, compute_span, early_depth_test, workgroup_size),
{
    match stage {
        None => Ok(None),
        Some(s) => {
            let is_compute = match s {
                ShaderStage::Compute => true,
                _ => false,
            };
            if is_compute && workgroup_size.is_none() {
                Err(Error::MissingWorkgroupSize(compute_span))
            } else {
                Ok(Some(EntryPoint { stage: s, early_depth_test, workgroup_size }))
            }
        },
    }
}

/// The token shape of the smallest function declaration: a name,
/// an empty parameter list and an empty body.
pub open spec fn fn_family_at(toks: Seq<Token>, p: int) -> bool {
    &&& 0 <= p
    &&& p + 5 < toks.len()
    &&& toks[p] is Word
    &&& (toks[p + 1] matches Token::Paren(c) && c == 40)
    &&& (toks[p + 2] matches Token::Paren(c) && c == 41)
    &&& (toks[p + 3] matches Token::Paren(c) && c == 123)
    &&& (toks[p + 4] matches Token::Paren(c) && c == 125)
}

impl Parser {
    /// Parses the `(severity, rule)` payload of a `diagnostic` directive
    /// or attribute.  An unknown single rule name is kept opaquely and
    /// reported as a warning rather than an error.
    pub fn diagnostic_filter(&mut self, ts: &mut TokenStream, tu: &mut TranslationUnit) -> (r:
        Result<DiagnosticFilter, Error>)
        requires
            old(ts).wf(),
            tu_wf(*old(tu)),
        ensures
            final(ts).wf(),
            tu_wf(*final(tu)),
            TokenStream::stepped_from(*final(ts), *old(ts)),
            tu_extends(*final(tu), *old(tu)),
            final(tu).expressions == old(tu).expressions,
            final(tu).types == old(tu).types,
            final(tu).decls == old(tu).decls,
            final(tu).diagnostic_filters == old(tu).diagnostic_filters,
            final(tu).diagnostic_filter_leaf == old(tu).diagnostic_filter_leaf,
            final(self).rules.view() == old(self).rules.view(),
            r is Ok ==> final(ts).pos() > old(ts).pos(),
            ((old(ts).cur() matches Token::Paren(c) && c == 40) && (old(ts).tokens()[old(ts).pos()
                + 1] matches Token::Word(w1) && conv::severity_spec(w1@) is Some) && (old(
                ts,
            ).tokens()[old(ts).pos() + 2] matches Token::Separator(c2) && c2 == 44) && (old(
                ts,
            ).tokens()[old(ts).pos() + 3] matches Token::Word(w2) && conv::standard_rule_spec(w2@)
                is Some) && (old(ts).pos() + 4 < old(ts).tokens().len()) && (old(ts).tokens()[old(
                ts,
            ).pos() + 4] matches Token::Paren(c3) && c3 == 41)) ==> (r matches Ok(f)
                && (f.triggering_rule matches TriggeringRule::Standard(sr) && Some(sr)
                == conv::standard_rule_spec(old(ts).tokens()[old(ts).pos() + 3]->Word_0@))
                && Some(f.new_severity) == conv::severity_spec(old(ts).tokens()[old(ts).pos()
                + 1]->Word_0@)) && final(ts).pos() == old(ts).pos() + 5 && final(ts).tokens()
                == old(ts).tokens() && *final(tu) == *old(tu),
        decreases old(ts).remaining(), 26int,
    {
        match ts.expect(&Token::Paren(40)) {
            Ok(()) => (),
            Err(e) => {
                return Err(e);
            },
        }
        let (severity_word, severity_span) = match ts.next_ident_with_span() {
            Ok(p) => p,
            Err(e) => {
                return Err(e);
            },
        };
        let new_severity = match conv::map_severity(severity_word.as_slice()) {
            Some(s) => s,
            None => {
                return Err(Error::DiagnosticInvalidSeverity { span: severity_span });
            },
        };
        match ts.expect(&Token::Separator(44)) {
            Ok(()) => (),
            Err(e) => {
                return Err(e);
            },
        }
        let (rule_word, rule_span) = match ts.next_ident_with_span() {
            Ok(p) => p,
            Err(e) => {
                return Err(e);
            },
        };
        let triggering_rule = if ts.skip(&Token::Separator(46)) {
            let (second, _second_span) = match ts.next_ident_with_span() {
                Ok(p) => p,
                Err(e) => {
                    return Err(e);
                },
            };
            TriggeringRule::User(rule_word, second)
        } else {
            match conv::map_standard_rule(rule_word.as_slice()) {
                Some(std_rule) => TriggeringRule::Standard(std_rule),
                None => {
                    // an unknown but harmless rule name must not break
                    // compilation: keep it opaquely and warn
                    tu.warnings.push(
                        Warning { kind: WarningKind::UnknownDiagnosticRuleName, span: rule_span },
                    );
                    TriggeringRule::Unknown(rule_word)
                },
            }
        };
        let _ = ts.skip(&Token::Separator(44));
        match ts.expect(&Token::Paren(41)) {
            Ok(()) => (),
            Err(e) => {
                return Err(e);
            },
        }
        Ok(DiagnosticFilter { triggering_rule, new_severity })
    }

    /// Parses a `var` declaration after its keyword: an optional
    /// address-space qualifier, the name, an optional type and an
    /// optional initializer.
    pub fn variable_decl(
        &mut self,
        ts: &mut TokenStream,
        tu: &mut TranslationUnit,
        fx: &mut FnCtx,
    ) -> (r: Result<GlobalVariable, Error>)
        requires
            old(ts).wf(),
            tu_wf(*old(tu)),
            old(fx).wf(),
        ensures
            final(ts).wf(),
            tu_wf(*final(tu)),
            final(fx).wf(),
            TokenStream::stepped_from(*final(ts), *old(ts)),
            tu_extends(*final(tu), *old(tu)),
            fx_extends(*final(fx), *old(fx)),
            final(fx).table.view() == old(fx).table.view(),
            r is Ok ==> final(ts).pos() > old(ts).pos(),
            r is Ok ==> final(self).rules.view() == old(self).rules.view(),
            ((old(ts).cur() is Word) && (old(ts).tokens()[old(ts).pos() + 1]
                matches Token::Separator(c) && c == 58) && (old(ts).tokens()[old(ts).pos() + 2]
                matches Token::Word(w2) && conv::scalar_kw_spec(w2@) is Some) && (old(ts).pos() + 3
                < old(ts).tokens().len()) && (old(ts).tokens()[old(ts).pos() + 3]
                matches Token::Separator(c2) && c2 == 59)) ==> (r matches Ok(v) && (old(
                ts,
            ).cur() matches Token::Word(n) && v.name.name@ == n@) && v.space == AddressSpace::Handle
                && v.binding is None && v.ty == Some(
                Handle { index: old(tu).types.view().len() as usize },
            ) && v.init is None) && final(tu).types.view().len() == old(tu).types.view().len() + 1
                && final(ts).pos() == old(ts).pos() + 4 && final(ts).tokens() == old(ts).tokens(),
        decreases old(ts).remaining(), 30int,
    {
        self.push_rule_span(Rule::VariableDecl, ts);
        let mut space = AddressSpace::Handle;

        if ts.skip(&Token::Paren(60)) {
            let (word, word_span) = match ts.next_ident_with_span() {
                Ok(p) => p,
                Err(e) => {
                    return Err(e);
                },
            };
            if bytes_eq(word.as_slice(), "storage".as_bytes()) {
                let access = if ts.skip(&Token::Separator(44)) {
                    let (aword, aspan) = match ts.next_ident_with_span() {
                        Ok(p) => p,
                        Err(e) => {
                            return Err(e);
                        },
                    };
                    match conv::map_storage_access(aword.as_slice()) {
                        Some(a) => a,
                        None => {
                            return Err(Error::UnknownStorageAccess(aspan));
                        },
                    }
                } else {
                    // defaulting to read-only access
                    StorageAccess::Read
                };
                space = AddressSpace::Storage { access };
            } else {
                space = match conv::map_address_space(word.as_slice()) {
                    Some(s) => s,
                    None => {
                        return Err(Error::UnknownAddressSpace(word_span));
                    },
                };
            }
            match ts.expect(&Token::Paren(62)) {
                Ok(()) => (),
                Err(e) => {
                    return Err(e);
                },
            }
        }
        let (name, name_span) = match ts.next_ident_with_span() {
            Ok(p) => p,
            Err(e) => {
                return Err(e);
            },
        };
        let ty = if ts.skip(&Token::Separator(58)) {
            let t = match self.type_decl(ts, tu, fx) {
                Ok(h) => h,
                Err(e) => {
                    return Err(e);
                },
            };
            Some(t)
        } else {
            None
        };
        let init = if ts.skip(&Token::Operation(61)) {
            let h = match self.general_expression(ts, tu, fx) {
                Ok(h) => h,
                Err(e) => {
                    return Err(e);
                },
            };
            Some(h)
        } else {
            None
        };
        match ts.expect(&Token::Separator(59)) {
            Ok(()) => (),
            Err(e) => {
                return Err(e);
            },
        }
        let _ = self.pop_rule_span(ts);
        proof {
            assert(final(self).rules.view() =~= old(self).rules.view());
        }
        Ok(
            GlobalVariable {
                name: Ident { name, span: name_span },
                space,
                binding: None,
                ty,
                init,
            },
        )
    }

    /// Parses a struct body: member declarations, each with its own
    /// attribute run, separated by commas.
    pub fn struct_body(
        &mut self,
        ts: &mut TokenStream,
        tu: &mut TranslationUnit,
        fx: &mut FnCtx,
    ) -> (r: Result<Vec<StructMember>, Error>)
        requires
            old(ts).wf(),
            tu_wf(*old(tu)),
            old(fx).wf(),
        ensures
            final(ts).wf(),
            tu_wf(*final(tu)),
            final(fx).wf(),
            TokenStream::stepped_from(*final(ts), *old(ts)),
            tu_extends(*final(tu), *old(tu)),
            fx_extends(*final(fx), *old(fx)),
            final(fx).table.view() == old(fx).table.view(),
            r is Ok ==> final(ts).pos() > old(ts).pos(),
            r is Ok ==> final(self).rules.view() == old(self).rules.view(),
            ((old(ts).cur() matches Token::Paren(c) && c == 123) && (old(ts).second()
                matches Token::Paren(c2) && c2 == 125)) ==> (r matches Ok(m) && m@.len() == 0)
                && final(ts).pos() == old(ts).pos() + 2 && final(ts).tokens() == old(ts).tokens()
                && *final(tu) == *old(tu) && *final(fx) == *old(fx),
        decreases old(ts).remaining(), 44int,
    {
        let mut members: Vec<StructMember> = Vec::new();
        match ts.expect(&Token::Paren(123)) {
            Ok(()) => (),
            Err(e) => {
                return Err(e);
            },
        }
        if ts.skip(&Token::Paren(125)) {
            return Ok(members);
        }
        let mut ready = true;
        loop
            invariant
                ts.wf(),
                tu_wf(*tu),
                fx.wf(),
                TokenStream::stepped_from(*ts, *old(ts)),
                tu_extends(*tu, *old(tu)),
                fx_extends(*fx, *old(fx)),
                fx.table.view() == old(fx).table.view(),
                ts.pos() > old(ts).pos(),
                !((old(ts).cur() matches Token::Paren(cc) && cc == 123) && (old(ts).second() matches Token::Paren(cd) && cd == 125)),
                self.rules.view() =~= old(self).rules.view(),
            ensures
                ts.wf(),
                tu_wf(*tu),
                fx.wf(),
                TokenStream::stepped_from(*ts, *old(ts)),
                tu_extends(*tu, *old(tu)),
                fx_extends(*fx, *old(fx)),
                fx.table.view() == old(fx).table.view(),
                ts.pos() > old(ts).pos(),
                !((old(ts).cur() matches Token::Paren(cc) && cc == 123) && (old(ts).second() matches Token::Paren(cd) && cd == 125)),
                self.rules.view() =~= old(self).rules.view(),
            decreases ts.remaining(),
        {
            if ts.skip(&Token::Paren(125)) {
                break ;
            }
            if !ready {
                let (_, span) = ts.next();
                return Err(Error::Unexpected(span, ExpectedToken::Token(Token::Separator(44))));
            }
            let mut size: ParsedAttribute<Handle> = ParsedAttribute::new();
            let mut align: ParsedAttribute<Handle> = ParsedAttribute::new();
            let ghost pre_attrs = *ts;
            self.push_rule_span(Rule::Attribute, ts);
            let mut bind_parser = BindingParser::new();
            loop
                invariant
                    ts.pos() >= pre_attrs.pos(),
                    ts.wf(),
                    tu_wf(*tu),
                    fx.wf(),
                    TokenStream::stepped_from(*ts, *old(ts)),
                    tu_extends(*tu, *old(tu)),
                    fx_extends(*fx, *old(fx)),
                    fx.table.view() == old(fx).table.view(),
                    ts.pos() > old(ts).pos(),
                    !((old(ts).cur() matches Token::Paren(cc) && cc == 123) && (old(ts).second() matches Token::Paren(cd) && cd == 125)),
                    self.rules.view().len() == old(self).rules.view().len() + 1,
                    self.rules.view().drop_last() =~= old(self).rules.view(),
                ensures
                    ts.pos() >= pre_attrs.pos(),
                    ts.wf(),
                    tu_wf(*tu),
                    fx.wf(),
                    TokenStream::stepped_from(*ts, *old(ts)),
                    tu_extends(*tu, *old(tu)),
                    fx_extends(*fx, *old(fx)),
                    fx.table.view() == old(fx).table.view(),
                    ts.pos() > old(ts).pos(),
                    !((old(ts).cur() matches Token::Paren(cc) && cc == 123) && (old(ts).second() matches Token::Paren(cd) && cd == 125)),
                    self.rules.view().len() == old(self).rules.view().len() + 1,
                    self.rules.view().drop_last() =~= old(self).rules.view(),
                decreases ts.remaining(),
            {
                if !ts.skip(&Token::Attribute) {
                    break ;
                }
                let (word, word_span) = match ts.next_ident_with_span() {
                    Ok(p) => p,
                    Err(e) => {
                        return Err(e);
                    },
                };
                if bytes_eq(word.as_slice(), "size".as_bytes()) {
                    match ts.expect(&Token::Paren(40)) {
                        Ok(()) => (),
                        Err(e) => {
                            return Err(e);
                        },
                    }
                    let expr = match self.general_expression(ts, tu, fx) {
                        Ok(h) => h,
                        Err(e) => {
                            return Err(e);
                        },
                    };
                    match ts.expect(&Token::Paren(41)) {
                        Ok(()) => (),
                        Err(e) => {
                            return Err(e);
                        },
                    }
                    match size.set(expr, word_span) {
                        Ok(()) => (),
                        Err(e) => {
                            return Err(e);
                        },
                    }
                } else if bytes_eq(word.as_slice(), "align".as_bytes()) {
                    match ts.expect(&Token::Paren(40)) {
                        Ok(()) => (),
                        Err(e) => {
                            return Err(e);
                        },
                    }
                    let expr = match self.general_expression(ts, tu, fx) {
                        Ok(h) => h,
                        Err(e) => {
                            return Err(e);
                        },
                    };
                    match ts.expect(&Token::Paren(41)) {
                        Ok(()) => (),
                        Err(e) => {
                            return Err(e);
                        },
                    }
                    match align.set(expr, word_span) {
                        Ok(()) => (),
                        Err(e) => {
                            return Err(e);
                        },
                    }
                } else {
                    match bind_parser.parse(self, word.as_slice(), word_span, ts, tu, fx) {
                        Ok(()) => (),
                        Err(e) => {
                            return Err(e);
                        },
                    }
                }
            }
            let bind_span = self.pop_rule_span(ts);
            let binding = match bind_parser.finish(bind_span) {
                Ok(b) => b,
                Err(e) => {
                    return Err(e);
                },
            };
            let (name, name_span) = match ts.next_ident_with_span() {
                Ok(p) => p,
                Err(e) => {
                    return Err(e);
                },
            };
            match ts.expect(&Token::Separator(58)) {
                Ok(()) => (),
                Err(e) => {
                    return Err(e);
                },
            }
            let ty = match self.type_decl(ts, tu, fx) {
                Ok(h) => h,
                Err(e) => {
                    return Err(e);
                },
            };
            ready = ts.skip(&Token::Separator(44));
            members.push(
                StructMember {
                    name: Ident { name, span: name_span },
                    ty,
                    binding,
                    size: size.value,
                    align: align.value,
                },
            );
        }
        proof {
            assert(final(self).rules.view() =~= old(self).rules.view());
        }
        Ok(members)
    }

    /// Parses a function declaration after its `fn` keyword: name,
    /// parameter list, optional bound result type, and body.  The
    /// arguments and the body share one scope.
    pub fn function_decl(
        &mut self,
        ts: &mut TokenStream,
        tu: &mut TranslationUnit,
        fx: &mut FnCtx,
        diagnostic_filter_leaf: Option<Handle>,
    ) -> (r: Result<Function, Error>)
        requires
            old(ts).wf(),
            tu_wf(*old(tu)),
            old(fx).wf(),
            scope_handles_ok(*old(fx)),
        ensures
            final(ts).wf(),
            tu_wf(*final(tu)),
            final(fx).wf(),
            TokenStream::stepped_from(*final(ts), *old(ts)),
            tu_extends(*final(tu), *old(tu)),
            fx_extends(*final(fx), *old(fx)),
            r is Ok ==> final(ts).pos() > old(ts).pos(),
            r is Ok ==> final(self).rules.view() == old(self).rules.view(),
            fn_family_at(old(ts).tokens(), old(ts).pos()) ==> (r matches Ok(f) && (old(ts).cur()
                matches Token::Word(n) && f.name.name@ == n@) && f.arguments@.len() == 0 && f.result
                is None && f.body.stmts@.len() == 0 && f.entry_point is None
                && f.diagnostic_filter_leaf == diagnostic_filter_leaf) && final(ts).pos() == old(
                ts,
            ).pos() + 5 && final(ts).tokens() == old(ts).tokens() && *final(tu) == *old(tu),
        decreases old(ts).remaining(), 46int,
    {
        self.push_rule_span(Rule::FunctionDecl, ts);
        let (fun_name, fun_name_span) = match ts.next_ident_with_span() {
            Ok(p) => p,
            Err(e) => {
                return Err(e);
            },
        };
        // one scope holds the arguments and the whole body
        fx.table.push_scope();
        proof {
            lemma_scope_handles_push_frame(*old(fx), *fx);
        }

        let mut arguments: Vec<FunctionArgument> = Vec::new();
        match ts.expect(&Token::Paren(40)) {
            Ok(()) => (),
            Err(e) => {
                return Err(e);
            },
        }
        let mut ready = true;
        if !ts.skip(&Token::Paren(41)) {
        loop
            invariant
                ts.wf(),
                tu_wf(*tu),
                fx.wf(),
                TokenStream::stepped_from(*ts, *old(ts)),
                tu_extends(*tu, *old(tu)),
                fx_extends(*fx, *old(fx)),
                fx.table.view().len() == old(fx).table.view().len() + 1,
                scope_handles_ok(*fx),
                ts.pos() > old(ts).pos(),
                !fn_family_at(old(ts).tokens(), old(ts).pos()),
                self.rules.view().len() == old(self).rules.view().len() + 1,
                self.rules.view().drop_last() =~= old(self).rules.view(),
            ensures
                ts.wf(),
                tu_wf(*tu),
                fx.wf(),
                TokenStream::stepped_from(*ts, *old(ts)),
                tu_extends(*tu, *old(tu)),
                fx_extends(*fx, *old(fx)),
                fx.table.view().len() == old(fx).table.view().len() + 1,
                scope_handles_ok(*fx),
                ts.pos() > old(ts).pos(),
                !fn_family_at(old(ts).tokens(), old(ts).pos()),
                self.rules.view().len() == old(self).rules.view().len() + 1,
                self.rules.view().drop_last() =~= old(self).rules.view(),
            decreases ts.remaining(),
        {
            if ts.skip(&Token::Paren(41)) {
                break ;
            }
            if !ready {
                let (_, span) = ts.next();
                return Err(Error::Unexpected(span, ExpectedToken::Token(Token::Separator(44))));
            }
            let binding = match self.varying_binding(ts, tu, fx) {
                Ok(b) => b,
                Err(e) => {
                    return Err(e);
                },
            };
            let (param_name, param_span) = match ts.next_ident_with_span() {
                Ok(p) => p,
                Err(e) => {
                    return Err(e);
                },
            };
            match ts.expect(&Token::Separator(58)) {
                Ok(()) => (),
                Err(e) => {
                    return Err(e);
                },
            }
            let param_type = match self.type_decl(ts, tu, fx) {
                Ok(h) => h,
                Err(e) => {
                    return Err(e);
                },
            };
            let kept = crate::token::clone_bytes(param_name.as_slice());
            let handle = match fx.declare_local(kept, param_span) {
                Ok(h) => h,
                Err(e) => {
                    return Err(e);
                },
            };
            arguments.push(
                FunctionArgument {
                    name: Ident { name: param_name, span: param_span },
                    ty: param_type,
                    binding,
                    handle,
                },
            );
            ready = ts.skip(&Token::Separator(44));
        }
        }
        let result: Option<FunctionResult> = if ts.skip(&Token::Arrow) {
            let binding = match self.varying_binding(ts, tu, fx) {
                Ok(b) => b,
                Err(e) => {
                    return Err(e);
                },
            };
            let ty = match self.type_decl(ts, tu, fx) {
                Ok(h) => h,
                Err(e) => {
                    return Err(e);
                },
            };
            Some(FunctionResult { ty, binding })
        } else {
            None
        };

        // the body shares the argument scope, so this is not `block`;
        // its braces are the first nesting level
        match ts.expect(&Token::Paren(123)) {
            Ok(()) => (),
            Err(e) => {
                return Err(e);
            },
        }
        let mut body = Block::new();
        if !ts.skip(&Token::Paren(125)) {
        loop
            invariant
                ts.wf(),
                tu_wf(*tu),
                fx.wf(),
                TokenStream::stepped_from(*ts, *old(ts)),
                tu_extends(*tu, *old(tu)),
                fx_extends(*fx, *old(fx)),
                fx.table.view().len() == old(fx).table.view().len() + 1,
                scope_handles_ok(*fx),
                ts.pos() > old(ts).pos(),
                !fn_family_at(old(ts).tokens(), old(ts).pos()),
                self.rules.view().len() == old(self).rules.view().len() + 1,
                self.rules.view().drop_last() =~= old(self).rules.view(),
            ensures
                ts.wf(),
                tu_wf(*tu),
                fx.wf(),
                TokenStream::stepped_from(*ts, *old(ts)),
                tu_extends(*tu, *old(tu)),
                fx_extends(*fx, *old(fx)),
                fx.table.view().len() == old(fx).table.view().len() + 1,
                scope_handles_ok(*fx),
                ts.pos() > old(ts).pos(),
                !fn_family_at(old(ts).tokens(), old(ts).pos()),
                self.rules.view().len() == old(self).rules.view().len() + 1,
                self.rules.view().drop_last() =~= old(self).rules.view(),
            decreases ts.remaining(),
        {
            if ts.skip(&Token::Paren(125)) {
                break ;
            }
            match self.statement(ts, tu, fx, &mut body, 1) {
                Ok(()) => (),
                Err(e) => {
                    return Err(e);
                },
            }
        }
        }

        let ghost before_pop = *fx;
        fx.table.pop_scope();
        proof {
            lemma_scope_handles_pop_frame(before_pop, *fx);
        }
        let _ = self.pop_rule_span(ts);
        proof {
            assert(final(self).rules.view() =~= old(self).rules.view());
        }
        Ok(
            Function {
                entry_point: None,
                name: Ident { name: fun_name, span: fun_name_span },
                arguments,
                result,
                body,
                locals: crate::arena::Arena::new(),
                diagnostic_filter_leaf,
            },
        )
    }
}

/// Which global-declaration keyword a word starts, if any; directives
/// are recognized first, since one after the first declaration is its
/// own error.
#[derive(Clone, Copy, Debug, PartialEq, Eq, Structural)]
pub enum DeclKw {
    Directive,
    Struct,
    Alias,
    Const,
    Override,
    Var,
    Fn,
    ConstAssert,
    Other,
}

/// The declaration-keyword table.
pub open spec fn decl_kw_spec(w: Seq<u8>) -> DeclKw {
    if conv::directive_kind_spec(w) is Some {
        DeclKw::Directive
    } else if w == "struct".spec_bytes() {
        DeclKw::Struct
    } else if w == "alias".spec_bytes() {
        DeclKw::Alias
    } else if w == "const".spec_bytes() {
        DeclKw::Const
    } else if w == "override".spec_bytes() {
        DeclKw::Override
    } else if w == "var".spec_bytes() {
        DeclKw::Var
    } else if w == "fn".spec_bytes() {
        DeclKw::Fn
    } else if w == "const_assert".spec_bytes() {
        DeclKw::ConstAssert
    } else {
        DeclKw::Other
    }
}

/// Decides [`decl_kw_spec`].
fn decl_kw(w: &[u8]) -> (r: DeclKw)
    ensures
        r == decl_kw_spec(w@),
{
    if conv::map_directive_kind(w).is_some() {
        DeclKw::Directive
    } else if bytes_eq(w, "struct".as_bytes()) {
        DeclKw::Struct
    } else if bytes_eq(w, "alias".as_bytes()) {
        DeclKw::Alias
    } else if bytes_eq(w, "const".as_bytes()) {
        DeclKw::Const
    } else if bytes_eq(w, "override".as_bytes()) {
        DeclKw::Override
    } else if bytes_eq(w, "var".as_bytes()) {
        DeclKw::Var
    } else if bytes_eq(w, "fn".as_bytes()) {
        DeclKw::Fn
    } else if bytes_eq(w, "const_assert".as_bytes()) {
        DeclKw::ConstAssert
    } else {
        DeclKw::Other
    }
}

/// A declaration site that cannot carry diagnostic filters rejects a
/// non-empty filter list.
fn ensure_no_diag_attrs(filters: &DiagnosticFilterMap) -> (r: Result<(), Error>)
    ensures
        match r {
            Ok(()) => filters.view().len() == 0,
            Err(e) => filters.view().len() > 0 && e matches Error::DiagnosticAttributeNotSupported {
                ..
            },
        },
{
    if filters.is_empty() {
        Ok(())
    } else {
        let span = filters.first_span();
        Err(Error::DiagnosticAttributeNotSupported { span })
    }
}

impl Parser {
    /// Parses one global declaration: an optional attribute run, then
    /// the declaration itself, accumulating its dependency set.  After
    /// each declaration the rule stack must be empty again; anything
    /// else is an engine bug, never bad input.
    #[verifier::rlimit(60)]
    #[verifier::spinoff_prover]
    pub fn global_decl(&mut self, ts: &mut TokenStream, tu: &mut TranslationUnit) -> (r: Result<
        (),
        Error,
    >)
        requires
            old(ts).wf(),
            tu_wf(*old(tu)),
        ensures
            final(ts).wf(),
            tu_wf(*final(tu)),
            TokenStream::stepped_from(*final(ts), *old(ts)),
            tu_extends(*final(tu), *old(tu)),
            r is Ok ==> final(ts).pos() > old(ts).pos() || final(ts).cur() is End,
            r is Ok ==> final(self).rules.view() == old(self).rules.view(),
            old(ts).cur() is End ==> r == Ok::<(), Error>(()) && final(ts).pos() == old(ts).pos()
                && final(ts).tokens() == old(ts).tokens() && *final(tu) == *old(tu),
            (old(self).rules.view().len() == 0 && (old(ts).cur() matches Token::Separator(c) && c
                == 59)) ==> r == Ok::<(), Error>(()) && final(ts).pos() == old(ts).pos() + 1
                && final(ts).tokens() == old(ts).tokens() && *final(tu) == *old(tu),
decreases old(ts).remaining(), 50int,
    {
        let mut fx = FnCtx::new();
        let mut stage: ParsedAttribute<ShaderStage> = ParsedAttribute::new();
        let mut compute_span = Span::undefined();
        let mut workgroup_size: ParsedAttribute<[Option<Handle>; 3]> = ParsedAttribute::new();
        let mut early_depth_test: ParsedAttribute<EarlyDepthTest> = ParsedAttribute::new();
        let mut bind_index: ParsedAttribute<Handle> = ParsedAttribute::new();
        let mut bind_group: ParsedAttribute<Handle> = ParsedAttribute::new();
        let mut id: ParsedAttribute<Handle> = ParsedAttribute::new();
        let mut filters = DiagnosticFilterMap::new();

        self.push_rule_span(Rule::Attribute, ts);
        let has_attributes = match ts.peek() {
            Token::Attribute => true,
            _ => false,
        };
        if has_attributes {
        loop
            invariant
                old(ts).cur() is Attribute,
                ts.wf(),
                tu_wf(*tu),
                fx.wf(),
                scope_handles_ok(fx),
                fx.table.view().len() == 0,
                TokenStream::stepped_from(*ts, *old(ts)),
                tu_extends(*tu, *old(tu)),
                filters.wf(),
                self.rules.view() =~= old(self).rules.view().push(
                    crate::rules::RuleEntry {
                        rule: Rule::Attribute,
                        start: old(ts).cur_span().start,
                    },
                ),
            ensures
                old(ts).cur() is Attribute,
                ts.wf(),
                tu_wf(*tu),
                fx.wf(),
                scope_handles_ok(fx),
                fx.table.view().len() == 0,
                TokenStream::stepped_from(*ts, *old(ts)),
                tu_extends(*tu, *old(tu)),
                filters.wf(),
                self.rules.view() =~= old(self).rules.view().push(
                    crate::rules::RuleEntry {
                        rule: Rule::Attribute,
                        start: old(ts).cur_span().start,
                    },
                ),
            decreases ts.remaining(),
        {
            if !ts.skip(&Token::Attribute) {
                break ;
            }
            let (word, word_span) = match ts.next_ident_with_span() {
                Ok(p) => p,
                Err(e) => {
                    return Err(e);
                },
            };
            let is_diag = match conv::map_directive_kind(word.as_slice()) {
                Some(conv::DirectiveKind::Diagnostic) => true,
                _ => false,
            };
            if is_diag {
                let filter = match self.diagnostic_filter(ts, tu) {
                    Ok(f) => f,
                    Err(e) => {
                        return Err(e);
                    },
                };
                let span = self.peek_rule_span(ts);
                match filters.add(filter, span, DuplicatePolicy::Conflict) {
                    Ok(()) => (),
                    Err(e) => {
                        return Err(e);
                    },
                }
                continue ;
            }
            if bytes_eq(word.as_slice(), "binding".as_bytes()) {
                match ts.expect(&Token::Paren(40)) {
                    Ok(()) => (),
                    Err(e) => {
                        return Err(e);
                    },
                }
                let h = match self.general_expression(ts, tu, &mut fx) {
                    Ok(h) => h,
                    Err(e) => {
                        return Err(e);
                    },
                };
                match bind_index.set(h, word_span) {
                    Ok(()) => (),
                    Err(e) => {
                        return Err(e);
                    },
                }
                match ts.expect(&Token::Paren(41)) {
                    Ok(()) => (),
                    Err(e) => {
                        return Err(e);
                    },
                }
            } else if bytes_eq(word.as_slice(), "group".as_bytes()) {
                match ts.expect(&Token::Paren(40)) {
                    Ok(()) => (),
                    Err(e) => {
                        return Err(e);
                    },
                }
                let h = match self.general_expression(ts, tu, &mut fx) {
                    Ok(h) => h,
                    Err(e) => {
                        return Err(e);
                    },
                };
                match bind_group.set(h, word_span) {
                    Ok(()) => (),
                    Err(e) => {
                        return Err(e);
                    },
                }
                match ts.expect(&Token::Paren(41)) {
                    Ok(()) => (),
                    Err(e) => {
                        return Err(e);
                    },
                }
            } else if bytes_eq(word.as_slice(), "id".as_bytes()) {
                match ts.expect(&Token::Paren(40)) {
                    Ok(()) => (),
                    Err(e) => {
                        return Err(e);
                    },
                }
                let h = match self.general_expression(ts, tu, &mut fx) {
                    Ok(h) => h,
                    Err(e) => {
                        return Err(e);
                    },
                };
                match id.set(h, word_span) {
                    Ok(()) => (),
                    Err(e) => {
                        return Err(e);
                    },
                }
                match ts.expect(&Token::Paren(41)) {
                    Ok(()) => (),
                    Err(e) => {
                        return Err(e);
                    },
                }
            } else if bytes_eq(word.as_slice(), "vertex".as_bytes()) {
                match stage.set(ShaderStage::Vertex, word_span) {
                    Ok(()) => (),
                    Err(e) => {
                        return Err(e);
                    },
                }
            } else if bytes_eq(word.as_slice(), "fragment".as_bytes()) {
                match stage.set(ShaderStage::Fragment, word_span) {
                    Ok(()) => (),
                    Err(e) => {
                        return Err(e);
                    },
                }
            } else if bytes_eq(word.as_slice(), "compute".as_bytes()) {
                match stage.set(ShaderStage::Compute, word_span) {
                    Ok(()) => (),
                    Err(e) => {
                        return Err(e);
                    },
                }
                compute_span = word_span;
            } else if bytes_eq(word.as_slice(), "workgroup_size".as_bytes()) {
                match ts.expect(&Token::Paren(40)) {
                    Ok(()) => (),
                    Err(e) => {
                        return Err(e);
                    },
                }
                let mut sx: Option<Handle> = None;
                let mut sy: Option<Handle> = None;
                let mut sz: Option<Handle> = None;
                let mut i: u8 = 0;
                let ghost pre_wg = *ts;
                loop
                    invariant
                        old(ts).cur() is Attribute,
                        ts.pos() >= pre_wg.pos(),
                        i <= 2,
                        ts.wf(),
                        tu_wf(*tu),
                        fx.wf(),
                        scope_handles_ok(fx),
                        fx.table.view().len() == 0,
                        TokenStream::stepped_from(*ts, *old(ts)),
                        tu_extends(*tu, *old(tu)),
                        self.rules.view() =~= old(self).rules.view().push(
                            crate::rules::RuleEntry {
                                rule: Rule::Attribute,
                                start: old(ts).cur_span().start,
                            },
                        ),
                    ensures
                        old(ts).cur() is Attribute,
                        ts.pos() > pre_wg.pos(),
                        i <= 2,
                        ts.wf(),
                        tu_wf(*tu),
                        fx.wf(),
                        scope_handles_ok(fx),
                        fx.table.view().len() == 0,
                        TokenStream::stepped_from(*ts, *old(ts)),
                        tu_extends(*tu, *old(tu)),
                        self.rules.view() =~= old(self).rules.view().push(
                            crate::rules::RuleEntry {
                                rule: Rule::Attribute,
                                start: old(ts).cur_span().start,
                            },
                        ),
                    decreases ts.remaining(),
                {
                    let h = match self.general_expression(ts, tu, &mut fx) {
                        Ok(h) => h,
                        Err(e) => {
                            return Err(e);
                        },
                    };
                    if i == 0 {
                        sx = Some(h);
                    } else if i == 1 {
                        sy = Some(h);
                    } else {
                        sz = Some(h);
                    }
                    let (tok, tok_span) = ts.next();
                    let c = match tok {
                        Token::Paren(c) => c,
                        Token::Separator(c) => c,
                        _ => 0,
                    };
                    if c == 41 {
                        break ;
                    }
                    if c == 44 && i < 2 {
                        i = i + 1;
                    } else {
                        return Err(
                            Error::Unexpected(tok_span, ExpectedToken::WorkgroupSizeSeparator),
                        );
                    }
                }
                match workgroup_size.set([sx, sy, sz], word_span) {
                    Ok(()) => (),
                    Err(e) => {
                        return Err(e);
                    },
                }
            } else if bytes_eq(word.as_slice(), "early_depth_test".as_bytes()) {
                let conservative = if ts.skip(&Token::Paren(40)) {
                    let (cword, cspan) = match ts.next_ident_with_span() {
                        Ok(p) => p,
                        Err(e) => {
                            return Err(e);
                        },
                    };
                    let value = match conv::map_conservative_depth(cword.as_slice()) {
                        Some(v) => v,
                        None => {
                            return Err(Error::UnknownConservativeDepth(cspan));
                        },
                    };
                    match ts.expect(&Token::Paren(41)) {
                        Ok(()) => (),
                        Err(e) => {
                            return Err(e);
                        },
                    }
                    Some(value)
                } else {
                    None
                };
                match early_depth_test.set(EarlyDepthTest { conservative }, word_span) {
                    Ok(()) => (),
                    Err(e) => {
                        return Err(e);
                    },
                }
            } else {
                return Err(Error::UnknownAttribute(word_span));
            }
        }
        }
        let attrib_span = self.pop_rule_span(ts);

        let mut binding_opt: Option<ResourceBinding> = match (bind_group.value, bind_index.value) {
            (Some(group), Some(index)) => Some(ResourceBinding { group, binding: index }),
            (Some(_), None) => {
                return Err(
                    Error::MissingAttribute { needed: PairedAttribute::Binding, span: attrib_span },
                );
            },
            (None, Some(_)) => {
                return Err(
                    Error::MissingAttribute { needed: PairedAttribute::Group, span: attrib_span },
                );
            },
            (None, None) => None,
        };

        // read the declaration itself
        let start = ts.start_byte_offset();
        let (tok, tok_span) = ts.next();
        let at_end = match &tok {
            Token::End => true,
            _ => false,
        };
        if at_end {
            return Ok(());
        }
        let kind: Option<GlobalDeclKind> = match tok {
            Token::Separator(c) => {
                if c == 59 {
                    match ensure_no_diag_attrs(&filters) {
                        Ok(()) => (),
                        Err(e) => {
                            return Err(e);
                        },
                    }
                    None
                } else {
                    return Err(Error::Unexpected(tok_span, ExpectedToken::GlobalItem));
                }
            },
            Token::Word(word) => {
                let kw = decl_kw(word.as_slice());
                if kw == DeclKw::Directive {
                    // directives may only open the translation unit
                    return Err(Error::DirectiveAfterFirstGlobalDecl { directive_span: tok_span });
                }
                if kw == DeclKw::Struct {
                    match ensure_no_diag_attrs(&filters) {
                        Ok(()) => (),
                        Err(e) => {
                            return Err(e);
                        },
                    }
                    let (name, name_span) = match ts.next_ident_with_span() {
                        Ok(p) => p,
                        Err(e) => {
                            return Err(e);
                        },
                    };
                    let members = match self.struct_body(ts, tu, &mut fx) {
                        Ok(m) => m,
                        Err(e) => {
                            return Err(e);
                        },
                    };
                    Some(
                        GlobalDeclKind::Struct(
                            StructDecl { name: Ident { name, span: name_span }, members },
                        ),
                    )
                } else if kw == DeclKw::Alias {
                    match ensure_no_diag_attrs(&filters) {
                        Ok(()) => (),
                        Err(e) => {
                            return Err(e);
                        },
                    }
                    let (name, name_span) = match ts.next_ident_with_span() {
                        Ok(p) => p,
                        Err(e) => {
                            return Err(e);
                        },
                    };
                    match ts.expect(&Token::Operation(61)) {
                        Ok(()) => (),
                        Err(e) => {
                            return Err(e);
                        },
                    }
                    let ty = match self.type_decl(ts, tu, &mut fx) {
                        Ok(h) => h,
                        Err(e) => {
                            return Err(e);
                        },
                    };
                    match ts.expect(&Token::Separator(59)) {
                        Ok(()) => (),
                        Err(e) => {
                            return Err(e);
                        },
                    }
                    Some(GlobalDeclKind::Type(TypeAlias { name: Ident { name, span: name_span }, ty }))
                } else if kw == DeclKw::Const {
                    match ensure_no_diag_attrs(&filters) {
                        Ok(()) => (),
                        Err(e) => {
                            return Err(e);
                        },
                    }
                    let (name, name_span) = match ts.next_ident_with_span() {
                        Ok(p) => p,
                        Err(e) => {
                            return Err(e);
                        },
                    };
                    let ty = if ts.skip(&Token::Separator(58)) {
                        let t = match self.type_decl(ts, tu, &mut fx) {
                            Ok(h) => h,
                            Err(e) => {
                                return Err(e);
                            },
                        };
                        Some(t)
                    } else {
                        None
                    };
                    match ts.expect(&Token::Operation(61)) {
                        Ok(()) => (),
                        Err(e) => {
                            return Err(e);
                        },
                    }
                    let init = match self.general_expression(ts, tu, &mut fx) {
                        Ok(h) => h,
                        Err(e) => {
                            return Err(e);
                        },
                    };
                    match ts.expect(&Token::Separator(59)) {
                        Ok(()) => (),
                        Err(e) => {
                            return Err(e);
                        },
                    }
                    Some(
                        GlobalDeclKind::Const(
                            ConstDecl { name: Ident { name, span: name_span }, ty, init },
                        ),
                    )
                } else if kw == DeclKw::Override {
                    match ensure_no_diag_attrs(&filters) {
                        Ok(()) => (),
                        Err(e) => {
                            return Err(e);
                        },
                    }
                    let (name, name_span) = match ts.next_ident_with_span() {
                        Ok(p) => p,
                        Err(e) => {
                            return Err(e);
                        },
                    };
                    let ty = if ts.skip(&Token::Separator(58)) {
                        let t = match self.type_decl(ts, tu, &mut fx) {
                            Ok(h) => h,
                            Err(e) => {
                                return Err(e);
                            },
                        };
                        Some(t)
                    } else {
                        None
                    };
                    let init = if ts.skip(&Token::Operation(61)) {
                        let h = match self.general_expression(ts, tu, &mut fx) {
                            Ok(h) => h,
                            Err(e) => {
                                return Err(e);
                            },
                        };
                        Some(h)
                    } else {
                        None
                    };
                    match ts.expect(&Token::Separator(59)) {
                        Ok(()) => (),
                        Err(e) => {
                            return Err(e);
                        },
                    }
                    Some(
                        GlobalDeclKind::Override(
                            OverrideDecl {
                                name: Ident { name, span: name_span },
                                id: id.value,
                                ty,
                                init,
                            },
                        ),
                    )
                } else if kw == DeclKw::Var {
                    match ensure_no_diag_attrs(&filters) {
                        Ok(()) => (),
                        Err(e) => {
                            return Err(e);
                        },
                    }
                    let mut var = match self.variable_decl(ts, tu, &mut fx) {
                        Ok(v) => v,
                        Err(e) => {
                            return Err(e);
                        },
                    };
                    var.binding = binding_opt;
                    binding_opt = None;
                    Some(GlobalDeclKind::Var(var))
                } else if kw == DeclKw::Fn {
                    let leaf = crate::diag::write_diagnostic_filters(
                        &mut tu.diagnostic_filters,
                        filters,
                        tu.diagnostic_filter_leaf,
                    );
                    let mut function = match self.function_decl(ts, tu, &mut fx, leaf) {
                        Ok(f) => f,
                        Err(e) => {
                            return Err(e);
                        },
                    };
                    let entry = match entry_point_of(
                        stage.value,
                        compute_span,
                        early_depth_test.value,
                        workgroup_size.value,
                    ) {
                        Ok(ep) => ep,
                        Err(e) => {
                            return Err(e);
                        },
                    };
                    function.entry_point = entry;
                    Some(GlobalDeclKind::Fn(function))
                } else if kw == DeclKw::ConstAssert {
                    match ensure_no_diag_attrs(&filters) {
                        Ok(()) => (),
                        Err(e) => {
                            return Err(e);
                        },
                    }
                    // parentheses are optional
                    let paren = ts.skip(&Token::Paren(40));
                    let condition = match self.general_expression(ts, tu, &mut fx) {
                        Ok(h) => h,
                        Err(e) => {
                            return Err(e);
                        },
                    };
                    if paren {
                        match ts.expect(&Token::Paren(41)) {
                            Ok(()) => (),
                            Err(e) => {
                                return Err(e);
                            },
                        }
                    }
                    match ts.expect(&Token::Separator(59)) {
                        Ok(()) => (),
                        Err(e) => {
                            return Err(e);
                        },
                    }
                    Some(GlobalDeclKind::ConstAssert(condition))
                } else {
                    return Err(Error::Unexpected(tok_span, ExpectedToken::GlobalItem));
                }
            },
            _ => {
                return Err(Error::Unexpected(tok_span, ExpectedToken::GlobalItem));
            },
        };

        match kind {
            Some(k) => {
                let span = ts.span_from(start);
                let mut function_locals = fx.locals;
                let k = match k {
                    GlobalDeclKind::Fn(mut f) => {
                        f.locals = function_locals;
                        function_locals = crate::arena::Arena::new();
                        GlobalDeclKind::Fn(f)
                    },
                    other => other,
                };
                let _ = tu.decls.append(GlobalDecl { kind: k, dependencies: fx.deps }, span);
            },
            None => {},
        }

        // a defensive check: valid grammar always balances the rule
        // stack by the end of a declaration
        if !self.rules.is_empty() {
            return Err(Error::Internal(InternalError::RuleStackNotEmpty));
        }
        match binding_opt {
            None => (),
            Some(_) => {
                return Err(Error::Internal(InternalError::AttributeWithoutVariable));
            },
        }
        Ok(())
    }
}

impl Parser {
    /// Parses one translation unit: leading directives, then global
    /// declarations until the end of the source.  The parser's only
    /// cross-parse state, the rule stack, is reset first.
    pub fn parse(&mut self, source: &[u8]) -> (r: Result<TranslationUnit, Error>)
        ensures
            r matches Ok(t) ==> tu_wf(t),
            r is Ok ==> final(self).rules.view().len() == 0,
            source@.len() == 0 ==> (r matches Ok(t) && t.decls.view().len() == 0
                && t.expressions.view().len() == 0 && t.types.view().len() == 0
                && t.diagnostic_filters.view().len() == 0 && t.warnings@.len() == 0),
    {
        self.reset();
        let (toks, spans) = crate::lexer::tokenize(source);
        let mut ts = TokenStream::new(toks, spans);
        let mut tu = TranslationUnit::new();
        let mut filters = DiagnosticFilterMap::new();
        let mut dual_source_blending = false;
        let mut clip_distances = false;

        // directives may only appear before the first declaration
        loop
            invariant
                ts.wf(),
                tu_wf(tu),
                filters.wf(),
                self.rules.view().len() == 0,
                source@.len() == 0 ==> ts.tokens().len() == 1,
                ts.tokens().len() == 1 ==> ts.pos() == 0 && tu.decls.view().len() == 0
                    && tu.expressions.view().len() == 0 && tu.types.view().len() == 0
                    && tu.diagnostic_filters.view().len() == 0 && tu.warnings@.len() == 0
                    && filters.view().len() == 0,
            ensures
                ts.wf(),
                tu_wf(tu),
                filters.wf(),
                self.rules.view().len() == 0,
                source@.len() == 0 ==> ts.tokens().len() == 1,
                ts.tokens().len() == 1 ==> ts.pos() == 0 && tu.decls.view().len() == 0
                    && tu.expressions.view().len() == 0 && tu.types.view().len() == 0
                    && tu.diagnostic_filters.view().len() == 0 && tu.warnings@.len() == 0
                    && filters.view().len() == 0,
            decreases ts.remaining(),
        {
            let kind_opt = match ts.peek() {
                Token::Word(w) => conv::map_directive_kind(w.as_slice()),
                _ => None,
            };
            let kind = match kind_opt {
                Some(k) => k,
                None => {
                    break ;
                },
            };
            self.push_rule_span(Rule::Directive, &ts);
            let ghost pre_dir = ts;
            let _ = ts.next();
            match kind {
                conv::DirectiveKind::Diagnostic => {
                    let filter = match self.diagnostic_filter(&mut ts, &mut tu) {
                        Ok(f) => f,
                        Err(e) => {
                            return Err(e);
                        },
                    };
                    let span = self.peek_rule_span(&ts);
                    match filters.add(filter, span, DuplicatePolicy::KeepLatest) {
                        Ok(()) => (),
                        Err(e) => {
                            return Err(e);
                        },
                    }
                    match ts.expect(&Token::Separator(59)) {
                        Ok(()) => (),
                        Err(e) => {
                            return Err(e);
                        },
                    }
                },
                conv::DirectiveKind::Enable => {
                    loop
                        invariant
                            ts.pos() > pre_dir.pos(),
                            ts.tokens().len() == pre_dir.tokens().len(),
                            ts.tokens().len() > 1,
                            source@.len() == 0 ==> ts.tokens().len() == 1,
                            ts.wf(),
                            tu_wf(tu),
                        ensures
                            ts.pos() > pre_dir.pos(),
                            ts.tokens().len() == pre_dir.tokens().len(),
                            ts.tokens().len() > 1,
                            source@.len() == 0 ==> ts.tokens().len() == 1,
                            ts.wf(),
                            tu_wf(tu),
                        decreases ts.remaining(),
                    {
                        let (ident, ident_span) = match ts.next_ident_with_span() {
                            Ok(p) => p,
                            Err(e) => {
                                return Err(e);
                            },
                        };
                        match conv::map_enable_extension(ident.as_slice()) {
                            Some(conv::EnableExtensionKind::DualSourceBlending) => {
                                dual_source_blending = true;
                            },
                            Some(conv::EnableExtensionKind::ClipDistances) => {
                                clip_distances = true;
                            },
                            Some(conv::EnableExtensionKind::UnimplementedF16) => {
                                return Err(
                                    Error::EnableExtensionNotYetImplemented { span: ident_span },
                                );
                            },
                            None => {
                                return Err(Error::UnknownEnableExtension { span: ident_span });
                            },
                        }
                        if ts.skip(&Token::Separator(44)) {
                            let more = match ts.peek() {
                                Token::Word(_) => true,
                                _ => false,
                            };
                            if more {
                                continue ;
                            }
                            let (t2, _s2) = ts.next();
                            let done = match t2 {
                                Token::Separator(c) => c == 59,
                                _ => false,
                            };
                            if done {
                                break ;
                            }
                            return Err(
                                Error::Unexpected(ident_span, ExpectedToken::AfterIdentListComma),
                            );
                        }
                        let (t2, _s2) = ts.next();
                        let done = match t2 {
                            Token::Separator(c) => c == 59,
                            _ => false,
                        };
                        if done {
                            break ;
                        }
                        return Err(Error::Unexpected(ident_span, ExpectedToken::AfterIdentListArg));
                    }
                },
                conv::DirectiveKind::Requires => {
                    loop
                        invariant
                            ts.pos() > pre_dir.pos(),
                            ts.tokens().len() == pre_dir.tokens().len(),
                            ts.tokens().len() > 1,
                            source@.len() == 0 ==> ts.tokens().len() == 1,
                            ts.wf(),
                            tu_wf(tu),
                        ensures
                            ts.pos() > pre_dir.pos(),
                            ts.tokens().len() == pre_dir.tokens().len(),
                            ts.tokens().len() > 1,
                            source@.len() == 0 ==> ts.tokens().len() == 1,
                            ts.wf(),
                            tu_wf(tu),
                        decreases ts.remaining(),
                    {
                        let (ident, ident_span) = match ts.next_ident_with_span() {
                            Ok(p) => p,
                            Err(e) => {
                                return Err(e);
                            },
                        };
                        if !conv::is_language_extension(ident.as_slice()) {
                            return Err(Error::UnknownLanguageExtension { span: ident_span });
                        }
                        // an accepted language extension needs no further
                        // validation during parsing
                        if ts.skip(&Token::Separator(44)) {
                            let more = match ts.peek() {
                                Token::Word(_) => true,
                                _ => false,
                            };
                            if more {
                                continue ;
                            }
                            let (t2, _s2) = ts.next();
                            let done = match t2 {
                                Token::Separator(c) => c == 59,
                                _ => false,
                            };
                            if done {
                                break ;
                            }
                            return Err(
                                Error::Unexpected(ident_span, ExpectedToken::AfterIdentListComma),
                            );
                        }
                        let (t2, _s2) = ts.next();
                        let done = match t2 {
                            Token::Separator(c) => c == 59,
                            _ => false,
                        };
                        if done {
                            break ;
                        }
                        return Err(Error::Unexpected(ident_span, ExpectedToken::AfterIdentListArg));
                    }
                },
            }
            let _ = self.pop_rule_span(&ts);
            proof {
                assert(self.rules.view() =~= Seq::<crate::rules::RuleEntry>::empty());
            }
        }

        tu.enable_extensions = crate::ast::EnableExtensions { dual_source_blending, clip_distances };
        tu.diagnostic_filter_leaf = crate::diag::write_diagnostic_filters(
            &mut tu.diagnostic_filters,
            filters,
            None,
        );

        loop
            invariant
                ts.wf(),
                tu_wf(tu),
                self.rules.view().len() == 0,
                source@.len() == 0 ==> ts.tokens().len() == 1,
                ts.tokens().len() == 1 ==> ts.pos() == 0 && tu.decls.view().len() == 0
                    && tu.expressions.view().len() == 0 && tu.types.view().len() == 0
                    && tu.diagnostic_filters.view().len() == 0 && tu.warnings@.len() == 0,
            decreases ts.remaining(),
        {
            match self.global_decl(&mut ts, &mut tu) {
                Ok(()) => (),
                Err(e) => {
                    return Err(e);
                },
            }
            let at_end = match ts.peek() {
                Token::End => true,
                _ => false,
            };
            if at_end {
                break ;
            }
        }
        Ok(tu)
    }
}

} // verus!
