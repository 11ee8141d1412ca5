//! The attribute and binding parser: `@name(...)` runs preceding
//! declarations, struct members and function parameters or results.
//! Each attribute slot may be set at most once, and a finishing step
//! validates that the combination describes one consistent binding.

use vstd::prelude::*;
use vstd::string::StringSliceAdditionalSpecFns;

use crate::arena::{Handle, Span};
use crate::ast::{Binding, BuiltIn, Interpolation, Sampling, TranslationUnit};
use crate::conv;
use crate::error::Error;
use crate::expr::{fx_extends, tu_extends, tu_wf, FnCtx};
use crate::parser::Parser;
use crate::rules::Rule;
use crate::stream::TokenStream;
use crate::token::{bytes_eq, Token};

verus! {

/// One attribute slot, set at most once; a second occurrence is a
/// repeated-attribute error.
pub struct ParsedAttribute<T> {
    pub value: Option<T>,
}

impl<T> ParsedAttribute<T> {
    pub fn new() -> (r: ParsedAttribute<T>)
        ensures
            r.value is None,
    {
        ParsedAttribute { value: None }
    }

    /// Fills the slot, or reports the attribute as repeated if it
    /// already holds a value.
    pub fn set(&mut self, value: T, name_span: Span) -> (r: Result<(), Error>)
        ensures
            match r {
                Ok(()) => old(self).value is None && final(self).value == Some(value),
                Err(e) => old(self).value is Some && *final(self) == *old(self) && e
                    == Error::RepeatedAttribute(name_span),
            },
    {
        if self.value.is_some() {
            return Err(Error::RepeatedAttribute(name_span));
        }
        self.value = Some(value);
        Ok(())
    }
}

/// Which binding-attribute slot a name addresses, if any.
#[derive(Clone, Copy, Debug, PartialEq, Eq, Structural)]
pub enum BindingAttr {
    Location,
    BuiltinName,
    Interpolate,
    SecondBlendSource,
    InvariantMarker,
    Unknown,
}

/// The binding-attribute name table.
pub open spec fn binding_attr_spec(w: Seq<u8>) -> BindingAttr {
    if w == "location".spec_bytes() {
        BindingAttr::Location
    } else if w == "builtin".spec_bytes() {
        BindingAttr::BuiltinName
    } else if w == "interpolate".spec_bytes() {
        BindingAttr::Interpolate
    } else if w == "second_blend_source".spec_bytes() {
        BindingAttr::SecondBlendSource
    } else if w == "invariant".spec_bytes() {
        BindingAttr::InvariantMarker
    } else {
        BindingAttr::Unknown
    }
}

/// What one run of binding attributes may combine into: either a
/// location-style set, or a single built-in, or nothing.  The invariant
/// marker is allowed only on the position built-in, and a location may
/// not be combined with a built-in.
pub open spec fn binding_finish_spec(
    location: Option<Handle>,
    built_in: Option<BuiltIn>,
    interpolation: Option<Interpolation>,
    sampling: Option<Sampling>,
    inv: bool,
    second_blend_source: bool,
    span: Span,
) -> Result<Option<Binding>, Error> {
    if location is None && built_in is None && interpolation is None && sampling is None && !inv {
        Ok(None)
    } else if location is Some && built_in is None && !inv {
        Ok(
            Some(
                Binding::Location {
                    location: location->Some_0,
                    interpolation,
                    sampling,
                    second_blend_source,
                },
            ),
        )
    } else if location is None && (built_in matches Some(BuiltIn::Position { .. }))
        && interpolation is None && sampling is None {
        Ok(Some(Binding::BuiltIn(BuiltIn::Position { invariant: inv })))
    } else if location is None && built_in is Some && interpolation is None && sampling is None
        && !inv {
        Ok(Some(Binding::BuiltIn(built_in->Some_0)))
    } else {
        Err(Error::InconsistentBinding(span))
    }
}

/// The attribute slots a binding may set.
pub struct BindingParser {
    pub location: ParsedAttribute<Handle>,
    pub second_blend_source: ParsedAttribute<bool>,
    pub built_in: ParsedAttribute<BuiltIn>,
    pub interpolation: ParsedAttribute<Interpolation>,
    pub sampling: ParsedAttribute<Sampling>,
    pub invariant_attr: ParsedAttribute<bool>,
}

impl BindingParser {
    pub fn new() -> (r: BindingParser)
        ensures
            r.location.value is None,
            r.second_blend_source.value is None,
            r.built_in.value is None,
            r.interpolation.value is None,
            r.sampling.value is None,
            r.invariant_attr.value is None,
    {
        BindingParser {
            location: ParsedAttribute::new(),
            second_blend_source: ParsedAttribute::new(),
            built_in: ParsedAttribute::new(),
            interpolation: ParsedAttribute::new(),
            sampling: ParsedAttribute::new(),
            invariant_attr: ParsedAttribute::new(),
        }
    }

    /// Parses one binding attribute, named `name`, into its slot.
    /// Unknown attribute names are a hard error; a slot already filled
    /// is a repeated-attribute error.
    pub fn parse(
        &mut self,
        p: &mut Parser,
        name: &[u8],
        name_span: Span,
        ts: &mut TokenStream,
        tu: &mut TranslationUnit,
        fx: &mut FnCtx,
    ) -> (r: Result<(), Error>)
        requires
            old(ts).wf(),
            tu_wf(*old(tu)),
            old(fx).wf(),
        ensures
            final(ts).wf(),
            tu_wf(*final(tu)),
            final(fx).wf(),
            TokenStream::stepped_from(*final(ts), *old(ts)),
            tu_extends(*final(tu), *old(tu)),
            fx_extends(*final(fx), *old(fx)),
            final(fx).table.view() == old(fx).table.view(),
            r is Ok ==> final(p).rules.view() == old(p).rules.view(),
            r is Ok && binding_attr_spec(name@) is Location ==> old(self).location.value is None
                && final(self).location.value is Some && final(self).built_in == old(self).built_in
                && final(self).interpolation == old(self).interpolation && final(self).sampling
                == old(self).sampling && final(self).invariant_attr == old(self).invariant_attr
                && final(self).second_blend_source == old(self).second_blend_source,
            r is Ok && binding_attr_spec(name@) is BuiltinName ==> old(self).built_in.value is None
                && final(self).built_in.value is Some && final(self).location == old(self).location
                && final(self).interpolation == old(self).interpolation && final(self).sampling
                == old(self).sampling && final(self).invariant_attr == old(self).invariant_attr
                && final(self).second_blend_source == old(self).second_blend_source,
            r is Ok && binding_attr_spec(name@) is Interpolate ==> old(self).interpolation.value
                is None && final(self).interpolation.value is Some && final(self).location == old(self).location && final(self).built_in == old(self).built_in && final(self).invariant_attr
                == old(self).invariant_attr && final(self).second_blend_source == old(self).second_blend_source,
            r is Ok && binding_attr_spec(name@) is SecondBlendSource ==> final(self).second_blend_source.value == Some(true) && final(self).location == old(self).location
                && final(self).built_in == old(self).built_in && final(self).interpolation == old(self).interpolation && final(self).sampling == old(self).sampling && final(self).invariant_attr == old(self).invariant_attr,
            r is Ok && binding_attr_spec(name@) is InvariantMarker ==> final(self).invariant_attr.value
                == Some(true) && final(self).location == old(self).location && final(self).built_in
                == old(self).built_in && final(self).interpolation == old(self).interpolation
                && final(self).sampling == old(self).sampling && final(self).second_blend_source
                == old(self).second_blend_source,
            binding_attr_spec(name@) is Unknown ==> r == Err::<(), Error>(
                Error::UnknownAttribute(name_span),
            ) && *final(self) == *old(self) && *final(ts) == *old(ts) && *final(tu) == *old(tu)
                && *final(fx) == *old(fx),
        decreases old(ts).remaining(), 28int,
    {
        if bytes_eq(name, "location".as_bytes()) {
            match ts.expect(&Token::Paren(40)) {
                Ok(()) => (),
                Err(e) => {
                    return Err(e);
                },
            }
            let expr = match p.general_expression(ts, tu, fx) {
                Ok(h) => h,
                Err(e) => {
                    return Err(e);
                },
            };
            match self.location.set(expr, name_span) {
                Ok(()) => (),
                Err(e) => {
                    return Err(e);
                },
            }
            ts.expect(&Token::Paren(41))
        } else if bytes_eq(name, "builtin".as_bytes()) {
            match ts.expect(&Token::Paren(40)) {
                Ok(()) => (),
                Err(e) => {
                    return Err(e);
                },
            }
            let (word, span) = match ts.next_ident_with_span() {
                Ok(p) => p,
                Err(e) => {
                    return Err(e);
                },
            };
            let b = match conv::map_built_in(word.as_slice()) {
                Some(b) => b,
                None => {
                    return Err(Error::UnknownBuiltin(span));
                },
            };
            match self.built_in.set(b, name_span) {
                Ok(()) => (),
                Err(e) => {
                    return Err(e);
                },
            }
            ts.expect(&Token::Paren(41))
        } else if bytes_eq(name, "interpolate".as_bytes()) {
            match ts.expect(&Token::Paren(40)) {
                Ok(()) => (),
                Err(e) => {
                    return Err(e);
                },
            }
            let (word, span) = match ts.next_ident_with_span() {
                Ok(p) => p,
                Err(e) => {
                    return Err(e);
                },
            };
            let i = match conv::map_interpolation(word.as_slice()) {
                Some(i) => i,
                None => {
                    return Err(Error::UnknownInterpolation(span));
                },
            };
            match self.interpolation.set(i, name_span) {
                Ok(()) => (),
                Err(e) => {
                    return Err(e);
                },
            }
            if ts.skip(&Token::Separator(44)) {
                let (sword, sspan) = match ts.next_ident_with_span() {
                    Ok(p) => p,
                    Err(e) => {
                        return Err(e);
                    },
                };
                let s = match conv::map_sampling(sword.as_slice()) {
                    Some(s) => s,
                    None => {
                        return Err(Error::UnknownSampling(sspan));
                    },
                };
                match self.sampling.set(s, name_span) {
                    Ok(()) => (),
                    Err(e) => {
                        return Err(e);
                    },
                }
            }
            ts.expect(&Token::Paren(41))
        } else if bytes_eq(name, "second_blend_source".as_bytes()) {
            self.second_blend_source.set(true, name_span)
        } else if bytes_eq(name, "invariant".as_bytes()) {
            self.invariant_attr.set(true, name_span)
        } else {
            Err(Error::UnknownAttribute(name_span))
        }
    }

    /// Validates the accumulated slots as one binding, per
    /// [`binding_finish_spec`].
    pub fn finish(self, span: Span) -> (r: Result<Option<Binding>, Error>)
        ensures
            r == binding_finish_spec(
                self.location.value,
                self.built_in.value,
                self.interpolation.value,
                self.sampling.value,
                match self.invariant_attr.value {
                    Some(b) => b,
                    None => false,
                },
                match self.second_blend_source.value {
                    Some(b) => b,
                    None => false,
                },
                span,
            ),
    {
        let inv = match self.invariant_attr.value {
            Some(b) => b,
            None => false,
        };
        let second_blend_source = match self.second_blend_source.value {
            Some(b) => b,
            None => false,
        };
        match (self.location.value, self.built_in.value, self.interpolation.value, self.sampling.value) {
            (None, None, None, None) => {
                if !inv {
                    Ok(None)
                } else {
                    Err(Error::InconsistentBinding(span))
                }
            },
            (Some(location), None, interpolation, sampling) => {
                if !inv {
                    Ok(
                        Some(
                            Binding::Location {
                                location,
                                interpolation,
                                sampling,
                                second_blend_source,
                            },
                        ),
                    )
                } else {
                    Err(Error::InconsistentBinding(span))
                }
            },
            (None, Some(BuiltIn::Position { .. }), None, None) => Ok(
                Some(Binding::BuiltIn(BuiltIn::Position { invariant: inv })),
            ),
            (None, Some(built_in), None, None) => {
                if !inv {
                    Ok(Some(Binding::BuiltIn(built_in)))
                } else {
                    Err(Error::InconsistentBinding(span))
                }
            },
            (_, _, _, _) => Err(Error::InconsistentBinding(span)),
        }
    }
}

impl Parser {
    /// Parses the attribute run before a function parameter, result or
    /// struct member into its pipeline binding.
    pub fn varying_binding(
        &mut self,
        ts: &mut TokenStream,
        tu: &mut TranslationUnit,
        fx: &mut FnCtx,
    ) -> (r: Result<Option<Binding>, Error>)
        requires
            old(ts).wf(),
            tu_wf(*old(tu)),
            old(fx).wf(),
        ensures
            final(ts).wf(),
            tu_wf(*final(tu)),
            final(fx).wf(),
            TokenStream::stepped_from(*final(ts), *old(ts)),
            tu_extends(*final(tu), *old(tu)),
            fx_extends(*final(fx), *old(fx)),
            final(fx).table.view() == old(fx).table.view(),
            r is Ok ==> final(self).rules.view() == old(self).rules.view(),
            !(old(ts).cur() is Attribute) ==> r == Ok::<Option<Binding>, Error>(None) && *final(ts)
                == *old(ts) && *final(tu) == *old(tu) && *final(fx) == *old(fx) && final(self).rules.view() == old(self).rules.view(),
        decreases old(ts).remaining(), 29int,
    {
        let mut bind_parser = BindingParser::new();
        self.push_rule_span(Rule::Attribute, ts);
        let has_attributes = match ts.peek() {
            Token::Attribute => true,
            _ => false,
        };
        if !has_attributes {
            let span = self.pop_rule_span(ts);
            proof {
                assert(final(self).rules.view() =~= old(self).rules.view());
            }
            return bind_parser.finish(span);
        }
        loop
            invariant
                ts.wf(),
                tu_wf(*tu),
                fx.wf(),
                TokenStream::stepped_from(*ts, *old(ts)),
                tu_extends(*tu, *old(tu)),
                fx_extends(*fx, *old(fx)),
                fx.table.view() == old(fx).table.view(),
                old(ts).cur() is Attribute,
                self.rules.view() =~= old(self).rules.view().push(
                    crate::rules::RuleEntry {
                        rule: Rule::Attribute,
                        start: old(ts).cur_span().start,
                    },
                ),
            ensures
                ts.wf(),
                tu_wf(*tu),
                fx.wf(),
                TokenStream::stepped_from(*ts, *old(ts)),
                tu_extends(*tu, *old(tu)),
                fx_extends(*fx, *old(fx)),
                fx.table.view() == old(fx).table.view(),
                old(ts).cur() is Attribute,
                self.rules.view() =~= old(self).rules.view().push(
                    crate::rules::RuleEntry {
                        rule: Rule::Attribute,
                        start: old(ts).cur_span().start,
                    },
                ),
            decreases ts.remaining(),
        {
            if !ts.skip(&Token::Attribute) {
                break ;
            }
            let (word, span) = match ts.next_ident_with_span() {
                Ok(p) => p,
                Err(e) => {
                    return Err(e);
                },
            };
            match bind_parser.parse(self, word.as_slice(), span, ts, tu, fx) {
                Ok(()) => (),
                Err(e) => {
                    return Err(e);
                },
            }
        }
        let span = self.pop_rule_span(ts);
        proof {
            assert(final(self).rules.view() =~= old(self).rules.view());
        }
        bind_parser.finish(span)
    }
}

} // verus!
