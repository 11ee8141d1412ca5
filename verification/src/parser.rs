//! The parser object: the rule-span tracker it threads through every
//! production, and the helpers that balance pushes and pops around each
//! grammar rule.

use vstd::prelude::*;

use crate::arena::Span;
use crate::rules::{Rule, RuleStack};
use crate::stream::TokenStream;

verus! {

/// A recursive-descent parser.  The rule stack is the only state that
/// outlives a single grammar production; it must be empty between
/// parses.
pub struct Parser {
    pub rules: RuleStack,
}

impl Parser {
    pub fn new() -> (r: Parser)
        ensures
            r.rules.view().len() == 0,
    {
        Parser { rules: RuleStack::new() }
    }

    /// Clears the rule stack; called before each parse.
    pub fn reset(&mut self)
        ensures
            final(self).rules.view().len() == 0,
    {
        self.rules.reset();
    }

    /// Records that parsing of `rule` starts at the next token.
    pub fn push_rule_span(&mut self, rule: Rule, ts: &TokenStream)
        requires
            ts.wf(),
        ensures
            final(self).rules.view() =~= old(self).rules.view().push(
                crate::rules::RuleEntry { rule, start: ts.cur_span().start },
            ),
    {
        self.rules.push(rule, ts.start_byte_offset());
    }

    /// Ends the top rule, yielding the span of exactly the text it
    /// consumed.
    pub fn pop_rule_span(&mut self, ts: &TokenStream) -> (r: Span)
        requires
            ts.wf(),
            old(self).rules.view().len() > 0,
        ensures
            final(self).rules.view() =~= old(self).rules.view().drop_last(),
            r.start == old(self).rules.view().last().start,
            r.end == ts.last_end_spec(),
    {
        let e = self.rules.pop();
        ts.span_from(e.start)
    }

    /// The span the top rule has consumed so far, left on the stack.
    pub fn peek_rule_span(&self, ts: &TokenStream) -> (r: Span)
        requires
            ts.wf(),
            self.rules.view().len() > 0,
        ensures
            r.start == self.rules.view().last().start,
            r.end == ts.last_end_spec(),
    {
        let e = self.rules.top();
        ts.span_from(e.start)
    }
}

} // verus!
