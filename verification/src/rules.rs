//! The rule-span tracker: a balanced stack of (grammar rule, start
//! offset) entries.  Pushed before a production is parsed and popped
//! after, it yields each production's span; a lookback query tells deep
//! expression code which construct encloses it most closely.

use vstd::prelude::*;

verus! {

/// Which grammar rule is in the midst of being parsed.
#[derive(Clone, Copy, Debug, PartialEq, Eq, Structural)]
pub enum Rule {
    Attribute,
    VariableDecl,
    TypeDecl,
    FunctionDecl,
    Block,
    Statement,
    PrimaryExpr,
    SingularExpr,
    UnaryExpr,
    GeneralExpr,
    Directive,
    GenericExpr,
    EnclosedExpr,
}

/// One tracker entry: the rule and the byte offset where its text
/// starts.
#[derive(Clone, Copy, Debug, PartialEq, Eq, Structural)]
pub struct RuleEntry {
    pub rule: Rule,
    pub start: usize,
}

/// Scans `s` from the top and names whichever of `a` and `b` appears
/// nearest the top, if either does.
pub open spec fn race_spec(s: Seq<RuleEntry>, a: Rule, b: Rule) -> Option<Rule>
    decreases s.len(),
{
    if s.len() == 0 {
        None
    } else if s.last().rule == a {
        Some(a)
    } else if s.last().rule == b {
        Some(b)
    } else {
        race_spec(s.drop_last(), a, b)
    }
}

/// The balanced stack of in-flight grammar rules.
pub struct RuleStack {
    entries: Vec<RuleEntry>,
}

impl RuleStack {
    /// The stack contents, bottom first.
    pub closed spec fn view(&self) -> Seq<RuleEntry> {
        self.entries@
    }

    pub fn new() -> (r: RuleStack)
        ensures
            r.view() =~= Seq::<RuleEntry>::empty(),
    {
        RuleStack { entries: Vec::new() }
    }

    /// Empties the stack; the only state that must be reset between two
    /// parses.
    pub fn reset(&mut self)
        ensures
            final(self).view() =~= Seq::<RuleEntry>::empty(),
    {
        self.entries.clear();
    }

    pub fn len(&self) -> (r: usize)
        ensures
            r == self.view().len(),
    {
        self.entries.len()
    }

    pub fn is_empty(&self) -> (r: bool)
        ensures
            r == (self.view().len() == 0),
    {
        self.entries.len() == 0
    }

    /// Records that parsing of `rule` began at byte offset `start`.
    pub fn push(&mut self, rule: Rule, start: usize)
        ensures
            final(self).view() =~= old(self).view().push(RuleEntry { rule, start }),
    {
        self.entries.push(RuleEntry { rule, start });
    }

    /// Removes and returns the top entry.
    pub fn pop(&mut self) -> (r: RuleEntry)
        requires
            old(self).view().len() > 0,
        ensures
            r == old(self).view().last(),
            final(self).view() =~= old(self).view().drop_last(),
    {
        let n = self.entries.len();
        let e = self.entries[n - 1];
        let popped = self.entries.pop();
        proof {
            assert(self.entries@ =~= old(self).view().drop_last());
        }
        e
    }

    /// The top entry, left in place.
    pub fn top(&self) -> (r: RuleEntry)
        requires
            self.view().len() > 0,
        ensures
            r == self.view().last(),
    {
        let n = self.entries.len();
        self.entries[n - 1]
    }

    /// Decides [`race_spec`]: which of two rules encloses the current
    /// production most closely.
    pub fn race(&self, a: Rule, b: Rule) -> (r: Option<Rule>)
        ensures
            r == race_spec(self.view(), a, b),
    {
        let mut i = self.entries.len();
        proof {
            assert(self.view().subrange(0, self.view().len() as int) =~= self.view());
        }
        while i > 0
            invariant
                i <= self.view().len(),
                race_spec(self.view(), a, b) == race_spec(
                    self.view().subrange(0, i as int),
                    a,
                    b,
                ),
            decreases i,
        {
            let e = self.entries[i - 1];
            proof {
                assert(self.view().subrange(0, i as int).last() == self.view()[i - 1]);
                assert(self.view().subrange(0, i as int).drop_last() =~= self.view().subrange(
                    0,
                    i - 1,
                ));
            }
            if e.rule == a {
                return Some(a);
            }
            if e.rule == b {
                return Some(b);
            }
            i = i - 1;
        }
        proof {
            assert(self.view().subrange(0, 0) =~= Seq::<RuleEntry>::empty());
        }
        None
    }
}

} // verus!
