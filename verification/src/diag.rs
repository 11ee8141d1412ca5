//! Diagnostic-severity filters: the per-directive-list accumulation map
//! and the parent-linked tree of scoped overrides.
//!
//! Filters written in inner syntactic scopes are appended nearer the
//! leaves, so a lookup that walks from a leaf toward the root sees the
//! innermost filter for a rule first.

use vstd::prelude::*;

use crate::arena::{Arena, Handle, Span};
use crate::error::Error;
use crate::token::{bytes_eq, clone_bytes};

verus! {

/// How severely a triggered diagnostic is reported.
#[derive(Clone, Copy, Debug, PartialEq, Eq, Structural)]
pub enum Severity {
    Off,
    Info,
    Warning,
    Error,
}

/// The diagnostic rules this implementation knows by name.
#[derive(Clone, Copy, Debug, PartialEq, Eq, Structural)]
pub enum StandardRule {
    DerivativeUniformity,
    SubgroupUniformity,
}

/// What a filter applies to: a known rule, an unknown single name kept
/// opaquely, or a `vendor.rule` pair.
#[derive(Debug, PartialEq, Eq)]
pub enum TriggeringRule {
    Standard(StandardRule),
    Unknown(Vec<u8>),
    User(Vec<u8>, Vec<u8>),
}

/// One severity override for one rule.
#[derive(Debug, PartialEq, Eq)]
pub struct DiagnosticFilter {
    pub triggering_rule: TriggeringRule,
    pub new_severity: Severity,
}

/// A node of the filter tree; `parent` points at the filter of the
/// lexically enclosing scope, or nowhere at the root.
#[derive(Debug, PartialEq, Eq)]
pub struct DiagnosticFilterNode {
    pub inner: DiagnosticFilter,
    pub parent: Option<Handle>,
}

/// What to do when one directive list names the same rule twice.
#[derive(Clone, Copy, Debug, PartialEq, Eq, Structural)]
pub enum DuplicatePolicy {
    /// Report a conflict error.
    Conflict,
    /// Silently keep the latest severity.
    KeepLatest,
}

/// Equality of triggering rules, comparing kept names by value.
pub open spec fn rule_eq_spec(a: TriggeringRule, b: TriggeringRule) -> bool {
    match (a, b) {
        (TriggeringRule::Standard(x), TriggeringRule::Standard(y)) => x == y,
        (TriggeringRule::Unknown(x), TriggeringRule::Unknown(y)) => x@ =~= y@,
        (TriggeringRule::User(x0, x1), TriggeringRule::User(y0, y1)) => x0@ =~= y0@ && x1@ =~= y1@,
        _ => false,
    }
}

/// Decides [`rule_eq_spec`].
pub fn rule_eq(a: &TriggeringRule, b: &TriggeringRule) -> (r: bool)
    ensures
        r == rule_eq_spec(*a, *b),
{
    match (a, b) {
        (TriggeringRule::Standard(x), TriggeringRule::Standard(y)) => *x == *y,
        (TriggeringRule::Unknown(x), TriggeringRule::Unknown(y)) => bytes_eq(
            x.as_slice(),
            y.as_slice(),
        ),
        (TriggeringRule::User(x0, x1), TriggeringRule::User(y0, y1)) => bytes_eq(
            x0.as_slice(),
            y0.as_slice(),
        ) && bytes_eq(x1.as_slice(), y1.as_slice()),
        _ => false,
    }
}

/// Copies a triggering rule.
pub fn clone_rule(a: &TriggeringRule) -> (r: TriggeringRule)
    ensures
        rule_eq_spec(*a, r),
{
    match a {
        TriggeringRule::Standard(x) => TriggeringRule::Standard(*x),
        TriggeringRule::Unknown(x) => TriggeringRule::Unknown(clone_bytes(x.as_slice())),
        TriggeringRule::User(x0, x1) => TriggeringRule::User(
            clone_bytes(x0.as_slice()),
            clone_bytes(x1.as_slice()),
        ),
    }
}

/// One accumulated filter: its rule, requested severity, and the span of
/// the directive that introduced it.
#[derive(Debug, PartialEq, Eq)]
pub struct FilterEntry {
    pub rule: TriggeringRule,
    pub severity: Severity,
    pub span: Span,
}

/// The filters gathered from one directive list, keyed by rule.
#[derive(Debug, PartialEq, Eq)]
pub struct DiagnosticFilterMap {
    entries: Vec<FilterEntry>,
}

/// Whether some entry of `s` is for `rule`.
pub open spec fn map_has_rule(s: Seq<FilterEntry>, rule: TriggeringRule) -> bool {
    exists|i: int| 0 <= i < s.len() && rule_eq_spec((#[trigger] s[i]).rule, rule)
}

impl DiagnosticFilterMap {
    /// The accumulated entries, in insertion order.
    pub closed spec fn view(&self) -> Seq<FilterEntry> {
        self.entries@
    }

    /// No two entries are for the same rule.
    pub open spec fn wf(&self) -> bool {
        forall|i: int, j: int|
            0 <= i < j < self.view().len() ==> !rule_eq_spec(
                (#[trigger] self.view()[i]).rule,
                (#[trigger] self.view()[j]).rule,
            )
    }

    pub fn new() -> (r: DiagnosticFilterMap)
        ensures
            r.view() =~= Seq::<FilterEntry>::empty(),
            r.wf(),
    {
        DiagnosticFilterMap { entries: Vec::new() }
    }

    pub fn is_empty(&self) -> (r: bool)
        ensures
            r == (self.view().len() == 0),
    {
        self.entries.len() == 0
    }

    /// The span of the first entry, for error reports about misplaced
    /// directive lists.
    pub fn first_span(&self) -> (r: Span)
        requires
            self.view().len() > 0,
        ensures
            r == self.view()[0].span,
    {
        self.entries[0].span
    }

    /// The index of the entry for `rule`, if there is one.
    fn find(&self, rule: &TriggeringRule) -> (r: Option<usize>)
        ensures
            match r {
                Some(i) => i < self.view().len() && rule_eq_spec(self.view()[i as int].rule, *rule),
                None => !map_has_rule(self.view(), *rule),
            },
    {
        let mut i: usize = 0;
        while i < self.entries.len()
            invariant
                i <= self.view().len(),
                forall|j: int| 0 <= j < i ==> !rule_eq_spec((#[trigger] self.view()[j]).rule, *rule),
            decreases self.view().len() - i,
        {
            if rule_eq(&self.entries[i].rule, rule) {
                return Some(i);
            }
            i = i + 1;
        }
        None
    }

    /// Records one filter.  Naming a rule already in the list is a
    /// conflict error or silently keeps the latest severity, as `policy`
    /// asks.
    pub fn add(&mut self, filter: DiagnosticFilter, span: Span, policy: DuplicatePolicy) -> (r:
        Result<(), Error>)
        requires
            old(self).wf(),
        ensures
            final(self).wf(),
            match r {
                Ok(()) => if map_has_rule(old(self).view(), filter.triggering_rule) {
                    policy is KeepLatest && final(self).view().len() == old(self).view().len()
                } else {
                    final(self).view() =~= old(self).view().push(
                        FilterEntry {
                            rule: filter.triggering_rule,
                            severity: filter.new_severity,
                            span,
                        },
                    )
                },
                Err(e) => policy is Conflict && map_has_rule(old(self).view(), filter.triggering_rule)
                    && *final(self) == *old(self) && (e matches Error::DiagnosticDuplicateTriggeringRule {
                    second,
                    ..
                } && second == span),
            },
    {
        match self.find(&filter.triggering_rule) {
            Some(i) => {
                match policy {
                    DuplicatePolicy::Conflict => Err(
                        Error::DiagnosticDuplicateTriggeringRule {
                            first: self.entries[i].span,
                            second: span,
                        },
                    ),
                    DuplicatePolicy::KeepLatest => {
                        let rule = clone_rule(&filter.triggering_rule);
                        let ghost before = self.entries@;
                        self.entries.set(
                            i,
                            FilterEntry { rule, severity: filter.new_severity, span },
                        );
                        proof {
                            assert forall|a: int, b: int|
                                0 <= a < b < self.entries@.len() implies !rule_eq_spec(
                                self.entries@[a].rule,
                                self.entries@[b].rule,
                            ) by {
                                assert(rule_eq_spec(before[i as int].rule, filter.triggering_rule));
                            }
                        }
                        Ok(())
                    },
                }
            },
            None => {
                self.entries.push(
                    FilterEntry {
                        rule: filter.triggering_rule,
                        severity: filter.new_severity,
                        span,
                    },
                );
                Ok(())
            },
        }
    }

    /// Hands the entries over for flattening into the tree.
    pub fn into_entries(self) -> (r: Vec<FilterEntry>)
        ensures
            r@ =~= self.view(),
    {
        self.entries
    }
}

/// Every node's parent, if any, comes earlier in the arena, so walks
/// toward the root terminate.
pub open spec fn filter_arena_wf(nodes: Seq<DiagnosticFilterNode>) -> bool {
    forall|i: int|
        0 <= i < nodes.len() ==> match (#[trigger] nodes[i]).parent {
            Some(h) => h.index < i,
            None => true,
        }
}

/// The severity `rule` is reported with under the filter scope `leaf`,
/// walking from the leaf toward the root and taking the first filter
/// for the rule: the innermost scope wins.
pub open spec fn resolve_spec(
    nodes: Seq<DiagnosticFilterNode>,
    leaf: Option<Handle>,
    rule: TriggeringRule,
) -> Option<Severity>
    decreases
            (match leaf {
                Some(h) => h.index + 1,
                None => 0,
            }),
        when
            filter_arena_wf(nodes) && (match leaf {
                Some(h) => h.index < nodes.len(),
                None => true,
            })
{
    match leaf {
        None => None,
        Some(h) => if rule_eq_spec(nodes[h.index as int].inner.triggering_rule, rule) {
            Some(nodes[h.index as int].inner.new_severity)
        } else {
            resolve_spec(nodes, nodes[h.index as int].parent, rule)
        },
    }
}

/// Entry `k` of a directive list was written at index `base + k` of the
/// tree, pointing at its predecessor, and the first entry at `parent`.
pub open spec fn filter_written(
    nodes: Seq<DiagnosticFilterNode>,
    base: int,
    k: int,
    e: FilterEntry,
    parent: Option<Handle>,
) -> bool {
    &&& 0 <= base + k < nodes.len()
    &&& nodes[base + k].inner.triggering_rule == e.rule
    &&& nodes[base + k].inner.new_severity == e.severity
    &&& nodes[base + k].parent == (if k == 0 {
        parent
    } else {
        Some(Handle { index: (base + k - 1) as usize })
    })
}

/// Flattens one directive list's filters into the tree, each new node
/// pointing at the previous one and the first at `parent`, and returns
/// the handle lookups should start from.
pub fn write_diagnostic_filters(
    arena: &mut Arena<DiagnosticFilterNode>,
    filters: DiagnosticFilterMap,
    parent: Option<Handle>,
) -> (r: Option<Handle>)
    requires
        old(arena).wf(),
        filter_arena_wf(old(arena).view()),
        match parent {
            Some(h) => h.index < old(arena).view().len(),
            None => true,
        },
    ensures
        final(arena).wf(),
        filter_arena_wf(final(arena).view()),
        final(arena).view().len() == old(arena).view().len() + filters.view().len(),
        old(arena).view() =~= final(arena).view().subrange(0, old(arena).view().len() as int),
        forall|k: int|
            #![trigger filters.view()[k]]
            0 <= k < filters.view().len() ==> filter_written(
                final(arena).view(),
                old(arena).view().len() as int,
                k,
                filters.view()[k],
                parent,
            ),
        r == (if filters.view().len() == 0 {
            parent
        } else {
            Some(Handle { index: (final(arena).view().len() - 1) as usize })
        }),
        match r {
            Some(h) => h.index < final(arena).view().len() || final(arena).view().len() == 0,
            None => true,
        },
{
    let mut entries = filters.into_entries();
    let total = entries.len();
    let ghost all = entries@;
    let ghost base = arena.view().len() as int;
    let mut leaf = parent;
    let mut k: usize = 0;
    while entries.len() > 0
        invariant
            arena.wf(),
            filter_arena_wf(arena.view()),
            all =~= filters.view(),
            all.len() == total,
            entries@ =~= all.subrange(k as int, all.len() as int),
            k <= all.len(),
            arena.view().len() == base + k,
            forall|j: int| 0 <= j < base ==> old(arena).view()[j] == (#[trigger] arena.view()[j]),
            leaf == (if k == 0 {
                parent
            } else {
                Some(Handle { index: (base + k - 1) as usize })
            }),
            match leaf {
                Some(h) => h.index < arena.view().len(),
                None => true,
            },
            forall|j: int|
                0 <= j < k ==> filter_written(arena.view(), base, j, all[j], parent),
        decreases entries@.len(),
    {
        let e = entries.remove(0);
        proof {
            assert(all[k as int] == e);
        }
        let node = DiagnosticFilterNode {
            inner: DiagnosticFilter { triggering_rule: e.rule, new_severity: e.severity },
            parent: leaf,
        };
        let ghost pre = arena.view();
        let h = arena.append(node, e.span);
        proof {
            assert forall|i: int| 0 <= i < arena.view().len() implies match (
            #[trigger] arena.view()[i]).parent {
                Some(p) => p.index < i,
                None => true,
            } by {
                if i < pre.len() {
                    assert(arena.view()[i] == pre[i]);
                }
            }
            assert(entries@ =~= all.subrange(k + 1, all.len() as int));
            assert forall|j: int| 0 <= j < k + 1 implies filter_written(
                arena.view(),
                base,
                j,
                all[j],
                parent,
            ) by {
                if j < k {
                    assert(filter_written(pre, base, j, all[j], parent));
                    assert(arena.view()[base + j] == pre[base + j]);
                }
            }
        }
        leaf = Some(h);
        k = k + 1;
    }
    proof {
        assert(old(arena).view() =~= arena.view().subrange(0, base));
    }
    leaf
}

/// Decides [`resolve_spec`]: the severity for `rule` under the scope
/// `leaf`, innermost filter first.
pub fn resolve_severity(
    arena: &Arena<DiagnosticFilterNode>,
    leaf: Option<Handle>,
    rule: &TriggeringRule,
) -> (r: Option<Severity>)
    requires
        arena.wf(),
        filter_arena_wf(arena.view()),
        match leaf {
            Some(h) => h.index < arena.view().len(),
            None => true,
        },
    ensures
        r == resolve_spec(arena.view(), leaf, *rule),
{
    let mut cur = leaf;
    loop
        invariant
            arena.wf(),
            filter_arena_wf(arena.view()),
            match cur {
                Some(h) => h.index < arena.view().len(),
                None => true,
            },
            resolve_spec(arena.view(), cur, *rule) == resolve_spec(arena.view(), leaf, *rule),
        ensures
            resolve_spec(arena.view(), cur, *rule) == resolve_spec(arena.view(), leaf, *rule),
            cur is None || rule_eq_spec(
                arena.view()[cur.unwrap().index as int].inner.triggering_rule,
                *rule,
            ),
        decreases
                (match cur {
                    Some(h) => h.index + 1,
                    None => 0,
                }),
    {
        match cur {
            None => {
                break ;
            },
            Some(h) => {
                let node = arena.get(h);
                if rule_eq(&node.inner.triggering_rule, rule) {
                    break ;
                }
                cur = node.parent;
            },
        }
    }
    match cur {
        None => None,
        Some(h) => Some(arena.get(h).inner.new_severity),
    }
}

} // verus!
