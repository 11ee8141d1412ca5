//! Append-only arenas and the handles that index into them.
//!
//! Every AST node lives in an arena owned by the translation unit, and
//! nodes refer to one another through stable integer handles instead of
//! pointers.  An arena also records, for each node, the source span that
//! produced it.

use vstd::prelude::*;

verus! {

/// A byte-offset range in the source text.
#[derive(Clone, Copy, Debug, PartialEq, Eq, Structural)]
pub struct Span {
    pub start: usize,
    pub end: usize,
}

impl Span {
    /// A span used where no source location applies.
    pub fn undefined() -> (r: Span)
        ensures
            r.start == 0 && r.end == 0,
    {
        Span { start: 0, end: 0 }
    }

    /// The span running from the start of `self` to the end of `other`.
    pub fn until(&self, other: &Span) -> (r: Span)
        ensures
            r.start == self.start && r.end == other.end,
    {
        Span { start: self.start, end: other.end }
    }
}

/// A stable index into one arena; the only way AST nodes reference
/// each other.
#[derive(Clone, Copy, Debug, PartialEq, Eq, Structural)]
pub struct Handle {
    pub index: usize,
}

/// An append-only store of nodes of one kind, indexed by [`Handle`].
/// Appending never invalidates earlier handles.
#[derive(Debug, PartialEq, Eq)]
pub struct Arena<T> {
    items: Vec<T>,
    spans: Vec<Span>,
}

impl<T> Arena<T> {
    /// The stored nodes, in insertion order.
    pub closed spec fn view(&self) -> Seq<T> {
        self.items@
    }

    /// The span recorded for each node, parallel to the node sequence.
    pub closed spec fn spans(&self) -> Seq<Span> {
        self.spans@
    }

    /// Every node has exactly one recorded span.
    pub open spec fn wf(&self) -> bool {
        self.spans().len() == self.view().len()
    }

    /// Whether `h` refers to a node of this arena.
    pub open spec fn contains(&self, h: Handle) -> bool {
        h.index < self.view().len()
    }

    pub fn new() -> (r: Arena<T>)
        ensures
            r.wf(),
            r.view() =~= Seq::<T>::empty(),
    {
        Arena { items: Vec::new(), spans: Vec::new() }
    }

    pub fn len(&self) -> (r: usize)
        ensures
            r == self.view().len(),
    {
        self.items.len()
    }

    /// Stores `value` and returns its handle, which indexes the new
    /// last position.
    pub fn append(&mut self, value: T, span: Span) -> (r: Handle)
        requires
            old(self).wf(),
        ensures
            final(self).wf(),
            r.index == old(self).view().len(),
            final(self).view() =~= old(self).view().push(value),
            final(self).spans() =~= old(self).spans().push(span),
    {
        let index = self.items.len();
        self.items.push(value);
        self.spans.push(span);
        Handle { index }
    }

    /// The node `h` refers to.
    pub fn get(&self, h: Handle) -> (r: &T)
        requires
            self.contains(h),
        ensures
            *r == self.view()[h.index as int],
    {
        &self.items[h.index]
    }

    /// The span recorded when the node `h` refers to was appended.
    pub fn get_span(&self, h: Handle) -> (r: Span)
        requires
            self.wf(),
            self.contains(h),
        ensures
            r == self.spans()[h.index as int],
    {
        self.spans[h.index]
    }
}

} // verus!
