//! The scope table: a stack of name-to-local mappings implementing
//! lexical scoping.  A frame is pushed on entering a function, block,
//! loop body or `for` initializer, and popped symmetrically.  Declaring
//! a name twice in one frame is a redefinition; reusing it in a nested
//! frame shadows the outer one.

use vstd::prelude::*;

use crate::arena::Handle;
use crate::token::{bytes_eq, clone_bytes};

verus! {

/// One declared name with the local it stands for.
pub struct ScopeEntry {
    pub name: Vec<u8>,
    pub local: Handle,
}

/// Whether `frame` declares `name`.
pub open spec fn frame_has(frame: Seq<ScopeEntry>, name: Seq<u8>) -> bool {
    exists|i: int| 0 <= i < frame.len() && (#[trigger] frame[i]).name@ =~= name
}

/// The local `name` stands for in `frame`, latest declaration first.
pub open spec fn frame_lookup(frame: Seq<ScopeEntry>, name: Seq<u8>) -> Option<Handle>
    decreases frame.len(),
{
    if frame.len() == 0 {
        None
    } else if frame.last().name@ =~= name {
        Some(frame.last().local)
    } else {
        frame_lookup(frame.drop_last(), name)
    }
}

/// The local `name` stands for, searching frames innermost first.
pub open spec fn lookup_spec(frames: Seq<Seq<ScopeEntry>>, name: Seq<u8>) -> Option<Handle>
    decreases frames.len(),
{
    if frames.len() == 0 {
        None
    } else {
        match frame_lookup(frames.last(), name) {
            Some(h) => Some(h),
            None => lookup_spec(frames.drop_last(), name),
        }
    }
}

/// The stack of scope frames.
pub struct SymbolTable {
    frames: Vec<Vec<ScopeEntry>>,
}

impl SymbolTable {
    /// The frames, outermost first; each frame its declarations in
    /// order.
    pub closed spec fn view(&self) -> Seq<Seq<ScopeEntry>> {
        Seq::new(self.frames@.len(), |i: int| self.frames@[i]@)
    }

    pub fn new() -> (r: SymbolTable)
        ensures
            r.view() =~= Seq::<Seq<ScopeEntry>>::empty(),
    {
        let t = SymbolTable { frames: Vec::new() };
        proof {
            assert(t.view() =~= Seq::<Seq<ScopeEntry>>::empty());
        }
        t
    }

    pub fn depth(&self) -> (r: usize)
        ensures
            r == self.view().len(),
    {
        self.frames.len()
    }

    /// Opens a new innermost scope.
    pub fn push_scope(&mut self)
        ensures
            final(self).view() =~= old(self).view().push(Seq::<ScopeEntry>::empty()),
    {
        self.frames.push(Vec::new());
        proof {
            assert(final(self).view() =~= old(self).view().push(Seq::<ScopeEntry>::empty()));
        }
    }

    /// Closes the innermost scope, dropping its declarations.
    pub fn pop_scope(&mut self)
        requires
            old(self).view().len() > 0,
        ensures
            final(self).view() =~= old(self).view().drop_last(),
    {
        let n = self.frames.len();
        let popped = self.frames.pop();
        proof {
            assert(final(self).view() =~= old(self).view().drop_last());
        }
    }

    /// Declares `name` in the innermost scope.  If that same scope
    /// already declares the name, nothing changes and the existing local
    /// is returned so the caller can report a redefinition.
    pub fn add(&mut self, name: Vec<u8>, local: Handle) -> (r: Option<Handle>)
        requires
            old(self).view().len() > 0,
        ensures
            match r {
                Some(prev) => *final(self) == *old(self) && frame_has(
                    old(self).view().last(),
                    name@,
                ) && frame_lookup(old(self).view().last(), name@) == Some(prev),
                None => !frame_has(old(self).view().last(), name@) && final(self).view() =~= old(
                    self,
                ).view().drop_last().push(
                    old(self).view().last().push(ScopeEntry { name, local }),
                ),
            },
    {
        let n = self.frames.len();
        let top = &self.frames[n - 1];
        let mut i = top.len();
        proof {
            assert(self.view().last().subrange(0, self.view().last().len() as int)
                =~= self.view().last());
        }
        while i > 0
            invariant
                i <= top@.len(),
                top@ =~= self.view().last(),
                n == self.frames@.len(),
                self.frames@.len() > 0,
                *self == *old(self),
                frame_lookup(self.view().last(), name@) == frame_lookup(
                    self.view().last().subrange(0, i as int),
                    name@,
                ),
            decreases i,
        {
            proof {
                assert(self.view().last().subrange(0, i as int).last() == self.view().last()[i
                    - 1]);
                assert(self.view().last().subrange(0, i as int).drop_last()
                    =~= self.view().last().subrange(0, i - 1));
            }
            if bytes_eq(top[i - 1].name.as_slice(), name.as_slice()) {
                let prev = top[i - 1].local;
                proof {
                    assert(frame_has(old(self).view().last(), name@));
                }
                return Some(prev);
            }
            i = i - 1;
        }
        proof {
            assert(self.view().last().subrange(0, 0) =~= Seq::<ScopeEntry>::empty());
            assert forall|j: int| 0 <= j < self.view().last().len() implies !((
            #[trigger] self.view().last()[j]).name@ =~= name@) by {
                if self.view().last()[j].name@ =~= name@ {
                    lemma_frame_lookup_finds(self.view().last(), name@, j);
                }
            }
        }
        let entry = ScopeEntry { name, local };
        let slot = &mut self.frames[n - 1];
        slot.push(entry);
        proof {
            assert(final(self).view() =~= old(self).view().drop_last().push(
                old(self).view().last().push(ScopeEntry { name, local }),
            ));
        }
        None
    }

    /// Decides [`lookup_spec`]: the local `name` currently stands for,
    /// innermost declaration first.
    pub fn lookup(&self, name: &[u8]) -> (r: Option<Handle>)
        ensures
            r == lookup_spec(self.view(), name@),
    {
        let mut f = self.frames.len();
        proof {
            assert(self.view().subrange(0, self.view().len() as int) =~= self.view());
        }
        while f > 0
            invariant
                f <= self.view().len(),
                lookup_spec(self.view(), name@) == lookup_spec(
                    self.view().subrange(0, f as int),
                    name@,
                ),
            decreases f,
        {
            proof {
                assert(self.view().subrange(0, f as int).last() == self.view()[f - 1]);
                assert(self.view().subrange(0, f as int).drop_last() =~= self.view().subrange(
                    0,
                    f - 1,
                ));
            }
            let frame = &self.frames[f - 1];
            let mut i = frame.len();
            proof {
                assert(self.view()[f - 1].subrange(0, self.view()[f - 1].len() as int)
                    =~= self.view()[f - 1]);
            }
            while i > 0
                invariant
                    i <= frame@.len(),
                    f <= self.view().len(),
                    0 < f,
                    frame@ =~= self.view()[f - 1],
                    lookup_spec(self.view(), name@) == lookup_spec(
                        self.view().subrange(0, f as int),
                        name@,
                    ),
                    frame_lookup(self.view()[f - 1], name@) == frame_lookup(
                        self.view()[f - 1].subrange(0, i as int),
                        name@,
                    ),
                decreases i,
            {
                proof {
                    assert(self.view()[f - 1].subrange(0, i as int).last() == self.view()[f - 1][i
                        - 1]);
                    assert(self.view()[f - 1].subrange(0, i as int).drop_last() =~= self.view()[f
                        - 1].subrange(0, i - 1));
                }
                if bytes_eq(frame[i - 1].name.as_slice(), name) {
                    proof {
                        assert(self.view()[f - 1].subrange(0, i as int).last() == self.view()[f
                            - 1][i - 1]);
                        assert(frame_lookup(self.view()[f - 1].subrange(0, i as int), name@)
                            == Some(self.view()[f - 1][i - 1].local));
                        assert(frame_lookup(self.view()[f - 1], name@) == Some(
                            self.view()[f - 1][i - 1].local,
                        ));
                        assert(self.view().subrange(0, f as int).len() == f);
                        assert(self.view().subrange(0, f as int).last() == self.view()[f - 1]);
                        assert(lookup_spec(self.view().subrange(0, f as int), name@) == Some(
                            self.view()[f - 1][i - 1].local,
                        ));
                        assert(lookup_spec(self.view(), name@) == Some(
                            self.view()[f - 1][i - 1].local,
                        ));
                        assert(frame@[i - 1].local == self.view()[f - 1][i - 1].local);
                    }
                    return Some(frame[i - 1].local);
                }
                i = i - 1;
            }
            proof {
                assert(self.view()[f - 1].subrange(0, 0) =~= Seq::<ScopeEntry>::empty());
            }
            f = f - 1;
        }
        proof {
            assert(self.view().subrange(0, 0) =~= Seq::<Seq<ScopeEntry>>::empty());
        }
        None
    }
}

/// What `frame_lookup` finds is the entry of some index that carries
/// `name`.
pub proof fn lemma_frame_lookup_member(frame: Seq<ScopeEntry>, name: Seq<u8>)
    requires
        frame_lookup(frame, name) is Some,
    ensures
        exists|i: int|
            0 <= i < frame.len() && (#[trigger] frame[i]).name@ =~= name && frame[i].local
                == frame_lookup(frame, name)->Some_0,
    decreases frame.len(),
{
    if frame.len() > 0 {
        if frame.last().name@ =~= name {
            assert(frame[frame.len() - 1].name@ =~= name);
        } else {
            lemma_frame_lookup_member(frame.drop_last(), name);
            let i = choose|i: int|
                0 <= i < frame.drop_last().len() && (#[trigger] frame.drop_last()[i]).name@ =~= name
                    && frame.drop_last()[i].local == frame_lookup(frame.drop_last(), name)->Some_0;
            assert(frame[i] == frame.drop_last()[i]);
        }
    }
}

/// If some entry of `frame` carries `name`, `frame_lookup` finds one.
pub proof fn lemma_frame_lookup_finds(frame: Seq<ScopeEntry>, name: Seq<u8>, i: int)
    requires
        0 <= i < frame.len(),
        frame[i].name@ =~= name,
    ensures
        frame_lookup(frame, name) is Some,
    decreases frame.len(),
{
    if frame.last().name@ =~= name {
    } else {
        assert(i < frame.len() - 1);
        assert(frame.drop_last()[i] == frame[i]);
        lemma_frame_lookup_finds(frame.drop_last(), name, i);
    }
}

} // verus!
