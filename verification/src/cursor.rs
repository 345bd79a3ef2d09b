//! The cursor abstraction: a pull-based, position-remembering sequence of
//! input symbols.
//!
//! A cursor's deep view is its mathematical state. Reading an item steps the
//! state (`spec_step`), and what the read yields is `spec_peek` of the state
//! before the read. Duplicating a cursor (`mark`) yields an independent value
//! with the same state, which rollback combinators assign back to undo
//! consumption.

use vstd::prelude::*;
use crate::dup::Dup;

verus! {

/// A sequence-consuming cursor with a mathematical state (`Self::V`).
pub trait Cursor: Sized + DeepView {
    type Item: DeepView;

    /// The item the next read yields in state `m`, if any.
    spec fn spec_peek(m: Self::V) -> Option<<Self::Item as DeepView>::V>;

    /// The state after one read.
    spec fn spec_step(m: Self::V) -> Self::V;

    /// How many items remain: the measure that repetition combinators decrease.
    spec fn spec_size(m: Self::V) -> nat;

    /// A successful read strictly shrinks the cursor; an exhausted read
    /// leaves the state unchanged.
    proof fn lemma_step_size(m: Self::V)
        ensures
            Self::spec_peek(m) is Some ==> Self::spec_size(Self::spec_step(m)) < Self::spec_size(m),
            Self::spec_peek(m) is None ==> Self::spec_step(m) == m,
    ;

    /// The only primitive advance operation: read the next item.
    fn next_item(&mut self) -> (r: Option<Self::Item>)
        ensures
            final(self).deep_view() == Self::spec_step(old(self).deep_view()),
            r is Some <==> Self::spec_peek(old(self).deep_view()) is Some,
            r matches Some(a) ==> Self::spec_peek(old(self).deep_view()) == Some(a.deep_view()),
    ;

    /// Duplicate the current position, for later rollback by assignment.
    fn mark(&self) -> (r: Self)
        ensures
            r.deep_view() == self.deep_view(),
    ;
}

/// Reading `k` items in a row from state `m`: the state after the reads,
/// and the items read, or `None` when the cursor ran out before `k` items
/// came (whatever could be read stays consumed).
pub open spec fn spec_read<C: Cursor>(m: C::V, k: nat) -> (C::V, Option<Seq<
    <C::Item as DeepView>::V,
>>)
    decreases k,
{
    if k == 0 {
        (m, Some(Seq::empty()))
    } else {
        match C::spec_peek(m) {
            None => (m, None),
            Some(a) => {
                let (m2, rest) = spec_read::<C>(C::spec_step(m), (k - 1) as nat);
                match rest {
                    None => (m2, None),
                    Some(s) => (m2, Some(seq![a] + s)),
                }
            }
        }
    }
}

/// Reading one more item after `k` reads is reading from the state the `k`
/// reads left, appending the new item at the end.
pub proof fn lemma_spec_read_snoc<C: Cursor>(m: C::V, k: nat)
    ensures
        ({
            let (m2, r) = spec_read::<C>(m, k);
            spec_read::<C>(m, k + 1) == match r {
                None => (m2, None::<Seq<<C::Item as DeepView>::V>>),
                Some(s) => match C::spec_peek(m2) {
                    None => (m2, None::<Seq<<C::Item as DeepView>::V>>),
                    Some(a) => (C::spec_step(m2), Some(s.push(a))),
                },
            }
        }),
    decreases k,
{
    let (m2, r) = spec_read::<C>(m, k);
    if k == 0 {
        match C::spec_peek(m) {
            None => {
                assert(spec_read::<C>(m, 1) == (m, None::<Seq<<C::Item as DeepView>::V>>));
            }
            Some(a) => {
                assert(spec_read::<C>(C::spec_step(m), 0) == (
                    C::spec_step(m),
                    Some(Seq::<<C::Item as DeepView>::V>::empty()),
                ));
                assert(seq![a] + Seq::<<C::Item as DeepView>::V>::empty() =~= Seq::empty().push(
                    a,
                ));
                assert(spec_read::<C>(m, 1) == (
                    C::spec_step(m),
                    Some(Seq::<<C::Item as DeepView>::V>::empty().push(a)),
                ));
            }
        }
    } else {
        match C::spec_peek(m) {
            None => {}
            Some(a) => {
                lemma_spec_read_snoc::<C>(C::spec_step(m), (k - 1) as nat);
                let (m3, rest) = spec_read::<C>(C::spec_step(m), (k - 1) as nat);
                match rest {
                    None => {}
                    Some(s) => {
                        match C::spec_peek(m3) {
                            None => {}
                            Some(b) => {
                                assert(seq![a] + s.push(b) =~= (seq![a] + s).push(b));
                            }
                        }
                    }
                }
            }
        }
    }
}

/// Once the cursor is exhausted mid-way, reading any longer prefix fails
/// from the same state.
pub proof fn lemma_spec_read_stuck<C: Cursor>(m: C::V, k: nat, n: nat)
    requires
        k < n,
        spec_read::<C>(m, k).1 is Some,
        C::spec_peek(spec_read::<C>(m, k).0) is None,
    ensures
        spec_read::<C>(m, n) == (
            spec_read::<C>(m, k).0,
            None::<Seq<<C::Item as DeepView>::V>>,
        ),
    decreases k,
{
    if k == 0 {
        assert(spec_read::<C>(m, n) == (m, None::<Seq<<C::Item as DeepView>::V>>));
    } else {
        match C::spec_peek(m) {
            None => {
                assert(false);
            }
            Some(a) => {
                lemma_spec_read_stuck::<C>(C::spec_step(m), (k - 1) as nat, (n - 1) as nat);
            }
        }
    }
}

/// Read exactly `n` items into a vector; `None` when the input ran short
/// (whatever could be read stays consumed).
pub fn read_chunk<C: Cursor>(c: &mut C, n: usize) -> (r: Option<Vec<C::Item>>)
    ensures
        final(c).deep_view() == spec_read::<C>(old(c).deep_view(), n as nat).0,
        r matches Some(v) ==> {
            &&& spec_read::<C>(old(c).deep_view(), n as nat).1 == Some(v.deep_view())
            &&& v@.len() == n
        },
        r is None <==> spec_read::<C>(old(c).deep_view(), n as nat).1 is None,
{
    let ghost m0 = c.deep_view();
    let mut out: Vec<C::Item> = Vec::new();
    proof {
        assert(out.deep_view() =~= Seq::<<C::Item as DeepView>::V>::empty());
    }
    let mut i: usize = 0;
    while i < n
        invariant
            i <= n,
            m0 == old(c).deep_view(),
            out@.len() == i as int,
            spec_read::<C>(m0, i as nat) == (c.deep_view(), Some(out.deep_view())),
        decreases n - i,
    {
        proof {
            lemma_spec_read_snoc::<C>(m0, i as nat);
        }
        let ghost pre = out.deep_view();
        match c.next_item() {
            None => {
                proof {
                    C::lemma_step_size(spec_read::<C>(m0, i as nat).0);
                    lemma_spec_read_stuck::<C>(m0, i as nat, n as nat);
                }
                return None;
            }
            Some(a) => {
                out.push(a);
                proof {
                    assert(out.deep_view() =~= pre.push(a.deep_view()));
                }
                i += 1;
            }
        }
    }
    Some(out)
}

/// The base cursor: an owned sequence of tokens and a read position.
/// Its state is the sequence of token views not yet read.
pub struct VecCursor<A> {
    pub items: Vec<A>,
    pub pos: usize,
}

impl<A: DeepView> DeepView for VecCursor<A> {
    type V = Seq<A::V>;

    open spec fn deep_view(&self) -> Seq<A::V> {
        if self.pos <= self.items@.len() {
            self.items.deep_view().skip(self.pos as int)
        } else {
            Seq::empty()
        }
    }
}

impl<A: DeepView> VecCursor<A> {
    /// Start reading the given tokens from the front.
    pub fn new(items: Vec<A>) -> (r: VecCursor<A>)
        ensures
            r.deep_view() == items.deep_view(),
    {
        let r = VecCursor { items, pos: 0 };
        proof {
            assert(r.deep_view() =~= r.items.deep_view());
        }
        r
    }
}

impl<A: Dup> Cursor for VecCursor<A> {
    type Item = A;

    open spec fn spec_peek(m: Seq<A::V>) -> Option<A::V> {
        if m.len() > 0 {
            Some(m[0])
        } else {
            None
        }
    }

    open spec fn spec_step(m: Seq<A::V>) -> Seq<A::V> {
        if m.len() > 0 {
            m.drop_first()
        } else {
            m
        }
    }

    open spec fn spec_size(m: Seq<A::V>) -> nat {
        m.len()
    }

    proof fn lemma_step_size(m: Seq<A::V>) {
    }

    fn next_item(&mut self) -> (r: Option<A>) {
        if self.pos < self.items.len() {
            let a = self.items[self.pos].dup();
            self.pos = self.pos + 1;
            proof {
                assert(final(self).deep_view() =~= Self::spec_step(old(self).deep_view()));
                assert(old(self).deep_view()[0] == a.deep_view());
            }
            Some(a)
        } else {
            None
        }
    }

    fn mark(&self) -> (r: VecCursor<A>) {
        VecCursor { items: self.items.dup(), pos: self.pos }
    }
}

} // verus!
