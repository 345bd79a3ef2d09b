//! Primitive builders: atomic parsers that consume from the cursor and
//! produce a fixed-size value or an error built from the current position.

use vstd::prelude::*;
use vstd::std_specs::cmp::PartialEqSpec;
use crate::cursor::{Cursor, spec_read, read_chunk};
use crate::parser::{Parser, CursorFn, PredFn};

verus! {

/// Executable equality on `A` agrees with equality of deep views: what
/// [`expect`] needs of its token type.
pub open spec fn eq_matches_view<A: PartialEq + DeepView>() -> bool {
    &&& A::obeys_eq_spec()
    &&& forall|x: A, y: A| (#[trigger] x.eq_spec(&y)) <==> x.deep_view() == y.deep_view()
}

/// Element-wise vector comparison, decided by `==` on the elements.
fn vec_eq<A: PartialEq + DeepView>(a: &Vec<A>, b: &Vec<A>) -> (r: bool)
    requires
        eq_matches_view::<A>(),
    ensures
        r == (a.deep_view() == b.deep_view()),
{
    proof {
        assert(a.deep_view().len() == a@.len());
        assert(b.deep_view().len() == b@.len());
    }
    if a.len() != b.len() {
        return false;
    }
    let mut i: usize = 0;
    while i < a.len()
        invariant
            eq_matches_view::<A>(),
            a@.len() == b@.len(),
            i <= a@.len(),
            a.deep_view().len() == a@.len(),
            b.deep_view().len() == b@.len(),
            forall|j: int| 0 <= j < i as int ==> a.deep_view()[j] == b.deep_view()[j],
        decreases a@.len() - i,
    {
        if !(a[i] == b[i]) {
            proof {
                assert(a.deep_view()[i as int] != b.deep_view()[i as int]);
            }
            return false;
        }
        i += 1;
    }
    proof {
        assert(a.deep_view() =~= b.deep_view());
    }
    true
}

/// The window predicate that accepts any window: with [`predicate`] it
/// reads a fixed number of tokens unconditionally.
pub struct AnyWindow {
    pub nothing: (),
}

/// Builds an [`AnyWindow`].
pub fn any_window() -> (r: AnyWindow) {
    AnyWindow { nothing: () }
}

impl<T: DeepView> PredFn<T> for AnyWindow {
    open spec fn spec_call(&self, t: T::V) -> bool {
        true
    }

    fn call(&self, t: &T) -> (r: bool) {
        true
    }
}

/// The parser built by [`eos`]: succeeds exactly on exhausted input.
pub struct Eos<M> {
    pub msg: M,
}

/// Succeeds with no value exactly when the cursor has no further elements;
/// otherwise fails with `msg` evaluated at the current position. The peek
/// that found content is not un-consumed: the read already happened.
pub fn eos<M>(msg: M) -> (r: Eos<M>)
    ensures
        r.msg == msg,
{
    Eos { msg }
}

impl<C: Cursor, M: CursorFn<C>> Parser<C> for Eos<M> {
    type Value = ();

    type Error = M::Out;

    open spec fn wf(&self) -> bool {
        true
    }

    open spec fn spec_parse(&self, m: C::V) -> (C::V, Result<(), <M::Out as DeepView>::V>) {
        (
            C::spec_step(m),
            match C::spec_peek(m) {
                Some(a) => Result::Err(self.msg.spec_call(m)),
                None => Result::Ok(()),
            },
        )
    }

    fn parse(&self, c: &mut C) -> (r: Result<(), M::Out>) {
        let err = self.msg.call(c);
        match c.next_item() {
            Some(t) => Result::Err(err),
            None => Result::Ok(()),
        }
    }
}

/// The parser built by [`expect`]: an exact-sequence match.
pub struct Expect<A, M> {
    pub expected: Vec<A>,
    pub msg: M,
}

/// Reads exactly as many elements as `expected` holds and succeeds exactly
/// when they equal `expected` element-wise; a short read or a mismatch
/// fails with `msg` evaluated at the position before the attempt. The
/// elements read stay consumed even on failure.
pub fn expect<A, M>(expected: Vec<A>, msg: M) -> (r: Expect<A, M>)
    ensures
        r.expected == expected,
        r.msg == msg,
{
    Expect { expected, msg }
}

impl<C, A, M> Parser<C> for Expect<A, M>
    where
        C: Cursor<Item = A>,
        A: PartialEq + DeepView,
        M: CursorFn<C>,
{
    type Value = Vec<A>;

    type Error = M::Out;

    open spec fn wf(&self) -> bool {
        eq_matches_view::<A>()
    }

    open spec fn spec_parse(&self, m: C::V) -> (C::V, Result<Seq<A::V>, <M::Out as DeepView>::V>) {
        let e = self.msg.spec_call(m);
        let (m2, r) = spec_read::<C>(m, self.expected.deep_view().len());
        (
            m2,
            match r {
                None => Result::Err(e),
                Some(s) => if s == self.expected.deep_view() {
                    Result::Ok(s)
                } else {
                    Result::Err(e)
                },
            },
        )
    }

    fn parse(&self, c: &mut C) -> (r: Result<Vec<A>, M::Out>) {
        proof {
            assert(self.expected.deep_view().len() == self.expected@.len());
        }
        let err = self.msg.call(c);
        match read_chunk::<C>(c, self.expected.len()) {
            None => Result::Err(err),
            Some(v) => if vec_eq(&v, &self.expected) {
                Result::Ok(v)
            } else {
                Result::Err(err)
            },
        }
    }
}

/// The parser built by [`predicate`]: a windowed-predicate match.
pub struct Predicate<F, M> {
    pub window: usize,
    pub f: F,
    pub msg: M,
}

/// Reads exactly `window` elements and succeeds exactly when `f` accepts
/// the whole window; a short read or a rejected window fails with `msg`
/// evaluated at the position before the attempt. The elements read stay
/// consumed even on failure.
pub fn predicate<F, M>(window: usize, f: F, msg: M) -> (r: Predicate<F, M>)
    ensures
        r.window == window,
        r.f == f,
        r.msg == msg,
{
    Predicate { window, f, msg }
}

impl<C, F, M> Parser<C> for Predicate<F, M>
    where
        C: Cursor,
        F: PredFn<Vec<C::Item>>,
        M: CursorFn<C>,
{
    type Value = Vec<C::Item>;

    type Error = M::Out;

    open spec fn wf(&self) -> bool {
        true
    }

    open spec fn spec_parse(&self, m: C::V) -> (C::V, Result<
        Seq<<C::Item as DeepView>::V>,
        <M::Out as DeepView>::V,
    >) {
        let e = self.msg.spec_call(m);
        let (m2, r) = spec_read::<C>(m, self.window as nat);
        (
            m2,
            match r {
                None => Result::Err(e),
                Some(s) => if self.f.spec_call(s) {
                    Result::Ok(s)
                } else {
                    Result::Err(e)
                },
            },
        )
    }

    fn parse(&self, c: &mut C) -> (r: Result<Vec<C::Item>, M::Out>) {
        let err = self.msg.call(c);
        match read_chunk::<C>(c, self.window) {
            None => Result::Err(err),
            Some(v) => if self.f.call(&v) {
                Result::Ok(v)
            } else {
                Result::Err(err)
            },
        }
    }
}

} // verus!
