//! Cheap duplication with a known specification.
//!
//! Rollback combinators snapshot a cursor before a speculative parse and put
//! the snapshot back on failure, so every piece of cursor state must be
//! duplicable in a way the verifier can reason about: the copy has the same
//! view as the original.

use vstd::prelude::*;

verus! {

/// A value that can be duplicated; the duplicate has the same view.
pub trait Dup: Sized + DeepView {
    fn dup(&self) -> (r: Self)
        ensures
            r.deep_view() == self.deep_view(),
    ;
}

impl Dup for () {
    fn dup(&self) -> (r: ())
        ensures
            r.deep_view() == self.deep_view(),
    {
    }
}

impl Dup for bool {
    fn dup(&self) -> (r: bool)
        ensures
            r.deep_view() == self.deep_view(),
    {
        *self
    }
}

impl Dup for char {
    fn dup(&self) -> (r: char)
        ensures
            r.deep_view() == self.deep_view(),
    {
        *self
    }
}

impl Dup for u8 {
    fn dup(&self) -> (r: u8)
        ensures
            r.deep_view() == self.deep_view(),
    {
        *self
    }
}

impl Dup for u16 {
    fn dup(&self) -> (r: u16)
        ensures
            r.deep_view() == self.deep_view(),
    {
        *self
    }
}

impl Dup for u32 {
    fn dup(&self) -> (r: u32)
        ensures
            r.deep_view() == self.deep_view(),
    {
        *self
    }
}

impl Dup for u64 {
    fn dup(&self) -> (r: u64)
        ensures
            r.deep_view() == self.deep_view(),
    {
        *self
    }
}

impl Dup for usize {
    fn dup(&self) -> (r: usize)
        ensures
            r.deep_view() == self.deep_view(),
    {
        *self
    }
}

impl Dup for i32 {
    fn dup(&self) -> (r: i32)
        ensures
            r.deep_view() == self.deep_view(),
    {
        *self
    }
}

impl Dup for i64 {
    fn dup(&self) -> (r: i64)
        ensures
            r.deep_view() == self.deep_view(),
    {
        *self
    }
}

impl Dup for String {
    fn dup(&self) -> (r: String)
        ensures
            r.deep_view() == self.deep_view(),
    {
        self.clone()
    }
}

impl<A: Dup> Dup for Vec<A> {
    fn dup(&self) -> (r: Vec<A>)
        ensures
            r.deep_view() == self.deep_view(),
    {
        let mut out: Vec<A> = Vec::new();
        let mut i: usize = 0;
        while i < self.len()
            invariant
                i <= self@.len(),
                out@.len() == i as int,
                self.deep_view().len() == self@.len(),
                out.deep_view() =~= self.deep_view().take(i as int),
            decreases self@.len() - i,
        {
            let a = self[i].dup();
            proof {
                assert(a.deep_view() == self.deep_view()[i as int]);
            }
            let ghost pre = out.deep_view();
            let ghost pres = out@;
            out.push(a);
            proof {
                assert(out@ == pres.push(a));
                assert forall|j: int| 0 <= j < out.deep_view().len() implies out.deep_view()[j]
                    == self.deep_view().take(i + 1)[j] by {
                    if j < i as int {
                        assert(pres.push(a)[j] == pres[j]);
                        assert(out.deep_view()[j] == pre[j]);
                    } else {
                        assert(pres.push(a)[j] == a);
                        assert(out.deep_view()[j] == a.deep_view());
                    }
                }
                assert(out.deep_view() =~= self.deep_view().take(i + 1 as int));
            }
            i += 1;
        }
        proof {
            assert(out.deep_view() =~= self.deep_view());
        }
        out
    }
}

impl<A: Dup> Dup for Option<A> {
    fn dup(&self) -> (r: Option<A>)
        ensures
            r.deep_view() == self.deep_view(),
    {
        match self {
            Option::Some(a) => Option::Some(a.dup()),
            Option::None => Option::None,
        }
    }
}

} // verus!
