//! The parser contract.
//!
//! A parser is a value whose `spec_parse` maps a cursor state to the pair of
//! the state after the call and the outcome (a produced value or an error),
//! both at the level of deep views. The executable `parse` takes the cursor
//! by exclusive reference and is verified to realise exactly that map.

use vstd::prelude::*;
use crate::cursor::Cursor;

verus! {

/// Does the executable outcome `r` realise the specification outcome `s`,
/// at the level of deep views?
pub open spec fn outcome_agrees<T: DeepView, E: DeepView>(
    r: Result<T, E>,
    s: Result<T::V, E::V>,
) -> bool {
    match (r, s) {
        (Result::Ok(t), Result::Ok(tv)) => t.deep_view() == tv,
        (Result::Err(e), Result::Err(ev)) => e.deep_view() == ev,
        _ => false,
    }
}

/// A parser over cursors of type `C`.
pub trait Parser<C: Cursor>: Sized {
    type Value: DeepView;

    type Error: DeepView;

    /// Well-formedness: what must hold of this parser's ingredients for
    /// `parse` to realise `spec_parse`.
    spec fn wf(&self) -> bool;

    /// The meaning of this parser: next cursor state and outcome, given the
    /// cursor state at the call.
    spec fn spec_parse(&self, m: C::V) -> (C::V, Result<
        <Self::Value as DeepView>::V,
        <Self::Error as DeepView>::V,
    >);

    /// Run the parser once, advancing the cursor as `spec_parse` says.
    fn parse(&self, c: &mut C) -> (r: Result<Self::Value, Self::Error>)
        requires
            self.wf(),
        ensures
            final(c).deep_view() == self.spec_parse(old(c).deep_view()).0,
            outcome_agrees(r, self.spec_parse(old(c).deep_view()).1),
    ;
}

/// A parser that strictly shrinks the cursor whenever it succeeds: what
/// repetition combinators need of the repeated element so that repeating it
/// terminates.
pub open spec fn consumes_on_success<C: Cursor, P: Parser<C>>(p: P) -> bool {
    forall|m: C::V| (#[trigger] p.spec_parse(m)).1 is Ok ==> C::spec_size(p.spec_parse(m).0)
        < C::spec_size(m)
}

/// A parser that never grows the cursor, whatever the outcome.
pub open spec fn never_grows<C: Cursor, P: Parser<C>>(p: P) -> bool {
    forall|m: C::V| C::spec_size((#[trigger] p.spec_parse(m)).0) <= C::spec_size(m)
}

/// A value producer with a specification, for parsers that inject values.
pub trait ProdFn: Sized {
    type Out: DeepView;

    spec fn spec_call(&self) -> <Self::Out as DeepView>::V;

    fn call(&self) -> (r: Self::Out)
        ensures
            r.deep_view() == self.spec_call(),
    ;
}

/// A total function from `T` to `Self::Out` with a specification at the
/// level of deep views, for parsers that transform produced values.
pub trait MapFn<T: DeepView>: Sized {
    type Out: DeepView;

    spec fn spec_call(&self, t: T::V) -> <Self::Out as DeepView>::V;

    fn call(&self, t: T) -> (r: Self::Out)
        ensures
            r.deep_view() == self.spec_call(t.deep_view()),
    ;
}

/// A total function reading a value off the cursor state, for error
/// messages and position captures.
pub trait CursorFn<C: Cursor>: Sized {
    type Out: DeepView;

    spec fn spec_call(&self, m: C::V) -> <Self::Out as DeepView>::V;

    fn call(&self, c: &C) -> (r: Self::Out)
        ensures
            r.deep_view() == self.spec_call(c.deep_view()),
    ;
}

/// A total predicate over a window of tokens, with a specification at the
/// level of deep views.
pub trait PredFn<T: DeepView>: Sized {
    spec fn spec_call(&self, t: T::V) -> bool;

    fn call(&self, t: &T) -> (r: bool)
        ensures
            r == self.spec_call(t.deep_view()),
    ;
}

/// A two-stage error transform: capture something from the cursor before
/// the inner parse runs, then apply a transform built from the capture to
/// whatever error eventually surfaces.
pub trait StagedFn<C: Cursor, E: DeepView>: Sized {
    type Mid: DeepView;

    type Out: DeepView;

    spec fn spec_capture(&self, m: C::V) -> <Self::Mid as DeepView>::V;

    spec fn spec_apply(&self, mid: <Self::Mid as DeepView>::V, e: E::V) -> <Self::Out as DeepView>::V;

    fn capture(&self, c: &C) -> (r: Self::Mid)
        ensures
            r.deep_view() == self.spec_capture(c.deep_view()),
    ;

    fn apply(&self, mid: Self::Mid, e: E) -> (r: Self::Out)
        ensures
            r.deep_view() == self.spec_apply(mid.deep_view(), e.deep_view()),
    ;
}

/// A value whose deep view is the value itself: the form a function value
/// must take to be produced by one parser and applied by another.
pub trait SelfView: Sized + DeepView<V = Self> {
    proof fn lemma_self_view(&self)
        ensures
            self.deep_view() == *self,
    ;
}

/// A total function from `T` to a parser, for dependent sequencing: what to
/// parse next is computed from what was already parsed.
pub trait BindFn<C: Cursor, T: DeepView>: Sized {
    type P: Parser<C>;

    spec fn spec_call(&self, t: T::V) -> Self::P;

    fn call(&self, t: T) -> (q: Self::P)
        ensures
            q == self.spec_call(t.deep_view()),
    ;
}

impl<C: Cursor, P: Parser<C>> Parser<C> for &P {
    type Value = P::Value;

    type Error = P::Error;

    open spec fn wf(&self) -> bool {
        (**self).wf()
    }

    open spec fn spec_parse(&self, m: C::V) -> (C::V, Result<
        <P::Value as DeepView>::V,
        <P::Error as DeepView>::V,
    >) {
        (**self).spec_parse(m)
    }

    fn parse(&self, c: &mut C) -> (r: Result<P::Value, P::Error>) {
        (*self).parse(c)
    }
}

impl<T: DeepView, F: MapFn<T>> MapFn<T> for &F {
    type Out = F::Out;

    open spec fn spec_call(&self, t: T::V) -> <F::Out as DeepView>::V {
        (**self).spec_call(t)
    }

    fn call(&self, t: T) -> (r: F::Out) {
        (*self).call(t)
    }
}

impl<C: Cursor, M: CursorFn<C>> CursorFn<C> for &M {
    type Out = M::Out;

    open spec fn spec_call(&self, m: C::V) -> <M::Out as DeepView>::V {
        (**self).spec_call(m)
    }

    fn call(&self, c: &C) -> (r: M::Out) {
        (*self).call(c)
    }
}

/// The identity function, as a [`MapFn`].
pub struct IdFn<T> {
    pub ph: core::marker::PhantomData<T>,
}

impl<T> IdFn<T> {
    pub fn new() -> (r: IdFn<T>) {
        IdFn { ph: core::marker::PhantomData }
    }
}

impl<T: DeepView> MapFn<T> for IdFn<T> {
    type Out = T;

    open spec fn spec_call(&self, t: T::V) -> T::V {
        t
    }

    fn call(&self, t: T) -> (r: T) {
        t
    }
}

impl<T> DeepView for IdFn<T> {
    type V = IdFn<T>;

    open spec fn deep_view(&self) -> IdFn<T> {
        *self
    }
}

impl<T> SelfView for IdFn<T> {
    proof fn lemma_self_view(&self) {
    }
}

impl<T> crate::dup::Dup for IdFn<T> {
    fn dup(&self) -> (r: IdFn<T>)
        ensures
            r.deep_view() == self.deep_view(),
    {
        IdFn { ph: core::marker::PhantomData }
    }
}

/// The error builder that reports nothing: for parsers whose failure
/// needs no diagnostic.
pub struct UnitMsg {
    pub nothing: (),
}

/// Builds a [`UnitMsg`].
pub fn unit_msg() -> (r: UnitMsg) {
    UnitMsg { nothing: () }
}

impl<C: Cursor> CursorFn<C> for UnitMsg {
    type Out = ();

    open spec fn spec_call(&self, m: C::V) -> () {
        ()
    }

    fn call(&self, c: &C) -> (r: ()) {
        ()
    }
}

/// A fixed value, as a value producer: each call hands out a duplicate of
/// the stored value.
pub struct ConstFn<T> {
    pub v: T,
}

impl<T: crate::dup::Dup> ProdFn for ConstFn<T> {
    type Out = T;

    open spec fn spec_call(&self) -> T::V {
        self.v.deep_view()
    }

    fn call(&self) -> (r: T) {
        self.v.dup()
    }
}

} // verus!
