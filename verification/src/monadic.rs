//! The monadic core: value injection, value mapping and sequencing.

use vstd::prelude::*;
use crate::cursor::Cursor;
use crate::parser::{Parser, ProdFn, MapFn, BindFn, SelfView};

verus! {

/// The parser built by [`pure`]: produces a value, consumes nothing,
/// never fails.
pub struct Pure<F, E> {
    pub prod: F,
    pub ph: core::marker::PhantomData<E>,
}

/// Never fails; produces the given value without consuming input.
pub fn pure<F, E>(prod: F) -> (r: Pure<F, E>)
    ensures
        r.prod == prod,
{
    Pure { prod, ph: core::marker::PhantomData }
}

impl<C: Cursor, F: ProdFn, E: DeepView> Parser<C> for Pure<F, E> {
    type Value = F::Out;

    type Error = E;

    open spec fn wf(&self) -> bool {
        true
    }

    open spec fn spec_parse(&self, m: C::V) -> (C::V, Result<<F::Out as DeepView>::V, E::V>) {
        (m, Result::Ok(self.prod.spec_call()))
    }

    fn parse(&self, c: &mut C) -> (r: Result<F::Out, E>) {
        Result::Ok(self.prod.call())
    }
}

/// The parser built by [`fmap`]: runs the inner parser, then maps its value.
pub struct Fmap<F, P> {
    pub f: F,
    pub p: P,
}

/// Runs `p`; on success applies `f` to the value; on failure propagates the
/// error unchanged.
pub fn fmap<F, P>(f: F, p: P) -> (r: Fmap<F, P>)
    ensures
        r.f == f,
        r.p == p,
{
    Fmap { f, p }
}

impl<C: Cursor, P: Parser<C>, F: MapFn<P::Value>> Parser<C> for Fmap<F, P> {
    type Value = F::Out;

    type Error = P::Error;

    open spec fn wf(&self) -> bool {
        self.p.wf()
    }

    open spec fn spec_parse(&self, m: C::V) -> (C::V, Result<
        <F::Out as DeepView>::V,
        <P::Error as DeepView>::V,
    >) {
        let (m1, r1) = self.p.spec_parse(m);
        match r1 {
            Result::Ok(t) => (m1, Result::Ok(self.f.spec_call(t))),
            Result::Err(e) => (m1, Result::Err(e)),
        }
    }

    fn parse(&self, c: &mut C) -> (r: Result<F::Out, P::Error>) {
        match self.p.parse(c) {
            Result::Ok(t) => Result::Ok(self.f.call(t)),
            Result::Err(e) => Result::Err(e),
        }
    }
}

/// The parser built by [`fmap2`]: runs two parsers left to right, then
/// combines their values.
pub struct Fmap2<F, P0, P1> {
    pub f: F,
    pub p0: P0,
    pub p1: P1,
}

/// Runs `p0` then `p1`, strictly left to right; stops at the first failure,
/// whose error propagates unchanged; on full success applies `f` to the pair
/// of values. Consumption by `p0` stays visible even when `p1` fails.
pub fn fmap2<F, P0, P1>(f: F, p0: P0, p1: P1) -> (r: Fmap2<F, P0, P1>)
    ensures
        r.f == f,
        r.p0 == p0,
        r.p1 == p1,
{
    Fmap2 { f, p0, p1 }
}

impl<C: Cursor, P0: Parser<C>, P1, F> Parser<C> for Fmap2<F, P0, P1>
    where
        P1: Parser<C, Error = P0::Error>,
        F: MapFn<(P0::Value, P1::Value)>,
{
    type Value = F::Out;

    type Error = P0::Error;

    open spec fn wf(&self) -> bool {
        self.p0.wf() && self.p1.wf()
    }

    open spec fn spec_parse(&self, m: C::V) -> (C::V, Result<
        <F::Out as DeepView>::V,
        <P0::Error as DeepView>::V,
    >) {
        let (m1, r1) = self.p0.spec_parse(m);
        match r1 {
            Result::Err(e) => (m1, Result::Err(e)),
            Result::Ok(t0) => {
                let (m2, r2) = self.p1.spec_parse(m1);
                match r2 {
                    Result::Err(e) => (m2, Result::Err(e)),
                    Result::Ok(t1) => (m2, Result::Ok(self.f.spec_call((t0, t1)))),
                }
            }
        }
    }

    fn parse(&self, c: &mut C) -> (r: Result<F::Out, P0::Error>) {
        match self.p0.parse(c) {
            Result::Err(e) => Result::Err(e),
            Result::Ok(t0) => match self.p1.parse(c) {
                Result::Err(e) => Result::Err(e),
                Result::Ok(t1) => Result::Ok(self.f.call((t0, t1))),
            },
        }
    }
}

/// The parser built by [`fmap3`].
pub struct Fmap3<F, P0, P1, P2> {
    pub f: F,
    pub p0: P0,
    pub p1: P1,
    pub p2: P2,
}

/// Runs three parsers strictly left to right; stops at the first failure;
/// on full success applies `f` to the three values.
pub fn fmap3<F, P0, P1, P2>(f: F, p0: P0, p1: P1, p2: P2) -> (r: Fmap3<F, P0, P1, P2>)
    ensures
        r.f == f,
        r.p0 == p0,
        r.p1 == p1,
        r.p2 == p2,
{
    Fmap3 { f, p0, p1, p2 }
}

impl<C: Cursor, P0: Parser<C>, P1, P2, F> Parser<C> for Fmap3<F, P0, P1, P2>
    where
        P1: Parser<C, Error = P0::Error>,
        P2: Parser<C, Error = P0::Error>,
        F: MapFn<(P0::Value, P1::Value, P2::Value)>,
{
    type Value = F::Out;

    type Error = P0::Error;

    open spec fn wf(&self) -> bool {
        self.p0.wf() && self.p1.wf() && self.p2.wf()
    }

    open spec fn spec_parse(&self, m: C::V) -> (C::V, Result<
        <F::Out as DeepView>::V,
        <P0::Error as DeepView>::V,
    >) {
        let (m1, r1) = self.p0.spec_parse(m);
        match r1 {
            Result::Err(e) => (m1, Result::Err(e)),
            Result::Ok(t0) => {
                let (m2, r2) = self.p1.spec_parse(m1);
                match r2 {
                    Result::Err(e) => (m2, Result::Err(e)),
                    Result::Ok(t1) => {
                        let (m3, r3) = self.p2.spec_parse(m2);
                        match r3 {
                            Result::Err(e) => (m3, Result::Err(e)),
                            Result::Ok(t2) => (m3, Result::Ok(self.f.spec_call((t0, t1, t2)))),
                        }
                    }
                }
            }
        }
    }

    fn parse(&self, c: &mut C) -> (r: Result<F::Out, P0::Error>) {
        match self.p0.parse(c) {
            Result::Err(e) => Result::Err(e),
            Result::Ok(t0) => match self.p1.parse(c) {
                Result::Err(e) => Result::Err(e),
                Result::Ok(t1) => match self.p2.parse(c) {
                    Result::Err(e) => Result::Err(e),
                    Result::Ok(t2) => Result::Ok(self.f.call((t0, t1, t2))),
                },
            },
        }
    }
}

/// The parser built by [`fmap4`].
pub struct Fmap4<F, P0, P1, P2, P3> {
    pub f: F,
    pub p0: P0,
    pub p1: P1,
    pub p2: P2,
    pub p3: P3,
}

/// Runs four parsers strictly left to right; stops at the first failure;
/// on full success applies `f` to the four values.
pub fn fmap4<F, P0, P1, P2, P3>(f: F, p0: P0, p1: P1, p2: P2, p3: P3) -> (r: Fmap4<
    F,
    P0,
    P1,
    P2,
    P3,
>)
    ensures
        r.f == f,
        r.p0 == p0,
        r.p1 == p1,
        r.p2 == p2,
        r.p3 == p3,
{
    Fmap4 { f, p0, p1, p2, p3 }
}

impl<C: Cursor, P0: Parser<C>, P1, P2, P3, F> Parser<C> for Fmap4<F, P0, P1, P2, P3>
    where
        P1: Parser<C, Error = P0::Error>,
        P2: Parser<C, Error = P0::Error>,
        P3: Parser<C, Error = P0::Error>,
        F: MapFn<(P0::Value, P1::Value, P2::Value, P3::Value)>,
{
    type Value = F::Out;

    type Error = P0::Error;

    open spec fn wf(&self) -> bool {
        self.p0.wf() && self.p1.wf() && self.p2.wf() && self.p3.wf()
    }

    open spec fn spec_parse(&self, m: C::V) -> (C::V, Result<
        <F::Out as DeepView>::V,
        <P0::Error as DeepView>::V,
    >) {
        let (m1, r1) = self.p0.spec_parse(m);
        match r1 {
            Result::Err(e) => (m1, Result::Err(e)),
            Result::Ok(t0) => {
                let (m2, r2) = self.p1.spec_parse(m1);
                match r2 {
                    Result::Err(e) => (m2, Result::Err(e)),
                    Result::Ok(t1) => {
                        let (m3, r3) = self.p2.spec_parse(m2);
                        match r3 {
                            Result::Err(e) => (m3, Result::Err(e)),
                            Result::Ok(t2) => {
                                let (m4, r4) = self.p3.spec_parse(m3);
                                match r4 {
                                    Result::Err(e) => (m4, Result::Err(e)),
                                    Result::Ok(t3) => (m4, Result::Ok(
                                        self.f.spec_call((t0, t1, t2, t3)),
                                    )),
                                }
                            }
                        }
                    }
                }
            }
        }
    }

    fn parse(&self, c: &mut C) -> (r: Result<F::Out, P0::Error>) {
        match self.p0.parse(c) {
            Result::Err(e) => Result::Err(e),
            Result::Ok(t0) => match self.p1.parse(c) {
                Result::Err(e) => Result::Err(e),
                Result::Ok(t1) => match self.p2.parse(c) {
                    Result::Err(e) => Result::Err(e),
                    Result::Ok(t2) => match self.p3.parse(c) {
                        Result::Err(e) => Result::Err(e),
                        Result::Ok(t3) => Result::Ok(self.f.call((t0, t1, t2, t3))),
                    },
                },
            },
        }
    }
}

/// The parser built by [`first`]: both values are parsed, the left one kept.
pub struct First<P0, P1> {
    pub p0: P0,
    pub p1: P1,
}

/// Runs `p0` then `p1` and keeps `p0`'s value, discarding `p1`'s.
pub fn first<P0, P1>(p0: P0, p1: P1) -> (r: First<P0, P1>)
    ensures
        r.p0 == p0,
        r.p1 == p1,
{
    First { p0, p1 }
}

impl<C: Cursor, P0: Parser<C>, P1> Parser<C> for First<P0, P1>
    where
        P1: Parser<C, Error = P0::Error>,
{
    type Value = P0::Value;

    type Error = P0::Error;

    open spec fn wf(&self) -> bool {
        self.p0.wf() && self.p1.wf()
    }

    open spec fn spec_parse(&self, m: C::V) -> (C::V, Result<
        <P0::Value as DeepView>::V,
        <P0::Error as DeepView>::V,
    >) {
        let (m1, r1) = self.p0.spec_parse(m);
        match r1 {
            Result::Err(e) => (m1, Result::Err(e)),
            Result::Ok(t0) => {
                let (m2, r2) = self.p1.spec_parse(m1);
                match r2 {
                    Result::Err(e) => (m2, Result::Err(e)),
                    Result::Ok(t1) => (m2, Result::Ok(t0)),
                }
            }
        }
    }

    fn parse(&self, c: &mut C) -> (r: Result<P0::Value, P0::Error>) {
        match self.p0.parse(c) {
            Result::Err(e) => Result::Err(e),
            Result::Ok(t0) => match self.p1.parse(c) {
                Result::Err(e) => Result::Err(e),
                Result::Ok(t1) => Result::Ok(t0),
            },
        }
    }
}

/// The parser built by [`last`]: both values are parsed, the right one kept.
pub struct Last<P0, P1> {
    pub p0: P0,
    pub p1: P1,
}

/// Runs `p0` then `p1` and keeps `p1`'s value, discarding `p0`'s.
pub fn last<P0, P1>(p0: P0, p1: P1) -> (r: Last<P0, P1>)
    ensures
        r.p0 == p0,
        r.p1 == p1,
{
    Last { p0, p1 }
}

impl<C: Cursor, P0: Parser<C>, P1> Parser<C> for Last<P0, P1>
    where
        P1: Parser<C, Error = P0::Error>,
{
    type Value = P1::Value;

    type Error = P0::Error;

    open spec fn wf(&self) -> bool {
        self.p0.wf() && self.p1.wf()
    }

    open spec fn spec_parse(&self, m: C::V) -> (C::V, Result<
        <P1::Value as DeepView>::V,
        <P0::Error as DeepView>::V,
    >) {
        let (m1, r1) = self.p0.spec_parse(m);
        match r1 {
            Result::Err(e) => (m1, Result::Err(e)),
            Result::Ok(t0) => self.p1.spec_parse(m1),
        }
    }

    fn parse(&self, c: &mut C) -> (r: Result<P1::Value, P0::Error>) {
        match self.p0.parse(c) {
            Result::Err(e) => Result::Err(e),
            Result::Ok(t0) => self.p1.parse(c),
        }
    }
}

/// The parser built by [`apply`]: the first parser produces a function
/// value, applied to the second parser's result.
pub struct Apply<P0, P1> {
    pub p0: P0,
    pub p1: P1,
}

/// Runs `p0`, which produces a function value, then `p1`; applies the
/// function to `p1`'s value. Sequencing is strict and left to right, as in
/// [`fmap2`].
pub fn apply<P0, P1>(p0: P0, p1: P1) -> (r: Apply<P0, P1>)
    ensures
        r.p0 == p0,
        r.p1 == p1,
{
    Apply { p0, p1 }
}

impl<C: Cursor, P0: Parser<C>, P1> Parser<C> for Apply<P0, P1>
    where
        P1: Parser<C, Error = P0::Error>,
        P0::Value: MapFn<P1::Value> + SelfView,
{
    type Value = <P0::Value as MapFn<P1::Value>>::Out;

    type Error = P0::Error;

    open spec fn wf(&self) -> bool {
        self.p0.wf() && self.p1.wf()
    }

    open spec fn spec_parse(&self, m: C::V) -> (C::V, Result<
        <<P0::Value as MapFn<P1::Value>>::Out as DeepView>::V,
        <P0::Error as DeepView>::V,
    >) {
        let (m1, r1) = self.p0.spec_parse(m);
        match r1 {
            Result::Err(e) => (m1, Result::Err(e)),
            Result::Ok(f) => {
                let (m2, r2) = self.p1.spec_parse(m1);
                match r2 {
                    Result::Err(e) => (m2, Result::Err(e)),
                    Result::Ok(t) => (m2, Result::Ok(f.spec_call(t))),
                }
            }
        }
    }

    fn parse(&self, c: &mut C) -> (r: Result<
        <P0::Value as MapFn<P1::Value>>::Out,
        P0::Error,
    >) {
        match self.p0.parse(c) {
            Result::Err(e) => Result::Err(e),
            Result::Ok(f) => {
                proof {
                    f.lemma_self_view();
                }
                match self.p1.parse(c) {
                    Result::Err(e) => Result::Err(e),
                    Result::Ok(t) => Result::Ok(f.call(t)),
                }
            }
        }
    }
}

/// The parser built by [`apply2`].
pub struct Apply2<P0, P1, P2> {
    pub p0: P0,
    pub p1: P1,
    pub p2: P2,
}

/// Like [`apply`], with the produced function applied to the two values
/// parsed after it.
pub fn apply2<P0, P1, P2>(p0: P0, p1: P1, p2: P2) -> (r: Apply2<P0, P1, P2>)
    ensures
        r.p0 == p0,
        r.p1 == p1,
        r.p2 == p2,
{
    Apply2 { p0, p1, p2 }
}

impl<C: Cursor, P0: Parser<C>, P1, P2> Parser<C> for Apply2<P0, P1, P2>
    where
        P1: Parser<C, Error = P0::Error>,
        P2: Parser<C, Error = P0::Error>,
        P0::Value: MapFn<(P1::Value, P2::Value)> + SelfView,
{
    type Value = <P0::Value as MapFn<(P1::Value, P2::Value)>>::Out;

    type Error = P0::Error;

    open spec fn wf(&self) -> bool {
        self.p0.wf() && self.p1.wf() && self.p2.wf()
    }

    open spec fn spec_parse(&self, m: C::V) -> (C::V, Result<
        <<P0::Value as MapFn<(P1::Value, P2::Value)>>::Out as DeepView>::V,
        <P0::Error as DeepView>::V,
    >) {
        let (m1, r1) = self.p0.spec_parse(m);
        match r1 {
            Result::Err(e) => (m1, Result::Err(e)),
            Result::Ok(f) => {
                let (m2, r2) = self.p1.spec_parse(m1);
                match r2 {
                    Result::Err(e) => (m2, Result::Err(e)),
                    Result::Ok(t1) => {
                        let (m3, r3) = self.p2.spec_parse(m2);
                        match r3 {
                            Result::Err(e) => (m3, Result::Err(e)),
                            Result::Ok(t2) => (m3, Result::Ok(f.spec_call((t1, t2)))),
                        }
                    }
                }
            }
        }
    }

    fn parse(&self, c: &mut C) -> (r: Result<
        <P0::Value as MapFn<(P1::Value, P2::Value)>>::Out,
        P0::Error,
    >) {
        match self.p0.parse(c) {
            Result::Err(e) => Result::Err(e),
            Result::Ok(f) => {
                proof {
                    f.lemma_self_view();
                }
                match self.p1.parse(c) {
                    Result::Err(e) => Result::Err(e),
                    Result::Ok(t1) => match self.p2.parse(c) {
                        Result::Err(e) => Result::Err(e),
                        Result::Ok(t2) => Result::Ok(f.call((t1, t2))),
                    },
                }
            }
        }
    }
}

/// The parser built by [`apply3`].
pub struct Apply3<P0, P1, P2, P3> {
    pub p0: P0,
    pub p1: P1,
    pub p2: P2,
    pub p3: P3,
}

/// Like [`apply`], with the produced function applied to the three values
/// parsed after it.
pub fn apply3<P0, P1, P2, P3>(p0: P0, p1: P1, p2: P2, p3: P3) -> (r: Apply3<P0, P1, P2, P3>)
    ensures
        r.p0 == p0,
        r.p1 == p1,
        r.p2 == p2,
        r.p3 == p3,
{
    Apply3 { p0, p1, p2, p3 }
}

impl<C: Cursor, P0: Parser<C>, P1, P2, P3> Parser<C> for Apply3<P0, P1, P2, P3>
    where
        P1: Parser<C, Error = P0::Error>,
        P2: Parser<C, Error = P0::Error>,
        P3: Parser<C, Error = P0::Error>,
        P0::Value: MapFn<(P1::Value, P2::Value, P3::Value)> + SelfView,
{
    type Value = <P0::Value as MapFn<(P1::Value, P2::Value, P3::Value)>>::Out;

    type Error = P0::Error;

    open spec fn wf(&self) -> bool {
        self.p0.wf() && self.p1.wf() && self.p2.wf() && self.p3.wf()
    }

    open spec fn spec_parse(&self, m: C::V) -> (C::V, Result<
        <<P0::Value as MapFn<(P1::Value, P2::Value, P3::Value)>>::Out as DeepView>::V,
        <P0::Error as DeepView>::V,
    >) {
        let (m1, r1) = self.p0.spec_parse(m);
        match r1 {
            Result::Err(e) => (m1, Result::Err(e)),
            Result::Ok(f) => {
                let (m2, r2) = self.p1.spec_parse(m1);
                match r2 {
                    Result::Err(e) => (m2, Result::Err(e)),
                    Result::Ok(t1) => {
                        let (m3, r3) = self.p2.spec_parse(m2);
                        match r3 {
                            Result::Err(e) => (m3, Result::Err(e)),
                            Result::Ok(t2) => {
                                let (m4, r4) = self.p3.spec_parse(m3);
                                match r4 {
                                    Result::Err(e) => (m4, Result::Err(e)),
                                    Result::Ok(t3) => (m4, Result::Ok(
                                        f.spec_call((t1, t2, t3)),
                                    )),
                                }
                            }
                        }
                    }
                }
            }
        }
    }

    fn parse(&self, c: &mut C) -> (r: Result<
        <P0::Value as MapFn<(P1::Value, P2::Value, P3::Value)>>::Out,
        P0::Error,
    >) {
        match self.p0.parse(c) {
            Result::Err(e) => Result::Err(e),
            Result::Ok(f) => {
                proof {
                    f.lemma_self_view();
                }
                match self.p1.parse(c) {
                    Result::Err(e) => Result::Err(e),
                    Result::Ok(t1) => match self.p2.parse(c) {
                        Result::Err(e) => Result::Err(e),
                        Result::Ok(t2) => match self.p3.parse(c) {
                            Result::Err(e) => Result::Err(e),
                            Result::Ok(t3) => Result::Ok(f.call((t1, t2, t3))),
                        },
                    },
                }
            }
        }
    }
}

/// The parser built by [`apply4`].
pub struct Apply4<P0, P1, P2, P3, P4> {
    pub p0: P0,
    pub p1: P1,
    pub p2: P2,
    pub p3: P3,
    pub p4: P4,
}

/// Like [`apply`], with the produced function applied to the four values
/// parsed after it.
pub fn apply4<P0, P1, P2, P3, P4>(p0: P0, p1: P1, p2: P2, p3: P3, p4: P4) -> (r: Apply4<
    P0,
    P1,
    P2,
    P3,
    P4,
>)
    ensures
        r.p0 == p0,
        r.p1 == p1,
        r.p2 == p2,
        r.p3 == p3,
        r.p4 == p4,
{
    Apply4 { p0, p1, p2, p3, p4 }
}

impl<C: Cursor, P0: Parser<C>, P1, P2, P3, P4> Parser<C> for Apply4<P0, P1, P2, P3, P4>
    where
        P1: Parser<C, Error = P0::Error>,
        P2: Parser<C, Error = P0::Error>,
        P3: Parser<C, Error = P0::Error>,
        P4: Parser<C, Error = P0::Error>,
        P0::Value: MapFn<(P1::Value, P2::Value, P3::Value, P4::Value)> + SelfView,
{
    type Value = <P0::Value as MapFn<(P1::Value, P2::Value, P3::Value, P4::Value)>>::Out;

    type Error = P0::Error;

    open spec fn wf(&self) -> bool {
        self.p0.wf() && self.p1.wf() && self.p2.wf() && self.p3.wf() && self.p4.wf()
    }

    open spec fn spec_parse(&self, m: C::V) -> (C::V, Result<
        <<P0::Value as MapFn<
            (P1::Value, P2::Value, P3::Value, P4::Value),
        >>::Out as DeepView>::V,
        <P0::Error as DeepView>::V,
    >) {
        let (m1, r1) = self.p0.spec_parse(m);
        match r1 {
            Result::Err(e) => (m1, Result::Err(e)),
            Result::Ok(f) => {
                let (m2, r2) = self.p1.spec_parse(m1);
                match r2 {
                    Result::Err(e) => (m2, Result::Err(e)),
                    Result::Ok(t1) => {
                        let (m3, r3) = self.p2.spec_parse(m2);
                        match r3 {
                            Result::Err(e) => (m3, Result::Err(e)),
                            Result::Ok(t2) => {
                                let (m4, r4) = self.p3.spec_parse(m3);
                                match r4 {
                                    Result::Err(e) => (m4, Result::Err(e)),
                                    Result::Ok(t3) => {
                                        let (m5, r5) = self.p4.spec_parse(m4);
                                        match r5 {
                                            Result::Err(e) => (m5, Result::Err(e)),
                                            Result::Ok(t4) => (m5, Result::Ok(
                                                f.spec_call((t1, t2, t3, t4)),
                                            )),
                                        }
                                    }
                                }
                            }
                        }
                    }
                }
            }
        }
    }

    fn parse(&self, c: &mut C) -> (r: Result<
        <P0::Value as MapFn<(P1::Value, P2::Value, P3::Value, P4::Value)>>::Out,
        P0::Error,
    >) {
        match self.p0.parse(c) {
            Result::Err(e) => Result::Err(e),
            Result::Ok(f) => {
                proof {
                    f.lemma_self_view();
                }
                match self.p1.parse(c) {
                    Result::Err(e) => Result::Err(e),
                    Result::Ok(t1) => match self.p2.parse(c) {
                        Result::Err(e) => Result::Err(e),
                        Result::Ok(t2) => match self.p3.parse(c) {
                            Result::Err(e) => Result::Err(e),
                            Result::Ok(t3) => match self.p4.parse(c) {
                                Result::Err(e) => Result::Err(e),
                                Result::Ok(t4) => Result::Ok(f.call((t1, t2, t3, t4))),
                            },
                        },
                    },
                }
            }
        }
    }
}

/// The parser built by [`bind`]: the parser run second is computed from the
/// first parser's value.
pub struct Bind<P, F> {
    pub p: P,
    pub f: F,
}

/// Runs `p`; on success hands its value to `f`, which computes the parser to
/// run next; that parser's outcome is the overall outcome.
pub fn bind<P, F>(p: P, f: F) -> (r: Bind<P, F>)
    ensures
        r.p == p,
        r.f == f,
{
    Bind { p, f }
}

impl<C: Cursor, P: Parser<C>, F> Parser<C> for Bind<P, F>
    where
        F: BindFn<C, P::Value>,
        F::P: Parser<C, Error = P::Error>,
{
    type Value = <F::P as Parser<C>>::Value;

    type Error = P::Error;

    open spec fn wf(&self) -> bool {
        self.p.wf() && forall|t: <P::Value as DeepView>::V| (#[trigger] self.f.spec_call(t)).wf()
    }

    open spec fn spec_parse(&self, m: C::V) -> (C::V, Result<
        <<F::P as Parser<C>>::Value as DeepView>::V,
        <P::Error as DeepView>::V,
    >) {
        let (m1, r1) = self.p.spec_parse(m);
        match r1 {
            Result::Err(e) => (m1, Result::Err(e)),
            Result::Ok(t) => self.f.spec_call(t).spec_parse(m1),
        }
    }

    fn parse(&self, c: &mut C) -> (r: Result<<F::P as Parser<C>>::Value, P::Error>) {
        match self.p.parse(c) {
            Result::Err(e) => Result::Err(e),
            Result::Ok(t) => {
                let q = self.f.call(t);
                q.parse(c)
            }
        }
    }
}

/// The parser built by [`bind2`].
pub struct Bind2<P0, P1, F> {
    pub p0: P0,
    pub p1: P1,
    pub f: F,
}

/// Runs `p0` then `p1`; on full success hands both values to `f`, which
/// computes the parser to run next.
pub fn bind2<P0, P1, F>(p0: P0, p1: P1, f: F) -> (r: Bind2<P0, P1, F>)
    ensures
        r.p0 == p0,
        r.p1 == p1,
        r.f == f,
{
    Bind2 { p0, p1, f }
}

impl<C: Cursor, P0: Parser<C>, P1, F> Parser<C> for Bind2<P0, P1, F>
    where
        P1: Parser<C, Error = P0::Error>,
        F: BindFn<C, (P0::Value, P1::Value)>,
        F::P: Parser<C, Error = P0::Error>,
{
    type Value = <F::P as Parser<C>>::Value;

    type Error = P0::Error;

    open spec fn wf(&self) -> bool {
        self.p0.wf() && self.p1.wf() && forall|t: (
            <P0::Value as DeepView>::V,
            <P1::Value as DeepView>::V,
        )| (#[trigger] self.f.spec_call(t)).wf()
    }

    open spec fn spec_parse(&self, m: C::V) -> (C::V, Result<
        <<F::P as Parser<C>>::Value as DeepView>::V,
        <P0::Error as DeepView>::V,
    >) {
        let (m1, r1) = self.p0.spec_parse(m);
        match r1 {
            Result::Err(e) => (m1, Result::Err(e)),
            Result::Ok(t0) => {
                let (m2, r2) = self.p1.spec_parse(m1);
                match r2 {
                    Result::Err(e) => (m2, Result::Err(e)),
                    Result::Ok(t1) => self.f.spec_call((t0, t1)).spec_parse(m2),
                }
            }
        }
    }

    fn parse(&self, c: &mut C) -> (r: Result<<F::P as Parser<C>>::Value, P0::Error>) {
        match self.p0.parse(c) {
            Result::Err(e) => Result::Err(e),
            Result::Ok(t0) => match self.p1.parse(c) {
                Result::Err(e) => Result::Err(e),
                Result::Ok(t1) => {
                    let q = self.f.call((t0, t1));
                    q.parse(c)
                }
            },
        }
    }
}

/// The parser built by [`bind3`].
pub struct Bind3<P0, P1, P2, F> {
    pub p0: P0,
    pub p1: P1,
    pub p2: P2,
    pub f: F,
}

/// Runs three parsers left to right; on full success hands the values to
/// `f`, which computes the parser to run next.
pub fn bind3<P0, P1, P2, F>(p0: P0, p1: P1, p2: P2, f: F) -> (r: Bind3<P0, P1, P2, F>)
    ensures
        r.p0 == p0,
        r.p1 == p1,
        r.p2 == p2,
        r.f == f,
{
    Bind3 { p0, p1, p2, f }
}

impl<C: Cursor, P0: Parser<C>, P1, P2, F> Parser<C> for Bind3<P0, P1, P2, F>
    where
        P1: Parser<C, Error = P0::Error>,
        P2: Parser<C, Error = P0::Error>,
        F: BindFn<C, (P0::Value, P1::Value, P2::Value)>,
        F::P: Parser<C, Error = P0::Error>,
{
    type Value = <F::P as Parser<C>>::Value;

    type Error = P0::Error;

    open spec fn wf(&self) -> bool {
        self.p0.wf() && self.p1.wf() && self.p2.wf() && forall|t: (
            <P0::Value as DeepView>::V,
            <P1::Value as DeepView>::V,
            <P2::Value as DeepView>::V,
        )| (#[trigger] self.f.spec_call(t)).wf()
    }

    open spec fn spec_parse(&self, m: C::V) -> (C::V, Result<
        <<F::P as Parser<C>>::Value as DeepView>::V,
        <P0::Error as DeepView>::V,
    >) {
        let (m1, r1) = self.p0.spec_parse(m);
        match r1 {
            Result::Err(e) => (m1, Result::Err(e)),
            Result::Ok(t0) => {
                let (m2, r2) = self.p1.spec_parse(m1);
                match r2 {
                    Result::Err(e) => (m2, Result::Err(e)),
                    Result::Ok(t1) => {
                        let (m3, r3) = self.p2.spec_parse(m2);
                        match r3 {
                            Result::Err(e) => (m3, Result::Err(e)),
                            Result::Ok(t2) => self.f.spec_call((t0, t1, t2)).spec_parse(m3),
                        }
                    }
                }
            }
        }
    }

    fn parse(&self, c: &mut C) -> (r: Result<<F::P as Parser<C>>::Value, P0::Error>) {
        match self.p0.parse(c) {
            Result::Err(e) => Result::Err(e),
            Result::Ok(t0) => match self.p1.parse(c) {
                Result::Err(e) => Result::Err(e),
                Result::Ok(t1) => match self.p2.parse(c) {
                    Result::Err(e) => Result::Err(e),
                    Result::Ok(t2) => {
                        let q = self.f.call((t0, t1, t2));
                        q.parse(c)
                    }
                },
            },
        }
    }
}

/// The parser built by [`bind4`].
pub struct Bind4<P0, P1, P2, P3, F> {
    pub p0: P0,
    pub p1: P1,
    pub p2: P2,
    pub p3: P3,
    pub f: F,
}

/// Runs four parsers left to right; on full success hands the values to
/// `f`, which computes the parser to run next.
pub fn bind4<P0, P1, P2, P3, F>(p0: P0, p1: P1, p2: P2, p3: P3, f: F) -> (r: Bind4<
    P0,
    P1,
    P2,
    P3,
    F,
>)
    ensures
        r.p0 == p0,
        r.p1 == p1,
        r.p2 == p2,
        r.p3 == p3,
        r.f == f,
{
    Bind4 { p0, p1, p2, p3, f }
}

impl<C: Cursor, P0: Parser<C>, P1, P2, P3, F> Parser<C> for Bind4<P0, P1, P2, P3, F>
    where
        P1: Parser<C, Error = P0::Error>,
        P2: Parser<C, Error = P0::Error>,
        P3: Parser<C, Error = P0::Error>,
        F: BindFn<C, (P0::Value, P1::Value, P2::Value, P3::Value)>,
        F::P: Parser<C, Error = P0::Error>,
{
    type Value = <F::P as Parser<C>>::Value;

    type Error = P0::Error;

    open spec fn wf(&self) -> bool {
        self.p0.wf() && self.p1.wf() && self.p2.wf() && self.p3.wf() && forall|t: (
            <P0::Value as DeepView>::V,
            <P1::Value as DeepView>::V,
            <P2::Value as DeepView>::V,
            <P3::Value as DeepView>::V,
        )| (#[trigger] self.f.spec_call(t)).wf()
    }

    open spec fn spec_parse(&self, m: C::V) -> (C::V, Result<
        <<F::P as Parser<C>>::Value as DeepView>::V,
        <P0::Error as DeepView>::V,
    >) {
        let (m1, r1) = self.p0.spec_parse(m);
        match r1 {
            Result::Err(e) => (m1, Result::Err(e)),
            Result::Ok(t0) => {
                let (m2, r2) = self.p1.spec_parse(m1);
                match r2 {
                    Result::Err(e) => (m2, Result::Err(e)),
                    Result::Ok(t1) => {
                        let (m3, r3) = self.p2.spec_parse(m2);
                        match r3 {
                            Result::Err(e) => (m3, Result::Err(e)),
                            Result::Ok(t2) => {
                                let (m4, r4) = self.p3.spec_parse(m3);
                                match r4 {
                                    Result::Err(e) => (m4, Result::Err(e)),
                                    Result::Ok(t3) => self.f.spec_call(
                                        (t0, t1, t2, t3),
                                    ).spec_parse(m4),
                                }
                            }
                        }
                    }
                }
            }
        }
    }

    fn parse(&self, c: &mut C) -> (r: Result<<F::P as Parser<C>>::Value, P0::Error>) {
        match self.p0.parse(c) {
            Result::Err(e) => Result::Err(e),
            Result::Ok(t0) => match self.p1.parse(c) {
                Result::Err(e) => Result::Err(e),
                Result::Ok(t1) => match self.p2.parse(c) {
                    Result::Err(e) => Result::Err(e),
                    Result::Ok(t2) => match self.p3.parse(c) {
                        Result::Err(e) => Result::Err(e),
                        Result::Ok(t3) => {
                            let q = self.f.call((t0, t1, t2, t3));
                            q.parse(c)
                        }
                    },
                },
            },
        }
    }
}

/// The parser built by [`otherwise`]: ordered choice with associative
/// error accumulation.
pub struct Otherwise<P0, P1> {
    pub p0: P0,
    pub p1: P1,
}

/// Runs `p0`; on success returns its value. On failure runs `p1` against the
/// cursor exactly as `p0` left it (no automatic backtracking); if `p1` also
/// fails, the two failure lists are concatenated in encounter order.
pub fn otherwise<P0, P1>(p0: P0, p1: P1) -> (r: Otherwise<P0, P1>)
    ensures
        r.p0 == p0,
        r.p1 == p1,
{
    Otherwise { p0, p1 }
}

impl<C: Cursor, E: DeepView, P0, P1> Parser<C> for Otherwise<P0, P1>
    where
        P0: Parser<C, Error = Vec<E>>,
        P1: Parser<C, Value = P0::Value, Error = Vec<E>>,
{
    type Value = P0::Value;

    type Error = Vec<E>;

    open spec fn wf(&self) -> bool {
        self.p0.wf() && self.p1.wf()
    }

    open spec fn spec_parse(&self, m: C::V) -> (C::V, Result<
        <P0::Value as DeepView>::V,
        Seq<E::V>,
    >) {
        let (m1, r1) = self.p0.spec_parse(m);
        match r1 {
            Result::Ok(t) => (m1, Result::Ok(t)),
            Result::Err(e0) => {
                let (m2, r2) = self.p1.spec_parse(m1);
                match r2 {
                    Result::Ok(t) => (m2, Result::Ok(t)),
                    Result::Err(e1) => (m2, Result::Err(e0 + e1)),
                }
            }
        }
    }

    fn parse(&self, c: &mut C) -> (r: Result<P0::Value, Vec<E>>) {
        match self.p0.parse(c) {
            Result::Ok(t) => Result::Ok(t),
            Result::Err(mut e0) => match self.p1.parse(c) {
                Result::Ok(t) => Result::Ok(t),
                Result::Err(mut e1) => {
                    let ghost pre0 = e0.deep_view();
                    let ghost pre1 = e1.deep_view();
                    e0.append(&mut e1);
                    proof {
                        assert(e0.deep_view() =~= pre0 + pre1);
                    }
                    Result::Err(e0)
                }
            },
        }
    }
}

} // verus!
