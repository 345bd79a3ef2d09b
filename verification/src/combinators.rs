//! Repetition and termination combinators: greedy and lazy "repeat element
//! until terminator", unbounded "repeat while succeeding", and the
//! unconditional rollback wrapper.

use vstd::prelude::*;
use crate::cursor::Cursor;
use crate::parser::{Parser, consumes_on_success, never_grows};

verus! {

/// The meaning of [`most`]: repeat `p`, collecting values, until the first
/// failure, which is discarded; the cursor stays where the failed attempt
/// left it.
pub open spec fn most_spec<C: Cursor, P: Parser<C>>(p: P, m: C::V) -> (C::V, Seq<
    <P::Value as DeepView>::V,
>)
    decreases C::spec_size(m),
{
    let (m1, r1) = p.spec_parse(m);
    match r1 {
        Result::Err(e) => (m1, Seq::empty()),
        Result::Ok(t) => if C::spec_size(m1) < C::spec_size(m) {
            let (m2, ts) = most_spec(p, m1);
            (m2, seq![t] + ts)
        } else {
            (m1, seq![t])
        },
    }
}

/// The parser built by [`most`]: unbounded repetition.
pub struct Most<P> {
    pub p: P,
}

/// Repeatedly invokes `p`, collecting successes in order, until the first
/// failure; that failure is discarded and the values collected so far are
/// returned as success. Never fails. The cursor stays wherever the failed
/// attempt left it; wrap `p` in [`crate::errors::try_parse`] if a failing
/// attempt should not leave it partially advanced.
pub fn most<P>(p: P) -> (r: Most<P>)
    ensures
        r.p == p,
{
    Most { p }
}

impl<C: Cursor, P: Parser<C>> Parser<C> for Most<P> {
    type Value = Vec<P::Value>;

    type Error = P::Error;

    open spec fn wf(&self) -> bool {
        self.p.wf() && consumes_on_success::<C, P>(self.p)
    }

    open spec fn spec_parse(&self, m: C::V) -> (C::V, Result<
        Seq<<P::Value as DeepView>::V>,
        <P::Error as DeepView>::V,
    >) {
        let (m2, ts) = most_spec::<C, P>(self.p, m);
        (m2, Result::Ok(ts))
    }

    fn parse(&self, c: &mut C) -> (r: Result<Vec<P::Value>, P::Error>) {
        let ghost m0 = c.deep_view();
        let mut out: Vec<P::Value> = Vec::new();
        proof {
            assert(out.deep_view() =~= Seq::<<P::Value as DeepView>::V>::empty());
            assert(most_spec::<C, P>(self.p, m0).1 =~= out.deep_view() + most_spec::<C, P>(
                self.p,
                m0,
            ).1);
        }
        loop
            invariant_except_break
                self.wf(),
                most_spec::<C, P>(self.p, m0).0 == most_spec::<C, P>(self.p, c.deep_view()).0,
                most_spec::<C, P>(self.p, m0).1 == out.deep_view() + most_spec::<C, P>(
                    self.p,
                    c.deep_view(),
                ).1,
            ensures
                most_spec::<C, P>(self.p, m0).0 == c.deep_view(),
                most_spec::<C, P>(self.p, m0).1 == out.deep_view(),
            decreases C::spec_size(c.deep_view()),
        {
            let ghost v = c.deep_view();
            match self.p.parse(c) {
                Result::Err(e) => {
                    proof {
                        assert(most_spec::<C, P>(self.p, v).1 =~= Seq::<
                            <P::Value as DeepView>::V,
                        >::empty());
                        assert(out.deep_view() + most_spec::<C, P>(self.p, v).1
                            =~= out.deep_view());
                    }
                    break;
                }
                Result::Ok(t) => {
                    let ghost pre = out.deep_view();
                    let ghost tv = t.deep_view();
                    out.push(t);
                    proof {
                        let (m2, ts) = most_spec::<C, P>(self.p, c.deep_view());
                        assert(pre + (seq![tv] + ts) =~= pre.push(tv) + ts);
                    }
                }
            }
        }
        Result::Ok(out)
    }
}

/// The parser built by [`unwind`]: a pure rollback wrapper.
pub struct Unwind<P> {
    pub p: P,
}

/// Runs `p` and restores the cursor to its position before the call,
/// whatever the outcome, while preserving `p`'s produced value or error;
/// for when only the parsed value, not the consumption, is wanted.
pub fn unwind<P>(p: P) -> (r: Unwind<P>)
    ensures
        r.p == p,
{
    Unwind { p }
}

impl<C: Cursor, P: Parser<C>> Parser<C> for Unwind<P> {
    type Value = P::Value;

    type Error = P::Error;

    open spec fn wf(&self) -> bool {
        self.p.wf()
    }

    open spec fn spec_parse(&self, m: C::V) -> (C::V, Result<
        <P::Value as DeepView>::V,
        <P::Error as DeepView>::V,
    >) {
        let (m1, r1) = self.p.spec_parse(m);
        (m, r1)
    }

    fn parse(&self, c: &mut C) -> (r: Result<P::Value, P::Error>) {
        let pre = c.mark();
        let res = self.p.parse(c);
        *c = pre;
        res
    }
}

/// The meaning of [`most_till`]: at each step, prefer "element, then
/// recurse" and fall through to attempting the terminator from wherever
/// the failed path left the cursor, accumulating the failure list of the
/// deepest exhausted alternative chain.
pub open spec fn most_till_spec<C: Cursor, P: Parser<C>, E2>(p: P, end: E2, m: C::V) -> (C::V, Result<
    (Seq<<P::Value as DeepView>::V>, <E2::Value as DeepView>::V),
    Seq<<P::Error as DeepView>::V>,
>)
    where
        E2: Parser<C, Error = P::Error>,
    decreases C::spec_size(m),
{
    let (m1, r1) = p.spec_parse(m);
    match r1 {
        Result::Err(err) => till_end_spec::<C, P, E2>(end, m1, seq![err]),
        Result::Ok(t) => if C::spec_size(m1) < C::spec_size(m) {
            let (m2, r2) = most_till_spec(p, end, m1);
            match r2 {
                Result::Ok((ts, u)) => (m2, Result::Ok((seq![t] + ts, u))),
                Result::Err(errs) => till_end_spec::<C, P, E2>(end, m2, errs),
            }
        } else {
            (m1, Result::Err(Seq::empty()))
        },
    }
}

/// Attempting the terminator with a failure list already accumulated:
/// success discards the collected elements of the failed path; failure
/// appends the terminator's error to the list.
pub open spec fn till_end_spec<C: Cursor, P: Parser<C>, E2>(end: E2, m: C::V, errs: Seq<
    <P::Error as DeepView>::V,
>) -> (C::V, Result<
    (Seq<<P::Value as DeepView>::V>, <E2::Value as DeepView>::V),
    Seq<<P::Error as DeepView>::V>,
>)
    where
        E2: Parser<C, Error = P::Error>,
{
    let (m3, r3) = end.spec_parse(m);
    match r3 {
        Result::Ok(u) => (m3, Result::Ok((Seq::empty(), u))),
        Result::Err(err3) => (m3, Result::Err(errs.push(err3))),
    }
}

/// The parser built by [`most_till`].
pub struct MostTill<P, E2> {
    pub p: P,
    pub end: E2,
}

/// Greedy repetition up to a terminator: prefers repeating `p` as long as
/// possible before accepting `end`; failing the repeated path falls
/// through to attempting `end` where that path stopped. Returns the
/// collected elements plus the terminator's value; failure yields the
/// error list accumulated along the deepest exhausted alternative chain.
pub fn most_till<P, E2>(p: P, end: E2) -> (r: MostTill<P, E2>)
    ensures
        r.p == p,
        r.end == end,
{
    MostTill { p, end }
}

fn most_till_run<C: Cursor, P: Parser<C>, E2>(p: &P, end: &E2, c: &mut C) -> (r: Result<
    (Vec<P::Value>, E2::Value),
    Vec<P::Error>,
>)
    where
        E2: Parser<C, Error = P::Error>,
    requires
        p.wf(),
        end.wf(),
        consumes_on_success::<C, P>(*p),
    ensures
        final(c).deep_view() == most_till_spec::<C, P, E2>(*p, *end, old(c).deep_view()).0,
        crate::parser::outcome_agrees(
            r,
            most_till_spec::<C, P, E2>(*p, *end, old(c).deep_view()).1,
        ),
    decreases C::spec_size(c.deep_view()),
{
    match p.parse(c) {
        Result::Err(err) => {
            let mut errs: Vec<P::Error> = Vec::new();
            let ghost ev = err.deep_view();
            errs.push(err);
            proof {
                assert(errs.deep_view() =~= seq![ev]);
            }
            till_end_run::<C, P, E2>(end, c, errs)
        }
        Result::Ok(t) => {
            let ghost tv = t.deep_view();
            match most_till_run(p, end, c) {
                Result::Ok((mut ts, u)) => {
                    let ghost tsv = ts.deep_view();
                    ts.insert(0, t);
                    proof {
                        assert(ts.deep_view() =~= seq![tv] + tsv);
                    }
                    Result::Ok((ts, u))
                }
                Result::Err(errs) => till_end_run::<C, P, E2>(end, c, errs),
            }
        }
    }
}

/// Attempts the terminator, with the failed path's error list in hand.
fn till_end_run<C: Cursor, P: Parser<C>, E2>(end: &E2, c: &mut C, errs: Vec<P::Error>) -> (r:
    Result<(Vec<P::Value>, E2::Value), Vec<P::Error>>)
    where
        E2: Parser<C, Error = P::Error>,
    requires
        end.wf(),
    ensures
        final(c).deep_view() == till_end_spec::<C, P, E2>(*end, old(c).deep_view(), errs.deep_view()).0,
        crate::parser::outcome_agrees(
            r,
            till_end_spec::<C, P, E2>(*end, old(c).deep_view(), errs.deep_view()).1,
        ),
{
    let ghost esv = errs.deep_view();
    match end.parse(c) {
        Result::Ok(u) => {
            let ts: Vec<P::Value> = Vec::new();
            proof {
                assert(ts.deep_view() =~= Seq::<<P::Value as DeepView>::V>::empty());
            }
            Result::Ok((ts, u))
        }
        Result::Err(err3) => {
            let ghost e3v = err3.deep_view();
            let mut errs2 = errs;
            errs2.push(err3);
            proof {
                assert(errs2.deep_view() =~= esv.push(e3v));
            }
            Result::Err(errs2)
        }
    }
}

impl<C: Cursor, P: Parser<C>, E2> Parser<C> for MostTill<P, E2>
    where
        E2: Parser<C, Error = P::Error>,
{
    type Value = (Vec<P::Value>, E2::Value);

    type Error = Vec<P::Error>;

    open spec fn wf(&self) -> bool {
        self.p.wf() && self.end.wf() && consumes_on_success::<C, P>(self.p)
    }

    open spec fn spec_parse(&self, m: C::V) -> (C::V, Result<
        (Seq<<P::Value as DeepView>::V>, <E2::Value as DeepView>::V),
        Seq<<P::Error as DeepView>::V>,
    >) {
        most_till_spec::<C, P, E2>(self.p, self.end, m)
    }

    fn parse(&self, c: &mut C) -> (r: Result<(Vec<P::Value>, E2::Value), Vec<P::Error>>) {
        most_till_run::<C, P, E2>(&self.p, &self.end, c)
    }
}

/// The meaning of [`least_till`]: at each step, prefer accepting the
/// terminator immediately; only when it fails is one more element parsed,
/// from wherever the failed terminator attempt left the cursor.
pub open spec fn least_till_spec<C: Cursor, P: Parser<C>, E2>(p: P, end: E2, m: C::V) -> (
    C::V,
    Result<
        (Seq<<P::Value as DeepView>::V>, <E2::Value as DeepView>::V),
        Seq<<P::Error as DeepView>::V>,
    >,
)
    where
        E2: Parser<C, Error = P::Error>,
    decreases C::spec_size(m),
{
    let (m1, r1) = end.spec_parse(m);
    match r1 {
        Result::Ok(u) => (m1, Result::Ok((Seq::empty(), u))),
        Result::Err(err_e) => {
            let (m2, r2) = p.spec_parse(m1);
            match r2 {
                Result::Err(err_p) => (m2, Result::Err(seq![err_e, err_p])),
                Result::Ok(t) => if C::spec_size(m2) < C::spec_size(m) {
                    let (m3, r3) = least_till_spec(p, end, m2);
                    match r3 {
                        Result::Ok((ts, u)) => (m3, Result::Ok((seq![t] + ts, u))),
                        Result::Err(errs) => (m3, Result::Err(seq![err_e] + errs)),
                    }
                } else {
                    (m2, Result::Err(Seq::empty()))
                },
            }
        }
    }
}

/// The parser built by [`least_till`].
pub struct LeastTill<P, E2> {
    pub p: P,
    pub end: E2,
}

/// Lazy repetition up to a terminator: the dual of [`most_till`], it
/// accepts `end` at the first opportunity and parses one more element only
/// when `end` currently fails.
pub fn least_till<P, E2>(p: P, end: E2) -> (r: LeastTill<P, E2>)
    ensures
        r.p == p,
        r.end == end,
{
    LeastTill { p, end }
}

fn least_till_run<C: Cursor, P: Parser<C>, E2>(p: &P, end: &E2, c: &mut C) -> (r: Result<
    (Vec<P::Value>, E2::Value),
    Vec<P::Error>,
>)
    where
        E2: Parser<C, Error = P::Error>,
    requires
        p.wf(),
        end.wf(),
        consumes_on_success::<C, P>(*p),
        never_grows::<C, E2>(*end),
    ensures
        final(c).deep_view() == least_till_spec::<C, P, E2>(*p, *end, old(c).deep_view()).0,
        crate::parser::outcome_agrees(
            r,
            least_till_spec::<C, P, E2>(*p, *end, old(c).deep_view()).1,
        ),
    decreases C::spec_size(c.deep_view()),
{
    match end.parse(c) {
        Result::Ok(u) => {
            let ts: Vec<P::Value> = Vec::new();
            proof {
                assert(ts.deep_view() =~= Seq::<<P::Value as DeepView>::V>::empty());
            }
            Result::Ok((ts, u))
        }
        Result::Err(err_e) => {
            let ghost eev = err_e.deep_view();
            match p.parse(c) {
                Result::Err(err_p) => {
                    let ghost epv = err_p.deep_view();
                    let mut errs: Vec<P::Error> = Vec::new();
                    errs.push(err_e);
                    errs.push(err_p);
                    proof {
                        assert(errs.deep_view() =~= seq![eev, epv]);
                    }
                    Result::Err(errs)
                }
                Result::Ok(t) => {
                    let ghost tv = t.deep_view();
                    match least_till_run(p, end, c) {
                        Result::Ok((mut ts, u)) => {
                            let ghost tsv = ts.deep_view();
                            ts.insert(0, t);
                            proof {
                                assert(ts.deep_view() =~= seq![tv] + tsv);
                            }
                            Result::Ok((ts, u))
                        }
                        Result::Err(mut errs) => {
                            let ghost esv = errs.deep_view();
                            errs.insert(0, err_e);
                            proof {
                                assert(errs.deep_view() =~= seq![eev] + esv);
                            }
                            Result::Err(errs)
                        }
                    }
                }
            }
        }
    }
}

impl<C: Cursor, P: Parser<C>, E2> Parser<C> for LeastTill<P, E2>
    where
        E2: Parser<C, Error = P::Error>,
{
    type Value = (Vec<P::Value>, E2::Value);

    type Error = Vec<P::Error>;

    open spec fn wf(&self) -> bool {
        self.p.wf() && self.end.wf() && consumes_on_success::<C, P>(self.p) && never_grows::<
            C,
            E2,
        >(self.end)
    }

    open spec fn spec_parse(&self, m: C::V) -> (C::V, Result<
        (Seq<<P::Value as DeepView>::V>, <E2::Value as DeepView>::V),
        Seq<<P::Error as DeepView>::V>,
    >) {
        least_till_spec::<C, P, E2>(self.p, self.end, m)
    }

    fn parse(&self, c: &mut C) -> (r: Result<(Vec<P::Value>, E2::Value), Vec<P::Error>>) {
        least_till_run::<C, P, E2>(&self.p, &self.end, c)
    }
}

} // verus!
