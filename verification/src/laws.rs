//! The algebraic laws of the combinator algebra, stated over the
//! combinators' meanings and proved once and for all.

use vstd::prelude::*;
use crate::cursor::Cursor;
use crate::parser::{Parser, MapFn, IdFn, consumes_on_success};
use crate::monadic::{Fmap, Fmap2, Otherwise};
use crate::errors::TryParse;
use crate::combinators::{Most, Unwind, MostTill, most_till_spec, LeastTill};

verus! {

/// Functor law: mapping with the identity function leaves a parser's
/// meaning unchanged. `fmap(identity, p)` and `p` map every cursor state
/// to the same next state and the same outcome.
pub proof fn lemma_fmap_identity<C: Cursor, P: Parser<C>>(q: Fmap<IdFn<P::Value>, P>, m: C::V)
    ensures
        q.spec_parse(m) == q.p.spec_parse(m),
{
    let (m1, r1) = q.p.spec_parse(m);
    match r1 {
        Result::Ok(t) => {
            assert(q.spec_parse(m) == (m1, Result::<
                <P::Value as DeepView>::V,
                <P::Error as DeepView>::V,
            >::Ok(t)));
        }
        Result::Err(e) => {}
    }
}

/// Sequencing short-circuit: when the first parser of a pair fails, the
/// pair fails with that same error, and the cursor goes exactly where the
/// first parser left it.
pub proof fn lemma_fmap2_short_circuit<C: Cursor, P0: Parser<C>, P1, F>(
    q: Fmap2<F, P0, P1>,
    m: C::V,
)
    where
        P1: Parser<C, Error = P0::Error>,
        F: MapFn<(P0::Value, P1::Value)>,
    requires
        q.p0.spec_parse(m).1 is Err,
    ensures
        q.spec_parse(m).0 == q.p0.spec_parse(m).0,
        q.spec_parse(m).1 is Err,
        match (q.spec_parse(m).1, q.p0.spec_parse(m).1) {
            (Result::Err(e), Result::Err(e0)) => e == e0,
            _ => false,
        },
{
}

/// Sequencing short-circuit, second half: when the first parser fails,
/// the second parser is never consulted — two pairs sharing the failing
/// first parser and the combining function mean the same, whatever their
/// second parsers.
pub proof fn lemma_fmap2_ignores_second<C: Cursor, P0: Parser<C>, P1, F>(
    q: Fmap2<F, P0, P1>,
    q2: Fmap2<F, P0, P1>,
    m: C::V,
)
    where
        P1: Parser<C, Error = P0::Error>,
        F: MapFn<(P0::Value, P1::Value)>,
    requires
        q.p0 == q2.p0,
        q.f == q2.f,
        q.p0.spec_parse(m).1 is Err,
    ensures
        q.spec_parse(m) == q2.spec_parse(m),
{
}

/// Choice associativity: nesting ordered choice to the left or to the
/// right means the same — in particular, when all three branches fail,
/// both nestings produce the same flattened error list in encounter
/// order.
pub proof fn lemma_otherwise_associative<C: Cursor, E: DeepView, PA, PB, PC>(
    left: Otherwise<Otherwise<PA, PB>, PC>,
    right: Otherwise<PA, Otherwise<PB, PC>>,
    m: C::V,
)
    where
        PA: Parser<C, Error = Vec<E>>,
        PB: Parser<C, Value = PA::Value, Error = Vec<E>>,
        PC: Parser<C, Value = PA::Value, Error = Vec<E>>,
    requires
        left.p0.p0 == right.p0,
        left.p0.p1 == right.p1.p0,
        left.p1 == right.p1.p1,
    ensures
        left.spec_parse(m) == right.spec_parse(m),
{
    let (m1, r1) = right.p0.spec_parse(m);
    match r1 {
        Result::Ok(t) => {}
        Result::Err(e0) => {
            let (m2, r2) = right.p1.p0.spec_parse(m1);
            match r2 {
                Result::Ok(t) => {}
                Result::Err(e1) => {
                    let (m3, r3) = right.p1.p1.spec_parse(m2);
                    match r3 {
                        Result::Ok(t) => {}
                        Result::Err(e2) => {
                            assert((e0 + e1) + e2 =~= e0 + (e1 + e2));
                        }
                    }
                }
            }
        }
    }
}

/// Rollback: when the wrapped parser fails, `try_parse` leaves the cursor
/// at exactly the state it had before the call; when it succeeds, the
/// advanced cursor and the value stand as the wrapped parser produced
/// them.
pub proof fn lemma_try_parse_rollback<C: Cursor, P: Parser<C>>(q: TryParse<P>, m: C::V)
    ensures
        q.p.spec_parse(m).1 is Err ==> q.spec_parse(m) == (m, q.p.spec_parse(m).1),
        q.p.spec_parse(m).1 is Ok ==> q.spec_parse(m) == q.p.spec_parse(m),
{
}

/// Rollback, unconditional form: `unwind` always restores the original
/// cursor state while preserving the wrapped parser's produced value or
/// error.
pub proof fn lemma_unwind_restores<C: Cursor, P: Parser<C>>(q: Unwind<P>, m: C::V)
    ensures
        q.spec_parse(m).0 == m,
        q.spec_parse(m).1 == q.p.spec_parse(m).1,
{
}

/// Repetition safety: `most` never fails, whatever the element parser
/// does.
pub proof fn lemma_most_never_fails<C: Cursor, P: Parser<C>>(q: Most<P>, m: C::V)
    ensures
        q.spec_parse(m).1 is Ok,
{
}

/// Repetition base case: when the element parser never gets started — its
/// first attempt fails — `most` returns the empty sequence and leaves the
/// cursor exactly where that failed attempt left it.
pub proof fn lemma_most_empty<C: Cursor, P: Parser<C>>(q: Most<P>, m: C::V)
    requires
        q.p.spec_parse(m).1 is Err,
    ensures
        q.spec_parse(m) == (
            q.p.spec_parse(m).0,
            Result::<Seq<<P::Value as DeepView>::V>, <P::Error as DeepView>::V>::Ok(Seq::empty()),
        ),
{
}

/// Greediness: as long as the element parser succeeds and the recursive
/// tail run succeeds, `most_till` takes the element path and conses the
/// element onto the tail's collection — the terminator is not consulted
/// at this position.
pub proof fn lemma_most_till_greedy<C: Cursor, P: Parser<C>, E2>(q: MostTill<P, E2>, m: C::V)
    where
        E2: Parser<C, Error = P::Error>,
    requires
        consumes_on_success::<C, P>(q.p),
        q.p.spec_parse(m).1 is Ok,
    ensures
        ({
            let (m1, r1) = q.p.spec_parse(m);
            let (m2, r2) = most_till_spec::<C, P, E2>(q.p, q.end, m1);
            match (r1, r2) {
                (Result::Ok(t), Result::Ok((ts, u))) => q.spec_parse(m) == (
                    m2,
                    Result::<_, Seq<<P::Error as DeepView>::V>>::Ok((seq![t] + ts, u)),
                ),
                _ => true,
            }
        }),
{
}

/// Laziness: when the terminator succeeds immediately, `least_till`
/// accepts it at the first opportunity, collecting no elements.
pub proof fn lemma_least_till_lazy<C: Cursor, P: Parser<C>, E2>(q: LeastTill<P, E2>, m: C::V)
    where
        E2: Parser<C, Error = P::Error>,
    requires
        q.end.spec_parse(m).1 is Ok,
    ensures
        ({
            let (m1, r1) = q.end.spec_parse(m);
            match r1 {
                Result::Ok(u) => q.spec_parse(m) == (
                    m1,
                    Result::<_, Seq<<P::Error as DeepView>::V>>::Ok((
                        Seq::<<P::Value as DeepView>::V>::empty(),
                        u,
                    )),
                ),
                _ => true,
            }
        }),
{
}

} // verus!
