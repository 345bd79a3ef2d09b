//! Folding single outcomes into an accumulated outcome: values collect
//! while everything succeeds; from the first failure on, errors collect
//! instead.

use vstd::prelude::*;

verus! {

/// The view of an accumulated outcome.
pub open spec fn acc_view<T: DeepView, E: DeepView>(r: Result<Vec<T>, Vec<E>>) -> Result<
    Seq<T::V>,
    Seq<E::V>,
> {
    match r {
        Result::Ok(ts) => Result::Ok(ts.deep_view()),
        Result::Err(es) => Result::Err(es.deep_view()),
    }
}

/// The view of a single outcome.
pub open spec fn one_view<T: DeepView, E: DeepView>(r: Result<T, E>) -> Result<T::V, E::V> {
    match r {
        Result::Ok(t) => Result::Ok(t.deep_view()),
        Result::Err(e) => Result::Err(e.deep_view()),
    }
}

/// How one outcome folds into an accumulated outcome: a value joins the
/// collected values; the first error starts the error list and later
/// errors join it; a value arriving after an error is dropped.
pub open spec fn spec_result_append<TV, EV>(acc: Result<Seq<TV>, Seq<EV>>, one: Result<TV, EV>) -> Result<
    Seq<TV>,
    Seq<EV>,
> {
    match acc {
        Result::Ok(ts) => match one {
            Result::Ok(t) => Result::Ok(ts.push(t)),
            Result::Err(e) => Result::Err(seq![e]),
        },
        Result::Err(es) => match one {
            Result::Err(e) => Result::Err(es.push(e)),
            Result::Ok(t) => Result::Err(es),
        },
    }
}

/// Folds one outcome into the accumulated outcome in place.
pub fn result_append<T: DeepView, E: DeepView>(
    resvec: &mut Result<Vec<T>, Vec<E>>,
    resval: Result<T, E>,
)
    ensures
        acc_view(*final(resvec)) == spec_result_append(acc_view(*old(resvec)), one_view(resval)),
{
    match resvec {
        Result::Ok(ts) => match resval {
            Result::Ok(t) => {
                let ghost pre = ts.deep_view();
                let ghost tv = t.deep_view();
                ts.push(t);
                proof {
                    assert(ts.deep_view() =~= pre.push(tv));
                }
            }
            Result::Err(err) => {
                let ghost ev = err.deep_view();
                let mut es: Vec<E> = Vec::new();
                es.push(err);
                proof {
                    assert(es.deep_view() =~= seq![ev]);
                }
                *resvec = Result::Err(es);
            }
        },
        Result::Err(errs) => match resval {
            Result::Err(err) => {
                let ghost pre = errs.deep_view();
                let ghost ev = err.deep_view();
                errs.push(err);
                proof {
                    assert(errs.deep_view() =~= pre.push(ev));
                }
            }
            _ => {}
        },
    }
}

} // verus!
