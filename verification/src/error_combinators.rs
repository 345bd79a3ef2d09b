//! Borrowing variants of the error-recovery combinators: the same
//! machinery as [`crate::errors`], built over references, so one parser
//! can feed several combinators without being moved.

use vstd::prelude::*;
use crate::errors::{Fail, FmapErr, TryParse, RecoverWith, FlattenErrors};

verus! {

/// Always fails, building the error from the current cursor position;
/// consumes nothing. Borrows the message builder.
pub fn fail<'a, M, T>(msg: &'a M) -> (r: Fail<&'a M, T>)
    ensures
        r.msg == msg,
{
    Fail { msg, ph: core::marker::PhantomData }
}

/// Runs `parser`; on failure applies `f` to the error; success is
/// unchanged. Borrows both ingredients.
pub fn fmap_err<'a, P, F>(parser: &'a P, f: &'a F) -> (r: FmapErr<&'a F, &'a P>)
    ensures
        r.f == f,
        r.p == parser,
{
    FmapErr { f, p: parser }
}

/// Snapshots the cursor, runs `parser`; on failure restores the cursor to
/// the snapshot before propagating the error. Borrows the parser.
pub fn unwind_on_err<'a, P>(parser: &'a P) -> (r: TryParse<&'a P>)
    ensures
        r.p == parser,
{
    TryParse { p: parser }
}

/// Runs `parser`; on its failure runs `recover`; a recovered failure comes
/// back as a successful soft failure. Borrows both parsers.
pub fn recover_with<'a, P, R>(parser: &'a P, recover: &'a R) -> (r: RecoverWith<&'a P, &'a R>)
    ensures
        r.p == parser,
        r.recover == recover,
{
    RecoverWith { p: parser, recover }
}

/// Converts a successfully produced soft failure back into a hard
/// failure. Borrows the parser.
pub fn flatten_errors<'a, P>(parser: &'a P) -> (r: FlattenErrors<&'a P>)
    ensures
        r.p == parser,
{
    FlattenErrors { p: parser }
}

} // verus!
