//! Error-recovery combinators and the structured error model.
//!
//! A failure is a value, never an unwound exception. The structured
//! [`ParseError`] tree represents silent, simple, contextual and branching
//! failures; reduction strategies collapse a choice-shaped list of failures
//! into one representative diagnostic.

use vstd::prelude::*;
use vstd::string::StringExecFns;
use crate::cursor::Cursor;
use crate::parser::{Parser, MapFn, CursorFn, StagedFn};

verus! {

/// A parse failure, parameterized by a caller-supplied position-info type.
#[derive(Debug, PartialEq)]
pub enum ParseError<Info> {
    /// A failure carrying no diagnostic content.
    Silent,
    /// "expected `name`" at a captured position.
    Message(String, Info),
    /// An inner error wrapped with the enclosing rule's name and position.
    Contextual(String, Info, Box<ParseError<Info>>),
    /// Failures produced by sequential collection of repeated elements.
    ErrBundle(Vec<ParseError<Info>>),
    /// Failures from mutually exclusive branches at one choice point.
    ErrChoice(Vec<ParseError<Info>>),
}

/// The mathematical shape of a [`ParseError`]: its deep view.
pub enum ErrTree<IV> {
    Silent,
    Message(Seq<char>, IV),
    Contextual(Seq<char>, IV, Box<ErrTree<IV>>),
    ErrBundle(Seq<ErrTree<IV>>),
    ErrChoice(Seq<ErrTree<IV>>),
}

/// The deep view of a [`ParseError`], as a recursive tree transform.
pub open spec fn err_tree_of<Info: DeepView>(e: ParseError<Info>) -> ErrTree<Info::V>
    decreases e,
    via err_tree_of_dec::<Info>
{
    match e {
        ParseError::Silent => ErrTree::Silent,
        ParseError::Message(name, info) => ErrTree::Message(name@, info.deep_view()),
        ParseError::Contextual(name, info, inner) => ErrTree::Contextual(
            name@,
            info.deep_view(),
            Box::new(err_tree_of(*inner)),
        ),
        ParseError::ErrBundle(errs) => ErrTree::ErrBundle(err_trees_of(errs@)),
        ParseError::ErrChoice(errs) => ErrTree::ErrChoice(err_trees_of(errs@)),
    }
}

/// The deep views of a sequence of [`ParseError`]s, element-wise.
pub open spec fn err_trees_of<Info: DeepView>(s: Seq<ParseError<Info>>) -> Seq<ErrTree<Info::V>>
    decreases s,
{
    if s.len() == 0 {
        Seq::empty()
    } else {
        seq![err_tree_of(s[0])] + err_trees_of(s.drop_first())
    }
}

#[via_fn]
proof fn err_tree_of_dec<Info: DeepView>(e: ParseError<Info>) {
    match e {
        ParseError::ErrBundle(errs) => {
            assert(decreases_to!(e => errs));
            assert(decreases_to!(errs => errs@));
        }
        ParseError::ErrChoice(errs) => {
            assert(decreases_to!(e => errs));
            assert(decreases_to!(errs => errs@));
        }
        _ => {}
    }
}

/// Element-wise description of [`err_trees_of`].
pub proof fn lemma_err_trees_of<Info: DeepView>(s: Seq<ParseError<Info>>)
    ensures
        err_trees_of(s).len() == s.len(),
        forall|i: int| 0 <= i < s.len() ==> #[trigger] err_trees_of(s)[i] == err_tree_of(s[i]),
    decreases s.len(),
{
    if s.len() > 0 {
        lemma_err_trees_of(s.drop_first());
        assert forall|i: int| 0 <= i < s.len() implies #[trigger] err_trees_of(s)[i]
            == err_tree_of(s[i]) by {
            if i > 0 {
                assert(err_trees_of(s)[i] == err_trees_of(s.drop_first())[i - 1]);
                assert(s.drop_first()[i - 1] == s[i]);
            }
        }
    }
}

impl<Info: DeepView> DeepView for ParseError<Info> {
    type V = ErrTree<Info::V>;

    open spec fn deep_view(&self) -> ErrTree<Info::V> {
        err_tree_of(*self)
    }
}

/// A soft failure: a captured failure represented as a successful value so
/// parsing can continue past it.
#[derive(Debug, PartialEq)]
pub enum Soft<T, E> {
    /// The inner parser produced a value.
    Parsed(T),
    /// The inner parser failed; the failure was captured and parsing
    /// resynchronised past the error site.
    Reported(E),
}

impl<T: DeepView, E: DeepView> DeepView for Soft<T, E> {
    type V = Soft<T::V, E::V>;

    open spec fn deep_view(&self) -> Soft<T::V, E::V> {
        match self {
            Soft::Parsed(t) => Soft::Parsed(t.deep_view()),
            Soft::Reported(e) => Soft::Reported(e.deep_view()),
        }
    }
}

/// The parser built by [`fail`]: always fails, consuming nothing.
pub struct Fail<M, T> {
    pub msg: M,
    pub ph: core::marker::PhantomData<T>,
}

/// Always fails, building the error from the current cursor position;
/// consumes nothing.
pub fn fail<M, T>(msg: M) -> (r: Fail<M, T>)
    ensures
        r.msg == msg,
{
    Fail { msg, ph: core::marker::PhantomData }
}

impl<C: Cursor, M: CursorFn<C>, T: DeepView> Parser<C> for Fail<M, T> {
    type Value = T;

    type Error = M::Out;

    open spec fn wf(&self) -> bool {
        true
    }

    open spec fn spec_parse(&self, m: C::V) -> (C::V, Result<T::V, <M::Out as DeepView>::V>) {
        (m, Result::Err(self.msg.spec_call(m)))
    }

    fn parse(&self, c: &mut C) -> (r: Result<T, M::Out>) {
        Result::Err(self.msg.call(c))
    }
}

/// The parser built by [`fmap_err`]: transforms the error on failure.
pub struct FmapErr<F, P> {
    pub f: F,
    pub p: P,
}

/// Runs `p`; on failure applies `f` to the error; success is unchanged.
pub fn fmap_err<F, P>(f: F, p: P) -> (r: FmapErr<F, P>)
    ensures
        r.f == f,
        r.p == p,
{
    FmapErr { f, p }
}

impl<C: Cursor, P: Parser<C>, F: MapFn<P::Error>> Parser<C> for FmapErr<F, P> {
    type Value = P::Value;

    type Error = F::Out;

    open spec fn wf(&self) -> bool {
        self.p.wf()
    }

    open spec fn spec_parse(&self, m: C::V) -> (C::V, Result<
        <P::Value as DeepView>::V,
        <F::Out as DeepView>::V,
    >) {
        let (m1, r1) = self.p.spec_parse(m);
        match r1 {
            Result::Ok(t) => (m1, Result::Ok(t)),
            Result::Err(e) => (m1, Result::Err(self.f.spec_call(e))),
        }
    }

    fn parse(&self, c: &mut C) -> (r: Result<P::Value, F::Out>) {
        match self.p.parse(c) {
            Result::Ok(t) => Result::Ok(t),
            Result::Err(e) => Result::Err(self.f.call(e)),
        }
    }
}

/// The parser built by [`fmap_err_with_state`]: captures the position
/// before the inner parse, then transforms whatever error surfaces.
pub struct FmapErrWithState<F, P> {
    pub f: F,
    pub p: P,
}

/// Captures from the cursor *before* running `p`; on failure applies the
/// position-specific transform to the error that surfaced.
pub fn fmap_err_with_state<F, P>(f: F, p: P) -> (r: FmapErrWithState<F, P>)
    ensures
        r.f == f,
        r.p == p,
{
    FmapErrWithState { f, p }
}

impl<C: Cursor, P: Parser<C>, F: StagedFn<C, P::Error>> Parser<C> for FmapErrWithState<F, P> {
    type Value = P::Value;

    type Error = F::Out;

    open spec fn wf(&self) -> bool {
        self.p.wf()
    }

    open spec fn spec_parse(&self, m: C::V) -> (C::V, Result<
        <P::Value as DeepView>::V,
        <F::Out as DeepView>::V,
    >) {
        let mid = self.f.spec_capture(m);
        let (m1, r1) = self.p.spec_parse(m);
        match r1 {
            Result::Ok(t) => (m1, Result::Ok(t)),
            Result::Err(e) => (m1, Result::Err(self.f.spec_apply(mid, e))),
        }
    }

    fn parse(&self, c: &mut C) -> (r: Result<P::Value, F::Out>) {
        let mid = self.f.capture(c);
        match self.p.parse(c) {
            Result::Ok(t) => Result::Ok(t),
            Result::Err(e) => Result::Err(self.f.apply(mid, e)),
        }
    }
}

/// The parser built by [`try_parse`]: the rollback primitive.
pub struct TryParse<P> {
    pub p: P,
}

/// Snapshots the cursor, runs `p`; on failure restores the cursor to the
/// snapshot before propagating the error; on success leaves the advanced
/// cursor in place. The only mechanism that undoes partial consumption.
pub fn try_parse<P>(p: P) -> (r: TryParse<P>)
    ensures
        r.p == p,
{
    TryParse { p }
}

impl<C: Cursor, P: Parser<C>> Parser<C> for TryParse<P> {
    type Value = P::Value;

    type Error = P::Error;

    open spec fn wf(&self) -> bool {
        self.p.wf()
    }

    open spec fn spec_parse(&self, m: C::V) -> (C::V, Result<
        <P::Value as DeepView>::V,
        <P::Error as DeepView>::V,
    >) {
        let (m1, r1) = self.p.spec_parse(m);
        match r1 {
            Result::Ok(t) => (m1, Result::Ok(t)),
            Result::Err(e) => (m, Result::Err(e)),
        }
    }

    fn parse(&self, c: &mut C) -> (r: Result<P::Value, P::Error>) {
        let pre = c.mark();
        match self.p.parse(c) {
            Result::Ok(t) => Result::Ok(t),
            Result::Err(e) => {
                *c = pre;
                Result::Err(e)
            }
        }
    }
}

/// The parser built by [`negate`]: swaps the success and failure channels.
pub struct Negate<P> {
    pub p: P,
}

/// Succeeding becomes failing, yielding the former value as the error, and
/// vice versa; the basis of negative lookahead.
pub fn negate<P>(p: P) -> (r: Negate<P>)
    ensures
        r.p == p,
{
    Negate { p }
}

impl<C: Cursor, P: Parser<C>> Parser<C> for Negate<P> {
    type Value = P::Error;

    type Error = P::Value;

    open spec fn wf(&self) -> bool {
        self.p.wf()
    }

    open spec fn spec_parse(&self, m: C::V) -> (C::V, Result<
        <P::Error as DeepView>::V,
        <P::Value as DeepView>::V,
    >) {
        let (m1, r1) = self.p.spec_parse(m);
        match r1 {
            Result::Ok(t) => (m1, Result::Err(t)),
            Result::Err(e) => (m1, Result::Ok(e)),
        }
    }

    fn parse(&self, c: &mut C) -> (r: Result<P::Error, P::Value>) {
        match self.p.parse(c) {
            Result::Ok(t) => Result::Err(t),
            Result::Err(e) => Result::Ok(e),
        }
    }
}

/// The parser built by [`recover_with`]: resynchronisation after a
/// reported error.
pub struct RecoverWith<P, R> {
    pub p: P,
    pub recover: R,
}

/// Runs `p`; on its failure runs `recover`. If recovery succeeds, the
/// original failure is returned as a successful soft failure, so the caller
/// can continue parsing past the error site; if recovery itself fails, that
/// second failure propagates as the real failure.
pub fn recover_with<P, R>(p: P, recover: R) -> (r: RecoverWith<P, R>)
    ensures
        r.p == p,
        r.recover == recover,
{
    RecoverWith { p, recover }
}

impl<C: Cursor, P: Parser<C>, R> Parser<C> for RecoverWith<P, R>
    where
        R: Parser<C, Value = ()>,
{
    type Value = Soft<P::Value, P::Error>;

    type Error = R::Error;

    open spec fn wf(&self) -> bool {
        self.p.wf() && self.recover.wf()
    }

    open spec fn spec_parse(&self, m: C::V) -> (C::V, Result<
        Soft<<P::Value as DeepView>::V, <P::Error as DeepView>::V>,
        <R::Error as DeepView>::V,
    >) {
        let (m1, r1) = self.p.spec_parse(m);
        match r1 {
            Result::Ok(t) => (m1, Result::Ok(Soft::Parsed(t))),
            Result::Err(e) => {
                let (m2, r2) = self.recover.spec_parse(m1);
                match r2 {
                    Result::Ok(u) => (m2, Result::Ok(Soft::Reported(e))),
                    Result::Err(f) => (m2, Result::Err(f)),
                }
            }
        }
    }

    fn parse(&self, c: &mut C) -> (r: Result<Soft<P::Value, P::Error>, R::Error>) {
        match self.p.parse(c) {
            Result::Ok(t) => Result::Ok(Soft::Parsed(t)),
            Result::Err(e) => match self.recover.parse(c) {
                Result::Ok(u) => Result::Ok(Soft::Reported(e)),
                Result::Err(f) => Result::Err(f),
            },
        }
    }
}

/// The parser built by [`flatten_errors`]: the dual of [`recover_with`].
pub struct FlattenErrors<P> {
    pub p: P,
}

/// Converts a successfully produced soft failure back into a hard failure,
/// for call sites that enforce strictness again.
pub fn flatten_errors<P>(p: P) -> (r: FlattenErrors<P>)
    ensures
        r.p == p,
{
    FlattenErrors { p }
}

impl<C: Cursor, P, T: DeepView, E: DeepView> Parser<C> for FlattenErrors<P>
    where
        P: Parser<C, Value = Soft<T, E>, Error = E>,
{
    type Value = T;

    type Error = E;

    open spec fn wf(&self) -> bool {
        self.p.wf()
    }

    open spec fn spec_parse(&self, m: C::V) -> (C::V, Result<T::V, E::V>) {
        let (m1, r1) = self.p.spec_parse(m);
        match r1 {
            Result::Ok(s) => match s {
                Soft::Parsed(t) => (m1, Result::Ok(t)),
                Soft::Reported(e) => (m1, Result::Err(e)),
            },
            Result::Err(e) => (m1, Result::Err(e)),
        }
    }

    fn parse(&self, c: &mut C) -> (r: Result<T, E>) {
        match self.p.parse(c) {
            Result::Ok(Soft::Parsed(t)) => Result::Ok(t),
            Result::Ok(Soft::Reported(e)) => Result::Err(e),
            Result::Err(e) => Result::Err(e),
        }
    }
}

/// The parser built by [`wrap_err`]: lifts a single error into a
/// one-element error list.
pub struct WrapErr<P> {
    pub p: P,
}

/// On failure, wraps the single error into a one-element list, so the
/// parser can feed the list-based choice engine.
pub fn wrap_err<P>(p: P) -> (r: WrapErr<P>)
    ensures
        r.p == p,
{
    WrapErr { p }
}

impl<C: Cursor, P: Parser<C>> Parser<C> for WrapErr<P> {
    type Value = P::Value;

    type Error = Vec<P::Error>;

    open spec fn wf(&self) -> bool {
        self.p.wf()
    }

    open spec fn spec_parse(&self, m: C::V) -> (C::V, Result<
        <P::Value as DeepView>::V,
        Seq<<P::Error as DeepView>::V>,
    >) {
        let (m1, r1) = self.p.spec_parse(m);
        match r1 {
            Result::Ok(t) => (m1, Result::Ok(t)),
            Result::Err(e) => (m1, Result::Err(seq![e])),
        }
    }

    fn parse(&self, c: &mut C) -> (r: Result<P::Value, Vec<P::Error>>) {
        match self.p.parse(c) {
            Result::Ok(t) => Result::Ok(t),
            Result::Err(e) => {
                let ghost ev = e.deep_view();
                let mut errs: Vec<P::Error> = Vec::new();
                errs.push(e);
                proof {
                    assert(errs.deep_view() =~= seq![ev]);
                }
                Result::Err(errs)
            }
        }
    }
}

/// The parser built by [`use_fst_err`]: keeps the first error of a list.
pub struct UseFstErr<P> {
    pub p: P,
}

/// On failure, extracts the first error of the accumulated list, for
/// single-error consumers. The inner parser must never fail with an empty
/// list.
pub fn use_fst_err<P>(p: P) -> (r: UseFstErr<P>)
    ensures
        r.p == p,
{
    UseFstErr { p }
}

impl<C: Cursor, P, E: DeepView> Parser<C> for UseFstErr<P>
    where
        P: Parser<C, Error = Vec<E>>,
{
    type Value = P::Value;

    type Error = E;

    open spec fn wf(&self) -> bool {
        &&& self.p.wf()
        &&& forall|m: C::V| (#[trigger] self.p.spec_parse(m)).1 matches Result::Err(es)
            ==> es.len() > 0
    }

    open spec fn spec_parse(&self, m: C::V) -> (C::V, Result<<P::Value as DeepView>::V, E::V>) {
        let (m1, r1) = self.p.spec_parse(m);
        match r1 {
            Result::Ok(t) => (m1, Result::Ok(t)),
            Result::Err(es) => (m1, Result::Err(es[0])),
        }
    }

    fn parse(&self, c: &mut C) -> (r: Result<P::Value, E>) {
        match self.p.parse(c) {
            Result::Ok(t) => Result::Ok(t),
            Result::Err(mut es) => {
                let e = es.remove(0);
                Result::Err(e)
            }
        }
    }
}

/// The parser built by [`use_lst_err`]: keeps the last error of a list.
pub struct UseLstErr<P> {
    pub p: P,
}

/// On failure, extracts the last error of the accumulated list, for
/// single-error consumers. The inner parser must never fail with an empty
/// list.
pub fn use_lst_err<P>(p: P) -> (r: UseLstErr<P>)
    ensures
        r.p == p,
{
    UseLstErr { p }
}

impl<C: Cursor, P, E: DeepView> Parser<C> for UseLstErr<P>
    where
        P: Parser<C, Error = Vec<E>>,
{
    type Value = P::Value;

    type Error = E;

    open spec fn wf(&self) -> bool {
        &&& self.p.wf()
        &&& forall|m: C::V| (#[trigger] self.p.spec_parse(m)).1 matches Result::Err(es)
            ==> es.len() > 0
    }

    open spec fn spec_parse(&self, m: C::V) -> (C::V, Result<<P::Value as DeepView>::V, E::V>) {
        let (m1, r1) = self.p.spec_parse(m);
        match r1 {
            Result::Ok(t) => (m1, Result::Ok(t)),
            Result::Err(es) => (m1, Result::Err(es[es.len() - 1])),
        }
    }

    fn parse(&self, c: &mut C) -> (r: Result<P::Value, E>) {
        match self.p.parse(c) {
            Result::Ok(t) => Result::Ok(t),
            Result::Err(mut es) => {
                let e = es.remove(es.len() - 1);
                Result::Err(e)
            }
        }
    }
}

/// The parser built by [`silence`]: opts a branch out of diagnostic
/// reporting.
pub struct Silence<P, Info> {
    pub p: P,
    pub ph: core::marker::PhantomData<Info>,
}

/// Converts any failure of `p` into [`ParseError::Silent`], so the branch
/// still participates in choice but reports nothing.
pub fn silence<P, Info>(p: P) -> (r: Silence<P, Info>)
    ensures
        r.p == p,
{
    Silence { p, ph: core::marker::PhantomData }
}

impl<C: Cursor, P: Parser<C>, Info: DeepView> Parser<C> for Silence<P, Info> {
    type Value = P::Value;

    type Error = ParseError<Info>;

    open spec fn wf(&self) -> bool {
        self.p.wf()
    }

    open spec fn spec_parse(&self, m: C::V) -> (C::V, Result<
        <P::Value as DeepView>::V,
        ErrTree<Info::V>,
    >) {
        let (m1, r1) = self.p.spec_parse(m);
        match r1 {
            Result::Ok(t) => (m1, Result::Ok(t)),
            Result::Err(e) => (m1, Result::Err(ErrTree::Silent)),
        }
    }

    fn parse(&self, c: &mut C) -> (r: Result<P::Value, ParseError<Info>>) {
        match self.p.parse(c) {
            Result::Ok(t) => Result::Ok(t),
            Result::Err(e) => Result::Err(ParseError::Silent),
        }
    }
}

/// The parser built by [`bundle`]: failures collected sequentially become
/// one bundled failure.
pub struct Bundle<P> {
    pub p: P,
}

/// On failure, wraps the accumulated error list as one
/// [`ParseError::ErrBundle`].
pub fn bundle<P>(p: P) -> (r: Bundle<P>)
    ensures
        r.p == p,
{
    Bundle { p }
}

impl<C: Cursor, P, Info: DeepView> Parser<C> for Bundle<P>
    where
        P: Parser<C, Error = Vec<ParseError<Info>>>,
{
    type Value = P::Value;

    type Error = ParseError<Info>;

    open spec fn wf(&self) -> bool {
        self.p.wf()
    }

    open spec fn spec_parse(&self, m: C::V) -> (C::V, Result<
        <P::Value as DeepView>::V,
        ErrTree<Info::V>,
    >) {
        let (m1, r1) = self.p.spec_parse(m);
        match r1 {
            Result::Ok(t) => (m1, Result::Ok(t)),
            Result::Err(es) => (m1, Result::Err(ErrTree::ErrBundle(es))),
        }
    }

    fn parse(&self, c: &mut C) -> (r: Result<P::Value, ParseError<Info>>) {
        match self.p.parse(c) {
            Result::Ok(t) => Result::Ok(t),
            Result::Err(es) => {
                proof {
                    lemma_err_trees_of(es@);
                    assert(err_trees_of(es@) =~= es.deep_view());
                }
                Result::Err(ParseError::ErrBundle(es))
            }
        }
    }
}

/// The parser built by [`label`]: names the enclosing rule in diagnostics.
pub struct Label<G, P> {
    pub name: String,
    pub getter: G,
    pub p: P,
}

/// Wraps `p` so that any resulting error, unless already silent, is
/// re-wrapped as [`ParseError::Contextual`] with this rule's name and the
/// position captured before the parse; this builds the nesting trail the
/// display strategies walk.
pub fn label<G, P>(name: String, getter: G, p: P) -> (r: Label<G, P>)
    ensures
        r.name == name,
        r.getter == getter,
        r.p == p,
{
    Label { name, getter, p }
}

impl<C: Cursor, Info, G, P> Parser<C> for Label<G, P>
    where
        Info: DeepView,
        G: CursorFn<C, Out = Info>,
        P: Parser<C, Error = ParseError<Info>>,
{
    type Value = P::Value;

    type Error = ParseError<Info>;

    open spec fn wf(&self) -> bool {
        self.p.wf()
    }

    open spec fn spec_parse(&self, m: C::V) -> (C::V, Result<
        <P::Value as DeepView>::V,
        ErrTree<Info::V>,
    >) {
        let info = self.getter.spec_call(m);
        let (m1, r1) = self.p.spec_parse(m);
        match r1 {
            Result::Ok(t) => (m1, Result::Ok(t)),
            Result::Err(e) => match e {
                ErrTree::Silent => (m1, Result::Err(ErrTree::Silent)),
                loud => (m1, Result::Err(ErrTree::Contextual(self.name@, info, Box::new(loud)))),
            },
        }
    }

    fn parse(&self, c: &mut C) -> (r: Result<P::Value, ParseError<Info>>) {
        let info = self.getter.call(c);
        match self.p.parse(c) {
            Result::Ok(t) => Result::Ok(t),
            Result::Err(e) => match e {
                ParseError::Silent => Result::Err(ParseError::Silent),
                loud => Result::Err(ParseError::Contextual(self.name.clone(), info, Box::new(
                    loud,
                ))),
            },
        }
    }
}

/// Truncation of a diagnostic tree: contextual wrapping is deleted and
/// replaced with the bare message; bundles and choices are truncated
/// element-wise. A lossy, intentional simplification for branches that
/// were not selected for full display.
pub open spec fn spec_truncate<IV>(t: ErrTree<IV>) -> ErrTree<IV>
    decreases t,
{
    match t {
        ErrTree::Silent => ErrTree::Silent,
        ErrTree::Message(name, info) => ErrTree::Message(name, info),
        ErrTree::Contextual(name, info, inner) => ErrTree::Message(name, info),
        ErrTree::ErrBundle(es) => ErrTree::ErrBundle(spec_truncate_all(es)),
        ErrTree::ErrChoice(es) => ErrTree::ErrChoice(spec_truncate_all(es)),
    }
}

/// Element-wise truncation of a sequence of diagnostic trees.
pub open spec fn spec_truncate_all<IV>(s: Seq<ErrTree<IV>>) -> Seq<ErrTree<IV>>
    decreases s,
{
    if s.len() == 0 {
        Seq::empty()
    } else {
        seq![spec_truncate(s[0])] + spec_truncate_all(s.drop_first())
    }
}

/// Element-wise description of [`spec_truncate_all`].
pub proof fn lemma_spec_truncate_all<IV>(s: Seq<ErrTree<IV>>)
    ensures
        spec_truncate_all(s).len() == s.len(),
        forall|i: int| 0 <= i < s.len() ==> #[trigger] spec_truncate_all(s)[i] == spec_truncate(
            s[i],
        ),
    decreases s.len(),
{
    if s.len() > 0 {
        lemma_spec_truncate_all(s.drop_first());
        assert forall|i: int| 0 <= i < s.len() implies #[trigger] spec_truncate_all(s)[i]
            == spec_truncate(s[i]) by {
            if i > 0 {
                assert(spec_truncate_all(s)[i] == spec_truncate_all(s.drop_first())[i - 1]);
                assert(s.drop_first()[i - 1] == s[i]);
            }
        }
    }
}

/// Deletes [`ParseError::Contextual`] wrapping beyond the first level,
/// replacing it with a plain [`ParseError::Message`]; bundles and choices
/// are truncated element-wise.
pub fn truncate_parse_err<Info: DeepView>(err: ParseError<Info>) -> (r: ParseError<Info>)
    ensures
        r.deep_view() == spec_truncate(err.deep_view()),
    decreases err,
{
    match err {
        ParseError::Silent => ParseError::Silent,
        ParseError::Message(name, info) => ParseError::Message(name, info),
        ParseError::Contextual(name, info, ctx) => ParseError::Message(name, info),
        ParseError::ErrBundle(errs) => {
            proof {
                assert(decreases_to!(err => errs));
                assert(decreases_to!(errs => errs@));
            }
            let out = truncate_each(errs);
            ParseError::ErrBundle(out)
        }
        ParseError::ErrChoice(errs) => {
            proof {
                assert(decreases_to!(err => errs));
                assert(decreases_to!(errs => errs@));
            }
            let out = truncate_each(errs);
            ParseError::ErrChoice(out)
        }
    }
}

/// Truncates every error of a list, keeping order.
#[verifier::loop_isolation(false)]
fn truncate_each<Info: DeepView>(errs: Vec<ParseError<Info>>) -> (r: Vec<ParseError<Info>>)
    ensures
        err_trees_of(r@) == spec_truncate_all(err_trees_of(errs@)),
    decreases errs@,
{
    let ghost errs0 = errs@;
    let mut rest = errs;
    let mut out: Vec<ParseError<Info>> = Vec::new();
    let ghost mut k: int = 0;
    proof {
        lemma_err_trees_of(errs0);
        lemma_spec_truncate_all(err_trees_of(errs0));
    }
    while rest.len() > 0
        invariant
            0 <= k <= errs0.len(),
            rest@ == errs0.skip(k),
            out@.len() == k,
            err_trees_of(errs0).len() == errs0.len(),
            spec_truncate_all(err_trees_of(errs0)).len() == errs0.len(),
            forall|i: int| 0 <= i < errs0.len() ==> #[trigger] err_trees_of(errs0)[i]
                == err_tree_of(errs0[i]),
            forall|i: int| 0 <= i < errs0.len() ==> #[trigger] spec_truncate_all(
                err_trees_of(errs0),
            )[i] == spec_truncate(err_trees_of(errs0)[i]),
            forall|i: int| 0 <= i < k ==> #[trigger] out@[i].deep_view() == spec_truncate(
                err_tree_of(errs0[i]),
            ),
        decreases rest@.len(),
    {
        let x = rest.remove(0);
        proof {
            assert(x == errs0[k]);
            assert(rest@ =~= errs0.skip(k + 1));
            assert(decreases_to!(errs0 => errs0[k]));
            assert(decreases_to!(errs0 => x));
        }
        let y = truncate_parse_err(x);
        out.push(y);
        proof {
            k = k + 1;
        }
    }
    proof {
        assert(errs0.skip(k).len() == errs0.len() - k);
        assert(k == errs0.len());
        lemma_err_trees_of(out@);
        assert forall|i: int| 0 <= i < out@.len() implies err_trees_of(out@)[i]
            == spec_truncate_all(err_trees_of(errs0))[i] by {
            assert(out@[i].deep_view() == spec_truncate(err_tree_of(errs0[i])));
        }
        assert(err_trees_of(out@) =~= spec_truncate_all(err_trees_of(errs0)));
    }
    out
}

/// Renders a position-info value for diagnostics, with a specification at
/// the level of views.
pub trait ShowFn<Info: DeepView>: Sized {
    spec fn spec_call(&self, i: Info::V) -> Seq<char>;

    fn call(&self, i: Info) -> (s: String)
        ensures
            s@ == self.spec_call(i.deep_view()),
    ;
}

/// A renderer that shows every position as one fixed text: the simplest
/// [`ShowFn`].
pub struct ConstShow {
    pub text: String,
}

impl<Info: DeepView> ShowFn<Info> for ConstShow {
    open spec fn spec_call(&self, i: Info::V) -> Seq<char> {
        self.text@
    }

    fn call(&self, i: Info) -> (s: String) {
        self.text.clone()
    }
}

/// The text [`show_error`] produces for a diagnostic tree.
pub open spec fn spec_show<Info: DeepView, F: ShowFn<Info>>(
    padding: Seq<char>,
    f: F,
    t: ErrTree<Info::V>,
) -> Seq<char>
    decreases t,
{
    match t {
        ErrTree::Silent => padding + "a silent error occured..."@,
        ErrTree::Message(name, iv) => padding + "expected "@ + name + " "@ + f.spec_call(iv)
            + "..."@,
        ErrTree::Contextual(name, iv, inner) => spec_show(padding, f, *inner) + "\n"@ + padding
            + "...whilst parsing "@ + name + " "@ + f.spec_call(iv) + "..."@,
        ErrTree::ErrBundle(es) => spec_show_items(padding, f, es, "|-[ in error bundle ]"@)
            + padding + "[ grouped here ]"@,
        ErrTree::ErrChoice(es) => spec_show_items(padding, f, es, "|-[ in choice ]"@) + padding
            + "[ branching here ]"@,
    }
}

/// The text for the items of a bundled or branching failure, one block
/// per item.
pub open spec fn spec_show_items<Info: DeepView, F: ShowFn<Info>>(
    padding: Seq<char>,
    f: F,
    es: Seq<ErrTree<Info::V>>,
    tag: Seq<char>,
) -> Seq<char>
    decreases es,
{
    if es.len() == 0 {
        Seq::empty()
    } else {
        spec_show(padding + "| "@, f, es[0]) + "\n"@ + padding + tag + "\n"@ + padding + "|"@
            + "\n"@ + spec_show_items(padding, f, es.drop_first(), tag)
    }
}

/// Renders a failure as an indented multi-line report: one line per
/// message, contextual trails below their inner error, bundled and
/// branching failures as labelled blocks.
pub fn show_error<Info: DeepView, F: ShowFn<Info>>(
    padding: String,
    show_info: &F,
    parse_err: ParseError<Info>,
) -> (r: String)
    ensures
        r@ == spec_show(padding@, *show_info, parse_err.deep_view()),
    decreases parse_err,
{
    match parse_err {
        ParseError::Silent => {
            let mut s = padding;
            s.append("a silent error occured...");
            s
        }
        ParseError::Message(name, info) => {
            let mut s = padding;
            s.append("expected ");
            s.append(name.as_str());
            s.append(" ");
            let shown = show_info.call(info);
            s.append(shown.as_str());
            s.append("...");
            s
        }
        ParseError::Contextual(name, info, err) => {
            let mut s = show_error(padding.clone(), show_info, *err);
            s.append("\n");
            s.append(padding.as_str());
            s.append("...whilst parsing ");
            s.append(name.as_str());
            s.append(" ");
            let shown = show_info.call(info);
            s.append(shown.as_str());
            s.append("...");
            s
        }
        ParseError::ErrBundle(errs) => {
            proof {
                assert(decreases_to!(parse_err => errs));
                assert(decreases_to!(errs => errs@));
            }
            let mut s = show_items(&padding, show_info, errs, true);
            s.append(padding.as_str());
            s.append("[ grouped here ]");
            s
        }
        ParseError::ErrChoice(errs) => {
            proof {
                assert(decreases_to!(parse_err => errs));
                assert(decreases_to!(errs => errs@));
            }
            let mut s = show_items(&padding, show_info, errs, false);
            s.append(padding.as_str());
            s.append("[ branching here ]");
            s
        }
    }
}

/// Renders the items of a bundled (`in_bundle`) or branching failure.
#[verifier::loop_isolation(false)]
fn show_items<Info: DeepView, F: ShowFn<Info>>(
    padding: &String,
    show_info: &F,
    errs: Vec<ParseError<Info>>,
    in_bundle: bool,
) -> (r: String)
    ensures
        r@ == spec_show_items(
            padding@,
            *show_info,
            err_trees_of(errs@),
            if in_bundle {
                "|-[ in error bundle ]"@
            } else {
                "|-[ in choice ]"@
            },
        ),
    decreases errs@,
{
    let ghost errs0 = errs@;
    let ghost tag: Seq<char> = if in_bundle {
        "|-[ in error bundle ]"@
    } else {
        "|-[ in choice ]"@
    };
    let mut rest = errs;
    let mut s = String::new();
    let ghost mut k: int = 0;
    proof {
        lemma_err_trees_of(errs0);
    }
    while rest.len() > 0
        invariant
            0 <= k <= errs0.len(),
            rest@ == errs0.skip(k),
            spec_show_items(padding@, *show_info, err_trees_of(errs0), tag) == s@
                + spec_show_items(padding@, *show_info, err_trees_of(rest@), tag),
        decreases rest@.len(),
    {
        let x = rest.remove(0);
        let ghost restpre = err_trees_of(errs0.skip(k));
        proof {
            assert(x == errs0[k]);
            assert(rest@ =~= errs0.skip(k + 1));
            assert(decreases_to!(errs0 => errs0[k]));
            assert(decreases_to!(errs0 => x));
            lemma_err_trees_of(errs0.skip(k));
            lemma_err_trees_of(rest@);
            assert(err_trees_of(errs0.skip(k)).drop_first() =~= err_trees_of(rest@));
            assert(restpre[0] == err_tree_of(x));
        }
        let mut sub_pad = padding.clone();
        sub_pad.append("| ");
        let shown = show_error(sub_pad, show_info, x);
        let ghost spre = s@;
        s.append(shown.as_str());
        s.append("\n");
        s.append(padding.as_str());
        if in_bundle {
            s.append("|-[ in error bundle ]");
        } else {
            s.append("|-[ in choice ]");
        }
        s.append("\n");
        s.append(padding.as_str());
        s.append("|");
        s.append("\n");
        proof {
            assert(s@ =~= spre + (spec_show(padding@ + "| "@, *show_info, err_tree_of(x)) + "\n"@
                + padding@ + tag + "\n"@ + padding@ + "|"@ + "\n"@));
            assert(spre + (spec_show_items(padding@, *show_info, restpre, tag)) =~= spre + (
            spec_show(padding@ + "| "@, *show_info, restpre[0]) + "\n"@ + padding@ + tag + "\n"@
                + padding@ + "|"@ + "\n"@ + spec_show_items(
                padding@,
                *show_info,
                restpre.drop_first(),
                tag,
            )));
            assert(spre + spec_show_items(padding@, *show_info, restpre, tag) =~= s@
                + spec_show_items(padding@, *show_info, err_trees_of(rest@), tag));
            k = k + 1;
        }
    }
    proof {
        assert(errs0.skip(k).len() == errs0.len() - k);
        assert(k == errs0.len());
        assert(err_trees_of(rest@) =~= Seq::<ErrTree<Info::V>>::empty());
        assert(spec_show_items(padding@, *show_info, err_trees_of(rest@), tag) =~= Seq::<
            char,
        >::empty());
        assert(s@ =~= s@ + Seq::<char>::empty());
    }
    s
}

/// The non-silent branches of a choice-shaped failure list, in order.
pub open spec fn loud<IV>(s: Seq<ErrTree<IV>>) -> Seq<ErrTree<IV>>
    decreases s.len(),
{
    if s.len() == 0 {
        Seq::empty()
    } else {
        let rest = loud(s.drop_first());
        if s[0] is Silent {
            rest
        } else {
            seq![s[0]] + rest
        }
    }
}

/// How [`loud`] grows when one more branch is appended.
pub proof fn lemma_loud_push<IV>(s: Seq<ErrTree<IV>>, t: ErrTree<IV>)
    ensures
        loud(s.push(t)) == if t is Silent {
            loud(s)
        } else {
            loud(s).push(t)
        },
    decreases s.len(),
{
    if s.len() == 0 {
        assert(s.push(t)[0] == t);
        assert(s.push(t).drop_first() =~= Seq::<ErrTree<IV>>::empty());
        assert(loud(Seq::<ErrTree<IV>>::empty()) =~= Seq::<ErrTree<IV>>::empty());
        assert(loud(s) =~= Seq::<ErrTree<IV>>::empty());
        if !(t is Silent) {
            assert(seq![t] + Seq::<ErrTree<IV>>::empty() =~= loud(s).push(t));
        }
    } else {
        assert(s.push(t)[0] == s[0]);
        assert(s.push(t).drop_first() =~= s.drop_first().push(t));
        lemma_loud_push(s.drop_first(), t);
        if !(s[0] is Silent) && !(t is Silent) {
            assert(seq![s[0]] + loud(s.drop_first()).push(t) =~= (seq![s[0]] + loud(
                s.drop_first(),
            )).push(t));
        }
    }
}

/// How [`err_trees_of`] grows when one more error is appended.
pub proof fn lemma_err_trees_push<Info: DeepView>(s: Seq<ParseError<Info>>, x: ParseError<Info>)
    ensures
        err_trees_of(s.push(x)) == err_trees_of(s).push(err_tree_of(x)),
{
    lemma_err_trees_of(s.push(x));
    lemma_err_trees_of(s);
    assert(err_trees_of(s.push(x)) =~= err_trees_of(s).push(err_tree_of(x)));
}

/// Drops the silent branches of an accumulated failure list, keeping order.
#[verifier::loop_isolation(false)]
fn keep_loud_vec<Info: DeepView>(errs: Vec<ParseError<Info>>) -> (r: Vec<ParseError<Info>>)
    ensures
        err_trees_of(r@) == loud(err_trees_of(errs@)),
{
    let ghost errs0 = errs@;
    let ghost ts = err_trees_of(errs0);
    let mut rest = errs;
    let mut out: Vec<ParseError<Info>> = Vec::new();
    let ghost mut k: int = 0;
    proof {
        lemma_err_trees_of(errs0);
        assert(err_trees_of(out@) =~= Seq::<ErrTree<Info::V>>::empty());
        assert(ts.take(0) =~= Seq::<ErrTree<Info::V>>::empty());
    }
    while rest.len() > 0
        invariant
            0 <= k <= errs0.len(),
            rest@ == errs0.skip(k),
            err_trees_of(out@) == loud(ts.take(k)),
        decreases rest@.len(),
    {
        let x = rest.remove(0);
        proof {
            assert(x == errs0[k]);
            assert(rest@ =~= errs0.skip(k + 1));
            assert(ts.take(k + 1) =~= ts.take(k).push(err_tree_of(x)));
            lemma_loud_push(ts.take(k), err_tree_of(x));
        }
        let keep = !matches!(x, ParseError::Silent);
        if keep {
            let ghost pre = out@;
            out.push(x);
            proof {
                lemma_err_trees_push(pre, x);
            }
        }
        proof {
            k = k + 1;
        }
    }
    proof {
        assert(errs0.skip(k).len() == errs0.len() - k);
        assert(ts.take(k) =~= ts);
    }
    out
}

/// The parser built by [`display_full_choice`]: keeps every non-silent
/// branch as a labeled choice node.
pub struct DisplayFullChoice<P> {
    pub p: P,
}

/// On failure, keeps every non-silent branch of the accumulated list in one
/// [`ParseError::ErrChoice`]; when every branch was silent, the whole
/// failure is silent.
pub fn display_full_choice<P>(p: P) -> (r: DisplayFullChoice<P>)
    ensures
        r.p == p,
{
    DisplayFullChoice { p }
}

impl<C: Cursor, P, Info: DeepView> Parser<C> for DisplayFullChoice<P>
    where
        P: Parser<C, Error = Vec<ParseError<Info>>>,
{
    type Value = P::Value;

    type Error = ParseError<Info>;

    open spec fn wf(&self) -> bool {
        self.p.wf()
    }

    open spec fn spec_parse(&self, m: C::V) -> (C::V, Result<
        <P::Value as DeepView>::V,
        ErrTree<Info::V>,
    >) {
        let (m1, r1) = self.p.spec_parse(m);
        match r1 {
            Result::Ok(t) => (m1, Result::Ok(t)),
            Result::Err(es) => {
                let l = loud(es);
                if l.len() != 0 {
                    (m1, Result::Err(ErrTree::ErrChoice(l)))
                } else {
                    (m1, Result::Err(ErrTree::Silent))
                }
            }
        }
    }

    fn parse(&self, c: &mut C) -> (r: Result<P::Value, ParseError<Info>>) {
        match self.p.parse(c) {
            Result::Ok(t) => Result::Ok(t),
            Result::Err(es) => {
                proof {
                    lemma_err_trees_of(es@);
                    assert(err_trees_of(es@) =~= es.deep_view());
                }
                let v = keep_loud_vec(es);
                proof {
                    lemma_err_trees_of(v@);
                }
                if v.len() != 0 {
                    Result::Err(ParseError::ErrChoice(v))
                } else {
                    Result::Err(ParseError::Silent)
                }
            }
        }
    }
}

/// The parser built by [`display_fst_nonsilent`]: keeps only the first
/// non-silent branch.
pub struct DisplayFstNonsilent<P> {
    pub p: P,
}

/// On failure, keeps the first non-silent branch of the accumulated list
/// and discards the rest entirely; when every branch was silent, the whole
/// failure is silent.
pub fn display_fst_nonsilent<P>(p: P) -> (r: DisplayFstNonsilent<P>)
    ensures
        r.p == p,
{
    DisplayFstNonsilent { p }
}

impl<C: Cursor, P, Info: DeepView> Parser<C> for DisplayFstNonsilent<P>
    where
        P: Parser<C, Error = Vec<ParseError<Info>>>,
{
    type Value = P::Value;

    type Error = ParseError<Info>;

    open spec fn wf(&self) -> bool {
        self.p.wf()
    }

    open spec fn spec_parse(&self, m: C::V) -> (C::V, Result<
        <P::Value as DeepView>::V,
        ErrTree<Info::V>,
    >) {
        let (m1, r1) = self.p.spec_parse(m);
        match r1 {
            Result::Ok(t) => (m1, Result::Ok(t)),
            Result::Err(es) => {
                let l = loud(es);
                if l.len() != 0 {
                    (m1, Result::Err(l[0]))
                } else {
                    (m1, Result::Err(ErrTree::Silent))
                }
            }
        }
    }

    fn parse(&self, c: &mut C) -> (r: Result<P::Value, ParseError<Info>>) {
        match self.p.parse(c) {
            Result::Ok(t) => Result::Ok(t),
            Result::Err(es) => {
                proof {
                    lemma_err_trees_of(es@);
                    assert(err_trees_of(es@) =~= es.deep_view());
                }
                let mut v = keep_loud_vec(es);
                proof {
                    lemma_err_trees_of(v@);
                }
                if v.len() != 0 {
                    let fst = v.remove(0);
                    Result::Err(fst)
                } else {
                    Result::Err(ParseError::Silent)
                }
            }
        }
    }
}

/// The parser built by [`display_lst_nonsilent`]: keeps only the last
/// non-silent branch.
pub struct DisplayLstNonsilent<P> {
    pub p: P,
}

/// On failure, keeps the last non-silent branch of the accumulated list
/// and discards the rest entirely; when every branch was silent, the whole
/// failure is silent.
pub fn display_lst_nonsilent<P>(p: P) -> (r: DisplayLstNonsilent<P>)
    ensures
        r.p == p,
{
    DisplayLstNonsilent { p }
}

impl<C: Cursor, P, Info: DeepView> Parser<C> for DisplayLstNonsilent<P>
    where
        P: Parser<C, Error = Vec<ParseError<Info>>>,
{
    type Value = P::Value;

    type Error = ParseError<Info>;

    open spec fn wf(&self) -> bool {
        self.p.wf()
    }

    open spec fn spec_parse(&self, m: C::V) -> (C::V, Result<
        <P::Value as DeepView>::V,
        ErrTree<Info::V>,
    >) {
        let (m1, r1) = self.p.spec_parse(m);
        match r1 {
            Result::Ok(t) => (m1, Result::Ok(t)),
            Result::Err(es) => {
                let l = loud(es);
                if l.len() != 0 {
                    (m1, Result::Err(l[l.len() - 1]))
                } else {
                    (m1, Result::Err(ErrTree::Silent))
                }
            }
        }
    }

    fn parse(&self, c: &mut C) -> (r: Result<P::Value, ParseError<Info>>) {
        match self.p.parse(c) {
            Result::Ok(t) => Result::Ok(t),
            Result::Err(es) => {
                proof {
                    lemma_err_trees_of(es@);
                    assert(err_trees_of(es@) =~= es.deep_view());
                }
                let mut v = keep_loud_vec(es);
                proof {
                    lemma_err_trees_of(v@);
                }
                if v.len() != 0 {
                    match v.pop() {
                        Some(lst) => Result::Err(lst),
                        None => {
                            proof {
                                assert(false);
                            }
                            Result::Err(ParseError::Silent)
                        }
                    }
                } else {
                    Result::Err(ParseError::Silent)
                }
            }
        }
    }
}

/// The parser built by [`display_fst_choice`]: full context for the first
/// non-silent branch, bare messages for the rest.
pub struct DisplayFstChoice<P> {
    pub p: P,
}

/// On failure, keeps the first non-silent branch with its full context and
/// truncates every later branch to bare messages, merged into one choice
/// node; a single branch stands alone; all-silent stays silent.
pub fn display_fst_choice<P>(p: P) -> (r: DisplayFstChoice<P>)
    ensures
        r.p == p,
{
    DisplayFstChoice { p }
}

impl<C: Cursor, P, Info: DeepView> Parser<C> for DisplayFstChoice<P>
    where
        P: Parser<C, Error = Vec<ParseError<Info>>>,
{
    type Value = P::Value;

    type Error = ParseError<Info>;

    open spec fn wf(&self) -> bool {
        self.p.wf()
    }

    open spec fn spec_parse(&self, m: C::V) -> (C::V, Result<
        <P::Value as DeepView>::V,
        ErrTree<Info::V>,
    >) {
        let (m1, r1) = self.p.spec_parse(m);
        match r1 {
            Result::Ok(t) => (m1, Result::Ok(t)),
            Result::Err(es) => {
                let l = loud(es);
                if l.len() == 0 {
                    (m1, Result::Err(ErrTree::Silent))
                } else if l.len() == 1 {
                    (m1, Result::Err(l[0]))
                } else {
                    (m1, Result::Err(ErrTree::ErrChoice(
                        seq![l[0]] + spec_truncate_all(l.drop_first()),
                    )))
                }
            }
        }
    }

    fn parse(&self, c: &mut C) -> (r: Result<P::Value, ParseError<Info>>) {
        match self.p.parse(c) {
            Result::Ok(t) => Result::Ok(t),
            Result::Err(es) => {
                proof {
                    lemma_err_trees_of(es@);
                    assert(err_trees_of(es@) =~= es.deep_view());
                }
                let mut v = keep_loud_vec(es);
                let ghost l = err_trees_of(v@);
                proof {
                    lemma_err_trees_of(v@);
                }
                if v.len() == 0 {
                    Result::Err(ParseError::Silent)
                } else {
                    let fst = v.remove(0);
                    proof {
                        lemma_err_trees_of(v@);
                        assert(err_trees_of(v@) =~= l.drop_first());
                    }
                    if v.len() == 0 {
                        Result::Err(fst)
                    } else {
                        let rest = truncate_each(v);
                        let mut out: Vec<ParseError<Info>> = Vec::new();
                        out.push(fst);
                        let ghost outpre = out@;
                        let ghost restpre = rest@;
                        let mut tail = rest;
                        out.append(&mut tail);
                        proof {
                            assert(out@ == outpre + restpre);
                            lemma_err_trees_of(out@);
                            lemma_err_trees_of(restpre);
                            lemma_spec_truncate_all(l.drop_first());
                            assert(err_trees_of(out@) =~= seq![err_tree_of(fst)]
                                + err_trees_of(restpre));
                            assert(err_trees_of(out@) =~= seq![l[0]] + spec_truncate_all(
                                l.drop_first(),
                            ));
                        }
                        Result::Err(ParseError::ErrChoice(out))
                    }
                }
            }
        }
    }
}

/// The parser built by [`display_lst_choice`]: full context for the last
/// non-silent branch, bare messages for the rest.
pub struct DisplayLstChoice<P> {
    pub p: P,
}

/// On failure, keeps the last non-silent branch with its full context and
/// truncates every earlier branch to bare messages, merged into one choice
/// node; a single branch stands alone; all-silent stays silent.
pub fn display_lst_choice<P>(p: P) -> (r: DisplayLstChoice<P>)
    ensures
        r.p == p,
{
    DisplayLstChoice { p }
}

impl<C: Cursor, P, Info: DeepView> Parser<C> for DisplayLstChoice<P>
    where
        P: Parser<C, Error = Vec<ParseError<Info>>>,
{
    type Value = P::Value;

    type Error = ParseError<Info>;

    open spec fn wf(&self) -> bool {
        self.p.wf()
    }

    open spec fn spec_parse(&self, m: C::V) -> (C::V, Result<
        <P::Value as DeepView>::V,
        ErrTree<Info::V>,
    >) {
        let (m1, r1) = self.p.spec_parse(m);
        match r1 {
            Result::Ok(t) => (m1, Result::Ok(t)),
            Result::Err(es) => {
                let l = loud(es);
                if l.len() == 0 {
                    (m1, Result::Err(ErrTree::Silent))
                } else if l.len() == 1 {
                    (m1, Result::Err(l[0]))
                } else {
                    (m1, Result::Err(ErrTree::ErrChoice(
                        spec_truncate_all(l.take(l.len() - 1)).push(l[l.len() - 1]),
                    )))
                }
            }
        }
    }

    fn parse(&self, c: &mut C) -> (r: Result<P::Value, ParseError<Info>>) {
        match self.p.parse(c) {
            Result::Ok(t) => Result::Ok(t),
            Result::Err(es) => {
                proof {
                    lemma_err_trees_of(es@);
                    assert(err_trees_of(es@) =~= es.deep_view());
                }
                let mut v = keep_loud_vec(es);
                let ghost l = err_trees_of(v@);
                proof {
                    lemma_err_trees_of(v@);
                }
                if v.len() == 0 {
                    Result::Err(ParseError::Silent)
                } else {
                    match v.pop() {
                        None => {
                            proof {
                                assert(false);
                            }
                            Result::Err(ParseError::Silent)
                        }
                        Some(lst) => {
                            proof {
                                lemma_err_trees_of(v@);
                                assert(err_trees_of(v@) =~= l.take(l.len() - 1));
                            }
                            if v.len() == 0 {
                                Result::Err(lst)
                            } else {
                                let mut out = truncate_each(v);
                                let ghost outpre = out@;
                                out.push(lst);
                                proof {
                                    lemma_err_trees_push(outpre, lst);
                                    lemma_spec_truncate_all(l.take(l.len() - 1));
                                }
                                Result::Err(ParseError::ErrChoice(out))
                            }
                        }
                    }
                }
            }
        }
    }
}

} // verus!
