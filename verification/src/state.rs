//! Stateful cursor wrappers: a position counter, a validation stack, and
//! arbitrary typed user state, each with its accessor parsers.
//!
//! Wrapping never changes what "read next" yields to parsers built on the
//! inner cursor; it only exposes auxiliary, independently queryable or
//! mutable facets.

use vstd::prelude::*;
use vstd::std_specs::cmp::PartialEqSpec;
use crate::cursor::Cursor;
use crate::dup::Dup;
use crate::parser::{Parser, ProdFn, CursorFn};
use crate::builders::eq_matches_view;

verus! {

/// A lens from a composite cursor onto one of its facets: parsers built on
/// the inner cursor run against the facet in place.
pub trait LensFn<J: Cursor>: Sized {
    /// The cursor type of the facet.
    type I: Cursor;

    /// The facet of the composite state.
    spec fn spec_get(&self, m: J::V) -> <Self::I as DeepView>::V;

    /// The composite state with its facet replaced.
    spec fn spec_put(&self, m: J::V, i: <Self::I as DeepView>::V) -> J::V;

    /// Borrow the facet mutably out of the composite cursor.
    fn focus<'a>(&self, j: &'a mut J) -> (r: &'a mut Self::I)
        ensures
            (*r).deep_view() == self.spec_get(old(j).deep_view()),
            final(j).deep_view() == self.spec_put(old(j).deep_view(), final(r).deep_view()),
    ;
}

/// The parser built by [`lense`]: an inner-cursor parser run against one
/// facet of a composite cursor.
pub struct Lense<L, P> {
    pub lens: L,
    pub p: P,
}

/// Projects a facet out of the composite cursor and runs `parser` against
/// it in place; the rest of the composite state is untouched.
pub fn lense<L, P>(sect: L, parser: P) -> (r: Lense<L, P>)
    ensures
        r.lens == sect,
        r.p == parser,
{
    Lense { lens: sect, p: parser }
}

impl<J: Cursor, L, P> Parser<J> for Lense<L, P>
    where
        L: LensFn<J>,
        P: Parser<L::I>,
{
    type Value = P::Value;

    type Error = P::Error;

    open spec fn wf(&self) -> bool {
        self.p.wf()
    }

    open spec fn spec_parse(&self, m: J::V) -> (J::V, Result<
        <P::Value as DeepView>::V,
        <P::Error as DeepView>::V,
    >) {
        let i = self.lens.spec_get(m);
        let (i2, r) = self.p.spec_parse(i);
        (self.lens.spec_put(m, i2), r)
    }

    fn parse(&self, c: &mut J) -> (r: Result<P::Value, P::Error>) {
        let facet = self.lens.focus(c);
        self.p.parse(facet)
    }
}

/// Builds a derived cursor out of the main one, with a specification at
/// the level of views.
pub trait BuildFn<J: Cursor>: Sized {
    /// The cursor type that is built.
    type I: Cursor;

    spec fn spec_call(&self, m: J::V) -> (J::V, <Self::I as DeepView>::V);

    fn call(&self, j: &mut J) -> (r: Self::I)
        ensures
            final(j).deep_view() == self.spec_call(old(j).deep_view()).0,
            r.deep_view() == self.spec_call(old(j).deep_view()).1,
    ;
}

/// Combines the derived cursor's end state with the parsed value, with a
/// specification at the level of views; the derived cursor is discarded
/// afterwards.
pub trait CombineFn<I: Cursor, T: DeepView>: Sized {
    type Out: DeepView;

    spec fn spec_call(&self, i: I::V, t: T::V) -> <Self::Out as DeepView>::V;

    fn call(&self, i: &mut I, t: T) -> (u: Self::Out)
        ensures
            u.deep_view() == self.spec_call(old(i).deep_view(), t.deep_view()),
    ;
}

/// The parser built by [`run`]: a parser over a derived cursor.
pub struct Run<B, G, P> {
    pub build: B,
    pub combine: G,
    pub p: P,
}

/// Builds a derived cursor from the main one, runs `parser` against it,
/// and on success combines the derived cursor's end state with the parsed
/// value; the derived cursor is then discarded.
pub fn run<B, G, P>(build: B, combine: G, parser: P) -> (r: Run<B, G, P>)
    ensures
        r.build == build,
        r.combine == combine,
        r.p == parser,
{
    Run { build, combine, p: parser }
}

impl<J: Cursor, B, G, P> Parser<J> for Run<B, G, P>
    where
        B: BuildFn<J>,
        P: Parser<B::I>,
        G: CombineFn<B::I, P::Value>,
{
    type Value = G::Out;

    type Error = P::Error;

    open spec fn wf(&self) -> bool {
        self.p.wf()
    }

    open spec fn spec_parse(&self, m: J::V) -> (J::V, Result<
        <G::Out as DeepView>::V,
        <P::Error as DeepView>::V,
    >) {
        let (m2, i0) = self.build.spec_call(m);
        let (i1, r) = self.p.spec_parse(i0);
        match r {
            Result::Ok(t) => (m2, Result::Ok(self.combine.spec_call(i1, t))),
            Result::Err(e) => (m2, Result::Err(e)),
        }
    }

    fn parse(&self, c: &mut J) -> (r: Result<G::Out, P::Error>) {
        let mut derived = self.build.call(c);
        match self.p.parse(&mut derived) {
            Result::Ok(t) => Result::Ok(self.combine.call(&mut derived, t)),
            Result::Err(e) => Result::Err(e),
        }
    }
}

/// The state of a [`CountIter`]: the inner cursor's state and the count of
/// elements produced so far.
pub struct CountView<M> {
    pub inner: M,
    pub index: int,
}

/// A cursor wrapper adding a read-only count of elements produced so far.
/// The count saturates at the machine limit instead of overflowing.
pub struct CountIter<I> {
    pub iter: I,
    pub index: usize,
}

impl<I: DeepView> DeepView for CountIter<I> {
    type V = CountView<I::V>;

    open spec fn deep_view(&self) -> CountView<I::V> {
        CountView { inner: self.iter.deep_view(), index: self.index as int }
    }
}

impl<I: Cursor> Cursor for CountIter<I> {
    type Item = I::Item;

    open spec fn spec_peek(m: CountView<I::V>) -> Option<<I::Item as DeepView>::V> {
        I::spec_peek(m.inner)
    }

    open spec fn spec_step(m: CountView<I::V>) -> CountView<I::V> {
        CountView {
            inner: I::spec_step(m.inner),
            index: if I::spec_peek(m.inner) is Some && m.index < usize::MAX as int {
                m.index + 1
            } else {
                m.index
            },
        }
    }

    open spec fn spec_size(m: CountView<I::V>) -> nat {
        I::spec_size(m.inner)
    }

    proof fn lemma_step_size(m: CountView<I::V>) {
        I::lemma_step_size(m.inner);
    }

    fn next_item(&mut self) -> (r: Option<I::Item>) {
        match self.iter.next_item() {
            Option::Some(token) => {
                if self.index < usize::MAX {
                    self.index = self.index + 1;
                }
                Option::Some(token)
            }
            Option::None => Option::None,
        }
    }

    fn mark(&self) -> (r: CountIter<I>) {
        CountIter { iter: self.iter.mark(), index: self.index }
    }
}

/// The parser built by [`count`]: reads the element count off the cursor.
pub struct Count<E> {
    pub ph: core::marker::PhantomData<E>,
}

/// Produces the number of elements the counting cursor has yielded so far;
/// never fails, consumes nothing.
pub fn count<E>() -> (r: Count<E>) {
    Count { ph: core::marker::PhantomData }
}

impl<I: Cursor, E: DeepView> Parser<CountIter<I>> for Count<E> {
    type Value = usize;

    type Error = E;

    open spec fn wf(&self) -> bool {
        true
    }

    open spec fn spec_parse(&self, m: CountView<I::V>) -> (CountView<I::V>, Result<usize, E::V>) {
        (m, Result::Ok(m.index as usize))
    }

    fn parse(&self, c: &mut CountIter<I>) -> (r: Result<usize, E>) {
        Result::Ok(c.index)
    }
}

/// An error builder that reports the element count at the failure site:
/// the position, as counted by a [`CountIter`].
pub struct CountMsg {
    pub nothing: (),
}

/// Builds a [`CountMsg`].
pub fn count_msg() -> (r: CountMsg) {
    CountMsg { nothing: () }
}

impl<I: Cursor> CursorFn<CountIter<I>> for CountMsg {
    type Out = usize;

    open spec fn spec_call(&self, m: CountView<I::V>) -> usize {
        m.index as usize
    }

    fn call(&self, c: &CountIter<I>) -> (r: usize) {
        c.index
    }
}

/// The lens from a counting cursor onto the cursor it wraps: parsers run
/// through it read the same elements but bypass the counter.
pub struct InnerLens {
    pub nothing: (),
}

/// Builds an [`InnerLens`].
pub fn inner_lens() -> (r: InnerLens) {
    InnerLens { nothing: () }
}

impl<I: Cursor> LensFn<CountIter<I>> for InnerLens {
    type I = I;

    open spec fn spec_get(&self, m: CountView<I::V>) -> I::V {
        m.inner
    }

    open spec fn spec_put(&self, m: CountView<I::V>, i: I::V) -> CountView<I::V> {
        CountView { inner: i, index: m.index }
    }

    fn focus<'a>(&self, j: &'a mut CountIter<I>) -> (r: &'a mut I) {
        &mut j.iter
    }
}

/// A derived-cursor builder that wraps a duplicate of the main cursor in a
/// fresh counter: the main cursor is left untouched, so the sub-parse is
/// speculative.
pub struct Recount {
    pub nothing: (),
}

/// Builds a [`Recount`].
pub fn recount() -> (r: Recount) {
    Recount { nothing: () }
}

impl<I: Cursor> BuildFn<I> for Recount {
    type I = CountIter<I>;

    open spec fn spec_call(&self, m: I::V) -> (I::V, CountView<I::V>) {
        (m, CountView { inner: m, index: 0 })
    }

    fn call(&self, j: &mut I) -> (r: CountIter<I>) {
        CountIter { iter: j.mark(), index: 0 }
    }
}

/// A combiner that pairs the parsed value with how many elements the
/// derived counting cursor yielded.
pub struct WithCount {
    pub nothing: (),
}

/// Builds a [`WithCount`].
pub fn with_count() -> (r: WithCount) {
    WithCount { nothing: () }
}

impl<I: Cursor, T: DeepView> CombineFn<CountIter<I>, T> for WithCount {
    type Out = (usize, T);

    open spec fn spec_call(&self, i: CountView<I::V>, t: T::V) -> (usize, T::V) {
        (i.index as usize, t)
    }

    fn call(&self, i: &mut CountIter<I>, t: T) -> (u: (usize, T)) {
        (i.index, t)
    }
}

/// An error builder producing a structured "expected `name`" message at
/// the element count of the failure site.
pub struct NamedMsg {
    pub name: String,
}

/// Builds a [`NamedMsg`].
pub fn named_msg(name: String) -> (r: NamedMsg)
    ensures
        r.name == name,
{
    NamedMsg { name }
}

impl<I: Cursor> CursorFn<CountIter<I>> for NamedMsg {
    type Out = crate::errors::ParseError<usize>;

    open spec fn spec_call(&self, m: CountView<I::V>) -> crate::errors::ErrTree<usize> {
        crate::errors::ErrTree::Message(self.name@, m.index as usize)
    }

    fn call(&self, c: &CountIter<I>) -> (r: crate::errors::ParseError<usize>) {
        crate::errors::ParseError::Message(self.name.clone(), c.index)
    }
}

/// A staged error transform that captures the element count before the
/// parse and pairs it with whatever error surfaces: the error then carries
/// the position where the whole attempt began.
pub struct AttachCount {
    pub nothing: (),
}

/// Builds an [`AttachCount`].
pub fn attach_count() -> (r: AttachCount) {
    AttachCount { nothing: () }
}

impl<I: Cursor, E: DeepView> crate::parser::StagedFn<CountIter<I>, E> for AttachCount {
    type Mid = usize;

    type Out = (usize, E);

    open spec fn spec_capture(&self, m: CountView<I::V>) -> usize {
        m.index as usize
    }

    open spec fn spec_apply(&self, mid: usize, e: E::V) -> (usize, E::V) {
        (mid, e)
    }

    fn capture(&self, c: &CountIter<I>) -> (r: usize) {
        c.index
    }

    fn apply(&self, mid: usize, e: E) -> (r: (usize, E)) {
        (mid, e)
    }
}

/// A dependent-sequencing step that continues with the position parser,
/// whatever value came before: the simplest [`crate::parser::BindFn`].
pub struct ThenCount<E> {
    pub ph: core::marker::PhantomData<E>,
}

/// Builds a [`ThenCount`].
pub fn then_count<E>() -> (r: ThenCount<E>) {
    ThenCount { ph: core::marker::PhantomData }
}

impl<I: Cursor, T: DeepView, E: DeepView> crate::parser::BindFn<CountIter<I>, T> for ThenCount<
    E,
> {
    type P = Count<E>;

    open spec fn spec_call(&self, t: T::V) -> Count<E> {
        Count { ph: core::marker::PhantomData }
    }

    fn call(&self, t: T) -> (q: Count<E>) {
        count()
    }
}

/// The state of a [`StackIter`]: the inner cursor's state and the symbol
/// stack.
pub struct StackView<M, SV> {
    pub inner: M,
    pub stack: Seq<SV>,
}

/// A cursor wrapper adding a mutable ordered stack of symbols, used to
/// enforce push/pop discipline (for example bracket matching) as a side
/// effect of parsing, independently of the elements read.
pub struct StackIter<I, S> {
    pub iter: I,
    pub stack: Vec<S>,
}

impl<I: DeepView, S: DeepView> DeepView for StackIter<I, S> {
    type V = StackView<I::V, S::V>;

    open spec fn deep_view(&self) -> StackView<I::V, S::V> {
        StackView { inner: self.iter.deep_view(), stack: self.stack.deep_view() }
    }
}

impl<I: Cursor, S: Dup> Cursor for StackIter<I, S> {
    type Item = I::Item;

    open spec fn spec_peek(m: StackView<I::V, S::V>) -> Option<<I::Item as DeepView>::V> {
        I::spec_peek(m.inner)
    }

    open spec fn spec_step(m: StackView<I::V, S::V>) -> StackView<I::V, S::V> {
        StackView { inner: I::spec_step(m.inner), stack: m.stack }
    }

    open spec fn spec_size(m: StackView<I::V, S::V>) -> nat {
        I::spec_size(m.inner)
    }

    proof fn lemma_step_size(m: StackView<I::V, S::V>) {
        I::lemma_step_size(m.inner);
    }

    fn next_item(&mut self) -> (r: Option<I::Item>) {
        self.iter.next_item()
    }

    fn mark(&self) -> (r: StackIter<I, S>) {
        StackIter { iter: self.iter.mark(), stack: self.stack.dup() }
    }
}

/// An error builder for failed pop actions: sees the inner cursor, the
/// expected symbol, and what the stack actually held, if anything.
pub trait PopMsgFn<I: Cursor, S: DeepView>: Sized {
    type Out: DeepView;

    spec fn spec_call(&self, m: I::V, a: S::V, b: Option<S::V>) -> <Self::Out as DeepView>::V;

    fn call(&self, c: &I, a: S, b: Option<S>) -> (r: Self::Out)
        ensures
            r.deep_view() == self.spec_call(c.deep_view(), a.deep_view(), b.deep_view()),
    ;
}

/// An error builder for failed pop actions that reports the expected
/// symbol and what the stack actually held.
pub struct FlawMsg {
    pub nothing: (),
}

/// Builds a [`FlawMsg`].
pub fn flaw_msg() -> (r: FlawMsg) {
    FlawMsg { nothing: () }
}

impl<I: Cursor, S: DeepView> PopMsgFn<I, S> for FlawMsg {
    type Out = (S, Option<S>);

    open spec fn spec_call(&self, m: I::V, a: S::V, b: Option<S::V>) -> (S::V, Option<S::V>) {
        (a, b)
    }

    fn call(&self, c: &I, a: S, b: Option<S>) -> (r: (S, Option<S>)) {
        (a, b)
    }
}

/// The parser built by [`stack_push`]: pushes one symbol.
pub struct StackPush<S, E> {
    pub a: S,
    pub ph: core::marker::PhantomData<E>,
}

/// Pushes the given symbol onto the stack; never fails, consumes nothing.
pub fn stack_push<S, E>(a: S) -> (r: StackPush<S, E>)
    ensures
        r.a == a,
{
    StackPush { a, ph: core::marker::PhantomData }
}

impl<I: Cursor, S: Dup, E: DeepView> Parser<StackIter<I, S>> for StackPush<S, E> {
    type Value = ();

    type Error = E;

    open spec fn wf(&self) -> bool {
        true
    }

    open spec fn spec_parse(&self, m: StackView<I::V, S::V>) -> (
        StackView<I::V, S::V>,
        Result<(), E::V>,
    ) {
        (
            StackView { inner: m.inner, stack: m.stack.push(self.a.deep_view()) },
            Result::Ok(()),
        )
    }

    fn parse(&self, c: &mut StackIter<I, S>) -> (r: Result<(), E>) {
        let ghost pre = c.stack.deep_view();
        let a = self.a.dup();
        c.stack.push(a);
        proof {
            assert(c.stack.deep_view() =~= pre.push(self.a.deep_view()));
        }
        Result::Ok(())
    }
}

/// The parser built by [`stack_pop`]: pops one symbol and checks it.
pub struct StackPop<S, PM> {
    pub a: S,
    pub msg: PM,
}

/// Pops the top of the stack and succeeds exactly when it equals the given
/// symbol; fails when the stack is empty or the popped symbol differs. The
/// pop happens in either case.
pub fn stack_pop<S, PM>(a: S, msg: PM) -> (r: StackPop<S, PM>)
    ensures
        r.a == a,
        r.msg == msg,
{
    StackPop { a, msg }
}

impl<I: Cursor, S, PM> Parser<StackIter<I, S>> for StackPop<S, PM>
    where
        S: Dup + PartialEq,
        PM: PopMsgFn<I, S>,
{
    type Value = ();

    type Error = PM::Out;

    open spec fn wf(&self) -> bool {
        eq_matches_view::<S>()
    }

    open spec fn spec_parse(&self, m: StackView<I::V, S::V>) -> (
        StackView<I::V, S::V>,
        Result<(), <PM::Out as DeepView>::V>,
    ) {
        if m.stack.len() == 0 {
            (m, Result::Err(self.msg.spec_call(m.inner, self.a.deep_view(), None)))
        } else {
            let b = m.stack.last();
            let m2 = StackView { inner: m.inner, stack: m.stack.drop_last() };
            if b == self.a.deep_view() {
                (m2, Result::Ok(()))
            } else {
                (m2, Result::Err(self.msg.spec_call(m.inner, self.a.deep_view(), Some(b))))
            }
        }
    }

    fn parse(&self, c: &mut StackIter<I, S>) -> (r: Result<(), PM::Out>) {
        let ghost pre = c.stack.deep_view();
        match c.stack.pop() {
            Option::None => Result::Err(self.msg.call(&c.iter, self.a.dup(), Option::None)),
            Option::Some(b) => {
                proof {
                    assert(b.deep_view() == pre.last());
                    assert(c.stack.deep_view() =~= pre.drop_last());
                }
                if self.a == b {
                    Result::Ok(())
                } else {
                    Result::Err(self.msg.call(&c.iter, self.a.dup(), Option::Some(b)))
                }
            }
        }
    }
}

/// One step of a stack action list: `(true, a)` pushes `a`; `(false, a)`
/// pops and requires the popped symbol to equal `a`. The result is the
/// stack after the run and, if a pop failed, the expected symbol and what
/// was found, at the first failure.
pub open spec fn run_actions<SV>(acts: Seq<(bool, SV)>, stack: Seq<SV>) -> (
    Seq<SV>,
    Option<(SV, Option<SV>)>,
)
    decreases acts.len(),
{
    if acts.len() == 0 {
        (stack, None)
    } else {
        let (push, a) = acts[0];
        if push {
            run_actions(acts.drop_first(), stack.push(a))
        } else {
            if stack.len() == 0 {
                (stack, Some((a, None)))
            } else {
                let b = stack.last();
                if b == a {
                    run_actions(acts.drop_first(), stack.drop_last())
                } else {
                    (stack.drop_last(), Some((a, Some(b))))
                }
            }
        }
    }
}

/// The parser built by [`stack_action`]: a fixed list of pushes and
/// checked pops.
pub struct StackAction<S, PM> {
    pub actions: Vec<(bool, S)>,
    pub msg: PM,
}

/// Runs the action list left to right: `(true, a)` pushes `a`; `(false, a)`
/// pops and requires the popped symbol to equal `a`. Stops at the first
/// failed pop, leaving the stack as mutated so far; consumes no input.
pub fn stack_action<S, PM>(actions: Vec<(bool, S)>, msg: PM) -> (r: StackAction<S, PM>)
    ensures
        r.actions == actions,
        r.msg == msg,
{
    StackAction { actions, msg }
}

impl<I: Cursor, S, PM> Parser<StackIter<I, S>> for StackAction<S, PM>
    where
        S: Dup + PartialEq,
        PM: PopMsgFn<I, S>,
{
    type Value = ();

    type Error = PM::Out;

    open spec fn wf(&self) -> bool {
        eq_matches_view::<S>()
    }

    open spec fn spec_parse(&self, m: StackView<I::V, S::V>) -> (
        StackView<I::V, S::V>,
        Result<(), <PM::Out as DeepView>::V>,
    ) {
        let (st, flaw) = run_actions(self.actions.deep_view(), m.stack);
        let m2 = StackView { inner: m.inner, stack: st };
        match flaw {
            None => (m2, Result::Ok(())),
            Some((a, b)) => (m2, Result::Err(self.msg.spec_call(m.inner, a, b))),
        }
    }

    #[verifier::loop_isolation(false)]
    fn parse(&self, c: &mut StackIter<I, S>) -> (r: Result<(), PM::Out>) {
        let ghost av = self.actions.deep_view();
        let ghost st0 = c.stack.deep_view();
        let mut i: usize = 0;
        proof {
            assert(av.skip(0) =~= av);
        }
        while i < self.actions.len()
            invariant
                i <= self.actions@.len(),
                av.len() == self.actions@.len(),
                c.iter == old(c).iter,
                run_actions(av, st0) == run_actions(av.skip(i as int), c.stack.deep_view()),
            decreases self.actions@.len() - i,
        {
            proof {
                assert(av.skip(i as int)[0] == av[i as int]);
                assert(av.skip(i as int).drop_first() =~= av.skip(i as int + 1));
                assert(av[i as int] == (self.actions@[i as int].0, self.actions@[
                    i as int
                ].1.deep_view()));
            }
            let act = &self.actions[i];
            let flag = act.0;
            let a = act.1.dup();
            let ghost pre = c.stack.deep_view();
            if flag {
                c.stack.push(a);
                proof {
                    assert(c.stack.deep_view() =~= pre.push(av[i as int].1));
                }
            } else {
                match c.stack.pop() {
                    Option::None => {
                        proof {
                            assert(pre.len() == 0);
                            assert(run_actions(av, st0) == (
                                pre,
                                Some((av[i as int].1, None::<S::V>)),
                            ));
                        }
                        return Result::Err(self.msg.call(&c.iter, a, Option::None));
                    }
                    Option::Some(b) => {
                        proof {
                            assert(pre.len() > 0);
                            assert(b.deep_view() == pre.last());
                            assert(c.stack.deep_view() =~= pre.drop_last());
                        }
                        if !(a == b) {
                            proof {
                                assert(b.deep_view() != av[i as int].1);
                                assert(run_actions(av, st0) == (
                                    pre.drop_last(),
                                    Some((av[i as int].1, Some(pre.last()))),
                                ));
                            }
                            return Result::Err(self.msg.call(&c.iter, a, Option::Some(b)));
                        }
                        proof {
                            assert(b.deep_view() == av[i as int].1);
                        }
                    }
                }
            }
            i += 1;
        }
        proof {
            assert(av.skip(av.len() as int) =~= Seq::<(bool, S::V)>::empty());
        }
        Result::Ok(())
    }
}

/// The state of a [`CustomIter`]: the inner cursor's state and the user
/// state's view.
pub struct CustomView<M, SV> {
    pub inner: M,
    pub state: SV,
}

/// A cursor wrapper adding one arbitrary user-defined value, mutable by
/// dedicated accessor parsers, for carrying semantic context through a
/// parse.
pub struct CustomIter<I, St> {
    pub iter: I,
    pub state: St,
}

impl<I: DeepView, St: DeepView> DeepView for CustomIter<I, St> {
    type V = CustomView<I::V, St::V>;

    open spec fn deep_view(&self) -> CustomView<I::V, St::V> {
        CustomView { inner: self.iter.deep_view(), state: self.state.deep_view() }
    }
}

impl<I: Cursor, St: Dup> Cursor for CustomIter<I, St> {
    type Item = I::Item;

    open spec fn spec_peek(m: CustomView<I::V, St::V>) -> Option<<I::Item as DeepView>::V> {
        I::spec_peek(m.inner)
    }

    open spec fn spec_step(m: CustomView<I::V, St::V>) -> CustomView<I::V, St::V> {
        CustomView { inner: I::spec_step(m.inner), state: m.state }
    }

    open spec fn spec_size(m: CustomView<I::V, St::V>) -> nat {
        I::spec_size(m.inner)
    }

    proof fn lemma_step_size(m: CustomView<I::V, St::V>) {
        I::lemma_step_size(m.inner);
    }

    fn next_item(&mut self) -> (r: Option<I::Item>) {
        self.iter.next_item()
    }

    fn mark(&self) -> (r: CustomIter<I, St>) {
        CustomIter { iter: self.iter.mark(), state: self.state.dup() }
    }
}

/// An in-place update of the user state, with a specification at the
/// level of deep views.
pub trait UpdateFn<St: DeepView>: Sized {
    spec fn spec_call(&self, s: St::V) -> St::V;

    fn call(&self, s: &mut St)
        ensures
            final(s).deep_view() == self.spec_call(old(s).deep_view()),
    ;
}

/// The state update that deepens a nesting level by one, stopping at the
/// machine limit.
pub struct RaiseDepth {
    pub nothing: (),
}

/// Builds a [`RaiseDepth`].
pub fn raise_depth() -> (r: RaiseDepth) {
    RaiseDepth { nothing: () }
}

impl UpdateFn<usize> for RaiseDepth {
    open spec fn spec_call(&self, s: usize) -> usize {
        if s < usize::MAX {
            (s + 1) as usize
        } else {
            s
        }
    }

    fn call(&self, s: &mut usize) {
        if *s < usize::MAX {
            *s = *s + 1;
        }
    }
}

/// The state update that leaves a nesting level, stopping at zero.
pub struct LowerDepth {
    pub nothing: (),
}

/// Builds a [`LowerDepth`].
pub fn lower_depth() -> (r: LowerDepth) {
    LowerDepth { nothing: () }
}

impl UpdateFn<usize> for LowerDepth {
    open spec fn spec_call(&self, s: usize) -> usize {
        if s > 0 {
            (s - 1) as usize
        } else {
            s
        }
    }

    fn call(&self, s: &mut usize) {
        if *s > 0 {
            *s = *s - 1;
        }
    }
}

/// The parser built by [`update_state`]: applies an update to the user
/// state.
pub struct UpdateState<F, E> {
    pub f: F,
    pub ph: core::marker::PhantomData<E>,
}

/// Applies `f` to the user state in place; never fails, consumes nothing.
pub fn update_state<F, E>(f: F) -> (r: UpdateState<F, E>)
    ensures
        r.f == f,
{
    UpdateState { f, ph: core::marker::PhantomData }
}

impl<I: Cursor, St: Dup, F: UpdateFn<St>, E: DeepView> Parser<CustomIter<I, St>> for UpdateState<
    F,
    E,
> {
    type Value = ();

    type Error = E;

    open spec fn wf(&self) -> bool {
        true
    }

    open spec fn spec_parse(&self, m: CustomView<I::V, St::V>) -> (
        CustomView<I::V, St::V>,
        Result<(), E::V>,
    ) {
        (CustomView { inner: m.inner, state: self.f.spec_call(m.state) }, Result::Ok(()))
    }

    fn parse(&self, c: &mut CustomIter<I, St>) -> (r: Result<(), E>) {
        self.f.call(&mut c.state);
        Result::Ok(())
    }
}

/// The parser built by [`set_state`]: replaces the user state.
pub struct SetState<F, E> {
    pub prod: F,
    pub ph: core::marker::PhantomData<E>,
}

/// Replaces the user state with a freshly produced value; never fails,
/// consumes nothing.
pub fn set_state<F, E>(prod: F) -> (r: SetState<F, E>)
    ensures
        r.prod == prod,
{
    SetState { prod, ph: core::marker::PhantomData }
}

impl<I: Cursor, St: Dup, F, E: DeepView> Parser<CustomIter<I, St>> for SetState<F, E>
    where
        F: ProdFn<Out = St>,
{
    type Value = ();

    type Error = E;

    open spec fn wf(&self) -> bool {
        true
    }

    open spec fn spec_parse(&self, m: CustomView<I::V, St::V>) -> (
        CustomView<I::V, St::V>,
        Result<(), E::V>,
    ) {
        (CustomView { inner: m.inner, state: self.prod.spec_call() }, Result::Ok(()))
    }

    fn parse(&self, c: &mut CustomIter<I, St>) -> (r: Result<(), E>) {
        c.state = self.prod.call();
        Result::Ok(())
    }
}

/// The parser built by [`get_state`]: reads the user state.
pub struct GetState<E> {
    pub ph: core::marker::PhantomData<E>,
}

/// Produces a duplicate of the current user state; never fails, consumes
/// nothing.
pub fn get_state<E>() -> (r: GetState<E>) {
    GetState { ph: core::marker::PhantomData }
}

impl<I: Cursor, St: Dup, E: DeepView> Parser<CustomIter<I, St>> for GetState<E> {
    type Value = St;

    type Error = E;

    open spec fn wf(&self) -> bool {
        true
    }

    open spec fn spec_parse(&self, m: CustomView<I::V, St::V>) -> (
        CustomView<I::V, St::V>,
        Result<St::V, E::V>,
    ) {
        (m, Result::Ok(m.state))
    }

    fn parse(&self, c: &mut CustomIter<I, St>) -> (r: Result<St, E>) {
        Result::Ok(c.state.dup())
    }
}

} // verus!
