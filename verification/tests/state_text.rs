use parsekit::builders::expect;
use parsekit::combinators::{most_till, least_till};
use parsekit::cursor::{Cursor, VecCursor};
use parsekit::error_combinators;
use parsekit::errors::{try_parse, fmap_err_with_state, Soft};
use parsekit::monadic::{pure, last, bind, bind2};
use parsekit::parser::{Parser, ConstFn, IdFn, unit_msg};
use parsekit::state::{
    CountIter, count, count_msg, StackIter, stack_push, stack_pop, stack_action, flaw_msg,
    CustomIter, get_state, set_state, update_state, raise_depth, lower_depth, then_count,
    attach_count, lense, inner_lens, run, recount, with_count,
};
use parsekit::text::{TextIter, TextInfo, get_text_info};
use parsekit::utils::result_append;

fn counted(tokens: Vec<char>) -> CountIter<VecCursor<char>> {
    CountIter { iter: VecCursor::new(tokens), index: 0 }
}

#[test]
fn count_follows_the_reads() {
    let mut iter = counted(vec!['a', 'b']);
    let res: Result<usize, usize> = count().parse(&mut iter);
    assert_eq!(Ok(0), res);

    assert_eq!(Some('a'), iter.next_item());
    let res2: Result<usize, usize> = count().parse(&mut iter);
    assert_eq!(Ok(1), res2);
}

#[test]
fn stack_push_then_matching_pop() {
    let mut iter: StackIter<VecCursor<char>, char> = StackIter {
        iter: VecCursor::new(vec![]),
        stack: vec![],
    };

    let pushed: Result<(), (char, Option<char>)> = stack_push('(').parse(&mut iter);
    assert_eq!(Ok(()), pushed);
    assert_eq!(vec!['('], iter.stack);

    let popped: Result<(), (char, Option<char>)> = stack_pop('(', flaw_msg()).parse(&mut iter);
    assert_eq!(Ok(()), popped);
    assert!(iter.stack.is_empty());
}

#[test]
fn stack_pop_reports_a_mismatch() {
    let mut iter: StackIter<VecCursor<char>, char> = StackIter {
        iter: VecCursor::new(vec![]),
        stack: vec!['('],
    };

    let popped: Result<(), (char, Option<char>)> = stack_pop(']', flaw_msg()).parse(&mut iter);
    assert_eq!(Err((']', Some('('))), popped);
    // the pop happened even though it failed
    assert!(iter.stack.is_empty());
}

#[test]
fn stack_pop_reports_an_empty_stack() {
    let mut iter: StackIter<VecCursor<char>, char> = StackIter {
        iter: VecCursor::new(vec![]),
        stack: vec![],
    };

    let popped: Result<(), (char, Option<char>)> = stack_pop(')', flaw_msg()).parse(&mut iter);
    assert_eq!(Err((')', None)), popped);
}

#[test]
fn stack_action_runs_pushes_and_pops_in_order() {
    let mut iter: StackIter<VecCursor<char>, char> = StackIter {
        iter: VecCursor::new(vec![]),
        stack: vec![],
    };

    let res: Result<(), (char, Option<char>)> = stack_action(
        vec![(true, '('), (true, '['), (false, '['), (false, '(')],
        flaw_msg(),
    ).parse(&mut iter);

    assert_eq!(Ok(()), res);
    assert!(iter.stack.is_empty());
}

#[test]
fn stack_action_stops_at_the_first_failed_pop() {
    let mut iter: StackIter<VecCursor<char>, char> = StackIter {
        iter: VecCursor::new(vec![]),
        stack: vec![],
    };

    let res: Result<(), (char, Option<char>)> = stack_action(
        vec![(true, '('), (false, '['), (true, 'x')],
        flaw_msg(),
    ).parse(&mut iter);

    assert_eq!(Err(('[', Some('('))), res);
    // the failing pop consumed the stack entry; the later push never ran
    assert!(iter.stack.is_empty());
}

#[test]
fn get_and_set_state() {
    let mut iter: CustomIter<VecCursor<char>, u64> = CustomIter {
        iter: VecCursor::new(vec![]),
        state: 5,
    };

    let got: Result<u64, usize> = get_state().parse(&mut iter);
    assert_eq!(Ok(5), got);

    let set: Result<(), usize> = set_state(ConstFn { v: 7u64 }).parse(&mut iter);
    assert_eq!(Ok(()), set);

    let got2: Result<u64, usize> = get_state().parse(&mut iter);
    assert_eq!(Ok(7), got2);
    assert_eq!(7, iter.state);
}

#[test]
fn text_cursor_tracks_lines_and_columns() {
    let mut iter: TextIter<VecCursor<char>> = TextIter {
        iter: VecCursor::new(vec!['a', '\n', 'b']),
        info: TextInfo { file: String::from("input"), line: 0, index: 0 },
    };

    assert_eq!(Some('a'), iter.next_item());
    assert_eq!(1, iter.info.index);
    assert_eq!(0, iter.info.line);

    assert_eq!(Some('\n'), iter.next_item());
    assert_eq!(0, iter.info.index);
    assert_eq!(1, iter.info.line);

    assert_eq!(Some('b'), iter.next_item());
    let got: Result<TextInfo, usize> = get_text_info().parse(&mut iter);
    assert_eq!(Ok(TextInfo { file: String::from("input"), line: 1, index: 1 }), got);
}

#[test]
fn borrowed_fail_and_fmap_err() {
    let m = count_msg();
    let mut iter = counted(vec!['a']);
    let res: Result<Vec<char>, usize> = error_combinators::fail(&m).parse(&mut iter);
    assert_eq!(Err(0), res);

    let p = expect(vec!['b'], count_msg());
    let f: IdFn<usize> = IdFn::new();
    let mut iter2 = counted(vec!['a']);
    let res2: Result<Vec<char>, usize> = error_combinators::fmap_err(&p, &f).parse(&mut iter2);
    assert_eq!(Err(0), res2);
}

#[test]
fn borrowed_unwind_on_err_restores_the_cursor() {
    let p = expect(vec!['a'], count_msg());
    let mut iter = counted(vec!['b', '-']);
    let res: Result<Vec<char>, usize> = error_combinators::unwind_on_err(&p).parse(&mut iter);

    assert_eq!(Err(0), res);
    assert_eq!(Some('b'), iter.next_item());
    assert_eq!(Some('-'), iter.next_item());
}

#[test]
fn borrowed_recover_and_flatten() {
    let p = expect(vec!['a'], count_msg());
    let r = pure(ConstFn { v: () });
    let mut iter = counted(vec!['b']);
    let soft: Result<Soft<Vec<char>, usize>, usize> = error_combinators::recover_with(&p, &r)
        .parse(&mut iter);
    assert_eq!(Ok(Soft::Reported(0)), soft);

    let q = error_combinators::recover_with(&p, &r);
    let mut iter2 = counted(vec!['b']);
    let hard: Result<Vec<char>, usize> = error_combinators::flatten_errors(&q).parse(&mut iter2);
    assert_eq!(Err(0), hard);
}

#[test]
fn result_append_folds_outcomes() {
    let mut acc: Result<Vec<u64>, Vec<usize>> = Ok(vec![]);

    result_append(&mut acc, Ok(4));
    assert_eq!(Ok(vec![4]), acc);

    result_append(&mut acc, Err(9));
    assert_eq!(Err(vec![9]), acc);

    result_append(&mut acc, Ok(5));
    assert_eq!(Err(vec![9]), acc);

    result_append(&mut acc, Err(2));
    assert_eq!(Err(vec![9, 2]), acc);
}

#[test]
fn greedy_and_lazy_agree_on_disjoint_symbols() {
    let mut greedy_iter = counted(vec!['a', 'b']);
    let greedy: Result<(Vec<Vec<char>>, Vec<char>), Vec<usize>> = most_till(
        try_parse(expect(vec!['a'], count_msg())),
        expect(vec!['b'], count_msg()),
    ).parse(&mut greedy_iter);

    let mut lazy_iter = counted(vec!['a', 'b']);
    let lazy: Result<(Vec<Vec<char>>, Vec<char>), Vec<usize>> = least_till(
        expect(vec!['a'], count_msg()),
        try_parse(expect(vec!['b'], count_msg())),
    ).parse(&mut lazy_iter);

    assert_eq!(Ok((vec![vec!['a']], vec!['b'])), greedy);
    assert_eq!(greedy, lazy);
}

#[test]
fn bind_continues_with_the_computed_parser() {

    let mut iter = counted(vec!['a', 'b']);
    let res: Result<usize, usize> = bind(expect(vec!['a'], count_msg()), then_count()).parse(
        &mut iter,
    );
    assert_eq!(Ok(1), res);

    let mut iter2 = counted(vec!['a', 'b']);
    let res2: Result<usize, usize> = bind2(
        expect(vec!['a'], count_msg()),
        expect(vec!['b'], count_msg()),
        then_count(),
    ).parse(&mut iter2);
    assert_eq!(Ok(2), res2);
}

#[test]
fn fmap_err_with_state_captures_the_start_position() {

    let mut iter = counted(vec!['a', 'b', 'd']);
    assert_eq!(Some('a'), iter.next_item());

    let res: Result<Vec<char>, (usize, usize)> = fmap_err_with_state(
        attach_count(),
        last(expect(vec!['b'], count_msg()), expect(vec!['x'], count_msg())),
    ).parse(&mut iter);

    // captured before the parse began (1), failed at the second step (2)
    assert_eq!(Err((1, 2)), res);
}

#[test]
fn update_state_tracks_a_depth() {

    let mut iter: CustomIter<VecCursor<char>, usize> = CustomIter {
        iter: VecCursor::new(vec![]),
        state: 0,
    };

    let r1: Result<(), usize> = update_state(raise_depth()).parse(&mut iter);
    assert_eq!(Ok(()), r1);
    let r2: Result<(), usize> = update_state(raise_depth()).parse(&mut iter);
    assert_eq!(Ok(()), r2);
    assert_eq!(2, iter.state);

    let r3: Result<(), usize> = update_state(lower_depth()).parse(&mut iter);
    assert_eq!(Ok(()), r3);
    assert_eq!(1, iter.state);
}

#[test]
fn lense_bypasses_the_counter() {

    let mut iter = counted(vec!['a', 'b']);
    let res: Result<Vec<char>, ()> = lense(inner_lens(), expect(vec!['a'], unit_msg())).parse(
        &mut iter,
    );

    assert_eq!(Ok(vec!['a']), res);
    // the element was read through the lens, so the counter did not move
    assert_eq!(0, iter.index);
    assert_eq!(Some('b'), iter.next_item());
}

#[test]
fn run_counts_a_speculative_sub_parse() {

    let mut iter = VecCursor::new(vec!['a', 'b', 'c']);
    let res: Result<(usize, Vec<char>), usize> = run(
        recount(),
        with_count(),
        expect(vec!['a', 'b'], count_msg()),
    ).parse(&mut iter);

    assert_eq!(Ok((2, vec!['a', 'b'])), res);
    // the sub-parse ran on a duplicate: the main cursor did not move
    assert_eq!(Some('a'), iter.next_item());
}

#[test]
fn most_till_accumulates_the_deepest_error_chain() {
    let mut iter = counted(vec!['a', 'b', 'd']);
    let res: Result<(Vec<Vec<char>>, Vec<char>), Vec<usize>> = most_till(
        expect(vec!['a'], count_msg()),
        expect(vec!['c'], count_msg()),
    ).parse(&mut iter);

    assert_eq!(Err(vec![1, 2, 3]), res);
    assert_eq!(None, iter.next_item());
}
