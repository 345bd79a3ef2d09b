use parsekit::builders::{expect, predicate, any_window};
use parsekit::cursor::{Cursor, VecCursor};
use parsekit::errors::{
    fail, fmap_err, negate, recover_with, flatten_errors, wrap_err, use_fst_err,
    use_lst_err, silence, bundle, label, truncate_parse_err, show_error, display_full_choice,
    display_fst_choice, display_lst_choice, display_fst_nonsilent, display_lst_nonsilent,
    ParseError, Soft, ConstShow,
};
use parsekit::monadic::{pure, fmap, fmap2, fmap3, fmap4, apply, apply2, otherwise, first, last};
use parsekit::parser::{Parser, ConstFn, IdFn};
use parsekit::state::{CountIter, count_msg, named_msg, NamedMsg};

type CharCursor = CountIter<VecCursor<char>>;

fn counted(tokens: Vec<char>) -> CharCursor {
    CountIter { iter: VecCursor::new(tokens), index: 0 }
}

fn msg(name: &str) -> NamedMsg {
    named_msg(String::from(name))
}

#[test]
fn fail_reports_position() {
    let mut iter = counted(vec!['a']);
    let res: Result<Vec<char>, usize> = fail(count_msg()).parse(&mut iter);

    assert_eq!(Err(0), res);
    assert_eq!(Some('a'), iter.next_item());
    assert_eq!(None, iter.next_item());
}

#[test]
fn fmap_identity_behaves_like_the_parser() {
    let mut iter = counted(vec!['a', '-']);
    let res: Result<Vec<char>, usize> = fmap(IdFn::new(), expect(vec!['a'], count_msg())).parse(
        &mut iter,
    );

    assert_eq!(Ok(vec!['a']), res);
    assert_eq!(Some('-'), iter.next_item());

    let mut plain = counted(vec!['a', '-']);
    let direct: Result<Vec<char>, usize> = expect(vec!['a'], count_msg()).parse(&mut plain);
    assert_eq!(Ok(vec!['a']), direct);
    assert_eq!(Some('-'), plain.next_item());
}

#[test]
fn fmap2_short_circuits_on_first_failure() {
    let mut iter = counted(vec!['b', 'x']);
    let res: Result<(Vec<char>, Vec<char>), usize> = fmap2(
        IdFn::new(),
        expect(vec!['a'], count_msg()),
        expect(vec!['x'], count_msg()),
    ).parse(&mut iter);

    assert_eq!(Err(0), res);
    // only the first parser consumed: 'x' is still there
    assert_eq!(Some('x'), iter.next_item());
    assert_eq!(None, iter.next_item());
}

#[test]
fn fmap3_collects_three_values() {
    let mut iter = counted(vec!['a', 'b', 'c']);
    let res: Result<(Vec<char>, Vec<char>, Vec<char>), usize> = fmap3(
        IdFn::new(),
        expect(vec!['a'], count_msg()),
        expect(vec!['b'], count_msg()),
        expect(vec!['c'], count_msg()),
    ).parse(&mut iter);

    assert_eq!(Ok((vec!['a'], vec!['b'], vec!['c'])), res);
    assert_eq!(None, iter.next_item());
}

#[test]
fn fmap4_collects_four_values() {
    let mut iter = counted(vec!['a', 'b', 'c', 'd']);
    let res: Result<(Vec<char>, Vec<char>, Vec<char>, Vec<char>), usize> = fmap4(
        IdFn::new(),
        expect(vec!['a'], count_msg()),
        expect(vec!['b'], count_msg()),
        expect(vec!['c'], count_msg()),
        expect(vec!['d'], count_msg()),
    ).parse(&mut iter);

    assert_eq!(Ok((vec!['a'], vec!['b'], vec!['c'], vec!['d'])), res);
    assert_eq!(None, iter.next_item());
}

#[test]
fn apply_uses_the_parsed_function() {
    let mut iter = counted(vec!['a']);
    let res: Result<Vec<char>, usize> = apply(
        pure(ConstFn { v: IdFn::new() }),
        expect(vec!['a'], count_msg()),
    ).parse(&mut iter);

    assert_eq!(Ok(vec!['a']), res);
}

#[test]
fn apply2_pairs_the_values() {
    let mut iter = counted(vec!['a', 'b']);
    let res: Result<(Vec<char>, Vec<char>), usize> = apply2(
        pure(ConstFn { v: IdFn::new() }),
        expect(vec!['a'], count_msg()),
        expect(vec!['b'], count_msg()),
    ).parse(&mut iter);

    assert_eq!(Ok((vec!['a'], vec!['b'])), res);
}

#[test]
fn predicate_reads_a_window() {
    let mut iter = counted(vec!['a', 'b', '-']);
    let res: Result<Vec<char>, usize> = predicate(2, any_window(), count_msg()).parse(&mut iter);

    assert_eq!(Ok(vec!['a', 'b']), res);
    assert_eq!(Some('-'), iter.next_item());
}

#[test]
fn predicate_fails_on_short_input() {
    let mut iter = counted(vec!['a', 'b']);
    let res: Result<Vec<char>, usize> = predicate(5, any_window(), count_msg()).parse(&mut iter);

    assert_eq!(Err(0), res);
    assert_eq!(None, iter.next_item());
}

#[test]
fn otherwise_takes_the_first_success() {
    let mut iter = counted(vec!['a', '-']);
    let res: Result<Vec<char>, Vec<usize>> = otherwise(
        wrap_err(expect(vec!['a'], count_msg())),
        wrap_err(expect(vec!['b'], count_msg())),
    ).parse(&mut iter);

    assert_eq!(Ok(vec!['a']), res);
    assert_eq!(Some('-'), iter.next_item());
}

#[test]
fn otherwise_accumulates_both_failures() {
    let mut iter = counted(vec!['x', 'y']);
    let res: Result<Vec<char>, Vec<usize>> = otherwise(
        wrap_err(expect(vec!['a'], count_msg())),
        wrap_err(expect(vec!['b'], count_msg())),
    ).parse(&mut iter);

    // the second branch runs against the cursor as the first left it
    assert_eq!(Err(vec![0, 1]), res);
    assert_eq!(None, iter.next_item());
}

#[test]
fn otherwise_error_accumulation_is_associative() {
    let mut left_iter = counted(vec![]);
    let left: Result<Vec<char>, Vec<usize>> = otherwise(
        otherwise(
            wrap_err(fail(count_msg())),
            wrap_err(fail(count_msg())),
        ),
        wrap_err(fail(count_msg())),
    ).parse(&mut left_iter);

    let mut right_iter = counted(vec![]);
    let right: Result<Vec<char>, Vec<usize>> = otherwise(
        wrap_err(fail(count_msg())),
        otherwise(
            wrap_err(fail(count_msg())),
            wrap_err(fail(count_msg())),
        ),
    ).parse(&mut right_iter);

    assert_eq!(Err(vec![0, 0, 0]), left);
    assert_eq!(left, right);
}

#[test]
fn negate_swaps_the_channels() {
    let mut iter = counted(vec!['a']);
    let res: Result<usize, Vec<char>> = negate(expect(vec!['b'], count_msg())).parse(&mut iter);
    assert_eq!(Ok(0), res);

    let mut iter2 = counted(vec!['a']);
    let res2: Result<usize, Vec<char>> = negate(expect(vec!['a'], count_msg())).parse(&mut iter2);
    assert_eq!(Err(vec!['a']), res2);
}

#[test]
fn recover_with_reports_a_soft_failure() {
    let mut iter = counted(vec!['b']);
    let res: Result<Soft<Vec<char>, usize>, usize> = recover_with(
        expect(vec!['a'], count_msg()),
        pure(ConstFn { v: () }),
    ).parse(&mut iter);

    assert_eq!(Ok(Soft::Reported(0)), res);
}

#[test]
fn recover_with_passes_a_success_through() {
    let mut iter = counted(vec!['a']);
    let res: Result<Soft<Vec<char>, usize>, usize> = recover_with(
        expect(vec!['a'], count_msg()),
        pure(ConstFn { v: () }),
    ).parse(&mut iter);

    assert_eq!(Ok(Soft::Parsed(vec!['a'])), res);
}

#[test]
fn flatten_errors_hardens_a_soft_failure() {
    let mut iter = counted(vec!['b']);
    let res: Result<Vec<char>, usize> = flatten_errors(recover_with(
        expect(vec!['a'], count_msg()),
        pure(ConstFn { v: () }),
    )).parse(&mut iter);

    assert_eq!(Err(0), res);
}

#[test]
fn fmap_err_transforms_the_error() {
    let mut iter = counted(vec!['b']);
    let res: Result<Vec<char>, usize> = fmap_err(IdFn::new(), expect(vec!['a'], count_msg())).parse(
        &mut iter,
    );

    assert_eq!(Err(0), res);
}

#[test]
fn wrap_err_and_extractors() {
    let mut iter = counted(vec!['x', 'y']);
    let res: Result<Vec<char>, usize> = use_fst_err(otherwise(
        wrap_err(expect(vec!['a'], count_msg())),
        wrap_err(expect(vec!['b'], count_msg())),
    )).parse(&mut iter);
    assert_eq!(Err(0), res);

    let mut iter2 = counted(vec!['x', 'y']);
    let res2: Result<Vec<char>, usize> = use_lst_err(otherwise(
        wrap_err(expect(vec!['a'], count_msg())),
        wrap_err(expect(vec!['b'], count_msg())),
    )).parse(&mut iter2);
    assert_eq!(Err(1), res2);
}

#[test]
fn silence_suppresses_the_diagnostic() {
    let mut iter = counted(vec!['b']);
    let res: Result<Vec<char>, ParseError<usize>> = silence(expect(vec!['a'], count_msg())).parse(
        &mut iter,
    );

    assert_eq!(Err(ParseError::Silent), res);
}

#[test]
fn label_wraps_a_loud_error() {
    let mut iter = counted(vec![]);
    let res: Result<Vec<char>, ParseError<usize>> = label(
        String::from("rule"),
        count_msg(),
        fail(msg("token")),
    ).parse(&mut iter);

    assert_eq!(
        Err(ParseError::Contextual(
            String::from("rule"),
            0,
            Box::new(ParseError::Message(String::from("token"), 0)),
        )),
        res,
    );
}

#[test]
fn label_leaves_silent_errors_silent() {
    let mut iter = counted(vec!['b']);
    let res: Result<Vec<char>, ParseError<usize>> = label(
        String::from("rule"),
        count_msg(),
        silence(expect(vec!['a'], count_msg())),
    ).parse(&mut iter);

    assert_eq!(Err(ParseError::Silent), res);
}

#[test]
fn bundle_groups_the_failures() {
    let mut iter = counted(vec![]);
    let res: Result<Vec<char>, ParseError<usize>> = bundle(otherwise(
        wrap_err(fail(msg("one"))),
        wrap_err(fail(msg("two"))),
    )).parse(&mut iter);

    assert_eq!(
        Err(ParseError::ErrBundle(vec![
            ParseError::Message(String::from("one"), 0),
            ParseError::Message(String::from("two"), 0),
        ])),
        res,
    );
}

#[test]
fn truncate_deletes_contextual_wrapping() {
    let err: ParseError<usize> = ParseError::ErrChoice(vec![
        ParseError::Contextual(
            String::from("outer"),
            3,
            Box::new(ParseError::Message(String::from("inner"), 5)),
        ),
        ParseError::Silent,
    ]);

    assert_eq!(
        ParseError::ErrChoice(vec![
            ParseError::Message(String::from("outer"), 3),
            ParseError::Silent,
        ]),
        truncate_parse_err(err),
    );
}

#[test]
fn display_full_choice_keeps_loud_branches() {
    let mut iter = counted(vec![]);
    let res: Result<Vec<char>, ParseError<usize>> = display_full_choice(otherwise(
        wrap_err(silence::<_, usize>(fail(count_msg()))),
        wrap_err(fail(msg("two"))),
    )).parse(&mut iter);

    assert_eq!(
        Err(ParseError::ErrChoice(vec![ParseError::Message(String::from("two"), 0)])),
        res,
    );
}

#[test]
fn display_fst_choice_truncates_later_branches() {
    let mut iter = counted(vec![]);
    let res: Result<Vec<char>, ParseError<usize>> = display_fst_choice(otherwise(
        wrap_err(label(String::from("ctx1"), count_msg(), fail(msg("one")))),
        wrap_err(label(String::from("ctx2"), count_msg(), fail(msg("two")))),
    )).parse(&mut iter);

    assert_eq!(
        Err(ParseError::ErrChoice(vec![
            ParseError::Contextual(
                String::from("ctx1"),
                0,
                Box::new(ParseError::Message(String::from("one"), 0)),
            ),
            ParseError::Message(String::from("ctx2"), 0),
        ])),
        res,
    );
}

#[test]
fn display_lst_choice_truncates_earlier_branches() {
    let mut iter = counted(vec![]);
    let res: Result<Vec<char>, ParseError<usize>> = display_lst_choice(otherwise(
        wrap_err(label(String::from("ctx1"), count_msg(), fail(msg("one")))),
        wrap_err(label(String::from("ctx2"), count_msg(), fail(msg("two")))),
    )).parse(&mut iter);

    assert_eq!(
        Err(ParseError::ErrChoice(vec![
            ParseError::Message(String::from("ctx1"), 0),
            ParseError::Contextual(
                String::from("ctx2"),
                0,
                Box::new(ParseError::Message(String::from("two"), 0)),
            ),
        ])),
        res,
    );
}

#[test]
fn display_single_branch_stands_alone() {
    let mut iter = counted(vec![]);
    let res: Result<Vec<char>, ParseError<usize>> = display_fst_choice(wrap_err(fail(msg(
        "only",
    )))).parse(&mut iter);

    assert_eq!(Err(ParseError::Message(String::from("only"), 0)), res);
}

#[test]
fn display_nonsilent_keeps_one_branch() {
    let mut iter = counted(vec![]);
    let res: Result<Vec<char>, ParseError<usize>> = display_fst_nonsilent(otherwise(
        wrap_err(fail(msg("one"))),
        wrap_err(fail(msg("two"))),
    )).parse(&mut iter);
    assert_eq!(Err(ParseError::Message(String::from("one"), 0)), res);

    let mut iter2 = counted(vec![]);
    let res2: Result<Vec<char>, ParseError<usize>> = display_lst_nonsilent(otherwise(
        wrap_err(fail(msg("one"))),
        wrap_err(fail(msg("two"))),
    )).parse(&mut iter2);
    assert_eq!(Err(ParseError::Message(String::from("two"), 0)), res2);
}

#[test]
fn display_all_silent_is_silent() {
    let mut iter = counted(vec![]);
    let res: Result<Vec<char>, ParseError<usize>> = display_full_choice(wrap_err(silence::<
        _,
        usize,
    >(fail(count_msg())))).parse(&mut iter);

    assert_eq!(Err(ParseError::Silent), res);
}

#[test]
fn show_error_renders_a_message() {
    let shown = show_error(
        String::new(),
        &ConstShow { text: String::from("at the start") },
        ParseError::Message::<usize>(String::from("digit"), 0),
    );

    assert_eq!(String::from("expected digit at the start..."), shown);
}

#[test]
fn show_error_renders_a_contextual_trail() {
    let shown = show_error(
        String::new(),
        &ConstShow { text: String::from("here") },
        ParseError::Contextual::<usize>(
            String::from("rule"),
            1,
            Box::new(ParseError::Message(String::from("digit"), 0)),
        ),
    );

    assert_eq!(
        String::from("expected digit here...\n...whilst parsing rule here..."),
        shown,
    );
}

#[test]
fn show_error_renders_a_choice_block() {
    let shown = show_error(
        String::new(),
        &ConstShow { text: String::from("here") },
        ParseError::ErrChoice::<usize>(vec![ParseError::Message(String::from("digit"), 0)]),
    );

    assert_eq!(
        String::from("| expected digit here...\n|-[ in choice ]\n|\n[ branching here ]"),
        shown,
    );
}

#[test]
fn show_error_renders_a_bundle_block() {
    let shown = show_error(
        String::from("> "),
        &ConstShow { text: String::from("here") },
        ParseError::ErrBundle::<usize>(vec![ParseError::Silent]),
    );

    assert_eq!(
        String::from("> | a silent error occured...\n> |-[ in error bundle ]\n> |\n> [ grouped here ]"),
        shown,
    );
}

#[test]
fn select_keeps_the_marked_result() {
    // the composition aliases: run-then-discard-right over run-then-discard-left
    let mut iter = counted(vec!['(', 'x', ')']);
    let res: Result<Vec<char>, usize> = first(
        last(expect(vec!['('], count_msg()), expect(vec!['x'], count_msg())),
        expect(vec![')'], count_msg()),
    ).parse(&mut iter);

    assert_eq!(Ok(vec!['x']), res);
    assert_eq!(None, iter.next_item());
}
