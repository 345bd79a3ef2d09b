use parsekit::builders::{eos, expect};
use parsekit::combinators::{most, most_till, least_till, unwind};
use parsekit::cursor::{Cursor, VecCursor};
use parsekit::errors::try_parse;
use parsekit::monadic::{pure, first, last};
use parsekit::parser::{Parser, ConstFn};
use parsekit::state::{CountIter, count_msg};

fn counted(tokens: Vec<char>) -> CountIter<VecCursor<char>> {
    CountIter { iter: VecCursor::new(tokens), index: 0 }
}

#[test]
fn parse_pure() {
    let mut iter = counted(vec!['-']);
    let res: Result<(), usize> = pure(ConstFn { v: () }).parse(&mut iter);

    assert_eq!(Ok(()), res); // expect success

    assert_eq!(Some('-'), iter.next_item());
    assert_eq!(None, iter.next_item());
}

#[test]
fn parse_eos_on_empty() {
    let mut iter = counted(vec![]);
    let res: Result<(), usize> = eos(count_msg()).parse(&mut iter);

    assert_eq!(Ok(()), res); // expect success

    assert_eq!(None, iter.next_item());
}

#[test]
fn parse_eos_on_content() {
    let mut iter = counted(vec!['a', '-']);
    let res: Result<(), usize> = eos(count_msg()).parse(&mut iter);

    assert_eq!(Err(0), res); // expect failure

    assert_eq!(Some('-'), iter.next_item());
    assert_eq!(None, iter.next_item());
}

#[test]
fn parse_a_on_a() {
    let mut iter = counted(vec!['a', '-']);
    let res: Result<Vec<char>, usize> = expect(vec!['a'], count_msg()).parse(&mut iter);

    assert_eq!(Ok(vec!['a']), res); // expect success

    assert_eq!(Some('-'), iter.next_item());
    assert_eq!(None, iter.next_item());
}

#[test]
fn parse_unwind_a_on_a() {
    let mut iter = counted(vec!['a', '-']);
    let res: Result<Vec<char>, usize> = unwind(expect(vec!['a'], count_msg())).parse(&mut iter);

    assert_eq!(Ok(vec!['a']), res); // expect success

    assert_eq!(Some('a'), iter.next_item());
    assert_eq!(Some('-'), iter.next_item());
    assert_eq!(None, iter.next_item());
}

#[test]
fn parse_a_on_b() {
    let mut iter = counted(vec!['b', '-']);
    let res: Result<Vec<char>, usize> = expect(vec!['a'], count_msg()).parse(&mut iter);

    assert_eq!(Err(0), res); // expect failure

    assert_eq!(Some('-'), iter.next_item());
    assert_eq!(None, iter.next_item());
}

#[test]
fn parse_try_a_on_b() {
    let mut iter = counted(vec!['b', '-']);
    let res: Result<Vec<char>, usize> = try_parse(expect(vec!['a'], count_msg())).parse(&mut iter);

    assert_eq!(Err(0), res); // expect failure

    assert_eq!(Some('b'), iter.next_item());
    assert_eq!(Some('-'), iter.next_item());
    assert_eq!(None, iter.next_item());
}

#[test]
fn parse_unwind_a_on_b() {
    let mut iter = counted(vec!['b', '-']);
    let res: Result<Vec<char>, usize> = unwind(expect(vec!['a'], count_msg())).parse(&mut iter);

    assert_eq!(Err(0), res); // expect failure

    assert_eq!(Some('b'), iter.next_item());
    assert_eq!(Some('-'), iter.next_item());
    assert_eq!(None, iter.next_item());
}

#[test]
fn parse_abc_on_abc() {
    let mut iter = counted(vec!['a', 'b', 'c', '-']);
    let res: Result<Vec<char>, usize> = expect(vec!['a', 'b', 'c'], count_msg()).parse(&mut iter);

    assert_eq!(Ok(vec!['a', 'b', 'c']), res); // expect success

    assert_eq!(Some('-'), iter.next_item());
    assert_eq!(None, iter.next_item());
}

#[test]
fn parse_abc_on_acd() {
    let mut iter = counted(vec!['a', 'c', 'd', '-']);
    let res: Result<Vec<char>, usize> = expect(vec!['a', 'b', 'c'], count_msg()).parse(&mut iter);

    assert_eq!(Err(0), res); // expect failure

    assert_eq!(Some('-'), iter.next_item());
    assert_eq!(None, iter.next_item());
}

#[test]
fn parse_a_b_c_on_abc() {
    let mut iter = counted(vec!['a', 'b', 'c', '-']);
    let res: Result<Vec<char>, usize> = first(
        last(expect(vec!['a'], count_msg()), expect(vec!['b'], count_msg())),
        expect(vec!['c'], count_msg()),
    ).parse(&mut iter);

    assert_eq!(Ok(vec!['b']), res); // expect success

    assert_eq!(Some('-'), iter.next_item());
    assert_eq!(None, iter.next_item());
}

#[test]
fn parse_a_b_c_on_acd() {
    let mut iter = counted(vec!['a', 'c', 'd', '-']);
    let res: Result<Vec<char>, usize> = first(
        last(expect(vec!['a'], count_msg()), expect(vec!['b'], count_msg())),
        expect(vec!['c'], count_msg()),
    ).parse(&mut iter);

    assert_eq!(Err(1), res); // expect failure

    assert_eq!(Some('d'), iter.next_item());
    assert_eq!(Some('-'), iter.next_item());
    assert_eq!(None, iter.next_item());
}

#[test]
fn parse_a_try_b_c_on_acd() {
    let mut iter = counted(vec!['a', 'c', 'd', '-']);
    let res: Result<Vec<char>, usize> = first(
        last(expect(vec!['a'], count_msg()), try_parse(expect(vec!['b'], count_msg()))),
        expect(vec!['c'], count_msg()),
    ).parse(&mut iter);

    assert_eq!(Err(1), res); // expect failure

    assert_eq!(Some('c'), iter.next_item());
    assert_eq!(Some('d'), iter.next_item());
    assert_eq!(Some('-'), iter.next_item());
    assert_eq!(None, iter.next_item());
}

#[test]
fn parse_tryall_a_b_c_on_acd() {
    let mut iter = counted(vec!['a', 'c', 'd', '-']);
    let res: Result<Vec<char>, usize> = try_parse(first(
        last(expect(vec!['a'], count_msg()), expect(vec!['b'], count_msg())),
        expect(vec!['c'], count_msg()),
    )).parse(&mut iter);

    assert_eq!(Err(1), res); // expect failure

    assert_eq!(Some('a'), iter.next_item());
    assert_eq!(Some('c'), iter.next_item());
    assert_eq!(Some('d'), iter.next_item());
    assert_eq!(Some('-'), iter.next_item());
    assert_eq!(None, iter.next_item());
}

#[test]
fn parse_most_a_on_b() {
    let mut iter = counted(vec!['b', '-']);
    let res: Result<Vec<Vec<char>>, usize> = most(expect(vec!['a'], count_msg())).parse(&mut iter);

    assert_eq!(Ok(vec![]), res); // expect success

    assert_eq!(Some('-'), iter.next_item());
    assert_eq!(None, iter.next_item());
}

#[test]
fn parse_most_try_a_on_b() {
    let mut iter = counted(vec!['b', '-']);
    let res: Result<Vec<Vec<char>>, usize> = most(try_parse(expect(vec!['a'], count_msg()))).parse(
        &mut iter,
    );

    assert_eq!(Ok(vec![]), res); // expect success

    assert_eq!(Some('b'), iter.next_item());
    assert_eq!(Some('-'), iter.next_item());
    assert_eq!(None, iter.next_item());
}

#[test]
fn parse_most_a_on_aab() {
    let mut iter = counted(vec!['a', 'a', 'b', '-']);
    let res: Result<Vec<Vec<char>>, usize> = most(expect(vec!['a'], count_msg())).parse(&mut iter);

    assert_eq!(Ok(vec![vec!['a'], vec!['a']]), res); // expect success

    assert_eq!(Some('-'), iter.next_item());
    assert_eq!(None, iter.next_item());
}

#[test]
fn parse_most_try_a_on_aab() {
    let mut iter = counted(vec!['a', 'a', 'b', '-']);
    let res: Result<Vec<Vec<char>>, usize> = most(try_parse(expect(vec!['a'], count_msg()))).parse(
        &mut iter,
    );

    assert_eq!(Ok(vec![vec!['a'], vec!['a']]), res); // expect success

    assert_eq!(Some('b'), iter.next_item());
    assert_eq!(Some('-'), iter.next_item());
    assert_eq!(None, iter.next_item());
}

#[test]
fn parse_most_a_till_c_on_abc() {
    let mut iter = counted(vec!['a', 'b', 'c', '-']);
    let res: Result<(Vec<Vec<char>>, Vec<char>), Vec<usize>> = most_till(
        expect(vec!['a'], count_msg()),
        expect(vec!['c'], count_msg()),
    ).parse(&mut iter);

    assert_eq!(Ok((vec![vec!['a']], vec!['c'])), res); // expect success

    assert_eq!(Some('-'), iter.next_item());
    assert_eq!(None, iter.next_item());
}

#[test]
fn parse_most_try_a_till_b_on_aab() {
    let mut iter = counted(vec!['a', 'a', 'b', '-']);
    let res: Result<(Vec<Vec<char>>, Vec<char>), Vec<usize>> = most_till(
        try_parse(expect(vec!['a'], count_msg())),
        expect(vec!['b'], count_msg()),
    ).parse(&mut iter);

    assert_eq!(Ok((vec![vec!['a'], vec!['a']], vec!['b'])), res); // expect success

    assert_eq!(Some('-'), iter.next_item());
    assert_eq!(None, iter.next_item());
}

#[test]
fn parse_least_b_till_c_on_abc() {
    let mut iter = counted(vec!['a', 'b', 'c', '-']);
    let res: Result<(Vec<Vec<char>>, Vec<char>), Vec<usize>> = least_till(
        expect(vec!['b'], count_msg()),
        expect(vec!['c'], count_msg()),
    ).parse(&mut iter);

    assert_eq!(Ok((vec![vec!['b']], vec!['c'])), res); // expect success

    assert_eq!(Some('-'), iter.next_item());
    assert_eq!(None, iter.next_item());
}

#[test]
fn parse_least_a_till_try_b_on_aab() {
    let mut iter = counted(vec!['a', 'a', 'b', '-']);
    let res: Result<(Vec<Vec<char>>, Vec<char>), Vec<usize>> = least_till(
        expect(vec!['a'], count_msg()),
        try_parse(expect(vec!['b'], count_msg())),
    ).parse(&mut iter);

    assert_eq!(Ok((vec![vec!['a'], vec!['a']], vec!['b'])), res); // expect success

    assert_eq!(Some('-'), iter.next_item());
    assert_eq!(None, iter.next_item());
}
