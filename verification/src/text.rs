//! The text-position cursor: a specialized counter over character input
//! that tracks line number and column index, incrementing the line and
//! resetting the column on newline symbols.

use vstd::prelude::*;
use crate::cursor::Cursor;
use crate::dup::Dup;
use crate::parser::Parser;

verus! {

/// A position in a named text: file name, line number and column index.
#[derive(Debug, PartialEq)]
pub struct TextInfo {
    pub file: String,
    pub line: usize,
    pub index: usize,
}

/// The mathematical state of a [`TextInfo`].
pub struct TextInfoView {
    pub file: Seq<char>,
    pub line: int,
    pub index: int,
}

impl DeepView for TextInfo {
    type V = TextInfoView;

    open spec fn deep_view(&self) -> TextInfoView {
        TextInfoView { file: self.file@, line: self.line as int, index: self.index as int }
    }
}

impl Dup for TextInfo {
    fn dup(&self) -> (r: TextInfo)
        ensures
            r.deep_view() == self.deep_view(),
    {
        TextInfo { file: self.file.clone(), line: self.line, index: self.index }
    }
}

/// The state of a [`TextIter`]: the inner cursor's state and the text
/// position.
pub struct TextView<M> {
    pub inner: M,
    pub info: TextInfoView,
}

/// A cursor wrapper over character input that keeps a [`TextInfo`] up to
/// date as characters are read. Line and column saturate at the machine
/// limit instead of overflowing.
pub struct TextIter<I> {
    pub iter: I,
    pub info: TextInfo,
}

impl<I: DeepView> DeepView for TextIter<I> {
    type V = TextView<I::V>;

    open spec fn deep_view(&self) -> TextView<I::V> {
        TextView { inner: self.iter.deep_view(), info: self.info.deep_view() }
    }
}

/// The text position after reading `c`: a newline bumps the line and
/// resets the column; any other character bumps the column.
pub open spec fn step_info(info: TextInfoView, c: char) -> TextInfoView {
    if c == '\n' {
        TextInfoView {
            file: info.file,
            line: if info.line < usize::MAX as int {
                info.line + 1
            } else {
                info.line
            },
            index: 0,
        }
    } else {
        TextInfoView {
            file: info.file,
            line: info.line,
            index: if info.index < usize::MAX as int {
                info.index + 1
            } else {
                info.index
            },
        }
    }
}

impl<I: Cursor<Item = char>> Cursor for TextIter<I> {
    type Item = char;

    open spec fn spec_peek(m: TextView<I::V>) -> Option<char> {
        I::spec_peek(m.inner)
    }

    open spec fn spec_step(m: TextView<I::V>) -> TextView<I::V> {
        match I::spec_peek(m.inner) {
            Some(c) => TextView { inner: I::spec_step(m.inner), info: step_info(m.info, c) },
            None => TextView { inner: I::spec_step(m.inner), info: m.info },
        }
    }

    open spec fn spec_size(m: TextView<I::V>) -> nat {
        I::spec_size(m.inner)
    }

    proof fn lemma_step_size(m: TextView<I::V>) {
        I::lemma_step_size(m.inner);
    }

    fn next_item(&mut self) -> (r: Option<char>) {
        match self.iter.next_item() {
            Option::None => Option::None,
            Option::Some(c) => {
                if c == '\n' {
                    if self.info.line < usize::MAX {
                        self.info.line = self.info.line + 1;
                    }
                    self.info.index = 0;
                } else {
                    if self.info.index < usize::MAX {
                        self.info.index = self.info.index + 1;
                    }
                }
                Option::Some(c)
            }
        }
    }

    fn mark(&self) -> (r: TextIter<I>) {
        TextIter { iter: self.iter.mark(), info: self.info.dup() }
    }
}

/// The parser built by [`get_text_info`]: reads the text position off the
/// cursor.
pub struct GetTextInfo<E> {
    pub ph: core::marker::PhantomData<E>,
}

/// Produces the current line and column position; never fails, consumes
/// nothing.
pub fn get_text_info<E>() -> (r: GetTextInfo<E>) {
    GetTextInfo { ph: core::marker::PhantomData }
}

impl<I: Cursor<Item = char>, E: DeepView> Parser<TextIter<I>> for GetTextInfo<E> {
    type Value = TextInfo;

    type Error = E;

    open spec fn wf(&self) -> bool {
        true
    }

    open spec fn spec_parse(&self, m: TextView<I::V>) -> (TextView<I::V>, Result<
        TextInfoView,
        E::V,
    >) {
        (m, Result::Ok(m.info))
    }

    fn parse(&self, c: &mut TextIter<I>) -> (r: Result<TextInfo, E>) {
        Result::Ok(c.info.dup())
    }
}

} // verus!
