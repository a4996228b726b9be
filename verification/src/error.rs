//! The two kinds of failure: an unrecognised keyword or unreadable file, and
//! a syntax error at a position of the input.

use std::rc::Rc;
use vstd::prelude::*;
use vstd::string::*;
use crate::text::{push_decimal, decimal_text, skip_blanks, scan, skip_blanks_from, scan_from, string_of};

verus! {

broadcast use vstd::string::group_string_axioms;

#[derive(Debug, PartialEq)]
pub enum Error {
    UnrecognizedToken(String),
    ReadFailure(String),
    Utf8Error(String),
}

impl Error {
    /// The text shown to the user for this failure.
    pub open spec fn message(&self) -> Seq<char> {
        match self {
            Error::UnrecognizedToken(token) => "Unrecognized token "@ + token@,
            Error::ReadFailure(path) => "Failed to read file "@ + path@,
            Error::Utf8Error(path) => "Failed to decode file "@ + path@ + ", not valid UTF-8"@,
        }
    }

    pub fn to_string(&self) -> (r: String)
        ensures
            r@ == self.message(),
    {
        let mut out = String::new();
        match self {
            Error::UnrecognizedToken(token) => {
                out.append("Unrecognized token ");
                out.append(token.as_str());
            },
            Error::ReadFailure(path) => {
                out.append("Failed to read file ");
                out.append(path.as_str());
            },
            Error::Utf8Error(path) => {
                out.append("Failed to decode file ");
                out.append(path.as_str());
                out.append(", not valid UTF-8");
            },
        }
        out
    }
}

/// A syntax error: where it happened and what the parser was looking for.
#[derive(Debug, PartialEq)]
pub struct ParseError {
    path: Rc<String>,
    data: Rc<Vec<char>>,
    pos: usize,
    expected: String,
}

/// What a [`ParseError`] stands for: the name of the input, its whole text,
/// the position of the offending token, and what was expected there.
pub struct ParseErrorView {
    pub path: Seq<char>,
    pub text: Seq<char>,
    pub pos: int,
    pub expected: Seq<char>,
}

/// The 1-based number of the line that follows `prefix`.
pub open spec fn line_number(prefix: Seq<char>) -> nat
    decreases prefix.len(),
{
    if prefix.len() == 0 {
        1
    } else if prefix.last() == '\n' {
        line_number(prefix.drop_last()) + 1
    } else {
        line_number(prefix.drop_last())
    }
}

/// The 1-based column that follows `prefix`: one more than the number of
/// characters since the last line feed.
pub open spec fn column_number(prefix: Seq<char>) -> nat
    decreases prefix.len(),
{
    if prefix.len() == 0 || prefix.last() == '\n' {
        1
    } else {
        column_number(prefix.drop_last()) + 1
    }
}

/// The token named in an error message: the run of characters from the first
/// non-blank at or after `pos` up to the next blank or line feed, `<EOL>`
/// where that run is empty, `<EOF>` where only blanks are left.
pub open spec fn offending_token(text: Seq<char>, pos: int) -> Seq<char> {
    let start = skip_blanks(text, pos);
    let end = scan(text, start, seq![' ', '\t']);
    if start >= text.len() {
        "<EOF>"@
    } else if end == start {
        "<EOL>"@
    } else {
        text.subrange(start, end)
    }
}

impl ParseErrorView {
    /// The position, held to the length of the text.
    pub open spec fn offset(self) -> int {
        if self.pos < 0 {
            0
        } else if self.pos > self.text.len() {
            self.text.len() as int
        } else {
            self.pos
        }
    }

    pub open spec fn line(self) -> nat {
        line_number(self.text.take(self.offset()))
    }

    pub open spec fn column(self) -> nat {
        column_number(self.text.take(self.offset()))
    }

    pub open spec fn message(self) -> Seq<char> {
        "Unexpected token "@ + offending_token(self.text, self.offset()) + " in "@ + self.path
            + " at "@ + decimal_text(self.line()) + ":"@ + decimal_text(self.column())
            + ", expected "@ + self.expected
    }
}

impl View for ParseError {
    type V = ParseErrorView;

    closed spec fn view(&self) -> ParseErrorView {
        ParseErrorView {
            path: self.path@,
            text: self.data@,
            pos: self.pos as int,
            expected: self.expected@,
        }
    }
}

impl ParseError {
    pub fn new(path: Rc<String>, data: Rc<Vec<char>>, pos: usize, expected: String) -> (r: Self)
        ensures
            r@ == (ParseErrorView { path: path@, text: data@, pos: pos as int, expected: expected@ }),
    {
        ParseError { path, data, pos, expected }
    }

    /// The offset of the offending token in the input.
    pub fn pos(&self) -> (r: usize)
        ensures
            r == self@.pos,
    {
        self.pos
    }

    /// What the parser was looking for.
    pub fn expected(&self) -> (r: &str)
        ensures
            r@ == self@.expected,
    {
        self.expected.as_str()
    }

    fn line_and_column(&self) -> (r: (u128, u128))
        ensures
            r.0 == self@.line(),
            r.1 == self@.column(),
    {
        let end: usize = if self.pos > self.data.len() {
            self.data.len()
        } else {
            self.pos
        };
        let mut line: u128 = 1;
        let mut column: u128 = 1;
        let mut i: usize = 0;
        while i < end
            invariant
                i <= end <= self.data@.len(),
                end == self@.offset(),
                line == line_number(self.data@.take(i as int)),
                column == column_number(self.data@.take(i as int)),
                line <= i + 1,
                column <= i + 1,
            decreases end - i,
        {
            assert(self.data@.take(i + 1).drop_last() == self.data@.take(i as int));
            assert(self.data@.take(i + 1).last() == self.data@[i as int]);
            if self.data[i] == '\n' {
                line = line + 1;
                column = 1;
            } else {
                column = column + 1;
            }
            i += 1;
        }
        (line, column)
    }

    fn token(&self) -> (r: String)
        ensures
            r@ == offending_token(self@.text, self@.offset()),
    {
        let from: usize = if self.pos > self.data.len() {
            self.data.len()
        } else {
            self.pos
        };
        let start = skip_blanks_from(&self.data, from);
        if start >= self.data.len() {
            return "<EOF>".to_owned();
        }
        let end = scan_from(&self.data, start, &[' ', '\t']);
        if end == start {
            "<EOL>".to_owned()
        } else {
            string_of(&self.data, start, end)
        }
    }

    /// The message for the user: the offending token, the input's name, the
    /// line and the column, and what was expected.
    pub fn to_string(&self) -> (r: String)
        ensures
            r@ == self@.message(),
    {
        let (line, column) = self.line_and_column();
        let token = self.token();
        let mut out = String::new();
        out.append("Unexpected token ");
        out.append(token.as_str());
        out.append(" in ");
        out.append(self.path.as_str());
        out.append(" at ");
        push_decimal(&mut out, line);
        out.append(":");
        push_decimal(&mut out, column);
        out.append(", expected ");
        out.append(self.expected.as_str());
        out
    }
}

/// A syntax error with its message already written out.
#[derive(Debug, PartialEq)]
pub struct ParseErrorDisplayed {
    pos: usize,
    message: String,
}

impl ParseErrorDisplayed {
    pub closed spec fn pos(&self) -> int {
        self.pos as int
    }

    pub closed spec fn message(&self) -> Seq<char> {
        self.message@
    }
}

impl From<ParseError> for ParseErrorDisplayed {
    fn from(error: ParseError) -> (r: Self)
        ensures
            r.pos() == error@.pos,
            r.message() == error@.message(),
    {
        ParseErrorDisplayed { pos: error.pos, message: error.to_string() }
    }
}

impl vstd::std_specs::convert::FromSpecImpl<ParseError> for ParseErrorDisplayed {
    open spec fn obeys_from_spec() -> bool {
        false
    }

    open spec fn from_spec(error: ParseError) -> Self {
        arbitrary()
    }
}

} // verus!
