//! The scanner: a position in a text, and the primitives that read one
//! character, one keyword, one directive, one number or one end of line from
//! it. A scanner is never changed; each primitive hands back a new one.

use std::rc::Rc;
use vstd::prelude::*;
use vstd::string::*;
use crate::error::{ParseError, ParseErrorView};
use crate::text::{
    chars_of, integer_value, is_blank, lemma_scan_bounds, lemma_skip_blanks_bounds, parse_integer,
    push_char, scan, scan_from, skip_blanks, skip_blanks_from, str_eq, string_of,
};

verus! {

broadcast use vstd::string::group_string_axioms;

/// A second handle on the same shared value.
///
/// Trusted: stands for `Rc::clone`, which vstd does not specify. The contract
/// claims that the new handle refers to the value that `rc` refers to.
#[verifier::external_body]
pub(crate) fn share<T>(rc: &Rc<T>) -> (res: Rc<T>)
    ensures
        res == rc,
{
    rc.clone()
}

/// What a [`Tokenizer`] stands for: the whole text, a position in it, and the
/// name of the input that the text came from.
pub struct Cursor {
    pub text: Seq<char>,
    pub pos: int,
    pub path: Seq<char>,
}

/// What a scanner primitive yields: the scanner behind what was read together
/// with the value read, or a syntax error.
pub type Parsed<V> = Result<(Cursor, V), ParseErrorView>;

/// What a primitive yields that reads no value: the scanner behind what was
/// accepted, or a syntax error.
pub type Moved = Result<Cursor, ParseErrorView>;

/// The characters at which a keyword ends, besides the line feed.
pub open spec fn keyword_stops() -> Seq<char> {
    seq![' ', '\t', ',', ':', '(', ')', '{', '}', '#', '@']
}

/// The type suffixes that may follow the digits of a number.
pub open spec fn number_suffixes() -> Seq<char> {
    seq!['t', 'T', 's', 'S', 'l', 'L']
}

/// `s` without the longest run of characters of `set` at its end.
pub open spec fn trim_end(s: Seq<char>, set: Seq<char>) -> Seq<char>
    decreases s.len(),
{
    if s.len() > 0 && set.contains(s.last()) {
        trim_end(s.drop_last(), set)
    } else {
        s
    }
}

/// The number that a keyword denotes: decimal, or hexadecimal behind `0x` or
/// `-0x`, within 64 bits, any type suffixes dropped.
pub open spec fn number_value(keyword: Seq<char>) -> Option<int> {
    let digits = trim_end(keyword, number_suffixes());
    if seq!['-', '0', 'x'].is_prefix_of(digits) {
        match integer_value(digits.skip(3), 16, true, -0x7fff_ffff_ffff_ffff, 0x7fff_ffff_ffff_ffff) {
            Some(v) => Some(-v),
            None => None,
        }
    } else if seq!['0', 'x'].is_prefix_of(digits) {
        integer_value(digits.skip(2), 16, true, -0x8000_0000_0000_0000, 0x7fff_ffff_ffff_ffff)
    } else {
        integer_value(digits, 10, true, -0x8000_0000_0000_0000, 0x7fff_ffff_ffff_ffff)
    }
}

/// How an expected character is named in an error message.
pub open spec fn expected_char(c: char) -> Seq<char> {
    if c == '\n' {
        "<EOL>"@
    } else {
        ("the character '"@).push(c).push('\'')
    }
}

impl Cursor {
    pub open spec fn wf(self) -> bool {
        0 <= self.pos <= self.text.len()
    }

    /// The same text at another position.
    pub open spec fn at(self, pos: int) -> Cursor {
        Cursor { text: self.text, pos: pos, path: self.path }
    }

    /// Whether `self` is a position of the same text at or behind `earlier`.
    pub open spec fn follows(self, earlier: Cursor) -> bool {
        &&& self.text == earlier.text
        &&& self.path == earlier.path
        &&& earlier.pos <= self.pos <= self.text.len()
    }

    /// The syntax error raised at this position.
    pub open spec fn unexpected(self, expected: Seq<char>) -> ParseErrorView {
        ParseErrorView { path: self.path, text: self.text, pos: self.pos, expected: expected }
    }

    pub open spec fn skip_whitespace(self) -> Cursor {
        self.at(skip_blanks(self.text, self.pos))
    }

    /// Everything up to the next stop character or line feed, neither of
    /// which is consumed.
    pub open spec fn read_to(self, stops: Seq<char>) -> (Cursor, Seq<char>) {
        let end = scan(self.text, self.pos, stops);
        (self.at(end), self.text.subrange(self.pos, end))
    }

    pub open spec fn next_char(self) -> Option<char> {
        if 0 <= self.pos < self.text.len() {
            Some(self.text[self.pos])
        } else {
            None
        }
    }

    /// The first character behind any blanks.
    pub open spec fn read_char(self) -> Parsed<char> {
        let start = self.skip_whitespace();
        match start.next_char() {
            Some(c) => Ok((start.at(start.pos + 1), c)),
            None => Err(start.unexpected("a char"@)),
        }
    }

    pub open spec fn expect_char(self, c: char) -> Moved {
        match self.read_char() {
            Ok((next, found)) => if found == c {
                Ok(next)
            } else {
                Err(self.unexpected(expected_char(c)))
            },
            Err(_) => Err(self.unexpected(expected_char(c))),
        }
    }

    pub open spec fn expect_eof(self) -> Moved {
        if self.pos >= self.text.len() {
            Ok(self)
        } else {
            Err(self.unexpected("<EOF>"@))
        }
    }

    /// The end of the statement's own line: behind a trailing comment where
    /// there is one, behind trailing blanks otherwise.
    pub open spec fn skip_trailer(self) -> Cursor {
        match self.expect_char('#') {
            Ok(comment) => comment.read_to(seq!['\n']).0,
            Err(_) => self.skip_whitespace(),
        }
    }

    /// Steps over any further lines that are empty or hold only a comment.
    pub open spec fn skip_blank_lines(self) -> Cursor
        decreases self.text.len() - self.pos,
    {
        match self.expect_char('#') {
            Ok(comment) => {
                let end = comment.read_to(seq!['\n']).0;
                let next = match end.expect_char('\n') {
                    Ok(line) => line,
                    Err(_) => end,
                };
                if self.pos < next.pos <= self.text.len() {
                    next.skip_blank_lines()
                } else {
                    next
                }
            },
            Err(_) => match self.expect_char('\n') {
                Ok(line) => if self.pos < line.pos <= self.text.len() {
                    line.skip_blank_lines()
                } else {
                    line
                },
                Err(_) => self,
            },
        }
    }

    /// The end of a statement: an optional comment, then the end of the input
    /// or a line feed followed by any number of empty or comment lines.
    pub open spec fn expect_eol(self) -> Moved {
        let end = self.skip_trailer();
        if end.expect_eof() is Ok {
            Ok(end)
        } else {
            match end.expect_char('\n') {
                Ok(line) => Ok(line.skip_blank_lines()),
                Err(e) => Err(e),
            }
        }
    }

    pub open spec fn read_keyword(self) -> Parsed<Seq<char>> {
        let (end, keyword) = self.skip_whitespace().read_to(keyword_stops());
        if keyword.len() == 0 {
            Err(end.unexpected("a keyword"@))
        } else {
            Ok((end, keyword))
        }
    }

    pub open spec fn expect_keyword(self, expected: Seq<char>) -> Moved {
        match self.read_keyword() {
            Ok((end, keyword)) => if keyword == expected {
                Ok(end)
            } else {
                Err(self.unexpected(expected))
            },
            Err(_) => Err(self.unexpected(expected)),
        }
    }

    /// A period and the name behind it, which runs up to the next blank.
    pub open spec fn read_directive(self) -> Parsed<Seq<char>> {
        match self.expect_char('.') {
            Ok(name) => {
                let (end, directive) = name.read_to(seq![' ', '\t']);
                if directive.len() == 0 {
                    Err(self.unexpected("a directive"@))
                } else {
                    Ok((end, directive))
                }
            },
            Err(_) => Err(self.unexpected("a directive"@)),
        }
    }

    pub open spec fn expect_directive(self, expected: Seq<char>) -> Moved {
        match self.read_directive() {
            Ok((end, directive)) => if directive == expected {
                Ok(end)
            } else {
                Err(self.unexpected(seq!['.'] + expected))
            },
            Err(_) => Err(self.unexpected(seq!['.'] + expected)),
        }
    }

    pub open spec fn read_number(self) -> Parsed<i64> {
        match self.read_keyword() {
            Ok((end, keyword)) => match number_value(keyword) {
                Some(v) => Ok((end, v as i64)),
                None => Err(self.unexpected("a number"@)),
            },
            Err(e) => Err(e),
        }
    }
}

/// `prefix` put in front of the values that a repetition yields.
pub open spec fn prepend<V>(prefix: Seq<V>, r: Parsed<Seq<V>>) -> Parsed<Seq<V>> {
    match r {
        Ok((end, rest)) => Ok((end, prefix + rest)),
        Err(e) => Err(e),
    }
}

/// Reads items one after another until `done` holds: the values read, in
/// order, and the position at which `done` held, which is not stepped over.
/// The first item that fails ends the repetition with its error.
pub open spec fn repeat<V>(
    input: Cursor,
    done: spec_fn(Cursor) -> bool,
    item: spec_fn(Cursor) -> Parsed<V>,
) -> Parsed<Seq<V>>
    decreases input.text.len() - input.pos,
{
    if done(input) {
        Ok((input, Seq::empty()))
    } else {
        match item(input) {
            Ok((next, v)) => if next.follows(input) && input.pos < next.pos {
                prepend(seq![v], repeat(next, done, item))
            } else {
                Err(input.unexpected(Seq::empty()))
            },
            Err(e) => Err(e),
        }
    }
}

/// Putting `acc` in front of what has `v` in front is putting `acc` and `v`
/// in front.
pub proof fn lemma_prepend_push<V>(acc: Seq<V>, v: V, r: Parsed<Seq<V>>)
    ensures
        prepend(acc, prepend(seq![v], r)) == prepend(acc.push(v), r),
{
    match r {
        Ok((end, rest)) => {
            assert(acc + (seq![v] + rest) =~= acc.push(v) + rest);
        },
        Err(_) => {},
    }
}

/// Putting nothing in front changes nothing.
pub proof fn lemma_prepend_empty<V>(r: Parsed<Seq<V>>)
    ensures
        prepend(Seq::empty(), r) == r,
{
    match r {
        Ok((end, rest)) => {
            assert(Seq::<V>::empty() + rest =~= rest);
        },
        Err(_) => {},
    }
}

/// One turn of a repetition: with `v` read at `input`, what the whole yields
/// is what the rest yields behind the values read so far and `v`.
pub proof fn lemma_repeat_step<V>(
    acc: Seq<V>,
    input: Cursor,
    next: Cursor,
    v: V,
    done: spec_fn(Cursor) -> bool,
    item: spec_fn(Cursor) -> Parsed<V>,
)
    requires
        !done(input),
        item(input) == Ok::<(Cursor, V), ParseErrorView>((next, v)),
        next.follows(input),
        input.pos < next.pos,
    ensures
        prepend(acc, repeat(input, done, item)) == prepend(acc.push(v), repeat(next, done, item)),
{
    match repeat(next, done, item) {
        Ok((end, rest)) => {
            assert(acc + (seq![v] + rest) =~= acc.push(v) + rest);
        },
        Err(_) => {},
    }
}

/// A repetition whose next item fails yields that item's error.
pub proof fn lemma_repeat_fail<V>(
    acc: Seq<V>,
    input: Cursor,
    e: ParseErrorView,
    done: spec_fn(Cursor) -> bool,
    item: spec_fn(Cursor) -> Parsed<V>,
)
    requires
        !done(input),
        item(input) == Err::<(Cursor, V), ParseErrorView>(e),
    ensures
        prepend(acc, repeat(input, done, item)) == Err::<(Cursor, Seq<V>), ParseErrorView>(e),
{
}

/// A repetition that is done at once yields what was read so far.
pub proof fn lemma_repeat_done<V>(
    acc: Seq<V>,
    input: Cursor,
    done: spec_fn(Cursor) -> bool,
    item: spec_fn(Cursor) -> Parsed<V>,
)
    requires
        done(input),
    ensures
        prepend(acc, repeat(input, done, item)) == Ok::<(Cursor, Seq<V>), ParseErrorView>(
            (input, acc),
        ),
{
    assert(acc + Seq::<V>::empty() =~= acc);
}

/// A position in an input text.
#[derive(Debug)]
pub struct Tokenizer {
    pos: usize,
    data: Rc<Vec<char>>,
    path: Rc<String>,
}

impl View for Tokenizer {
    type V = Cursor;

    closed spec fn view(&self) -> Cursor {
        Cursor { text: self.data@, pos: self.pos as int, path: self.path@ }
    }
}

impl DeepView for Tokenizer {
    type V = Cursor;

    open spec fn deep_view(&self) -> Cursor {
        self@
    }
}

impl Clone for Tokenizer {
    fn clone(&self) -> (r: Self)
        ensures
            r@ == self@,
    {
        proof {
            use_type_invariant(self);
        }
        Tokenizer { pos: self.pos, data: share(&self.data), path: share(&self.path) }
    }
}

/// Whether what a primitive returned is what its model yields.
pub open spec fn parsed<T: DeepView>(
    r: Result<(Tokenizer, T), ParseError>,
    model: Parsed<T::V>,
) -> bool {
    match r {
        Ok((t, v)) => model == Ok::<(Cursor, T::V), ParseErrorView>((t@, v.deep_view())),
        Err(e) => model == Err::<(Cursor, T::V), ParseErrorView>(e@),
    }
}

/// Whether what a value-less primitive returned is what its model yields.
pub open spec fn moved(r: Result<Tokenizer, ParseError>, model: Moved) -> bool {
    match r {
        Ok(t) => model == Ok::<Cursor, ParseErrorView>(t@),
        Err(e) => model == Err::<Cursor, ParseErrorView>(e@),
    }
}

impl Tokenizer {
    #[verifier::type_invariant]
    spec fn within_text(self) -> bool {
        self.pos <= self.data@.len()
    }

    /// A scanner at the start of `data`; `path` names the input in error
    /// messages.
    pub fn new(data: String, path: &str) -> (r: Self)
        ensures
            r@ == (Cursor { text: data@, pos: 0, path: path@ }),
    {
        Tokenizer {
            pos: 0,
            data: Rc::new(chars_of(data.as_str())),
            path: Rc::new(path.to_owned()),
        }
    }

    pub(crate) fn chars(&self) -> (r: &Vec<char>)
        ensures
            r@ == self@.text,
    {
        &self.data
    }

    pub(crate) fn offset(&self) -> (r: usize)
        ensures
            r == self@.pos,
            self@.wf(),
    {
        proof {
            use_type_invariant(self);
        }
        self.pos
    }

    pub(crate) fn at(&self, pos: usize) -> (r: Self)
        requires
            pos <= self@.text.len(),
        ensures
            r@ == self@.at(pos as int),
    {
        Tokenizer { pos, data: share(&self.data), path: share(&self.path) }
    }

    fn skip_whitespace(&self) -> (r: Self)
        ensures
            r@ == self@.skip_whitespace(),
            r@.follows(self@),
    {
        proof {
            use_type_invariant(self);
        }
        let end = skip_blanks_from(&self.data, self.pos);
        self.at(end)
    }

    pub fn read_to(&self, chars: &[char]) -> (r: (Self, String))
        ensures
            r.0@ == self@.read_to(chars@).0,
            r.1@ == self@.read_to(chars@).1,
            r.0@.follows(self@),
    {
        proof {
            use_type_invariant(self);
        }
        let end = scan_from(&self.data, self.pos, chars);
        (self.at(end), string_of(&self.data, self.pos, end))
    }

    fn read_to_whitespace(&self) -> (r: (Self, String))
        ensures
            r.0@ == self@.read_to(seq![' ', '\t']).0,
            r.1@ == self@.read_to(seq![' ', '\t']).1,
            r.0@.follows(self@),
    {
        let stops = [' ', '\t'];
        assert(stops@ =~= seq![' ', '\t']);
        self.read_to(&stops)
    }

    pub fn next_char(&self) -> (r: Option<char>)
        ensures
            r == self@.next_char(),
    {
        if self.pos < self.data.len() {
            Some(self.data[self.pos])
        } else {
            None
        }
    }

    pub fn read_char(&self) -> (r: Result<(Self, char), ParseError>)
        ensures
            parsed(r, self@.read_char()),
            r matches Ok((t, _)) ==> t@.follows(self@) && t@.pos > self@.pos,
    {
        let input = self.skip_whitespace();
        if input.pos < input.data.len() {
            let c = input.data[input.pos];
            Ok((input.at(input.pos + 1), c))
        } else {
            proof {
                use_type_invariant(&input);
            }
            Err(input.unexpected("a char".to_owned()))
        }
    }

    fn expected(c: char) -> (r: String)
        ensures
            r@ == expected_char(c),
    {
        if c == '\n' {
            "<EOL>".to_owned()
        } else {
            let mut r = "the character '".to_owned();
            push_char(&mut r, c);
            push_char(&mut r, '\'');
            r
        }
    }

    pub fn expect_char(&self, c: char) -> (r: Result<Self, ParseError>)
        ensures
            moved(r, self@.expect_char(c)),
            r matches Ok(t) ==> t@.follows(self@) && t@.pos > self@.pos,
    {
        match self.read_char() {
            Ok((input, next)) => {
                if next == c {
                    Ok(input)
                } else {
                    Err(self.unexpected(Self::expected(c)))
                }
            },
            Err(_) => Err(self.unexpected(Self::expected(c))),
        }
    }

    /// The end of the current line.
    fn line_end(&self) -> (r: Self)
        ensures
            r@ == self@.read_to(seq!['\n']).0,
            r@.follows(self@),
    {
        let stops = ['\n'];
        assert(stops@ =~= seq!['\n']);
        let (input, _) = self.read_to(&stops);
        input
    }

    fn skip_trailer(&self) -> (r: Self)
        ensures
            r@ == self@.skip_trailer(),
            r@.follows(self@),
    {
        match self.expect_char('#') {
            Ok(input) => input.line_end(),
            Err(_) => self.skip_whitespace(),
        }
    }

    pub fn expect_eol(&self) -> (r: Result<Self, ParseError>)
        ensures
            moved(r, self@.expect_eol()),
            r matches Ok(t) ==> t@.follows(self@),
    {
        let input = self.skip_trailer();
        if input.expect_eof().is_ok() {
            return Ok(input);
        }
        let mut input = input.expect_char('\n')?;
        let ghost first = input@;
        loop
            invariant
                input@.follows(self@),
                input@.skip_blank_lines() == first.skip_blank_lines(),
            ensures
                input@ == first.skip_blank_lines(),
            decreases input@.text.len() - input@.pos,
        {
            proof {
                use_type_invariant(&input);
            }
            match input.expect_char('#') {
                Ok(comment) => {
                    let end = comment.line_end();
                    match end.expect_char('\n') {
                        Ok(line) => {
                            input = line;
                        },
                        Err(_) => {
                            input = end;
                        },
                    }
                },
                Err(_) => match input.expect_char('\n') {
                    Ok(line) => {
                        input = line;
                    },
                    Err(_) => {
                        break ;
                    },
                },
            }
        }
        Ok(input)
    }

    pub(crate) fn keyword_bounds(&self) -> (r: (usize, usize))
        ensures
            r.0 == self@.skip_whitespace().pos,
            r.1 == self@.skip_whitespace().read_to(keyword_stops()).0.pos,
            self@.pos <= r.0 <= r.1 <= self@.text.len(),
            self@.text.subrange(r.0 as int, r.1 as int) == self@.skip_whitespace().read_to(
                keyword_stops(),
            ).1,
    {
        proof {
            use_type_invariant(self);
        }
        let start = skip_blanks_from(&self.data, self.pos);
        let stops = [' ', '\t', ',', ':', '(', ')', '{', '}', '#', '@'];
        assert(stops@ =~= keyword_stops());
        let end = scan_from(&self.data, start, &stops);
        (start, end)
    }

    pub fn read_keyword(&self) -> (r: Result<(Self, String), ParseError>)
        ensures
            parsed(r, self@.read_keyword()),
            r matches Ok((t, k)) ==> t@.follows(self@) && t@.pos > self@.pos && k@.len() > 0,
    {
        let (start, end) = self.keyword_bounds();
        let input = self.at(end);
        if start == end {
            Err(input.unexpected("a keyword".to_owned()))
        } else {
            Ok((input, string_of(&self.data, start, end)))
        }
    }

    pub fn expect_keyword(&self, expected: &str) -> (r: Result<Self, ParseError>)
        ensures
            moved(r, self@.expect_keyword(expected@)),
            r matches Ok(t) ==> t@.follows(self@) && t@.pos > self@.pos,
    {
        match self.read_keyword() {
            Ok((input, keyword)) => {
                if str_eq(keyword.as_str(), expected) {
                    Ok(input)
                } else {
                    Err(self.unexpected(expected.to_owned()))
                }
            },
            Err(_) => Err(self.unexpected(expected.to_owned())),
        }
    }

    pub fn read_directive(&self) -> (r: Result<(Self, String), ParseError>)
        ensures
            parsed(r, self@.read_directive()),
            r matches Ok((t, d)) ==> t@.follows(self@) && t@.pos > self@.pos && d@.len() > 0,
    {
        match self.expect_char('.') {
            Ok(input) => {
                let (input, directive) = input.read_to_whitespace();
                if directive.as_str().unicode_len() == 0 {
                    Err(self.unexpected("a directive".to_owned()))
                } else {
                    Ok((input, directive))
                }
            },
            Err(_) => Err(self.unexpected("a directive".to_owned())),
        }
    }

    fn dotted(expected: &str) -> (r: String)
        ensures
            r@ == seq!['.'] + expected@,
    {
        let mut r = ".".to_owned();
        proof {
            reveal_strlit(".");
            assert("."@ == seq!['.']);
        }
        r.append(expected);
        r
    }

    pub fn expect_directive(&self, expected: &str) -> (r: Result<Self, ParseError>)
        ensures
            moved(r, self@.expect_directive(expected@)),
            r matches Ok(t) ==> t@.follows(self@) && t@.pos > self@.pos,
    {
        match self.read_directive() {
            Ok((input, directive)) => {
                if str_eq(directive.as_str(), expected) {
                    Ok(input)
                } else {
                    Err(self.unexpected(Self::dotted(expected)))
                }
            },
            Err(_) => Err(self.unexpected(Self::dotted(expected))),
        }
    }

    pub fn read_number(&self) -> (r: Result<(Self, i64), ParseError>)
        ensures
            parsed(r, self@.read_number()),
            r matches Ok((t, _)) ==> t@.follows(self@) && t@.pos > self@.pos,
    {
        let (start, end) = self.keyword_bounds();
        let input = self.at(end);
        if start == end {
            return Err(input.unexpected("a keyword".to_owned()));
        }
        match number_in(&self.data, start, end) {
            Some(number) => Ok((input, number)),
            None => Err(self.unexpected("a number".to_owned())),
        }
    }

    pub fn expect_eof(&self) -> (r: Result<Self, ParseError>)
        ensures
            moved(r, self@.expect_eof()),
            r matches Ok(t) ==> t@ == self@,
    {
        proof {
            use_type_invariant(self);
        }
        if self.pos >= self.data.len() {
            Ok(self.at(self.pos))
        } else {
            Err(self.unexpected("<EOF>".to_owned()))
        }
    }

    /// The syntax error that names what was expected at this position.
    pub fn unexpected(&self, expected: String) -> (r: ParseError)
        ensures
            r@ == self@.unexpected(expected@),
    {
        ParseError::new(share(&self.path), share(&self.data), self.pos, expected)
    }
}

/// The number that `chars[from..to]` denotes.
pub(crate) fn number_in(chars: &Vec<char>, from: usize, to: usize) -> (r: Option<i64>)
    requires
        from <= to <= chars@.len(),
    ensures
        r matches Some(v) ==> number_value(chars@.subrange(from as int, to as int)) == Some(v as int),
        r is None ==> number_value(chars@.subrange(from as int, to as int)) is None,
{
    let ghost keyword = chars@.subrange(from as int, to as int);
    let mut end: usize = to;
    while end > from && (chars[end - 1] == 't' || chars[end - 1] == 'T' || chars[end - 1] == 's'
        || chars[end - 1] == 'S' || chars[end - 1] == 'l' || chars[end - 1] == 'L')
        invariant
            from <= end <= to <= chars@.len(),
            trim_end(chars@.subrange(from as int, end as int), number_suffixes()) == trim_end(
                keyword,
                number_suffixes(),
            ),
            keyword == chars@.subrange(from as int, to as int),
        decreases end - from,
    {
        proof {
            let s = chars@.subrange(from as int, end as int);
            let c = chars@[end - 1];
            assert(s.last() == c);
            assert(s.drop_last() == chars@.subrange(from as int, end - 1));
            assert(number_suffixes().contains(c)) by {
                assert(number_suffixes()[0] == 't');
                assert(number_suffixes()[1] == 'T');
                assert(number_suffixes()[2] == 's');
                assert(number_suffixes()[3] == 'S');
                assert(number_suffixes()[4] == 'l');
                assert(number_suffixes()[5] == 'L');
            }
        }
        end -= 1;
    }
    let ghost digits = chars@.subrange(from as int, end as int);
    assert(trim_end(keyword, number_suffixes()) == digits) by {
        if digits.len() > 0 {
            assert(digits.last() == chars@[end - 1]);
        }
    }
    if end - from >= 3 && chars[from] == '-' && chars[from + 1] == '0' && chars[from + 2] == 'x' {
        assert(seq!['-', '0', 'x'].is_prefix_of(digits)) by {
            assert(digits.subrange(0, 3) =~= seq!['-', '0', 'x']);
        }
        assert(digits.skip(3) == chars@.subrange(from + 3, end as int));
        match parse_integer(chars, from + 3, end, 16, true, -0x7fff_ffff_ffff_ffff, 0x7fff_ffff_ffff_ffff) {
            Some(v) => Some((-v) as i64),
            None => None,
        }
    } else {
        assert(!seq!['-', '0', 'x'].is_prefix_of(digits)) by {
            if seq!['-', '0', 'x'].is_prefix_of(digits) {
                assert(digits.subrange(0, 3) == seq!['-', '0', 'x']);
                assert(digits.subrange(0, 3)[0] == '-');
                assert(digits.subrange(0, 3)[1] == '0');
                assert(digits.subrange(0, 3)[2] == 'x');
            }
        }
        if end - from >= 2 && chars[from] == '0' && chars[from + 1] == 'x' {
            assert(seq!['0', 'x'].is_prefix_of(digits)) by {
                assert(digits.subrange(0, 2) =~= seq!['0', 'x']);
            }
            assert(digits.skip(2) == chars@.subrange(from + 2, end as int));
            match parse_integer(
                chars,
                from + 2,
                end,
                16,
                true,
                -0x8000_0000_0000_0000,
                0x7fff_ffff_ffff_ffff,
            ) {
                Some(v) => Some(v as i64),
                None => None,
            }
        } else {
            assert(!seq!['0', 'x'].is_prefix_of(digits)) by {
                if seq!['0', 'x'].is_prefix_of(digits) {
                    assert(digits.subrange(0, 2) == seq!['0', 'x']);
                    assert(digits.subrange(0, 2)[0] == '0');
                    assert(digits.subrange(0, 2)[1] == 'x');
                }
            }
            match parse_integer(chars, from, end, 10, true, -0x8000_0000_0000_0000, 0x7fff_ffff_ffff_ffff) {
                Some(v) => Some(v as i64),
                None => None,
            }
        }
    }
}

} // verus!
