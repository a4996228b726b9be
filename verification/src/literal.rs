//! Literal values: what the input can write where a constant is expected,
//! and how the output writes it.
//!
//! A floating-point literal is carried as the text that was read, in lower
//! case and without its type suffix; the library checks its syntax and never
//! computes with it.

use vstd::prelude::*;
use vstd::string::*;
use vstd::utf8::is_scalar;
use crate::error::{ParseError, ParseErrorView};
use crate::text::{
    chars_of, contains_char, has_prefix, integer_value, is_word, lowercase, lowercase_of,
    padded_hex_text, parse_integer, push_char, push_hex4, push_signed_hex, signed_hex_text,
    string_of, trailing_backslashes,
};
use crate::tokenizer::{parsed, Cursor, Parsed, Tokenizer};
use crate::types::{
    CallSignature, CallSignatureView, MethodSignature, MethodSignatureView, Type, TypeView,
};

verus! {

broadcast use vstd::string::group_string_axioms;

#[derive(Debug, PartialEq)]
pub enum Literal {
    Null,
    Bool(bool),
    Char(char),
    Byte(i8),
    Short(i16),
    Int(i32),
    Long(i64),
    Float(String),
    Double(String),
    String(String),
    Class(Type),
    Method(MethodSignature),
    MethodHandle(String, MethodSignature),
    MethodType(CallSignature),
}

/// What a [`Literal`] stands for.
pub enum LiteralView {
    Null,
    Bool(bool),
    Char(char),
    Byte(i8),
    Short(i16),
    Int(i32),
    Long(i64),
    Float(Seq<char>),
    Double(Seq<char>),
    String(Seq<char>),
    Class(TypeView),
    Method(MethodSignatureView),
    MethodHandle(Seq<char>, MethodSignatureView),
    MethodType(CallSignatureView),
}

impl View for Literal {
    type V = LiteralView;

    open spec fn view(&self) -> LiteralView {
        match self {
            Literal::Null => LiteralView::Null,
            Literal::Bool(value) => LiteralView::Bool(*value),
            Literal::Char(value) => LiteralView::Char(*value),
            Literal::Byte(value) => LiteralView::Byte(*value),
            Literal::Short(value) => LiteralView::Short(*value),
            Literal::Int(value) => LiteralView::Int(*value),
            Literal::Long(value) => LiteralView::Long(*value),
            Literal::Float(value) => LiteralView::Float(value@),
            Literal::Double(value) => LiteralView::Double(value@),
            Literal::String(value) => LiteralView::String(value@),
            Literal::Class(class) => LiteralView::Class(class@),
            Literal::Method(method) => LiteralView::Method(method@),
            Literal::MethodHandle(kind, method) => LiteralView::MethodHandle(kind@, method@),
            Literal::MethodType(call) => LiteralView::MethodType(call@),
        }
    }
}

impl DeepView for Literal {
    type V = LiteralView;

    open spec fn deep_view(&self) -> LiteralView {
        self@
    }
}

/// A closing delimiter is escaped, and so part of the text, where an odd
/// number of backslashes stands before it.
pub open spec fn escaped(value: Seq<char>) -> bool {
    trailing_backslashes(value) % 2 == 1
}

/// The text up to the first delimiter that is not escaped, escapes left as
/// they are. The text may not run over the end of the line.
pub open spec fn read_escaped_spec(input: Cursor, delimiter: char) -> Parsed<Seq<char>>
    decreases input.text.len() - input.pos,
{
    let (end, value) = input.read_to(seq![delimiter]);
    match end.expect_char(delimiter) {
        Ok(next) => if escaped(value) && next.follows(input) && input.pos < next.pos {
            match read_escaped_spec(next, delimiter) {
                Ok((last, rest)) => Ok((last, value.push(delimiter) + rest)),
                Err(e) => Err(e),
            }
        } else {
            Ok((next, value))
        },
        Err(e) => Err(e),
    }
}

/// The character that the text between two apostrophes denotes: itself, the
/// character behind a backslash, or the one whose code follows `\u` in
/// hexadecimal.
pub open spec fn char_literal(value: Seq<char>) -> Option<char> {
    if value.len() == 1 {
        Some(value[0])
    } else if value.len() == 2 && value[0] == '\\' {
        Some(value[1])
    } else if value.len() > 2 && value[0] == '\\' && value[1] == 'u' {
        match integer_value(value.skip(2), 16, false, 0, 0xffff_ffff) {
            Some(code) => if is_scalar(code as u32) {
                Some((code as u32) as char)
            } else {
                None
            },
            None => None,
        }
    } else {
        None
    }
}

/// The value of an integer literal without its type suffix: decimal, or
/// hexadecimal behind `0x` or `-0x`.
pub open spec fn literal_integer(digits: Seq<char>, min: int, max: int) -> Option<int> {
    if seq!['-', '0', 'x'].is_prefix_of(digits) {
        integer_value(seq!['-'] + digits.skip(3), 16, true, min, max)
    } else if seq!['0', 'x'].is_prefix_of(digits) {
        integer_value(digits.skip(2), 16, true, min, max)
    } else {
        integer_value(digits, 10, true, min, max)
    }
}

/// The end of the run of decimal digits that starts at `from`.
pub open spec fn digits_end(s: Seq<char>, from: int) -> int
    decreases s.len() - from,
{
    if 0 <= from < s.len() && '0' <= s[from] && s[from] <= '9' {
        digits_end(s, from + 1)
    } else {
        from
    }
}

/// Whether an exponent starts at `at` and runs to the end of `s`: the letter
/// `e`, an optional sign, and at least one digit.
pub open spec fn is_exponent(s: Seq<char>, at: int) -> bool {
    let digits = if at + 1 < s.len() && (s[at + 1] == '+' || s[at + 1] == '-') {
        at + 2
    } else {
        at + 1
    };
    &&& 0 <= at < s.len()
    &&& s[at] == 'e'
    &&& digits < s.len()
    &&& digits_end(s, digits) == s.len()
}

/// Whether `s` from `from` on is a decimal number: digits with at most one
/// point among them, at least one digit in all, and an optional exponent.
pub open spec fn is_decimal_number(s: Seq<char>, from: int) -> bool {
    let point = digits_end(s, from);
    let fraction = if point < s.len() && s[point] == '.' {
        point + 1
    } else {
        point
    };
    let end = digits_end(s, fraction);
    &&& (point - from) + (end - fraction) > 0
    &&& (end == s.len() || is_exponent(s, end))
}

/// Whether `s`, in lower case, is written as a floating-point number: an
/// optional sign, then `inf`, `infinity`, `nan` or a decimal number.
pub open spec fn is_float_text(s: Seq<char>) -> bool {
    let from: int = if s.len() > 0 && (s[0] == '+' || s[0] == '-') {
        1
    } else {
        0
    };
    ||| s.skip(from) == "inf"@
    ||| s.skip(from) == "infinity"@
    ||| s.skip(from) == "nan"@
    ||| is_decimal_number(s, from)
}

/// Whether a keyword, in lower case, is taken for a floating-point literal.
pub open spec fn looks_like_float(keyword: Seq<char>) -> bool {
    ||| keyword.contains('.')
    ||| "infinity"@.is_prefix_of(keyword)
    ||| "-infinity"@.is_prefix_of(keyword)
    ||| "nan"@.is_prefix_of(keyword)
}

/// The literal that a keyword stands for. `start` is where the keyword was
/// looked for, `end` the position behind it, `keyword` its lower-case form.
pub open spec fn keyword_literal(start: Cursor, end: Cursor, keyword: Seq<char>) -> Parsed<
    LiteralView,
> {
    if keyword == "null"@ {
        Ok((end, LiteralView::Null))
    } else if keyword == "true"@ {
        Ok((end, LiteralView::Bool(true)))
    } else if keyword == "false"@ {
        Ok((end, LiteralView::Bool(false)))
    } else if "invoke-"@.is_prefix_of(keyword) {
        match end.expect_char('@') {
            Ok(next) => match MethodSignatureView::read(next) {
                Ok((last, method)) => Ok((last, LiteralView::MethodHandle(keyword, method))),
                Err(e) => Err(e),
            },
            Err(e) => Err(e),
        }
    } else {
        match MethodSignatureView::read(start) {
            Ok((last, method)) => Ok((last, LiteralView::Method(method))),
            Err(_) => number_literal(start, end, keyword),
        }
    }
}

/// The number or class that a keyword stands for, which is no other kind of
/// literal.
pub open spec fn number_literal(start: Cursor, end: Cursor, keyword: Seq<char>) -> Parsed<
    LiteralView,
> {
    if keyword.len() > 0 && keyword.last() == 't' {
        match literal_integer(keyword.drop_last(), -0x80, 0x7f) {
            Some(v) => Ok((end, LiteralView::Byte(v as i8))),
            None => Err(start.unexpected("a byte literal"@)),
        }
    } else if keyword.len() > 0 && keyword.last() == 's' {
        match literal_integer(keyword.drop_last(), -0x8000, 0x7fff) {
            Some(v) => Ok((end, LiteralView::Short(v as i16))),
            None => Err(start.unexpected("a short literal"@)),
        }
    } else if keyword.len() > 0 && keyword.last() == 'l' {
        match literal_integer(keyword.drop_last(), -0x8000_0000_0000_0000, 0x7fff_ffff_ffff_ffff) {
            Some(v) => Ok((end, LiteralView::Long(v as i64))),
            None => Err(start.unexpected("a long literal"@)),
        }
    } else if looks_like_float(keyword) {
        if keyword.last() == 'f' {
            if is_float_text(keyword.drop_last()) {
                Ok((end, LiteralView::Float(keyword.drop_last())))
            } else {
                Err(start.unexpected("a float literal"@))
            }
        } else {
            let value = if keyword.last() == 'd' {
                keyword.drop_last()
            } else {
                keyword
            };
            if is_float_text(value) {
                Ok((end, LiteralView::Double(value)))
            } else {
                Err(start.unexpected("a double literal"@))
            }
        }
    } else {
        match literal_integer(keyword, -0x8000_0000, 0x7fff_ffff) {
            Some(v) => Ok((end, LiteralView::Int(v as i32))),
            None => match TypeView::read(start) {
                Ok((last, class)) => Ok((last, LiteralView::Class(class))),
                Err(_) => Err(start.unexpected("a literal"@)),
            },
        }
    }
}

impl LiteralView {
    /// One literal: a string between quotation marks, a character between
    /// apostrophes, a call signature, or a keyword.
    pub open spec fn read(input: Cursor) -> Parsed<LiteralView> {
        match input.expect_char('"') {
            Ok(inside) => match read_escaped_spec(inside, '"') {
                Ok((end, value)) => Ok((end, LiteralView::String(value))),
                Err(e) => Err(e),
            },
            Err(_) => match input.expect_char('\'') {
                Ok(inside) => match read_escaped_spec(inside, '\'') {
                    Ok((end, value)) => match char_literal(value) {
                        Some(c) => Ok((end, LiteralView::Char(c))),
                        None => Err(inside.unexpected("a literal"@)),
                    },
                    Err(e) => Err(e),
                },
                Err(_) => if input.expect_char('(') is Ok {
                    match CallSignatureView::read(input) {
                        Ok((end, call)) => Ok((end, LiteralView::MethodType(call))),
                        Err(e) => Err(e),
                    }
                } else {
                    match input.read_keyword() {
                        Ok((end, keyword)) => keyword_literal(input, end, lowercase(keyword)),
                        Err(e) => Err(e),
                    }
                },
            },
        }
    }

    /// The literal as the output writes it.
    pub open spec fn text(self) -> Seq<char> {
        match self {
            LiteralView::Null => "null"@,
            LiteralView::Bool(value) => if value {
                "true"@
            } else {
                "false"@
            },
            LiteralView::Char(value) => if value < ' ' || value >= '\u{7f}' {
                "'\\u"@ + padded_hex_text(value as nat, 4) + "'"@
            } else if value == '\\' || value == '\'' {
                "'\\"@.push(value) + "'"@
            } else {
                "'"@.push(value) + "'"@
            },
            LiteralView::Byte(value) => signed_hex_text(value as int),
            LiteralView::Short(value) => signed_hex_text(value as int),
            LiteralView::Int(value) => signed_hex_text(value as int),
            LiteralView::Long(value) => signed_hex_text(value as int),
            LiteralView::Float(value) => value,
            LiteralView::Double(value) => value,
            LiteralView::String(value) => "\""@ + value + "\""@,
            LiteralView::Class(class) => class.name() + ".class"@,
            LiteralView::Method(method) => method.text(),
            LiteralView::MethodHandle(kind, method) => kind + "@"@ + method.text(),
            LiteralView::MethodType(call) => call.text(),
        }
    }

    /// The value of an integer literal of any width.
    pub open spec fn integer(self) -> Option<i64> {
        match self {
            LiteralView::Byte(value) => Some(value as i64),
            LiteralView::Short(value) => Some(value as i64),
            LiteralView::Int(value) => Some(value as i64),
            LiteralView::Long(value) => Some(value),
            _ => None,
        }
    }
}

/// The character with the given code, where there is one.
///
/// Trusted: stands for `char::from_u32`, which vstd does not specify. The
/// contract claims what std documents: every Unicode scalar value, which is
/// every code up to 0x10ffff outside the surrogate range, gives the character
/// with that code, and any other number gives `None`.
#[verifier::external_body]
pub(crate) fn char_from_code(code: u32) -> (r: Option<char>)
    ensures
        r == if is_scalar(code) {
            Some(code as char)
        } else {
            None::<char>
        },
{
    char::from_u32(code)
}

pub fn is_escaped(value: &str) -> (r: bool)
    ensures
        r == escaped(value@),
{
    let mut odd = false;
    for c in it: value.chars()
        invariant
            it.seq() == value@,
            odd == (trailing_backslashes(it.seq().take(it.index())) % 2 == 1),
    {
        proof {
            let head = it.seq().take(it.index() + 1);
            assert(head.drop_last() == it.seq().take(it.index()));
            assert(head.last() == c);
        }
        if c == '\\' {
            odd = !odd;
        } else {
            odd = false;
        }
    }
    assert(value@.take(value@.len() as int) == value@);
    odd
}

pub fn read_escaped(input: &Tokenizer, delimiter: char) -> (r: Result<(Tokenizer, String), ParseError>)
    ensures
        parsed(r, read_escaped_spec(input@, delimiter)),
        r matches Ok((t, _)) ==> t@.follows(input@) && t@.pos > input@.pos,
    decreases input@.text.len() - input@.pos,
{
    let stops = [delimiter];
    assert(stops@ =~= seq![delimiter]);
    let (end, mut value) = input.read_to(&stops);
    let next = end.expect_char(delimiter)?;
    if is_escaped(value.as_str()) {
        let (last, rest) = read_escaped(&next, delimiter)?;
        push_char(&mut value, delimiter);
        value.append(rest.as_str());
        Ok((last, value))
    } else {
        Ok((next, value))
    }
}

fn char_of_literal(value: &str) -> (r: Option<char>)
    ensures
        r == char_literal(value@),
{
    let chars = chars_of(value);
    if chars.len() == 1 {
        Some(chars[0])
    } else if chars.len() == 2 && chars[0] == '\\' {
        Some(chars[1])
    } else if chars.len() > 2 && chars[0] == '\\' && chars[1] == 'u' {
        assert(chars@.skip(2) == chars@.subrange(2, chars@.len() as int));
        match parse_integer(&chars, 2, chars.len(), 16, false, 0, 0xffff_ffff) {
            Some(code) => char_from_code(code as u32),
            None => None,
        }
    } else {
        None
    }
}

/// The value of the integer literal `chars[from..to]`.
fn integer_of_literal(chars: &Vec<char>, from: usize, to: usize, min: i128, max: i128) -> (r: Option<
    i128,
>)
    requires
        from <= to <= chars@.len(),
        -0x1_0000_0000_0000_0000 <= min,
        max <= 0x1_0000_0000_0000_0000,
    ensures
        r matches Some(v) ==> literal_integer(
            chars@.subrange(from as int, to as int),
            min as int,
            max as int,
        ) == Some(v as int),
        r is None ==> literal_integer(
            chars@.subrange(from as int, to as int),
            min as int,
            max as int,
        ) is None,
{
    let ghost digits = chars@.subrange(from as int, to as int);
    if to - from >= 3 && chars[from] == '-' && chars[from + 1] == '0' && chars[from + 2] == 'x' {
        assert(seq!['-', '0', 'x'].is_prefix_of(digits)) by {
            assert(digits.subrange(0, 3) =~= seq!['-', '0', 'x']);
        }
        let mut negative: Vec<char> = Vec::new();
        negative.push('-');
        let mut i: usize = from + 3;
        while i < to
            invariant
                from + 3 <= i <= to <= chars@.len(),
                negative@ == seq!['-'] + chars@.subrange(from + 3, i as int),
            decreases to - i,
        {
            negative.push(chars[i]);
            i += 1;
            assert(negative@ =~= seq!['-'] + chars@.subrange(from + 3, i as int));
        }
        assert(negative@ =~= seq!['-'] + digits.skip(3));
        assert(negative@.subrange(0, negative@.len() as int) == negative@);
        parse_integer(&negative, 0, negative.len(), 16, true, min, max)
    } else {
        assert(!seq!['-', '0', 'x'].is_prefix_of(digits)) by {
            if seq!['-', '0', 'x'].is_prefix_of(digits) {
                assert(digits.subrange(0, 3) == seq!['-', '0', 'x']);
                assert(digits.subrange(0, 3)[0] == '-');
                assert(digits.subrange(0, 3)[1] == '0');
                assert(digits.subrange(0, 3)[2] == 'x');
            }
        }
        if to - from >= 2 && chars[from] == '0' && chars[from + 1] == 'x' {
            assert(seq!['0', 'x'].is_prefix_of(digits)) by {
                assert(digits.subrange(0, 2) =~= seq!['0', 'x']);
            }
            assert(digits.skip(2) == chars@.subrange(from + 2, to as int));
            parse_integer(chars, from + 2, to, 16, true, min, max)
        } else {
            assert(!seq!['0', 'x'].is_prefix_of(digits)) by {
                if seq!['0', 'x'].is_prefix_of(digits) {
                    assert(digits.subrange(0, 2) == seq!['0', 'x']);
                    assert(digits.subrange(0, 2)[0] == '0');
                    assert(digits.subrange(0, 2)[1] == 'x');
                }
            }
            parse_integer(chars, from, to, 10, true, min, max)
        }
    }
}

fn digits_end_from(chars: &Vec<char>, from: usize, to: usize) -> (r: usize)
    requires
        from <= to <= chars@.len(),
    ensures
        r == digits_end(chars@.take(to as int), from as int),
        from <= r <= to,
{
    let mut i: usize = from;
    while i < to && '0' <= chars[i] && chars[i] <= '9'
        invariant
            from <= i <= to <= chars@.len(),
            digits_end(chars@.take(to as int), i as int) == digits_end(
                chars@.take(to as int),
                from as int,
            ),
        decreases to - i,
    {
        i += 1;
    }
    i
}

/// Whether an exponent starts at `at` and runs to `to`.
fn exponent(chars: &Vec<char>, at: usize, to: usize) -> (r: bool)
    requires
        at < to <= chars@.len(),
    ensures
        r == is_exponent(chars@.take(to as int), at as int),
{
    if chars[at] != 'e' {
        return false;
    }
    let digits: usize = if at + 1 < to && (chars[at + 1] == '+' || chars[at + 1] == '-') {
        at + 2
    } else {
        at + 1
    };
    if digits >= to {
        return false;
    }
    digits_end_from(chars, digits, to) == to
}

/// Whether `chars[from..to]` is a decimal number.
fn decimal_number(chars: &Vec<char>, from: usize, to: usize) -> (r: bool)
    requires
        from <= to <= chars@.len(),
    ensures
        r == is_decimal_number(chars@.take(to as int), from as int),
{
    let point = digits_end_from(chars, from, to);
    let fraction: usize = if point < to && chars[point] == '.' {
        point + 1
    } else {
        point
    };
    let end = digits_end_from(chars, fraction, to);
    if (point - from) + (end - fraction) == 0 {
        false
    } else if end == to {
        true
    } else {
        exponent(chars, end, to)
    }
}

/// Whether `chars[..to]` is written as a floating-point number.
fn float_text(chars: &Vec<char>, to: usize) -> (r: bool)
    requires
        to <= chars@.len(),
    ensures
        r == is_float_text(chars@.take(to as int)),
{
    let ghost s = chars@.take(to as int);
    let from: usize = if to > 0 && (chars[0] == '+' || chars[0] == '-') {
        1
    } else {
        0
    };
    assert(s.skip(from as int) == chars@.subrange(from as int, to as int));
    let inf = is_word(chars, from, to, "inf");
    let infinity = is_word(chars, from, to, "infinity");
    let nan = is_word(chars, from, to, "nan");
    let number = decimal_number(chars, from, to);
    inf || infinity || nan || number
}

fn looks_float(chars: &Vec<char>) -> (r: bool)
    ensures
        r == looks_like_float(chars@),
{
    assert(chars@.subrange(0, chars@.len() as int) == chars@);
    contains_char(chars.as_slice(), '.') || has_prefix(chars, 0, chars.len(), "infinity")
        || has_prefix(chars, 0, chars.len(), "-infinity") || has_prefix(
        chars,
        0,
        chars.len(),
        "nan",
    )
}

impl Literal {
    fn read_number(start: &Tokenizer, end: Tokenizer, keyword: &Vec<char>) -> (r: Result<
        (Tokenizer, Self),
        ParseError,
    >)
        requires
            end@.follows(start@),
            end@.pos > start@.pos,
        ensures
            parsed(r, number_literal(start@, end@, keyword@)),
            r matches Ok((t, _)) ==> t@.follows(start@) && t@.pos > start@.pos,
    {
        let len = keyword.len();
        assert(keyword@.subrange(0, len as int) == keyword@);
        if len > 0 {
            assert(keyword@.drop_last() == keyword@.subrange(0, len - 1));
            assert(keyword@.drop_last() == keyword@.take(len - 1));
        }
        if len > 0 && keyword[len - 1] == 't' {
            match integer_of_literal(keyword, 0, len - 1, -0x80, 0x7f) {
                Some(v) => Ok((end, Literal::Byte(v as i8))),
                None => Err(start.unexpected("a byte literal".to_owned())),
            }
        } else if len > 0 && keyword[len - 1] == 's' {
            match integer_of_literal(keyword, 0, len - 1, -0x8000, 0x7fff) {
                Some(v) => Ok((end, Literal::Short(v as i16))),
                None => Err(start.unexpected("a short literal".to_owned())),
            }
        } else if len > 0 && keyword[len - 1] == 'l' {
            match integer_of_literal(
                keyword,
                0,
                len - 1,
                -0x8000_0000_0000_0000,
                0x7fff_ffff_ffff_ffff,
            ) {
                Some(v) => Ok((end, Literal::Long(v as i64))),
                None => Err(start.unexpected("a long literal".to_owned())),
            }
        } else if looks_float(keyword) {
            assert(len > 0) by {
                if len == 0 {
                    assert(!keyword@.contains('.'));
                    reveal_strlit("infinity");
                    reveal_strlit("-infinity");
                    reveal_strlit("nan");
                }
            }
            if keyword[len - 1] == 'f' {
                if float_text(keyword, len - 1) {
                    Ok((end, Literal::Float(string_of(keyword, 0, len - 1))))
                } else {
                    Err(start.unexpected("a float literal".to_owned()))
                }
            } else {
                let to: usize = if keyword[len - 1] == 'd' {
                    len - 1
                } else {
                    len
                };
                assert(keyword@.take(len as int) == keyword@);
                if float_text(keyword, to) {
                    assert(keyword@.take(to as int) == keyword@.subrange(0, to as int));
                    Ok((end, Literal::Double(string_of(keyword, 0, to))))
                } else {
                    Err(start.unexpected("a double literal".to_owned()))
                }
            }
        } else {
            match integer_of_literal(keyword, 0, len, -0x8000_0000, 0x7fff_ffff) {
                Some(v) => Ok((end, Literal::Int(v as i32))),
                None => match Type::read(start) {
                    Ok((last, class)) => Ok((last, Literal::Class(class))),
                    Err(_) => Err(start.unexpected("a literal".to_owned())),
                },
            }
        }
    }

    fn read_keyword(start: &Tokenizer, end: Tokenizer, keyword: &Vec<char>) -> (r: Result<
        (Tokenizer, Self),
        ParseError,
    >)
        requires
            end@.follows(start@),
            end@.pos > start@.pos,
        ensures
            parsed(r, keyword_literal(start@, end@, keyword@)),
            r matches Ok((t, _)) ==> t@.follows(start@) && t@.pos > start@.pos,
    {
        let len = keyword.len();
        assert(keyword@.subrange(0, len as int) == keyword@);
        if is_word(keyword, 0, len, "null") {
            Ok((end, Literal::Null))
        } else if is_word(keyword, 0, len, "true") {
            Ok((end, Literal::Bool(true)))
        } else if is_word(keyword, 0, len, "false") {
            Ok((end, Literal::Bool(false)))
        } else if has_prefix(keyword, 0, len, "invoke-") {
            let next = end.expect_char('@')?;
            let (last, method) = MethodSignature::read(&next)?;
            Ok((last, Literal::MethodHandle(string_of(keyword, 0, len), method)))
        } else {
            match MethodSignature::read(start) {
                Ok((last, method)) => Ok((last, Literal::Method(method))),
                Err(_) => Self::read_number(start, end, keyword),
            }
        }
    }

    pub fn read(input: &Tokenizer) -> (r: Result<(Tokenizer, Self), ParseError>)
        ensures
            parsed(r, LiteralView::read(input@)),
            r matches Ok((t, _)) ==> t@.follows(input@) && t@.pos > input@.pos,
    {
        if let Ok(inside) = input.expect_char('"') {
            let (end, value) = read_escaped(&inside, '"')?;
            Ok((end, Literal::String(value)))
        } else if let Ok(inside) = input.expect_char('\'') {
            let (end, value) = read_escaped(&inside, '\'')?;
            match char_of_literal(value.as_str()) {
                Some(c) => Ok((end, Literal::Char(c))),
                None => Err(inside.unexpected("a literal".to_owned())),
            }
        } else if input.expect_char('(').is_ok() {
            let (end, call) = CallSignature::read(input)?;
            Ok((end, Literal::MethodType(call)))
        } else {
            let (start, to) = input.keyword_bounds();
            let (end, _) = input.read_keyword()?;
            let keyword = lowercase_of(input.chars(), start, to);
            Self::read_keyword(input, end, &keyword)
        }
    }

    pub fn is_null(&self) -> (r: bool)
        ensures
            r == (self@ is Null),
    {
        matches!(self, Literal::Null)
    }

    pub fn is_bool(&self) -> (r: bool)
        ensures
            r == (self@ is Bool),
    {
        matches!(self, Literal::Bool(_))
    }

    pub fn get_bool(&self) -> (r: Option<bool>)
        ensures
            r == match self@ {
                LiteralView::Bool(value) => Some(value),
                _ => None,
            },
    {
        match self {
            Literal::Bool(value) => Some(*value),
            _ => None,
        }
    }

    pub fn is_char(&self) -> (r: bool)
        ensures
            r == (self@ is Char),
    {
        matches!(self, Literal::Char(_))
    }

    pub fn get_char(&self) -> (r: Option<char>)
        ensures
            r == match self@ {
                LiteralView::Char(value) => Some(value),
                _ => None,
            },
    {
        match self {
            Literal::Char(value) => Some(*value),
            _ => None,
        }
    }

    pub fn is_integer(&self) -> (r: bool)
        ensures
            r == self@.integer() is Some,
    {
        matches!(self, Literal::Byte(_) | Literal::Short(_) | Literal::Int(_) | Literal::Long(_))
    }

    pub fn get_integer(&self) -> (r: Option<i64>)
        ensures
            r == self@.integer(),
    {
        match self {
            Literal::Byte(value) => Some(*value as i64),
            Literal::Short(value) => Some(*value as i64),
            Literal::Int(value) => Some(*value as i64),
            Literal::Long(value) => Some(*value),
            _ => None,
        }
    }

    pub fn is_float(&self) -> (r: bool)
        ensures
            r == (self@ is Float || self@ is Double),
    {
        matches!(self, Literal::Float(_) | Literal::Double(_))
    }

    pub fn is_string(&self) -> (r: bool)
        ensures
            r == (self@ is String),
    {
        matches!(self, Literal::String(_))
    }

    pub fn get_string(&self) -> (r: Option<String>)
        ensures
            match self@ {
                LiteralView::String(value) => r matches Some(s) && s@ == value,
                _ => r is None,
            },
    {
        match self {
            Literal::String(value) => Some(value.clone()),
            _ => None,
        }
    }

    pub fn is_class(&self) -> (r: bool)
        ensures
            r == (self@ is Class),
    {
        matches!(self, Literal::Class(_))
    }

    pub fn is_method(&self) -> (r: bool)
        ensures
            r == (self@ is Method),
    {
        matches!(self, Literal::Method(_))
    }

    pub fn is_method_handle(&self) -> (r: bool)
        ensures
            r == (self@ is MethodHandle),
    {
        matches!(self, Literal::MethodHandle(_, _))
    }

    pub fn is_method_type(&self) -> (r: bool)
        ensures
            r == (self@ is MethodType),
    {
        matches!(self, Literal::MethodType(_))
    }

    /// The literal as the output writes it.
    pub fn to_string(&self) -> (r: String)
        ensures
            r@ == self@.text(),
    {
        match self {
            Literal::Null => "null".to_owned(),
            Literal::Bool(value) => {
                if *value {
                    "true".to_owned()
                } else {
                    "false".to_owned()
                }
            },
            Literal::Char(value) => {
                let c = *value;
                if c < ' ' || c >= '\u{7f}' {
                    let mut r = "'\\u".to_owned();
                    push_hex4(&mut r, c as u32);
                    r.append("'");
                    r
                } else if c == '\\' || c == '\'' {
                    let mut r = "'\\".to_owned();
                    push_char(&mut r, c);
                    r.append("'");
                    r
                } else {
                    let mut r = "'".to_owned();
                    push_char(&mut r, c);
                    r.append("'");
                    r
                }
            },
            Literal::Byte(value) => {
                let mut r = String::new();
                push_signed_hex(&mut r, *value as i128);
                r
            },
            Literal::Short(value) => {
                let mut r = String::new();
                push_signed_hex(&mut r, *value as i128);
                r
            },
            Literal::Int(value) => {
                let mut r = String::new();
                push_signed_hex(&mut r, *value as i128);
                r
            },
            Literal::Long(value) => {
                let mut r = String::new();
                push_signed_hex(&mut r, *value as i128);
                r
            },
            Literal::Float(value) => value.clone(),
            Literal::Double(value) => value.clone(),
            Literal::String(value) => {
                let mut r = "\"".to_owned();
                r.append(value.as_str());
                r.append("\"");
                r
            },
            Literal::Class(class) => {
                let mut r = class.get_name();
                r.append(".class");
                r
            },
            Literal::Method(method) => method.to_string(),
            Literal::MethodHandle(kind, method) => {
                let mut r = kind.clone();
                r.append("@");
                r.append(method.to_string().as_str());
                r
            },
            Literal::MethodType(call) => call.to_string(),
        }
    }
}

impl Clone for Literal {
    fn clone(&self) -> (r: Self)
        ensures
            r@ == self@,
    {
        match self {
            Literal::Null => Literal::Null,
            Literal::Bool(value) => Literal::Bool(*value),
            Literal::Char(value) => Literal::Char(*value),
            Literal::Byte(value) => Literal::Byte(*value),
            Literal::Short(value) => Literal::Short(*value),
            Literal::Int(value) => Literal::Int(*value),
            Literal::Long(value) => Literal::Long(*value),
            Literal::Float(value) => Literal::Float(value.clone()),
            Literal::Double(value) => Literal::Double(value.clone()),
            Literal::String(value) => Literal::String(value.clone()),
            Literal::Class(class) => Literal::Class(class.clone()),
            Literal::Method(method) => Literal::Method(method.clone()),
            Literal::MethodHandle(kind, method) => Literal::MethodHandle(
                kind.clone(),
                method.clone(),
            ),
            Literal::MethodType(call) => Literal::MethodType(call.clone()),
        }
    }
}

} // verus!
