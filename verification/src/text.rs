//! Character and string primitives shared by the scanner, the parsers and the
//! code generator: comparison, slicing, case folding, and the textual forms
//! of integers.

use vstd::prelude::*;
use vstd::string::*;
use vstd::utf8::*;

verus! {

broadcast use vstd::string::group_string_axioms;

/// Appends one character to `s`.
///
/// Trusted: stands for `String::push`, which vstd does not specify. The
/// contract claims that the string afterwards holds the old characters
/// followed by `c`.
#[verifier::external_body]
pub(crate) fn push_char(s: &mut String, c: char)
    ensures
        final(s)@ == old(s)@.push(c),
{
    s.push(c);
}

/// Whether two string slices hold the same characters.
pub fn str_eq(a: &str, b: &str) -> (r: bool)
    ensures
        r == (a@ == b@),
{
    let x = a.as_bytes();
    let y = b.as_bytes();
    proof {
        encode_utf8_decode_utf8(a@);
        encode_utf8_decode_utf8(b@);
    }
    if x.len() != y.len() {
        return false;
    }
    let mut i: usize = 0;
    while i < x.len()
        invariant
            i <= x.len(),
            x.len() == y.len(),
            x@ == encode_utf8(a@),
            y@ == encode_utf8(b@),
            forall|j: int| 0 <= j < i ==> x@[j] == y@[j],
        decreases x.len() - i,
    {
        if x[i] != y[i] {
            assert(a@ == b@ ==> x@[i as int] == y@[i as int]);
            return false;
        }
        i += 1;
    }
    assert(x@ =~= y@);
    true
}

/// The characters of `s`, in order.
pub fn chars_of(s: &str) -> (v: Vec<char>)
    ensures
        v@ == s@,
{
    let mut v: Vec<char> = Vec::new();
    for c in it: s.chars()
        invariant
            it.seq() == s@,
            v@ == it.seq().take(it.index()),
    {
        v.push(c);
    }
    v
}

/// The string made of `chars[from..to]`.
pub(crate) fn string_of(chars: &Vec<char>, from: usize, to: usize) -> (s: String)
    requires
        from <= to <= chars@.len(),
    ensures
        s@ == chars@.subrange(from as int, to as int),
{
    let mut s = String::new();
    let mut i: usize = from;
    while i < to
        invariant
            from <= i <= to <= chars@.len(),
            s@ == chars@.subrange(from as int, i as int),
        decreases to - i,
    {
        push_char(&mut s, chars[i]);
        i += 1;
        assert(chars@.subrange(from as int, i as int) == chars@.subrange(
            from as int,
            i as int - 1,
        ).push(chars@[i as int - 1]));
    }
    s
}

/// A blank is a space or a tab; line feeds are never blanks.
pub open spec fn is_blank(c: char) -> bool {
    c == ' ' || c == '\t'
}

/// The lower-case form of an ASCII capital letter; any other character is
/// left alone.
pub open spec fn lower_char(c: char) -> char {
    if 'A' <= c && c <= 'Z' {
        ((c as u8 + 32) as u8) as char
    } else {
        c
    }
}

pub open spec fn lowercase(s: Seq<char>) -> Seq<char> {
    s.map_values(|c: char| lower_char(c))
}

pub fn to_lower_char(c: char) -> (r: char)
    ensures
        r == lower_char(c),
{
    if 'A' <= c && c <= 'Z' {
        let b: u8 = c as u8;
        (b + 32) as char
    } else {
        c
    }
}

/// ASCII case folding of a whole keyword.
pub fn to_lowercase(s: &str) -> (r: String)
    ensures
        r@ == lowercase(s@),
{
    let mut r = String::new();
    for c in it: s.chars()
        invariant
            it.seq() == s@,
            r@ == lowercase(it.seq().take(it.index())),
    {
        assert(it.seq().take(it.index() + 1) == it.seq().take(it.index()).push(c));
        push_char(&mut r, to_lower_char(c));
    }
    r
}


/// The digit character that stands for a value below sixteen, in lower case.
pub open spec fn digit_char(d: int) -> char {
    if d == 0 {
        '0'
    } else if d == 1 {
        '1'
    } else if d == 2 {
        '2'
    } else if d == 3 {
        '3'
    } else if d == 4 {
        '4'
    } else if d == 5 {
        '5'
    } else if d == 6 {
        '6'
    } else if d == 7 {
        '7'
    } else if d == 8 {
        '8'
    } else if d == 9 {
        '9'
    } else if d == 10 {
        'a'
    } else if d == 11 {
        'b'
    } else if d == 12 {
        'c'
    } else if d == 13 {
        'd'
    } else if d == 14 {
        'e'
    } else {
        'f'
    }
}

/// Decimal numeral of `n`, without sign or leading zeros.
pub open spec fn decimal_text(n: nat) -> Seq<char>
    decreases n,
{
    if n < 10 {
        seq![digit_char(n as int)]
    } else {
        decimal_text(n / 10).push(digit_char((n % 10) as int))
    }
}

/// Hexadecimal numeral of `n` in lower case, without prefix or leading zeros.
pub open spec fn hex_text(n: nat) -> Seq<char>
    decreases n,
{
    if n < 16 {
        seq![digit_char(n as int)]
    } else {
        hex_text(n / 16).push(digit_char((n % 16) as int))
    }
}

/// A signed value the way literals are printed: an optional minus sign, the
/// prefix `0x`, and the magnitude in hexadecimal.
pub open spec fn signed_hex_text(v: int) -> Seq<char> {
    if v < 0 {
        seq!['-', '0', 'x'] + hex_text((-v) as nat)
    } else {
        seq!['0', 'x'] + hex_text(v as nat)
    }
}

fn digit(d: u8) -> (c: char)
    requires
        d < 16,
    ensures
        c == digit_char(d as int),
{
    if d < 10 {
        (48 + d) as char
    } else {
        (87 + d) as char
    }
}

/// Appends the decimal numeral of `n` to `out`.
pub fn push_decimal(out: &mut String, n: u128)
    ensures
        final(out)@ == old(out)@ + decimal_text(n as nat),
    decreases n,
{
    if n >= 10 {
        push_decimal(out, n / 10);
    }
    push_char(out, digit((n % 10) as u8));
    assert(final(out)@ == old(out)@ + decimal_text(n as nat)) by {
        if n >= 10 {
            assert(old(out)@ + decimal_text(n as nat) == (old(out)@ + decimal_text(
                (n / 10) as nat,
            )).push(digit_char((n % 10) as int)));
        } else {
            assert(old(out)@ + seq![digit_char(n as int)] == old(out)@.push(digit_char(n as int)));
        }
    }
}

/// Appends the hexadecimal numeral of `n` to `out`.
pub fn push_hex(out: &mut String, n: u128)
    ensures
        final(out)@ == old(out)@ + hex_text(n as nat),
    decreases n,
{
    if n >= 16 {
        push_hex(out, n / 16);
    }
    push_char(out, digit((n % 16) as u8));
    assert(final(out)@ == old(out)@ + hex_text(n as nat)) by {
        if n >= 16 {
            assert(old(out)@ + hex_text(n as nat) == (old(out)@ + hex_text((n / 16) as nat)).push(
                digit_char((n % 16) as int),
            ));
        } else {
            assert(old(out)@ + seq![digit_char(n as int)] == old(out)@.push(digit_char(n as int)));
        }
    }
}

/// Appends `v` as a signed hexadecimal literal to `out`.
pub(crate) fn push_signed_hex(out: &mut String, v: i128)
    requires
        v > i128::MIN,
    ensures
        final(out)@ == old(out)@ + signed_hex_text(v as int),
{
    let ghost before = out@;
    if v < 0 {
        push_char(out, '-');
        push_char(out, '0');
        push_char(out, 'x');
        let magnitude: u128 = (-v) as u128;
        push_hex(out, magnitude);
        assert(out@ == before + (seq!['-', '0', 'x'] + hex_text((-v) as nat)));
    } else {
        push_char(out, '0');
        push_char(out, 'x');
        push_hex(out, v as u128);
        assert(out@ == before + (seq!['0', 'x'] + hex_text(v as nat)));
    }
}

/// A signed value in decimal: a minus sign where it is negative, and the
/// magnitude.
pub open spec fn signed_decimal_text(v: int) -> Seq<char> {
    if v < 0 {
        seq!['-'] + decimal_text((-v) as nat)
    } else {
        decimal_text(v as nat)
    }
}

/// Appends `v` in decimal to `out`.
pub fn push_signed_decimal(out: &mut String, v: i64)
    ensures
        final(out)@ == old(out)@ + signed_decimal_text(v as int),
{
    let ghost before = out@;
    if v < 0 {
        push_char(out, '-');
        let magnitude: u128 = (-(v as i128)) as u128;
        push_decimal(out, magnitude);
        assert(out@ == before + (seq!['-'] + decimal_text((-v) as nat)));
    } else {
        push_decimal(out, v as u128);
    }
}

/// The value of one digit in the given radix: decimal digits, then letters of
/// either case from ten upwards. `None` where the character is no digit of
/// that radix.
pub open spec fn digit_value(c: char, radix: int) -> Option<int> {
    let v: int = if '0' <= c && c <= '9' {
        c as int - 48
    } else if 'a' <= c && c <= 'z' {
        c as int - 97 + 10
    } else if 'A' <= c && c <= 'Z' {
        c as int - 65 + 10
    } else {
        radix
    };
    if v < radix {
        Some(v)
    } else {
        None
    }
}

/// The number that a run of digits denotes; `None` as soon as one character
/// is no digit. The empty run denotes zero.
pub open spec fn digits_value(s: Seq<char>, radix: int) -> Option<int>
    decreases s.len(),
{
    if s.len() == 0 {
        Some(0)
    } else {
        match (digits_value(s.drop_last(), radix), digit_value(s.last(), radix)) {
            (Some(high), Some(d)) => Some(high * radix + d),
            _ => None,
        }
    }
}

/// A magnitude with its sign applied, where the result lies in `min..=max`.
pub open spec fn signed_within(magnitude: Option<int>, negative: bool, min: int, max: int) -> Option<
    int,
> {
    match magnitude {
        Some(v) => {
            let r = if negative {
                -v
            } else {
                v
            };
            if min <= r && r <= max {
                Some(r)
            } else {
                None
            }
        },
        None => None,
    }
}

/// What an integer literal denotes: an optional sign (a minus only where
/// `signed`), then at least one digit, the value lying within `min..=max`.
pub open spec fn integer_value(s: Seq<char>, radix: int, signed: bool, min: int, max: int) -> Option<
    int,
> {
    let negative = signed && s.len() > 0 && s[0] == '-';
    let digits = if s.len() > 0 && (s[0] == '+' || negative) {
        s.drop_first()
    } else {
        s
    };
    if digits.len() == 0 {
        None
    } else {
        signed_within(digits_value(digits, radix), negative, min, max)
    }
}

/// Digits only add to a number: a run of digits denotes at least what any of
/// its prefixes denotes, and denotes nothing where a prefix denotes nothing.
pub proof fn lemma_digits_prefix(s: Seq<char>, radix: int, k: int)
    requires
        0 <= k <= s.len(),
        2 <= radix,
    ensures
        digits_value(s.take(k), radix) is None ==> digits_value(s, radix) is None,
        digits_value(s, radix) is Some ==> 0 <= digits_value(s.take(k), radix)->0
            <= digits_value(s, radix)->0,
    decreases s.len() - k,
{
    if k == s.len() {
        assert(s.take(k) == s);
        lemma_digits_nonnegative(s, radix);
    } else {
        lemma_digits_prefix(s, radix, k + 1);
        assert(s.take(k + 1).drop_last() == s.take(k));
        lemma_digits_nonnegative(s.take(k), radix);
        if digits_value(s.take(k + 1), radix) is Some {
            let high = digits_value(s.take(k), radix)->0;
            let d = digit_value(s.take(k + 1).last(), radix)->0;
            assert(high * radix >= high) by (nonlinear_arith)
                requires
                    high >= 0,
                    radix >= 2,
            ;
        }
    }
}

pub proof fn lemma_digits_nonnegative(s: Seq<char>, radix: int)
    requires
        2 <= radix,
    ensures
        digits_value(s, radix) is Some ==> digits_value(s, radix)->0 >= 0,
    decreases s.len(),
{
    if s.len() > 0 {
        lemma_digits_nonnegative(s.drop_last(), radix);
        if digits_value(s, radix) is Some {
            let high = digits_value(s.drop_last(), radix)->0;
            assert(high * radix >= 0) by (nonlinear_arith)
                requires
                    high >= 0,
                    radix >= 2,
            ;
        }
    }
}

fn digit_of(c: char, radix: u8) -> (r: Option<u8>)
    requires
        2 <= radix <= 36,
    ensures
        r matches Some(d) ==> digit_value(c, radix as int) == Some(d as int),
        r is None ==> digit_value(c, radix as int) is None,
{
    let v: u8 = if '0' <= c && c <= '9' {
        (c as u8) - 48
    } else if 'a' <= c && c <= 'z' {
        (c as u8) - 97 + 10
    } else if 'A' <= c && c <= 'Z' {
        (c as u8) - 65 + 10
    } else {
        radix
    };
    if v < radix {
        Some(v)
    } else {
        None
    }
}

/// Reads `chars[from..to]` as an integer literal of the given radix.
///
/// The bounds are those of the integer type the caller has in mind; they may
/// not exceed 64 bits either way.
pub(crate) fn parse_integer(
    chars: &Vec<char>,
    from: usize,
    to: usize,
    radix: u8,
    signed: bool,
    min: i128,
    max: i128,
) -> (r: Option<i128>)
    requires
        from <= to <= chars@.len(),
        radix == 10 || radix == 16,
        -0x1_0000_0000_0000_0000 <= min,
        max <= 0x1_0000_0000_0000_0000,
    ensures
        r matches Some(v) ==> integer_value(
            chars@.subrange(from as int, to as int),
            radix as int,
            signed,
            min as int,
            max as int,
        ) == Some(v as int),
        r is None ==> integer_value(
            chars@.subrange(from as int, to as int),
            radix as int,
            signed,
            min as int,
            max as int,
        ) is None,
{
    let ghost s = chars@.subrange(from as int, to as int);
    let negative = signed && from < to && chars[from] == '-';
    let start: usize = if from < to && (chars[from] == '+' || negative) {
        from + 1
    } else {
        from
    };
    let ghost digits = chars@.subrange(start as int, to as int);
    assert(digits == if s.len() > 0 && (s[0] == '+' || (signed && s.len() > 0 && s[0] == '-')) {
        s.drop_first()
    } else {
        s
    });
    if start == to {
        return None;
    }
    let mut acc: i128 = 0;
    let mut i: usize = start;
    while i < to
        invariant
            from <= start <= i <= to <= chars@.len(),
            start < to,
            s == chars@.subrange(from as int, to as int),
            radix == 10 || radix == 16,
            digits == chars@.subrange(start as int, to as int),
            integer_value(s, radix as int, signed, min as int, max as int) == signed_within(
                digits_value(digits, radix as int),
                negative,
                min as int,
                max as int,
            ),
            -0x1_0000_0000_0000_0000 <= min,
            max <= 0x1_0000_0000_0000_0000,
            digits_value(digits.take(i - start), radix as int) == Some(acc as int),
            0 <= acc <= 0x1_0000_0000_0000_0000,
        decreases to - i,
    {
        let ghost k = i - start;
        assert(digits.take(k + 1).drop_last() == digits.take(k));
        assert(digits.take(k + 1).last() == chars@[i as int]);
        match digit_of(chars[i], radix) {
            Some(d) => {
                assert(0 <= acc * (radix as i128) <= 0x10_0000_0000_0000_0000) by (nonlinear_arith)
                    requires
                        0 <= acc <= 0x1_0000_0000_0000_0000,
                        2 <= radix <= 16,
                ;
                acc = acc * (radix as i128) + (d as i128);
                if acc > 0x1_0000_0000_0000_0000 {
                    proof {
                        lemma_digits_prefix(digits, radix as int, k + 1);
                    }
                    return None;
                }
            },
            None => {
                proof {
                    lemma_digits_prefix(digits, radix as int, k + 1);
                }
                return None;
            },
        }
        i += 1;
    }
    assert(digits.take(to - start) == digits);
    let value: i128 = if negative {
        -acc
    } else {
        acc
    };
    if min <= value && value <= max {
        Some(value)
    } else {
        None
    }
}


/// The first position at or after `pos` that holds no blank, or the end of
/// the text.
pub open spec fn skip_blanks(text: Seq<char>, pos: int) -> int
    decreases text.len() - pos,
{
    if 0 <= pos < text.len() && is_blank(text[pos]) {
        skip_blanks(text, pos + 1)
    } else {
        pos
    }
}

/// A scan ends at a line feed or at one of the given stop characters.
pub open spec fn is_stop(c: char, stops: Seq<char>) -> bool {
    c == '\n' || stops.contains(c)
}

/// The first position at or after `pos` that holds a line feed or a stop
/// character, or the end of the text.
pub open spec fn scan(text: Seq<char>, pos: int, stops: Seq<char>) -> int
    decreases text.len() - pos,
{
    if 0 <= pos < text.len() && !is_stop(text[pos], stops) {
        scan(text, pos + 1, stops)
    } else {
        pos
    }
}

pub proof fn lemma_skip_blanks_bounds(text: Seq<char>, pos: int)
    requires
        0 <= pos <= text.len(),
    ensures
        pos <= skip_blanks(text, pos) <= text.len(),
        skip_blanks(text, pos) < text.len() ==> !is_blank(text[skip_blanks(text, pos)]),
        forall|i: int| pos <= i < skip_blanks(text, pos) ==> is_blank(#[trigger] text[i]),
    decreases text.len() - pos,
{
    if pos < text.len() && is_blank(text[pos]) {
        lemma_skip_blanks_bounds(text, pos + 1);
    }
}

pub proof fn lemma_scan_bounds(text: Seq<char>, pos: int, stops: Seq<char>)
    requires
        0 <= pos <= text.len(),
    ensures
        pos <= scan(text, pos, stops) <= text.len(),
        scan(text, pos, stops) < text.len() ==> is_stop(text[scan(text, pos, stops)], stops),
        forall|i: int| pos <= i < scan(text, pos, stops) ==> !is_stop(#[trigger] text[i], stops),
    decreases text.len() - pos,
{
    if pos < text.len() && !is_stop(text[pos], stops) {
        lemma_scan_bounds(text, pos + 1, stops);
    }
}

pub(crate) fn skip_blanks_from(chars: &Vec<char>, pos: usize) -> (r: usize)
    requires
        pos <= chars@.len(),
    ensures
        r == skip_blanks(chars@, pos as int),
        pos <= r <= chars@.len(),
{
    let mut i: usize = pos;
    while i < chars.len() && (chars[i] == ' ' || chars[i] == '\t')
        invariant
            pos <= i <= chars@.len(),
            skip_blanks(chars@, i as int) == skip_blanks(chars@, pos as int),
        decreases chars@.len() - i,
    {
        i += 1;
    }
    i
}

pub fn contains_char(stops: &[char], c: char) -> (r: bool)
    ensures
        r == stops@.contains(c),
{
    let mut i: usize = 0;
    while i < stops.len()
        invariant
            i <= stops@.len(),
            forall|j: int| 0 <= j < i ==> stops@[j] != c,
        decreases stops@.len() - i,
    {
        if stops[i] == c {
            return true;
        }
        i += 1;
    }
    false
}

pub(crate) fn scan_from(chars: &Vec<char>, pos: usize, stops: &[char]) -> (r: usize)
    requires
        pos <= chars@.len(),
    ensures
        r == scan(chars@, pos as int, stops@),
        pos <= r <= chars@.len(),
{
    let mut i: usize = pos;
    while i < chars.len()
        invariant
            pos <= i <= chars@.len(),
            scan(chars@, i as int, stops@) == scan(chars@, pos as int, stops@),
        decreases chars@.len() - i,
    {
        if chars[i] == '\n' || contains_char(stops, chars[i]) {
            return i;
        }
        i += 1;
    }
    i
}


/// Whether `chars[from..to]` begins with the characters of `prefix`.
pub(crate) fn has_prefix(chars: &Vec<char>, from: usize, to: usize, prefix: &str) -> (r: bool)
    requires
        from <= to <= chars@.len(),
    ensures
        r == prefix@.is_prefix_of(chars@.subrange(from as int, to as int)),
{
    let p = chars_of(prefix);
    let ghost s = chars@.subrange(from as int, to as int);
    if p.len() > to - from {
        return false;
    }
    let mut i: usize = 0;
    while i < p.len()
        invariant
            i <= p@.len() <= to - from,
            from <= to <= chars@.len(),
            p@ == prefix@,
            s == chars@.subrange(from as int, to as int),
            forall|j: int| 0 <= j < i ==> p@[j] == s[j],
        decreases p@.len() - i,
    {
        if p[i] != chars[from + i] {
            assert(s[i as int] != p@[i as int]);
            assert(!prefix@.is_prefix_of(s)) by {
                if prefix@.is_prefix_of(s) {
                    assert(s.subrange(0, prefix@.len() as int)[i as int] == prefix@[i as int]);
                }
            }
            return false;
        }
        i += 1;
    }
    assert(s.subrange(0, p@.len() as int) =~= p@);
    true
}

/// Whether `chars[from..to]` is exactly the characters of `word`.
pub(crate) fn is_word(chars: &Vec<char>, from: usize, to: usize, word: &str) -> (r: bool)
    requires
        from <= to <= chars@.len(),
    ensures
        r == (chars@.subrange(from as int, to as int) == word@),
{
    let w = chars_of(word);
    let ghost s = chars@.subrange(from as int, to as int);
    if w.len() != to - from {
        return false;
    }
    let mut i: usize = 0;
    while i < w.len()
        invariant
            i <= w@.len(),
            w@.len() == to - from,
            from <= to <= chars@.len(),
            w@ == word@,
            s == chars@.subrange(from as int, to as int),
            forall|j: int| 0 <= j < i ==> w@[j] == s[j],
        decreases w@.len() - i,
    {
        if w[i] != chars[from + i] {
            assert(s[i as int] != w@[i as int]);
            return false;
        }
        i += 1;
    }
    assert(s =~= w@);
    true
}

/// The characters of `chars[from..to]`, each in lower case.
pub(crate) fn lowercase_of(chars: &Vec<char>, from: usize, to: usize) -> (r: Vec<char>)
    requires
        from <= to <= chars@.len(),
    ensures
        r@ == lowercase(chars@.subrange(from as int, to as int)),
{
    let mut r: Vec<char> = Vec::new();
    let mut i: usize = from;
    while i < to
        invariant
            from <= i <= to <= chars@.len(),
            r@ == lowercase(chars@.subrange(from as int, i as int)),
        decreases to - i,
    {
        r.push(to_lower_char(chars[i]));
        i += 1;
        assert(chars@.subrange(from as int, i as int) == chars@.subrange(
            from as int,
            i as int - 1,
        ).push(chars@[i as int - 1]));
    }
    r
}

/// The number of backslashes at the end of `s`.
pub open spec fn trailing_backslashes(s: Seq<char>) -> nat
    decreases s.len(),
{
    if s.len() > 0 && s.last() == '\\' {
        trailing_backslashes(s.drop_last()) + 1
    } else {
        0
    }
}

/// The hexadecimal numeral of `n`, with zeros in front up to `width` digits.
pub open spec fn padded_hex_text(n: nat, width: nat) -> Seq<char> {
    if hex_text(n).len() < width {
        Seq::new((width - hex_text(n).len()) as nat, |i: int| '0') + hex_text(n)
    } else {
        hex_text(n)
    }
}

pub proof fn lemma_hex_text_len(n: nat)
    ensures
        hex_text(n).len() >= 1,
        n < 16 ==> hex_text(n).len() == 1,
        16 <= n < 256 ==> hex_text(n).len() == 2,
        256 <= n < 4096 ==> hex_text(n).len() == 3,
        4096 <= n ==> hex_text(n).len() >= 4,
    decreases n,
{
    if n >= 16 {
        lemma_hex_text_len(n / 16);
    }
}

/// Appends the hexadecimal numeral of `n` to `out`, at least four digits wide.
pub fn push_hex4(out: &mut String, n: u32)
    ensures
        final(out)@ == old(out)@ + padded_hex_text(n as nat, 4),
{
    proof {
        lemma_hex_text_len(n as nat);
    }
    let ghost before = out@;
    if n < 16 {
        out.append("000");
        proof {
            reveal_strlit("000");
            assert("000"@ =~= Seq::new(3, |i: int| '0'));
        }
    } else if n < 256 {
        out.append("00");
        proof {
            reveal_strlit("00");
            assert("00"@ =~= Seq::new(2, |i: int| '0'));
        }
    } else if n < 4096 {
        out.append("0");
        proof {
            reveal_strlit("0");
            assert("0"@ =~= Seq::new(1, |i: int| '0'));
        }
    }
    let ghost padded = out@;
    push_hex(out, n as u128);
    assert(out@ =~= before + padded_hex_text(n as nat, 4));
}

} // verus!
