//! Parsing and formatting of modalias strings: compact
//! vendor/product/device identification strings in the
//! `usb:vXXXXpXXXXdXXXX` shape borrowed from USB conventions.
//!
//! A raw modalias is `<subtype>:<k1><v1><k2><v2>...`, where each key
//! is a maximal run of lowercase letters and each value is the
//! following run of other characters. Only the `usb` subtype with the
//! keys `v`, `p` and `d` is recognized beyond the raw form.

use vstd::prelude::*;
use vstd::string::*;
use crate::strutil::{find_char, first_index_of, lemma_first_index_of, str_eq};

verus! {

/// An error parsing a [`Modalias`] from a string; carries the
/// offending input.
#[derive(Clone, Debug, Eq, PartialEq)]
pub struct ParseModaliasError(pub String);

/// A parsed modalias string.
///
/// For now only the USB subtype is supported.
#[derive(Clone, Debug, Eq, PartialEq, Structural)]
pub struct Modalias {
    pub vendor_id: u16,
    pub product_id: u16,
    pub device_id: u16,
}

/// A tokenized modalias string: the subtype before the colon, and the
/// key/value runs after it, in order of appearance.
#[derive(Clone, Debug, Eq, PartialEq)]
pub struct RawModalias {
    pub subtype: String,
    pub values: Vec<(String, String)>,
}

/// True for an ASCII lowercase letter, the character class of modalias
/// keys.
pub open spec fn is_lower(c: char) -> bool {
    ('a' as u32) <= (c as u32) && (c as u32) <= ('z' as u32)
}

/// Tests for an ASCII lowercase letter.
fn is_lowercase_char(c: char) -> (r: bool)
    ensures
        r == is_lower(c),
{
    (c as u32) >= ('a' as u32) && (c as u32) <= ('z' as u32)
}

/// The length of the longest lowercase-letter prefix of `s`.
pub open spec fn first_non_lower(s: Seq<char>) -> int
    decreases s.len(),
{
    if s.len() == 0 {
        0
    } else if !is_lower(s[0]) {
        0
    } else {
        1 + first_non_lower(s.drop_first())
    }
}

/// The length of the longest prefix of `s` free of lowercase letters.
pub open spec fn first_lower(s: Seq<char>) -> int
    decreases s.len(),
{
    if s.len() == 0 {
        0
    } else if is_lower(s[0]) {
        0
    } else {
        1 + first_lower(s.drop_first())
    }
}

pub proof fn lemma_first_non_lower(s: Seq<char>)
    ensures
        0 <= first_non_lower(s) <= s.len(),
        forall|j: int| 0 <= j < first_non_lower(s) ==> is_lower(s[j]),
        first_non_lower(s) < s.len() ==> !is_lower(s[first_non_lower(s)]),
    decreases s.len(),
{
    if s.len() == 0 || !is_lower(s[0]) {
    } else {
        lemma_first_non_lower(s.drop_first());
        assert forall|j: int| 0 <= j < first_non_lower(s) implies is_lower(s[j]) by {
            if j >= 1 {
                assert(s.drop_first()[j - 1] == s[j]);
            }
        }
        if first_non_lower(s) < s.len() {
            assert(s.drop_first()[first_non_lower(s) - 1] == s[first_non_lower(s)]);
        }
    }
}

pub proof fn lemma_first_lower(s: Seq<char>)
    ensures
        0 <= first_lower(s) <= s.len(),
        forall|j: int| 0 <= j < first_lower(s) ==> !is_lower(s[j]),
        first_lower(s) < s.len() ==> is_lower(s[first_lower(s)]),
    decreases s.len(),
{
    if s.len() == 0 || is_lower(s[0]) {
    } else {
        lemma_first_lower(s.drop_first());
        assert forall|j: int| 0 <= j < first_lower(s) implies !is_lower(s[j]) by {
            if j >= 1 {
                assert(s.drop_first()[j - 1] == s[j]);
            }
        }
        if first_lower(s) < s.len() {
            assert(s.drop_first()[first_lower(s) - 1] == s[first_lower(s)]);
        }
    }
}

/// The key/value runs of the part of a modalias string after its
/// colon: each key is a maximal run of lowercase letters, each value
/// the following run of other characters; either may be empty.
pub open spec fn spec_tokenize(s: Seq<char>) -> Seq<(Seq<char>, Seq<char>)>
    decreases s.len(),
    via spec_tokenize_decreases
{
    if s.len() == 0 {
        Seq::empty()
    } else {
        let ke = first_non_lower(s);
        let key = s.take(ke);
        let rest1 = s.skip(ke);
        let ks = first_lower(rest1);
        let value = rest1.take(ks);
        let rest2 = rest1.skip(ks);
        seq![(key, value)] + spec_tokenize(rest2)
    }
}

#[via_fn]
proof fn spec_tokenize_decreases(s: Seq<char>) {
    if s.len() > 0 {
        lemma_first_non_lower(s);
        let ke = first_non_lower(s);
        let rest1 = s.skip(ke);
        lemma_first_lower(rest1);
        if ke == 0 {
            assert(rest1[0] == s[0]);
            assert(first_lower(rest1) >= 1);
        }
    }
}

/// A tokenized modalias string: the part before the first colon as
/// the subtype and the key/value runs after it, or nothing when the
/// string holds no colon.
pub open spec fn spec_raw_tokenize(s: Seq<char>) -> Option<
    (Seq<char>, Seq<(Seq<char>, Seq<char>)>),
> {
    let ci = first_index_of(s, ':');
    if ci < s.len() {
        Some((s.take(ci), spec_tokenize(s.skip(ci + 1))))
    } else {
        None
    }
}

/// Scans from `from` past lowercase letters; returns the index of the
/// first other character, or the end of the string.
fn scan_key_end(s: &str, from: usize) -> (r: usize)
    requires
        from <= s@.len(),
    ensures
        from <= r <= s@.len(),
        r - from == first_non_lower(s@.skip(from as int)),
{
    let len = s.unicode_len();
    let ghost t = s@.skip(from as int);
    proof {
        lemma_first_non_lower(t);
        assert forall|k: int| 0 <= k < t.len() implies t[k] == s@[from + k] by {}
    }
    let mut i: usize = from;
    while i < len
        invariant
            len == s@.len(),
            from <= i <= len,
            t == s@.skip(from as int),
            forall|j: int| from <= j < i ==> is_lower(s@[j]),
        decreases len - i,
    {
        if !is_lowercase_char(s.get_char(i)) {
            proof {
                lemma_first_non_lower(t);
                let f = first_non_lower(t);
                assert(t[i - from] == s@[i as int]);
                if f < i - from {
                    assert(s@[from + f] == t[f]);
                }
            }
            return i;
        }
        i += 1;
    }
    proof {
        lemma_first_non_lower(t);
        let f = first_non_lower(t);
        if f < t.len() {
            assert(s@[from + f] == t[f]);
        }
    }
    len
}

/// Scans from `from` past non-lowercase characters; returns the index
/// of the first lowercase letter, or the end of the string.
fn scan_value_end(s: &str, from: usize) -> (r: usize)
    requires
        from <= s@.len(),
    ensures
        from <= r <= s@.len(),
        r - from == first_lower(s@.skip(from as int)),
{
    let len = s.unicode_len();
    let ghost t = s@.skip(from as int);
    proof {
        lemma_first_lower(t);
        assert forall|k: int| 0 <= k < t.len() implies t[k] == s@[from + k] by {}
    }
    let mut i: usize = from;
    while i < len
        invariant
            len == s@.len(),
            from <= i <= len,
            t == s@.skip(from as int),
            forall|j: int| from <= j < i ==> !is_lower(s@[j]),
        decreases len - i,
    {
        if is_lowercase_char(s.get_char(i)) {
            proof {
                lemma_first_lower(t);
                let f = first_lower(t);
                assert(t[i - from] == s@[i as int]);
                if f < i - from {
                    assert(s@[from + f] == t[f]);
                }
            }
            return i;
        }
        i += 1;
    }
    proof {
        lemma_first_lower(t);
        let f = first_lower(t);
        if f < t.len() {
            assert(s@[from + f] == t[f]);
        }
    }
    len
}

impl RawModalias {
    /// Tokenizes a modalias string into its subtype and its key/value
    /// runs; fails exactly when the string holds no colon, reporting
    /// the whole input.
    pub fn from_str(s: &str) -> (r: Result<RawModalias, ParseModaliasError>)
        ensures
            r is Ok <==> spec_raw_tokenize(s@) is Some,
            r matches Ok(raw) ==> spec_raw_tokenize(s@) == Some(
                (raw.subtype@, raw.values.deep_view()),
            ),
            r matches Err(e) ==> e.0@ == s@,
    {
        let len = s.unicode_len();
        let ci = match find_char(s, ':') {
            Some(i) => i,
            None => {
                return Err(ParseModaliasError(s.to_owned()));
            },
        };
        let subtype = s.substring_char(0, ci).to_owned();
        let ghost start = ci + 1 as int;
        let mut values: Vec<(String, String)> = Vec::new();
        let mut pos: usize = ci + 1;
        proof {
            assert(subtype@ =~= s@.take(ci as int));
            assert(values.deep_view() =~= Seq::<(Seq<char>, Seq<char>)>::empty());
        }
        while pos < len
            invariant
                len == s@.len(),
                start == ci + 1,
                0 <= start <= pos <= len,
                values.deep_view() + spec_tokenize(s@.skip(pos as int)) =~~= spec_tokenize(
                    s@.skip(start),
                ),
            decreases len - pos,
        {
            let ghost t = s@.skip(pos as int);
            let ke = scan_key_end(s, pos);
            let key = s.substring_char(pos, ke).to_owned();
            let ks = scan_value_end(s, ke);
            let value = s.substring_char(ke, ks).to_owned();
            proof {
                assert(t.take(ke - pos) =~= s@.subrange(pos as int, ke as int));
                assert(t.skip(ke - pos) =~= s@.skip(ke as int));
                assert(t.skip(ke - pos).take(ks - ke) =~= s@.subrange(ke as int, ks as int));
                assert(t.skip(ke - pos).skip(ks - ke) =~= s@.skip(ks as int));
                if ke == pos {
                    lemma_first_lower(s@.skip(ke as int));
                    lemma_first_non_lower(t);
                    assert(s@.skip(ke as int)[0] == s@[pos as int]);
                    assert(t[0] == s@[pos as int]);
                }
                assert(spec_tokenize(t) == seq![(key@, value@)] + spec_tokenize(
                    s@.skip(ks as int),
                ));
            }
            values.push((key, value));
            proof {
                assert(values.deep_view() + spec_tokenize(s@.skip(ks as int)) =~~= spec_tokenize(
                    s@.skip(start),
                ));
            }
            pos = ks;
        }
        proof {
            assert(s@.skip(len as int) =~= Seq::<char>::empty());
            assert(values.deep_view() =~~= spec_tokenize(s@.skip(start)));
        }
        Ok(RawModalias { subtype, values })
    }
}

/// True for an ASCII hexadecimal digit, in either case.
pub open spec fn is_hex_digit(c: char) -> bool {
    (('0' as u32) <= (c as u32) && (c as u32) <= ('9' as u32)) || (('a' as u32) <= (c as u32) && (
    c as u32) <= ('f' as u32)) || (('A' as u32) <= (c as u32) && (c as u32) <= ('F' as u32))
}

/// The numeric value of a hexadecimal digit (0 for any other
/// character).
pub open spec fn hex_digit_value(c: char) -> int {
    if ('0' as u32) <= (c as u32) && (c as u32) <= ('9' as u32) {
        (c as u32) - ('0' as u32)
    } else if ('a' as u32) <= (c as u32) && (c as u32) <= ('f' as u32) {
        (c as u32) - ('a' as u32) + 10
    } else if ('A' as u32) <= (c as u32) && (c as u32) <= ('F' as u32) {
        (c as u32) - ('A' as u32) + 10
    } else {
        0
    }
}

/// The value of a string of hexadecimal digits, most significant
/// first.
pub open spec fn spec_hex_value(s: Seq<char>) -> int
    decreases s.len(),
{
    if s.len() == 0 {
        0
    } else {
        spec_hex_value(s.drop_last()) * 16 + hex_digit_value(s.last())
    }
}

pub proof fn lemma_hex_value_nonneg(s: Seq<char>)
    ensures
        spec_hex_value(s) >= 0,
    decreases s.len(),
{
    if s.len() > 0 {
        lemma_hex_value_nonneg(s.drop_last());
    }
}

/// True when every character of `s` is a hexadecimal digit.
pub open spec fn all_hex_digits(s: Seq<char>) -> bool {
    forall|j: int| 0 <= j < s.len() ==> is_hex_digit(s[j])
}

/// A 16-bit value read from a string of hexadecimal digits with an
/// optional leading plus sign, as the standard radix parse reads it:
/// nothing when a character is not a digit, no digits are present, or
/// the value does not fit.
pub open spec fn spec_parse_u16_hex(s: Seq<char>) -> Option<u16> {
    let digits = if s.len() > 0 && s[0] == '+' {
        s.drop_first()
    } else {
        s
    };
    if digits.len() > 0 && all_hex_digits(digits) && spec_hex_value(digits) <= 0xFFFF {
        Some(spec_hex_value(digits) as u16)
    } else {
        None
    }
}

/// The numeric value of one hexadecimal digit character.
fn hex_digit(c: char) -> (r: Option<u8>)
    ensures
        match r {
            Some(d) => is_hex_digit(c) && d == hex_digit_value(c),
            None => !is_hex_digit(c),
        },
{
    let u = c as u32;
    if u >= ('0' as u32) && u <= ('9' as u32) {
        Some((u - ('0' as u32)) as u8)
    } else if u >= ('a' as u32) && u <= ('f' as u32) {
        Some((u - ('a' as u32) + 10) as u8)
    } else if u >= ('A' as u32) && u <= ('F' as u32) {
        Some((u - ('A' as u32) + 10) as u8)
    } else {
        None
    }
}

proof fn lemma_parse_u16_hex_bad_digit(s: Seq<char>, j: int)
    requires
        ({
            let digits = if s.len() > 0 && s[0] == '+' {
                s.drop_first()
            } else {
                s
            };
            0 <= j < digits.len() && !is_hex_digit(digits[j])
        }),
    ensures
        spec_parse_u16_hex(s) is None,
{
}

/// Parses a 16-bit value from a string of hexadecimal digits with an
/// optional leading plus sign.
fn parse_hex_u16(s: &str) -> (r: Option<u16>)
    ensures
        r == spec_parse_u16_hex(s@),
{
    let len = s.unicode_len();
    let mut start: usize = 0;
    if len > 0 && s.get_char(0) == '+' {
        start = 1;
    }
    let ghost digits = if s@.len() > 0 && s@[0] == '+' {
        s@.drop_first()
    } else {
        s@
    };
    proof {
        assert(digits =~= s@.skip(start as int));
        assert(digits.take(0) =~= Seq::<char>::empty());
    }
    if start >= len {
        return None;
    }
    let mut acc: u32 = 0;
    let mut i: usize = start;
    while i < len
        invariant
            len == s@.len(),
            0 <= start <= i <= len,
            digits == s@.skip(start as int),
            digits == (if s@.len() > 0 && s@[0] == '+' {
                s@.drop_first()
            } else {
                s@
            }),
            digits.len() == len - start,
            forall|j: int| start <= j < i ==> is_hex_digit(s@[j]),
            (spec_hex_value(digits.take(i - start)) <= 0xFFFF && acc == spec_hex_value(
                digits.take(i - start),
            )) || (spec_hex_value(digits.take(i - start)) > 0xFFFF && acc == 0x10000),
        decreases len - i,
    {
        proof {
            assert(digits[i - start] == s@[i as int]);
            assert(digits.take(i + 1 - start).drop_last() =~= digits.take(i - start));
            assert(digits.take(i + 1 - start).last() == digits[i - start]);
            lemma_hex_value_nonneg(digits.take(i - start));
        }
        match hex_digit(s.get_char(i)) {
            None => {
                proof {
                    lemma_parse_u16_hex_bad_digit(s@, i - start);
                }
                return None;
            },
            Some(d) => {
                if acc <= 0xFFFF {
                    acc = acc * 16 + (d as u32);
                }
                if acc > 0xFFFF {
                    acc = 0x10000;
                }
            },
        }
        i += 1;
    }
    proof {
        assert(digits.take(len - start) =~= digits);
        assert forall|j: int| 0 <= j < digits.len() implies is_hex_digit(digits[j]) by {
            assert(digits[j] == s@[start + j]);
        }
        assert(all_hex_digits(digits));
    }
    if acc <= 0xFFFF {
        Some(acc as u16)
    } else {
        None
    }
}

/// The value under the last occurrence of `key`, as a map built by
/// repeated insertion would hold it.
pub open spec fn spec_assoc_last(
    pairs: Seq<(Seq<char>, Seq<char>)>,
    key: Seq<char>,
) -> Option<Seq<char>>
    decreases pairs.len(),
{
    if pairs.len() == 0 {
        None
    } else if pairs.last().0 == key {
        Some(pairs.last().1)
    } else {
        spec_assoc_last(pairs.drop_last(), key)
    }
}

/// Finds the last entry named `key` in the tokenized key/value runs.
fn assoc_last<'a>(pairs: &'a Vec<(String, String)>, key: &str) -> (r: Option<&'a String>)
    ensures
        match r {
            Some(v) => spec_assoc_last(pairs.deep_view(), key@) == Some(v@),
            None => spec_assoc_last(pairs.deep_view(), key@) is None,
        },
{
    let ghost dv = pairs.deep_view();
    proof {
        assert(dv.take(pairs.len() as int) =~= dv);
    }
    let mut i: usize = pairs.len();
    while i > 0
        invariant
            dv == pairs.deep_view(),
            dv.len() == pairs.len(),
            0 <= i <= pairs.len(),
            spec_assoc_last(dv, key@) == spec_assoc_last(dv.take(i as int), key@),
        decreases i,
    {
        i -= 1;
        proof {
            assert(dv.take(i + 1 as int).last() == dv[i as int]);
            assert(dv.take(i + 1 as int).drop_last() =~= dv.take(i as int));
        }
        if str_eq(pairs[i].0.as_str(), key) {
            return Some(&pairs[i].1);
        }
    }
    None
}

/// The modalias read from a tokenized string: the subtype must be
/// `usb` and the keys `v`, `p` and `d` must each be present with a
/// 16-bit hexadecimal value.
pub open spec fn spec_modalias_of(
    subtype: Seq<char>,
    values: Seq<(Seq<char>, Seq<char>)>,
) -> Option<Modalias> {
    if subtype == "usb"@ {
        match spec_assoc_last(values, "v"@) {
            Some(vs) => match spec_parse_u16_hex(vs) {
                Some(vendor_id) => match spec_assoc_last(values, "p"@) {
                    Some(ps) => match spec_parse_u16_hex(ps) {
                        Some(product_id) => match spec_assoc_last(values, "d"@) {
                            Some(ds) => match spec_parse_u16_hex(ds) {
                                Some(device_id) => Some(
                                    Modalias { vendor_id, product_id, device_id },
                                ),
                                None => None,
                            },
                            None => None,
                        },
                        None => None,
                    },
                    None => None,
                },
                None => None,
            },
            None => None,
        }
    } else {
        None
    }
}

/// The modalias read from a whole string.
pub open spec fn spec_parse_modalias(s: Seq<char>) -> Option<Modalias> {
    match spec_raw_tokenize(s) {
        Some((subtype, values)) => spec_modalias_of(subtype, values),
        None => None,
    }
}

/// The uppercase hexadecimal digit for a value below sixteen.
pub open spec fn hex_char_upper(v: u16) -> char {
    if v == 0 {
        '0'
    } else if v == 1 {
        '1'
    } else if v == 2 {
        '2'
    } else if v == 3 {
        '3'
    } else if v == 4 {
        '4'
    } else if v == 5 {
        '5'
    } else if v == 6 {
        '6'
    } else if v == 7 {
        '7'
    } else if v == 8 {
        '8'
    } else if v == 9 {
        '9'
    } else if v == 10 {
        'A'
    } else if v == 11 {
        'B'
    } else if v == 12 {
        'C'
    } else if v == 13 {
        'D'
    } else if v == 14 {
        'E'
    } else {
        'F'
    }
}

/// The four uppercase hexadecimal digits of a 16-bit value.
pub open spec fn spec_hex4(v: u16) -> Seq<char> {
    seq![
        hex_char_upper((v >> 12) & 0xF),
        hex_char_upper((v >> 8) & 0xF),
        hex_char_upper((v >> 4) & 0xF),
        hex_char_upper(v & 0xF),
    ]
}

/// The canonical text of a modalias: lowercase `usb` subtype and
/// uppercase four-digit hexadecimal fields.
pub open spec fn spec_modalias_string(m: Modalias) -> Seq<char> {
    "usb:v"@ + spec_hex4(m.vendor_id) + "p"@ + spec_hex4(m.product_id) + "d"@ + spec_hex4(
        m.device_id,
    )
}

/// The one-character string of the uppercase hexadecimal digit for
/// `v`.
fn hex_char_str(v: u16) -> (r: &'static str)
    requires
        v < 16,
    ensures
        r@ == seq![hex_char_upper(v)],
{
    if v == 0 {
        proof {
            reveal_strlit("0");
            assert("0"@ =~= seq![hex_char_upper(0u16)]);
        }
        "0"
    } else if v == 1 {
        proof {
            reveal_strlit("1");
            assert("1"@ =~= seq![hex_char_upper(1u16)]);
        }
        "1"
    } else if v == 2 {
        proof {
            reveal_strlit("2");
            assert("2"@ =~= seq![hex_char_upper(2u16)]);
        }
        "2"
    } else if v == 3 {
        proof {
            reveal_strlit("3");
            assert("3"@ =~= seq![hex_char_upper(3u16)]);
        }
        "3"
    } else if v == 4 {
        proof {
            reveal_strlit("4");
            assert("4"@ =~= seq![hex_char_upper(4u16)]);
        }
        "4"
    } else if v == 5 {
        proof {
            reveal_strlit("5");
            assert("5"@ =~= seq![hex_char_upper(5u16)]);
        }
        "5"
    } else if v == 6 {
        proof {
            reveal_strlit("6");
            assert("6"@ =~= seq![hex_char_upper(6u16)]);
        }
        "6"
    } else if v == 7 {
        proof {
            reveal_strlit("7");
            assert("7"@ =~= seq![hex_char_upper(7u16)]);
        }
        "7"
    } else if v == 8 {
        proof {
            reveal_strlit("8");
            assert("8"@ =~= seq![hex_char_upper(8u16)]);
        }
        "8"
    } else if v == 9 {
        proof {
            reveal_strlit("9");
            assert("9"@ =~= seq![hex_char_upper(9u16)]);
        }
        "9"
    } else if v == 10 {
        proof {
            reveal_strlit("A");
            assert("A"@ =~= seq![hex_char_upper(10u16)]);
        }
        "A"
    } else if v == 11 {
        proof {
            reveal_strlit("B");
            assert("B"@ =~= seq![hex_char_upper(11u16)]);
        }
        "B"
    } else if v == 12 {
        proof {
            reveal_strlit("C");
            assert("C"@ =~= seq![hex_char_upper(12u16)]);
        }
        "C"
    } else if v == 13 {
        proof {
            reveal_strlit("D");
            assert("D"@ =~= seq![hex_char_upper(13u16)]);
        }
        "D"
    } else if v == 14 {
        proof {
            reveal_strlit("E");
            assert("E"@ =~= seq![hex_char_upper(14u16)]);
        }
        "E"
    } else {
        proof {
            reveal_strlit("F");
            assert("F"@ =~= seq![hex_char_upper(v)]);
        }
        "F"
    }
}

/// Appends the four uppercase hexadecimal digits of `v`.
fn push_hex4(out: &mut String, v: u16)
    ensures
        final(out)@ == old(out)@ + spec_hex4(v),
{
    proof {
        assert((v >> 12) & 0xF < 16 && (v >> 8) & 0xF < 16 && (v >> 4) & 0xF < 16 && v & 0xF < 16)
            by (bit_vector);
    }
    out.append(hex_char_str((v >> 12) & 0xF));
    out.append(hex_char_str((v >> 8) & 0xF));
    out.append(hex_char_str((v >> 4) & 0xF));
    out.append(hex_char_str(v & 0xF));
    proof {
        assert(out@ =~= old(out)@ + spec_hex4(v));
    }
}

proof fn lemma_hex_char_upper(v: u16)
    requires
        v < 16,
    ensures
        is_hex_digit(hex_char_upper(v)),
        !is_lower(hex_char_upper(v)),
        (hex_char_upper(v) as u32) != ('+' as u32),
        (hex_char_upper(v) as u32) != (':' as u32),
        hex_digit_value(hex_char_upper(v)) == v,
{
}

proof fn lemma_parse_hex4(v: u16)
    ensures
        spec_hex4(v).len() == 4,
        forall|j: int| 0 <= j < 4 ==> !is_lower(#[trigger] spec_hex4(v)[j]),
        spec_parse_u16_hex(spec_hex4(v)) == Some(v),
{
    let n1 = (v >> 12) & 0xF;
    let n2 = (v >> 8) & 0xF;
    let n3 = (v >> 4) & 0xF;
    let n4 = v & 0xF;
    assert((v >> 12) & 0xF < 16 && (v >> 8) & 0xF < 16 && (v >> 4) & 0xF < 16 && v & 0xF < 16)
        by (bit_vector);
    lemma_hex_char_upper(n1);
    lemma_hex_char_upper(n2);
    lemma_hex_char_upper(n3);
    lemma_hex_char_upper(n4);
    let h = spec_hex4(v);
    assert forall|j: int| 0 <= j < 4 implies !is_lower(#[trigger] h[j]) by {
        assert(h[0] == hex_char_upper(n1) && h[1] == hex_char_upper(n2) && h[2]
            == hex_char_upper(n3) && h[3] == hex_char_upper(n4));
    }
    assert(h[0] != '+') by {
        assert((h[0] as u32) != ('+' as u32));
    }
    assert(all_hex_digits(h)) by {
        assert forall|j: int| 0 <= j < h.len() implies is_hex_digit(h[j]) by {
            assert(h[0] == hex_char_upper(n1) && h[1] == hex_char_upper(n2) && h[2]
                == hex_char_upper(n3) && h[3] == hex_char_upper(n4));
        }
    }
    let h3 = seq![hex_char_upper(n1), hex_char_upper(n2), hex_char_upper(n3)];
    let h2 = seq![hex_char_upper(n1), hex_char_upper(n2)];
    let h1 = seq![hex_char_upper(n1)];
    let h0 = Seq::<char>::empty();
    assert(h.drop_last() =~= h3);
    assert(h3.drop_last() =~= h2);
    assert(h2.drop_last() =~= h1);
    assert(h1.drop_last() =~= h0);
    reveal_with_fuel(spec_hex_value, 5);
    assert(h.last() == hex_char_upper(n4) && h3.last() == hex_char_upper(n3) && h2.last()
        == hex_char_upper(n2) && h1.last() == hex_char_upper(n1));
    assert(spec_hex_value(h1) == n1);
    assert(spec_hex_value(h2) == n1 * 16 + n2);
    assert(spec_hex_value(h3) == (n1 * 16 + n2) * 16 + n3);
    assert(spec_hex_value(h) == ((n1 * 16 + n2) * 16 + n3) * 16 + n4);
    assert(((n1 * 16 + n2) * 16 + n3) * 16 + n4 == v) by (bit_vector)
        requires
            n1 == (v >> 12) & 0xF,
            n2 == (v >> 8) & 0xF,
            n3 == (v >> 4) & 0xF,
            n4 == v & 0xF,
    ;
}

proof fn lemma_tokenize_segment(key_char: char, hex: Seq<char>, rest: Seq<char>)
    requires
        is_lower(key_char),
        hex.len() == 4,
        forall|j: int| 0 <= j < 4 ==> !is_lower(hex[j]),
        rest.len() == 0 || is_lower(rest[0]),
    ensures
        spec_tokenize(seq![key_char] + hex + rest) == seq![(seq![key_char], hex)]
            + spec_tokenize(rest),
{
    let s = seq![key_char] + hex + rest;
    lemma_first_non_lower(s);
    let ke = first_non_lower(s);
    assert(s[0] == key_char);
    assert(forall|j: int| 1 <= j < 5 ==> s[j] == hex[j - 1]);
    assert(ke >= 1);
    if ke > 1 {
        assert(is_lower(s[1]));
    }
    assert(ke == 1);
    assert(s.take(1) =~= seq![key_char]);
    let rest1 = s.skip(1);
    assert(rest1 =~= hex + rest);
    lemma_first_lower(rest1);
    let ks = first_lower(rest1);
    assert(forall|j: int| 0 <= j < 4 ==> rest1[j] == hex[j]);
    if ks < 4 {
        assert(is_lower(rest1[ks]));
    }
    if rest.len() == 0 {
        assert(rest1.len() == 4);
        assert(ks == 4);
    } else {
        assert(rest1[4] == rest[0]);
        assert(ks == 4);
    }
    assert(rest1.take(4) =~= hex);
    assert(rest1.skip(4) =~= rest);
}

/// Parsing the canonical text of any modalias yields that modalias
/// back: formatting and parsing are mutually inverse, whatever the
/// field values.
pub proof fn lemma_modalias_round_trip(m: Modalias)
    ensures
        spec_parse_modalias(spec_modalias_string(m)) == Some(m),
{
    reveal_strlit("usb:v");
    reveal_strlit("usb");
    reveal_strlit("v");
    reveal_strlit("p");
    reveal_strlit("d");
    let hv = spec_hex4(m.vendor_id);
    let hp = spec_hex4(m.product_id);
    let hd = spec_hex4(m.device_id);
    lemma_parse_hex4(m.vendor_id);
    lemma_parse_hex4(m.product_id);
    lemma_parse_hex4(m.device_id);
    let s = spec_modalias_string(m);
    assert(s.len() == 19);
    assert(s[0] == 'u' && s[1] == 's' && s[2] == 'b' && s[3] == ':');
    lemma_first_index_of(s, ':');
    let ci = first_index_of(s, ':');
    assert(('u' as u32) != (':' as u32) && ('s' as u32) != (':' as u32) && ('b' as u32) != (':'
        as u32));
    if ci < 3 {
        assert(s[ci] == ':');
        assert(ci == 0 || ci == 1 || ci == 2);
        assert(false);
    }
    if ci > 3 {
        assert(s[3] != ':');
        assert(false);
    }
    assert(s.take(3) =~= "usb"@);
    let after = s.skip(4);
    let seg_d = seq!['d'] + hd + Seq::<char>::empty();
    let seg_p = seq!['p'] + hp + seg_d;
    let seg_v = seq!['v'] + hv + seg_p;
    assert(after =~= seg_v);
    assert(is_lower('v') && is_lower('p') && is_lower('d'));
    assert(seg_p[0] == 'p' && seg_d[0] == 'd');
    lemma_tokenize_segment('d', hd, Seq::<char>::empty());
    lemma_tokenize_segment('p', hp, seg_d);
    lemma_tokenize_segment('v', hv, seg_p);
    assert(spec_tokenize(Seq::<char>::empty()) =~= Seq::<(Seq<char>, Seq<char>)>::empty());
    let values = spec_tokenize(after);
    assert(values =~= seq![(seq!['v'], hv), (seq!['p'], hp), (seq!['d'], hd)]);
    assert(spec_raw_tokenize(s) == Some(("usb"@, values)));
    assert(seq!['v'] =~= "v"@);
    assert(seq!['p'] =~= "p"@);
    assert(seq!['d'] =~= "d"@);
    assert(('v' as u32) != ('d' as u32) && ('p' as u32) != ('d' as u32) && ('v' as u32) != ('p'
        as u32));
    reveal_with_fuel(spec_assoc_last, 5);
    let values2 = seq![("v"@, hv), ("p"@, hp)];
    let values1 = seq![("v"@, hv)];
    assert(values.drop_last() =~= values2);
    assert(values2.drop_last() =~= values1);
    assert(values1.drop_last() =~= Seq::<(Seq<char>, Seq<char>)>::empty());
    assert(values.last() == ("d"@, hd) && values2.last() == ("p"@, hp) && values1.last() == (
    "v"@,
    hv,
    ));
    assert(spec_assoc_last(values, "d"@) == Some(hd));
    assert("v"@ != "d"@) by {
        assert("v"@[0] == 'v' && "d"@[0] == 'd');
    }
    assert("p"@ != "d"@) by {
        assert("p"@[0] == 'p' && "d"@[0] == 'd');
    }
    assert("v"@ != "p"@) by {
        assert("v"@[0] == 'v' && "p"@[0] == 'p');
    }
    assert(spec_assoc_last(values, "p"@) == Some(hp));
    assert(spec_assoc_last(values, "v"@) == Some(hv));
    assert(spec_modalias_of("usb"@, values) == Some(m));
}

impl Modalias {
    /// Reads a modalias from its tokenized form; only the `usb`
    /// subtype with hexadecimal `v`, `p` and `d` values is supported,
    /// and anything else yields nothing.
    pub fn try_from_raw(raw: &RawModalias) -> (r: Option<Modalias>)
        ensures
            r == spec_modalias_of(raw.subtype@, raw.values.deep_view()),
    {
        if !str_eq(raw.subtype.as_str(), "usb") {
            return None;
        }
        let vendor_id = match assoc_last(&raw.values, "v") {
            Some(text) => match parse_hex_u16(text.as_str()) {
                Some(v) => v,
                None => {
                    return None;
                },
            },
            None => {
                return None;
            },
        };
        let product_id = match assoc_last(&raw.values, "p") {
            Some(text) => match parse_hex_u16(text.as_str()) {
                Some(v) => v,
                None => {
                    return None;
                },
            },
            None => {
                return None;
            },
        };
        let device_id = match assoc_last(&raw.values, "d") {
            Some(text) => match parse_hex_u16(text.as_str()) {
                Some(v) => v,
                None => {
                    return None;
                },
            },
            None => {
                return None;
            },
        };
        Some(Modalias { vendor_id, product_id, device_id })
    }

    /// Parses a modalias string; any failure reports the whole input.
    pub fn from_str(s: &str) -> (r: Result<Modalias, ParseModaliasError>)
        ensures
            r is Ok <==> spec_parse_modalias(s@) is Some,
            r matches Ok(m) ==> spec_parse_modalias(s@) == Some(m),
            r matches Err(e) ==> e.0@ == s@,
    {
        let raw = match RawModalias::from_str(s) {
            Ok(raw) => raw,
            Err(e) => {
                return Err(e);
            },
        };
        match Self::try_from_raw(&raw) {
            Some(m) => Ok(m),
            None => Err(ParseModaliasError(s.to_owned())),
        }
    }

    /// The canonical text of this modalias: lowercase `usb` subtype
    /// and uppercase four-digit hexadecimal fields, whatever the
    /// casing of the string it was parsed from.
    pub fn to_string(&self) -> (r: String)
        ensures
            r@ == spec_modalias_string(*self),
    {
        let mut out = "usb:v".to_owned();
        push_hex4(&mut out, self.vendor_id);
        out.append("p");
        push_hex4(&mut out, self.product_id);
        out.append("d");
        push_hex4(&mut out, self.device_id);
        proof {
            assert(out@ =~= spec_modalias_string(*self));
        }
        out
    }
}

} // verus!
