use vstd::prelude::*;

use crate::error::Error;

verus! {

// --------------------------------------------------------------------------
// Digit characters
// --------------------------------------------------------------------------

/// The character for the digit `d` (`0..=15`), upper case for `10..=15`.
pub open spec fn hex_digit_char(d: int) -> char {
    if d == 0 {
        '0'
    } else if d == 1 {
        '1'
    } else if d == 2 {
        '2'
    } else if d == 3 {
        '3'
    } else if d == 4 {
        '4'
    } else if d == 5 {
        '5'
    } else if d == 6 {
        '6'
    } else if d == 7 {
        '7'
    } else if d == 8 {
        '8'
    } else if d == 9 {
        '9'
    } else if d == 10 {
        'A'
    } else if d == 11 {
        'B'
    } else if d == 12 {
        'C'
    } else if d == 13 {
        'D'
    } else if d == 14 {
        'E'
    } else {
        'F'
    }
}

/// One-character string for the digit `d`, upper case for `10..=15`.
pub(crate) fn hex_digit_str(d: u8) -> (r: &'static str)
    requires
        d < 16,
    ensures
        r@ =~= seq![hex_digit_char(d as int)],
{
    let r: &'static str = match d {
        0 => "0",
        1 => "1",
        2 => "2",
        3 => "3",
        4 => "4",
        5 => "5",
        6 => "6",
        7 => "7",
        8 => "8",
        9 => "9",
        10 => "A",
        11 => "B",
        12 => "C",
        13 => "D",
        14 => "E",
        _ => "F",
    };
    proof {
        reveal_strlit("0");
        reveal_strlit("1");
        reveal_strlit("2");
        reveal_strlit("3");
        reveal_strlit("4");
        reveal_strlit("5");
        reveal_strlit("6");
        reveal_strlit("7");
        reveal_strlit("8");
        reveal_strlit("9");
        reveal_strlit("A");
        reveal_strlit("B");
        reveal_strlit("C");
        reveal_strlit("D");
        reveal_strlit("E");
        reveal_strlit("F");
    }
    r
}

// --------------------------------------------------------------------------
// Decimal formatting
// --------------------------------------------------------------------------

/// `v` in decimal, zero-padded to at least two digits (`0 <= v < 1000`).
pub open spec fn dec2_chars(v: int) -> Seq<char> {
    if v < 100 {
        seq![hex_digit_char(v / 10), hex_digit_char(v % 10)]
    } else {
        seq![hex_digit_char(v / 100), hex_digit_char(v / 10 % 10), hex_digit_char(v % 10)]
    }
}

/// `v` in decimal, zero-padded to at least four digits (`0 <= v < 100000`).
pub open spec fn dec4_chars(v: int) -> Seq<char> {
    if v < 10000 {
        seq![
            hex_digit_char(v / 1000),
            hex_digit_char(v / 100 % 10),
            hex_digit_char(v / 10 % 10),
            hex_digit_char(v % 10),
        ]
    } else {
        seq![
            hex_digit_char(v / 10000),
            hex_digit_char(v / 1000 % 10),
            hex_digit_char(v / 100 % 10),
            hex_digit_char(v / 10 % 10),
            hex_digit_char(v % 10),
        ]
    }
}

/// Appends `v` in decimal to `out`, zero-padded to at least two digits.
pub(crate) fn push_dec2(out: &mut String, v: u8)
    ensures
        final(out)@ == old(out)@ + dec2_chars(v as int),
{
    if v < 100 {
        out.append(hex_digit_str(v / 10));
        out.append(hex_digit_str(v % 10));
    } else {
        out.append(hex_digit_str(v / 100));
        out.append(hex_digit_str(v / 10 % 10));
        out.append(hex_digit_str(v % 10));
    }
    proof {
        assert(out@ =~= old(out)@ + dec2_chars(v as int));
    }
}

/// Appends `v` in decimal to `out`, zero-padded to at least four digits.
pub(crate) fn push_dec4(out: &mut String, v: u16)
    ensures
        final(out)@ == old(out)@ + dec4_chars(v as int),
{
    if v < 10000 {
        out.append(hex_digit_str((v / 1000) as u8));
        out.append(hex_digit_str((v / 100 % 10) as u8));
        out.append(hex_digit_str((v / 10 % 10) as u8));
        out.append(hex_digit_str((v % 10) as u8));
    } else {
        out.append(hex_digit_str((v / 10000) as u8));
        out.append(hex_digit_str((v / 1000 % 10) as u8));
        out.append(hex_digit_str((v / 100 % 10) as u8));
        out.append(hex_digit_str((v / 10 % 10) as u8));
        out.append(hex_digit_str((v % 10) as u8));
    }
    proof {
        assert(out@ =~= old(out)@ + dec4_chars(v as int));
    }
}

// --------------------------------------------------------------------------
// Parsing hexadecimal byte strings
// --------------------------------------------------------------------------

/// Value of a hexadecimal digit character, or `-1` if `c` is none.
pub open spec fn hex_digit_value(c: char) -> int {
    if '0' as int <= c as int && c as int <= '9' as int {
        c as int - '0' as int
    } else if 'a' as int <= c as int && c as int <= 'f' as int {
        c as int - 'a' as int + 10
    } else if 'A' as int <= c as int && c as int <= 'F' as int {
        c as int - 'A' as int + 10
    } else {
        -1
    }
}

pub open spec fn is_hex_digit_char(c: char) -> bool {
    hex_digit_value(c) >= 0
}

/// `s` with every leading repetition of the two characters `0x` removed.
pub open spec fn strip_hex_prefix(s: Seq<char>) -> Seq<char>
    decreases s.len(),
{
    if s.len() >= 2 && s[0] == '0' && s[1] == 'x' {
        strip_hex_prefix(s.subrange(2, s.len() as int))
    } else {
        s
    }
}

/// Folds hexadecimal digits into `acc`; `None` as soon as a character is no
/// hexadecimal digit.
pub open spec fn hex_value_acc(s: Seq<char>, acc: int) -> Option<int>
    decreases s.len(),
{
    if s.len() == 0 {
        Some(acc)
    } else if is_hex_digit_char(s[0]) {
        hex_value_acc(s.subrange(1, s.len() as int), acc * 16 + hex_digit_value(s[0]))
    } else {
        None
    }
}

/// The byte value that parsing `s` as hexadecimal yields: leading `0x`
/// repetitions are stripped, then an optional sign precedes one or more
/// digits; a negative sign is only accepted on a zero value, and a value
/// above `255` does not fit.
pub open spec fn spec_hex_u8(s: Seq<char>) -> Option<u8> {
    let t = strip_hex_prefix(s);
    let signed = t.len() > 0 && (t[0] == '+' || t[0] == '-');
    let neg = t.len() > 0 && t[0] == '-';
    let digits = if signed {
        t.subrange(1, t.len() as int)
    } else {
        t
    };
    if digits.len() == 0 {
        None
    } else {
        match hex_value_acc(digits, 0) {
            Some(v) => {
                if neg {
                    if v == 0 {
                        Some(0u8)
                    } else {
                        None
                    }
                } else if v <= 255 {
                    Some(v as u8)
                } else {
                    None
                }
            },
            None => None,
        }
    }
}

proof fn lemma_hex_acc_monotone(s: Seq<char>, acc: int)
    requires
        acc >= 0,
    ensures
        hex_value_acc(s, acc) matches Some(v) ==> v >= acc,
    decreases s.len(),
{
    if s.len() > 0 && is_hex_digit_char(s[0]) {
        lemma_hex_acc_monotone(s.subrange(1, s.len() as int), acc * 16 + hex_digit_value(s[0]));
    }
}

fn is_hex_digit(c: char) -> (b: bool)
    ensures
        b == is_hex_digit_char(c),
{
    let u = c as u32;
    ('0' as u32 <= u && u <= '9' as u32) || ('a' as u32 <= u && u <= 'f' as u32) || ('A' as u32
        <= u && u <= 'F' as u32)
}

fn hex_digit(c: char) -> (v: u8)
    requires
        is_hex_digit_char(c),
    ensures
        v == hex_digit_value(c),
{
    let u = c as u32;
    if '0' as u32 <= u && u <= '9' as u32 {
        (u - '0' as u32) as u8
    } else if 'a' as u32 <= u && u <= 'f' as u32 {
        (u - 'a' as u32 + 10) as u8
    } else {
        (u - 'A' as u32 + 10) as u8
    }
}

/// Parses one token, given as its characters.
fn hex_chars_to_u8(chars: &Vec<char>) -> (r: Result<u8, Error>)
    ensures
        r is Ok <==> spec_hex_u8(chars@) is Some,
        r matches Ok(v) ==> spec_hex_u8(chars@) == Some(v),
        r matches Err(e) ==> e is InvalidArgument,
{
    let n = chars.len();
    let mut i: usize = 0;
    proof {
        assert(chars@.subrange(0, n as int) =~= chars@);
    }
    while n - i >= 2 && chars[i] == '0' && chars[i + 1] == 'x'
        invariant
            i <= n,
            n == chars@.len(),
            strip_hex_prefix(chars@) == strip_hex_prefix(chars@.subrange(i as int, n as int)),
        decreases n - i,
    {
        proof {
            assert(chars@.subrange(i as int, n as int).subrange(2, (n - i) as int) =~= chars@
                .subrange(i as int + 2, n as int));
        }
        i += 2;
    }
    let ghost t = chars@.subrange(i as int, n as int);
    proof {
        assert(strip_hex_prefix(chars@) == t);
    }
    let ghost spec_neg = t.len() > 0 && t[0] == '-';
    let ghost spec_digits = if t.len() > 0 && (t[0] == '+' || t[0] == '-') {
        t.subrange(1, t.len() as int)
    } else {
        t
    };
    let mut neg = false;
    if i < n && (chars[i] == '+' || chars[i] == '-') {
        neg = chars[i] == '-';
        i += 1;
        proof {
            assert(chars@.subrange(i as int, n as int) =~= t.subrange(1, t.len() as int));
        }
    }
    let ghost digits = chars@.subrange(i as int, n as int);
    proof {
        assert(digits == spec_digits);
        assert(neg == spec_neg);
    }
    if i == n {
        return Err(Error::InvalidArgument(String::from_str("cannot parse hex byte: no digits")));
    }
    let mut acc: u32 = 0;
    let mut j: usize = i;
    proof {
        assert(spec_hex_u8(chars@) == (match hex_value_acc(digits, 0) {
            Some(v) => if spec_neg {
                if v == 0 {
                    Some(0u8)
                } else {
                    None
                }
            } else if v <= 255 {
                Some(v as u8)
            } else {
                None
            },
            None => None,
        }));
    }
    while j < n
        invariant
            i <= j <= n,
            n == chars@.len(),
            acc <= 255,
            digits == chars@.subrange(i as int, n as int),
            neg == spec_neg,
            hex_value_acc(digits, 0) == hex_value_acc(
                chars@.subrange(j as int, n as int),
                acc as int,
            ),
            spec_hex_u8(chars@) == (match hex_value_acc(digits, 0) {
                Some(v) => if spec_neg {
                    if v == 0 {
                        Some(0u8)
                    } else {
                        None
                    }
                } else if v <= 255 {
                    Some(v as u8)
                } else {
                    None
                },
                None => None,
            }),
        decreases n - j,
    {
        let c = chars[j];
        proof {
            assert(chars@.subrange(j as int, n as int)[0] == c);
        }
        if !is_hex_digit(c) {
            proof {
                assert(hex_value_acc(chars@.subrange(j as int, n as int), acc as int) is None);
                assert(spec_hex_u8(chars@) is None);
            }
            return Err(
                Error::InvalidArgument(String::from_str("cannot parse hex byte: invalid digit")),
            );
        }
        proof {
            assert(chars@.subrange(j as int, n as int).subrange(1, (n - j) as int) =~= chars@
                .subrange(j as int + 1, n as int));
        }
        acc = acc * 16 + hex_digit(c) as u32;
        j += 1;
        if acc > 255 {
            proof {
                assert(hex_value_acc(digits, 0) == hex_value_acc(
                    chars@.subrange(j as int, n as int),
                    acc as int,
                ));
                lemma_hex_acc_monotone(chars@.subrange(j as int, n as int), acc as int);
                assert(spec_hex_u8(chars@) is None);
            }
            return Err(
                Error::InvalidArgument(String::from_str("cannot parse hex byte: value too large")),
            );
        }
    }
    proof {
        assert(chars@.subrange(j as int, n as int).len() == 0);
        assert(hex_value_acc(digits, 0) == Some(acc as int));
    }
    if neg && acc != 0 {
        return Err(
            Error::InvalidArgument(String::from_str("cannot parse hex byte: negative value")),
        );
    }
    Ok(acc as u8)
}

fn str_chars(s: &str) -> (r: Vec<char>)
    ensures
        r@ == s@,
{
    let n = s.unicode_len();
    let mut v: Vec<char> = Vec::new();
    let mut i: usize = 0;
    while i < n
        invariant
            i <= n,
            n == s@.len(),
            v@ == s@.subrange(0, i as int),
        decreases n - i,
    {
        let c = s.get_char(i);
        v.push(c);
        proof {
            assert(v@ =~= s@.subrange(0, i as int + 1));
        }
        i += 1;
    }
    proof {
        assert(v@ =~= s@);
    }
    v
}

/// Parses a string as one hexadecimal byte; an optional `0x` prefix
/// (repeated occurrences included) is ignored.
pub fn hex_to_u8(hex: &str) -> (r: Result<u8, Error>)
    ensures
        r is Ok <==> spec_hex_u8(hex@) is Some,
        r matches Ok(v) ==> spec_hex_u8(hex@) == Some(v),
        r matches Err(e) ==> e is InvalidArgument,
{
    let chars = str_chars(hex);
    hex_chars_to_u8(&chars)
}

// --------------------------------------------------------------------------
// Formatting bytes as hexadecimal
// --------------------------------------------------------------------------

/// The two upper-case digits of one byte.
pub open spec fn hex_byte_chars(b: u8) -> Seq<char> {
    seq![hex_digit_char(b as int / 16), hex_digit_char(b as int % 16)]
}

/// All bytes of `s` as two upper-case digits each, joined with single spaces.
pub open spec fn spec_u8_to_hex(s: Seq<u8>) -> Seq<char>
    decreases s.len(),
{
    if s.len() == 0 {
        Seq::empty()
    } else if s.len() == 1 {
        hex_byte_chars(s[0])
    } else {
        spec_u8_to_hex(s.drop_last()) + seq![' '] + hex_byte_chars(s.last())
    }
}

/// Appends the two upper-case hexadecimal digits of `b` to `out`.
pub(crate) fn push_hex_byte(out: &mut String, b: u8)
    ensures
        final(out)@ == old(out)@ + hex_byte_chars(b),
{
    out.append(hex_digit_str(b / 16));
    out.append(hex_digit_str(b % 16));
    proof {
        assert(out@ =~= old(out)@ + hex_byte_chars(b));
    }
}

/// Formats bytes as space-separated upper-case hexadecimal pairs.
pub fn u8_to_hex(bytes: &[u8]) -> (r: String)
    ensures
        r@ == spec_u8_to_hex(bytes@),
{
    let mut out = String::new();
    let n = bytes.len();
    let mut i: usize = 0;
    proof {
        reveal_strlit(" ");
    }
    while i < n
        invariant
            i <= n,
            n == bytes@.len(),
            out@ == spec_u8_to_hex(bytes@.subrange(0, i as int)),
            " "@ =~= seq![' '],
        decreases n - i,
    {
        if i > 0 {
            out.append(" ");
        }
        let b = bytes[i];
        push_hex_byte(&mut out, b);
        i += 1;
        proof {
            let pre = bytes@.subrange(0, i as int);
            assert(pre.drop_last() =~= bytes@.subrange(0, i as int - 1));
            assert(pre.last() == b);
            if i > 1 {
                assert(out@ =~= spec_u8_to_hex(pre.drop_last()) + seq![' '] + hex_byte_chars(b));
            } else {
                assert(pre.len() == 1);
                assert(out@ =~= hex_byte_chars(b));
            }
        }
    }
    proof {
        assert(bytes@.subrange(0, n as int) =~= bytes@);
    }
    out
}

// --------------------------------------------------------------------------
// Parsing whitespace-separated hexadecimal byte strings
// --------------------------------------------------------------------------

/// The Unicode white-space characters, as `char::is_whitespace` classifies
/// them; tokens of a byte string are separated by runs of these.
pub open spec fn is_space_char(c: char) -> bool {
    ||| '\u{9}' as int <= c as int <= '\u{d}' as int
    ||| c == ' '
    ||| c == '\u{85}'
    ||| c == '\u{a0}'
    ||| c == '\u{1680}'
    ||| '\u{2000}' as int <= c as int <= '\u{200a}' as int
    ||| c == '\u{2028}'
    ||| c == '\u{2029}'
    ||| c == '\u{202f}'
    ||| c == '\u{205f}'
    ||| c == '\u{3000}'
}

/// Splits `s` at whitespace, accumulating the current token and the tokens
/// seen so far; empty tokens are never produced.
pub open spec fn split_tokens_acc(s: Seq<char>, cur: Seq<char>, toks: Seq<Seq<char>>) -> Seq<
    Seq<char>,
>
    decreases s.len(),
{
    if s.len() == 0 {
        if cur.len() > 0 {
            toks.push(cur)
        } else {
            toks
        }
    } else if is_space_char(s[0]) {
        if cur.len() > 0 {
            split_tokens_acc(s.subrange(1, s.len() as int), Seq::empty(), toks.push(cur))
        } else {
            split_tokens_acc(s.subrange(1, s.len() as int), Seq::empty(), toks)
        }
    } else {
        split_tokens_acc(s.subrange(1, s.len() as int), cur.push(s[0]), toks)
    }
}

/// The whitespace-separated tokens of `s`.
pub open spec fn spec_tokens(s: Seq<char>) -> Seq<Seq<char>> {
    split_tokens_acc(s, Seq::empty(), Seq::empty())
}

/// The bytes that parsing every token of `s` as hexadecimal yields, or
/// `None` if any token does not parse.
pub open spec fn spec_string_to_u8(s: Seq<char>) -> Option<Seq<u8>> {
    let toks = spec_tokens(s);
    if forall|k: int| 0 <= k < toks.len() ==> spec_hex_u8(#[trigger] toks[k]) is Some {
        Some(Seq::new(toks.len(), |k: int| spec_hex_u8(toks[k])->0))
    } else {
        None
    }
}

fn is_space(c: char) -> (b: bool)
    ensures
        b == is_space_char(c),
{
    let u = c as u32;
    ('\u{9}' as u32 <= u && u <= '\u{d}' as u32) || c == ' ' || c == '\u{85}' || c == '\u{a0}'
        || c == '\u{1680}' || ('\u{2000}' as u32 <= u && u <= '\u{200a}' as u32) || c == '\u{2028}'
        || c == '\u{2029}' || c == '\u{202f}' || c == '\u{205f}' || c == '\u{3000}'
}

/// Folding cannot drop a finished token: the result extends `toks` and keeps
/// each of its entries.
proof fn lemma_split_extends(s: Seq<char>, cur: Seq<char>, toks: Seq<Seq<char>>)
    ensures
        toks.len() <= split_tokens_acc(s, cur, toks).len(),
        forall|k: int| 0 <= k < toks.len() ==> split_tokens_acc(s, cur, toks)[k] == toks[k],
    decreases s.len(),
{
    if s.len() == 0 {
    } else if is_space_char(s[0]) {
        if cur.len() > 0 {
            lemma_split_extends(s.subrange(1, s.len() as int), Seq::empty(), toks.push(cur));
            assert forall|k: int| 0 <= k < toks.len() implies split_tokens_acc(s, cur, toks)[k]
                == toks[k] by {
                assert(split_tokens_acc(s.subrange(1, s.len() as int), Seq::empty(), toks.push(cur))[k]
                    == toks.push(cur)[k]);
            }
        } else {
            lemma_split_extends(s.subrange(1, s.len() as int), Seq::empty(), toks);
            assert forall|k: int| 0 <= k < toks.len() implies split_tokens_acc(s, cur, toks)[k]
                == toks[k] by {
                assert(split_tokens_acc(s.subrange(1, s.len() as int), Seq::empty(), toks)[k]
                    == toks[k]);
            }
        }
    } else {
        lemma_split_extends(s.subrange(1, s.len() as int), cur.push(s[0]), toks);
        assert forall|k: int| 0 <= k < toks.len() implies split_tokens_acc(s, cur, toks)[k]
            == toks[k] by {
            assert(split_tokens_acc(s.subrange(1, s.len() as int), cur.push(s[0]), toks)[k]
                == toks[k]);
        }
    }
}

/// Parses a whitespace-separated list of hexadecimal bytes.
pub fn string_to_u8(string: &str) -> (r: Result<Vec<u8>, Error>)
    ensures
        r is Ok <==> spec_string_to_u8(string@) is Some,
        r matches Ok(v) ==> spec_string_to_u8(string@) == Some(v@),
        r matches Err(e) ==> e is InvalidArgument,
{
    let n = string.unicode_len();
    let mut out: Vec<u8> = Vec::new();
    let mut cur: Vec<char> = Vec::new();
    let mut i: usize = 0;
    let ghost whole = string@;
    let ghost mut toks_done: Seq<Seq<char>> = Seq::empty();
    proof {
        assert(whole.subrange(0, n as int) =~= whole);
    }
    while i < n
        invariant
            i <= n,
            n == whole.len(),
            whole == string@,
            spec_tokens(whole) == split_tokens_acc(
                whole.subrange(i as int, n as int),
                cur@,
                toks_done,
            ),
            toks_done.len() == out@.len(),
            forall|k: int|
                0 <= k < out@.len() ==> spec_hex_u8(#[trigger] toks_done[k]) == Some(out@[k]),
        decreases n - i,
    {
        let ghost rest = whole.subrange(i as int, n as int);
        let c = string.get_char(i);
        proof {
            assert(rest.subrange(1, (n - i) as int) =~= whole.subrange(i as int + 1, n as int));
            assert(rest[0] == c);
        }
        if is_space(c) {
            if cur.len() > 0 {
                proof {
                    // One unfolding: the current token is finished here.
                    assert(spec_tokens(whole) == split_tokens_acc(
                        whole.subrange(i as int + 1, n as int),
                        Seq::empty(),
                        toks_done.push(cur@),
                    ));
                }
                let b = match hex_chars_to_u8(&cur) {
                    Ok(b) => b,
                    Err(e) => {
                        proof {
                            lemma_split_extends(
                                whole.subrange(i as int + 1, n as int),
                                Seq::empty(),
                                toks_done.push(cur@),
                            );
                            assert(split_tokens_acc(
                                whole.subrange(i as int + 1, n as int),
                                Seq::empty(),
                                toks_done.push(cur@),
                            )[toks_done.len() as int] == toks_done.push(cur@)[toks_done.len() as int]);
                            assert(spec_tokens(whole)[toks_done.len() as int] == cur@);
                            assert(spec_string_to_u8(whole) is None);
                        }
                        return Err(e);
                    },
                };
                out.push(b);
                proof {
                    toks_done = toks_done.push(cur@);
                }
                cur = Vec::new();
            } else {
                proof {
                    assert(cur@ =~= Seq::<char>::empty());
                }
            }
        } else {
            cur.push(c);
        }
        i += 1;
    }
    proof {
        assert(whole.subrange(i as int, n as int).len() == 0);
    }
    if cur.len() > 0 {
        proof {
            assert(spec_tokens(whole) == toks_done.push(cur@));
        }
        let b = match hex_chars_to_u8(&cur) {
            Ok(b) => b,
            Err(e) => {
                proof {
                    assert(spec_tokens(whole)[toks_done.len() as int] == cur@);
                    assert(spec_string_to_u8(whole) is None);
                }
                return Err(e);
            },
        };
        out.push(b);
        proof {
            toks_done = toks_done.push(cur@);
        }
    }
    proof {
        let toks = spec_tokens(whole);
        assert(toks == toks_done);
        assert(forall|k: int| 0 <= k < toks.len() ==> spec_hex_u8(#[trigger] toks[k]) is Some);
        assert(Seq::new(toks.len(), |k: int| spec_hex_u8(toks[k])->0) =~= out@);
    }
    Ok(out)
}

} // verus!
