//! Decimal notation: writing small numbers and reading unsigned ones.

use vstd::prelude::*;
use vstd::std_specs::iter::IteratorSpec;
use vstd::string::StringExecFns;

verus! {

broadcast use vstd::string::group_string_axioms;

/// The character of a decimal digit.
pub open spec fn digit_char(d: nat) -> char
    recommends
        d < 10,
{
    (48 + d) as char
}

/// The digit that a character shows, if it is one of `0` to `9`.
pub open spec fn digit_of(c: char) -> Option<nat> {
    if '0' <= c && c <= '9' {
        Some((c as nat - 48) as nat)
    } else {
        None
    }
}

/// Shortest decimal notation of a number.
pub open spec fn decimal(n: nat) -> Seq<char>
    decreases n,
{
    if n < 10 {
        seq![digit_char(n)]
    } else {
        decimal(n / 10).push(digit_char(n % 10))
    }
}

/// Decimal notation filled with a leading zero to at least two digits.
pub open spec fn padded2(n: nat) -> Seq<char> {
    if n < 10 {
        seq!['0', digit_char(n)]
    } else {
        decimal(n)
    }
}

/// The number that a non-empty run of decimal digits denotes. Leading zeros
/// are allowed; anything but a digit, and the empty text, denote nothing.
pub open spec fn digits_value(s: Seq<char>) -> Option<nat>
    decreases s.len(),
{
    if s.len() == 0 {
        None
    } else {
        match digit_of(s.last()) {
            None => None,
            Some(d) => if s.len() == 1 {
                Some(d)
            } else {
                match digits_value(s.drop_last()) {
                    Some(high) => Some(high * 10 + d),
                    None => None,
                }
            },
        }
    }
}

/// The number that a text denotes as an unsigned decimal: an optional `+`
/// followed by digits and nothing else.
pub open spec fn unsigned_value(s: Seq<char>) -> Option<nat> {
    if s.len() > 0 && s[0] == '+' {
        digits_value(s.drop_first())
    } else {
        digits_value(s)
    }
}

/// The 16-bit number that a text denotes, if it denotes one that fits.
pub open spec fn parsed_u16(s: Seq<char>) -> Option<u16> {
    match unsigned_value(s) {
        Some(v) => if v <= u16::MAX {
            Some(v as u16)
        } else {
            None
        },
        None => None,
    }
}

/// The one-character text of a digit.
fn digit_str(d: u8) -> (s: &'static str)
    requires
        d < 10,
    ensures
        s@ == seq![digit_char(d as nat)],
{
    proof {
        reveal_strlit("0");
        reveal_strlit("1");
        reveal_strlit("2");
        reveal_strlit("3");
        reveal_strlit("4");
        reveal_strlit("5");
        reveal_strlit("6");
        reveal_strlit("7");
        reveal_strlit("8");
        reveal_strlit("9");
    }
    let s = match d {
        0 => "0",
        1 => "1",
        2 => "2",
        3 => "3",
        4 => "4",
        5 => "5",
        6 => "6",
        7 => "7",
        8 => "8",
        _ => "9",
    };
    assert(s@ =~= seq![digit_char(d as nat)]);
    s
}

/// Appends `n` in decimal, with a leading zero where it has one digit only.
pub fn push_padded2(out: &mut String, n: u8)
    ensures
        final(out)@ == old(out)@ + padded2(n as nat),
{
    proof {
        reveal_with_fuel(decimal, 3);
    }
    if n >= 100 {
        out.append(digit_str(n / 100));
    }
    out.append(digit_str((n / 10) % 10));
    out.append(digit_str(n % 10));
    proof {
        let m = n as nat;
        if n >= 100 {
            assert(decimal(m) =~= seq![digit_char(m / 100), digit_char((m / 10) % 10), digit_char(m % 10)]);
        } else if n >= 10 {
            assert(decimal(m) =~= seq![digit_char((m / 10) % 10), digit_char(m % 10)]);
        }
        assert(out@ =~= old(out)@ + padded2(m));
    }
}

/// Reading a run of digits continues digit by digit.
pub proof fn lemma_digits_value_push(s: Seq<char>, c: char)
    ensures
        digits_value(s.push(c)) == match (digit_of(c), digits_value(s)) {
            (None, _) => None,
            (Some(d), Some(high)) => Some(high * 10 + d),
            (Some(d), None) => if s.len() == 0 {
                Some(d)
            } else {
                None
            },
        },
{
    assert(s.push(c).drop_last() == s);
    assert(s.push(c).last() == c);
    if s.len() > 0 && digits_value(s) is None {
    }
}

/// A run that holds anything but digits denotes nothing, however it goes on.
pub proof fn lemma_digits_value_prefix(s: Seq<char>, k: int)
    requires
        0 < k <= s.len(),
        digits_value(s.take(k)) is None,
    ensures
        digits_value(s) is None,
    decreases s.len() - k,
{
    if k < s.len() {
        assert(s.take(k + 1) == s.take(k).push(s[k]));
        lemma_digits_value_push(s.take(k), s[k]);
        lemma_digits_value_prefix(s, k + 1);
    } else {
        assert(s.take(k) == s);
    }
}

/// A run of digits denotes at least as much as any of its beginnings.
pub proof fn lemma_digits_value_grows(s: Seq<char>, k: int)
    requires
        0 < k <= s.len(),
        digits_value(s) is Some,
    ensures
        digits_value(s.take(k)) is Some,
        digits_value(s.take(k))->0 <= digits_value(s)->0,
    decreases s.len() - k,
{
    if k < s.len() {
        assert(s.take(k + 1) == s.take(k).push(s[k]));
        lemma_digits_value_push(s.take(k), s[k]);
        lemma_digits_value_grows(s, k + 1);
        if digits_value(s.take(k)) is None {
            lemma_digits_value_prefix(s, k);
        }
    } else {
        assert(s.take(k) == s);
    }
}

/// The value of a digit character.
fn digit_value(c: char) -> (d: Option<u8>)
    ensures
        d is Some == digit_of(c) is Some,
        d is Some ==> d->0 as nat == digit_of(c)->0 && d->0 < 10,
{
    if '0' <= c && c <= '9' {
        Some((c as u32 - 48) as u8)
    } else {
        None
    }
}

/// Reads a text as an unsigned decimal of at most 16 bits: an optional `+`,
/// then digits only. Anything else, and a number that does not fit, is `None`.
pub fn parse_u16(text: &str) -> (value: Option<u16>)
    ensures
        value == parsed_u16(text@),
{
    let mut chars = text.chars();
    let ghost mut body: Seq<char> = text@;
    let mut acc: u32 = 0;
    let mut seen: usize = 0;
    let mut first = true;
    let ghost mut k: int = 0;
    loop
        invariant
            chars.obeys_prophetic_iter_laws(),
            0 <= k <= body.len(),
            chars.remaining() == body.skip(k),
            first ==> body == text@ && k == 0 && seen == 0,
            !first ==> unsigned_value(text@) == digits_value(body),
            (seen == 0) == (k == 0),
            k == 0 ==> acc == 0,
            k > 0 ==> digits_value(body.take(k)) == Some(acc as nat),
            acc <= u16::MAX,
        decreases body.len() - k,
    {
        let ghost before = chars.remaining();
        match chars.next() {
            None => {
                proof {
                    assert(body.skip(k).len() == 0);
                    assert(body.take(k) == body);
                    if first {
                        assert(text@.len() == 0);
                    }
                }
                if seen == 0 {
                    return None;
                }
                return Some(acc as u16);
            },
            Some(c) => {
                assert(c == body[k]);
                assert(body.skip(k).drop_first() == body.skip(k + 1));
                if first && c == '+' {
                    first = false;
                    proof {
                        body = text@.drop_first();
                        assert(text@.skip(1) == text@.drop_first());
                        assert(body.skip(0) == body);
                    }
                } else {
                    first = false;
                    proof {
                        assert(body.take(k + 1) == body.take(k).push(c));
                        lemma_digits_value_push(body.take(k), c);
                    }
                    match digit_value(c) {
                        None => {
                            proof {
                                lemma_digits_value_prefix(body, k + 1);
                            }
                            return None;
                        },
                        Some(d) => {
                            let next = acc * 10 + d as u32;
                            if next > 65535 {
                                proof {
                                    if digits_value(body) is Some {
                                        lemma_digits_value_grows(body, k + 1);
                                    }
                                }
                                return None;
                            }
                            acc = next;
                            seen = 1;
                            proof {
                                k = k + 1;
                            }
                        },
                    }
                }
            },
        }
    }
}

} // verus!
