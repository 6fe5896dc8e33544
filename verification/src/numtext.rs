//! Decimal text for identifiers.
//!
//! Numeric identifiers cross the schema boundary as opaque strings but are
//! 32-bit signed integers in storage. This module owns that dual
//! representation: rendering a storage key as its decimal text and parsing
//! such text back, with the exact grammar stated as spec functions.
use vstd::prelude::*;

verus! {

/// Whether `c` is a decimal digit.
pub open spec fn is_digit(c: char) -> bool {
    48 <= (c as u32) && (c as u32) <= 57
}

/// The numeric value of a decimal digit character.
pub open spec fn digit_val(c: char) -> int {
    (c as u32) - 48
}

/// The digit character for a value below ten.
pub open spec fn digit_char(d: int) -> char {
    if d == 0 {
        '0'
    } else if d == 1 {
        '1'
    } else if d == 2 {
        '2'
    } else if d == 3 {
        '3'
    } else if d == 4 {
        '4'
    } else if d == 5 {
        '5'
    } else if d == 6 {
        '6'
    } else if d == 7 {
        '7'
    } else if d == 8 {
        '8'
    } else {
        '9'
    }
}

/// Whether every character of `s` is a decimal digit.
pub open spec fn all_digits(s: Seq<char>) -> bool {
    forall|i: int| 0 <= i < s.len() ==> is_digit(#[trigger] s[i])
}

/// The value of a digit sequence read in base ten.
pub open spec fn digits_val(s: Seq<char>) -> int
    decreases s.len(),
{
    if s.len() == 0 {
        0
    } else {
        digits_val(s.drop_last()) * 10 + digit_val(s.last())
    }
}

/// The decimal rendering of a value below 2^32, with no leading zeros.
pub open spec fn digits_text(n: nat) -> Seq<char>
    decreases n,
{
    if n < 10 {
        seq![digit_char(n as int)]
    } else {
        digits_text(n / 10).push(digit_char((n % 10) as int))
    }
}

/// The decimal rendering of a signed value: a leading '-' for negatives.
pub open spec fn int_text_of(v: int) -> Seq<char> {
    if v < 0 {
        seq!['-'] + digits_text((-v) as nat)
    } else {
        digits_text(v as nat)
    }
}

/// What parsing a string as a 32-bit signed integer yields: an optional sign
/// followed by at least one digit, with the value in range; anything else is
/// no parse.
pub open spec fn spec_parse_i32(s: Seq<char>) -> Option<i32> {
    let negative = s.len() > 0 && s[0] == '-';
    let signed = s.len() > 0 && (s[0] == '-' || s[0] == '+');
    let digs = if signed {
        s.drop_first()
    } else {
        s
    };
    if digs.len() == 0 || !all_digits(digs) {
        None
    } else {
        let v = if negative {
            -digits_val(digs)
        } else {
            digits_val(digs)
        };
        if i32::MIN <= v <= i32::MAX {
            Some(v as i32)
        } else {
            None
        }
    }
}

proof fn lemma_digits_val_nonneg(s: Seq<char>)
    requires
        all_digits(s),
    ensures
        digits_val(s) >= 0,
    decreases s.len(),
{
    if s.len() > 0 {
        assert(all_digits(s.drop_last()));
        lemma_digits_val_nonneg(s.drop_last());
    }
}

/// A digit sequence is worth at least as much as any of its prefixes.
proof fn lemma_digits_val_prefix(s: Seq<char>, i: int)
    requires
        all_digits(s),
        0 <= i <= s.len(),
    ensures
        digits_val(s) >= digits_val(s.take(i)),
    decreases s.len() - i,
{
    if i < s.len() {
        lemma_digits_val_prefix(s, i + 1);
        let t = s.take(i + 1);
        assert(t.drop_last() =~= s.take(i));
        assert(all_digits(t));
        lemma_digits_val_nonneg(s.take(i));
        assert(digits_val(t) == digits_val(s.take(i)) * 10 + digit_val(t.last()));
        assert(is_digit(s[i]));
    } else {
        assert(s.take(i) =~= s);
    }
}

/// Parses decimal text as a 32-bit signed integer: an optional sign, then at
/// least one digit; fails on any other shape and on values out of range.
pub fn parse_i32(s: &str) -> (r: Option<i32>)
    ensures
        r == spec_parse_i32(s@),
{
    let n = s.unicode_len();
    if n == 0 {
        return None;
    }
    let first = s.get_char(0);
    let negative = first == '-';
    let signed = negative || first == '+';
    let start: usize = if signed {
        1
    } else {
        0
    };
    let ghost digs = if signed {
        s@.drop_first()
    } else {
        s@
    };
    if start == n {
        return None;
    }
    let mut acc: i64 = 0;
    let mut i: usize = start;
    while i < n
        invariant
            start <= i <= n,
            1 <= n == s@.len(),
            negative == (s@.len() > 0 && s@[0] == '-'),
            signed == (s@.len() > 0 && (s@[0] == '-' || s@[0] == '+')),
            start == if signed { 1int } else { 0int },
            start < n,
            digs == if signed { s@.drop_first() } else { s@ },
            all_digits(digs.take(i - start)),
            acc == digits_val(digs.take(i - start)),
            0 <= acc <= 2147483648,
        decreases n - i,
    {
        let c = s.get_char(i);
        let code: u32 = c as u32;
        if code < 48 || code > 57 {
            proof {
                let k = i - start;
                assert(0 <= k < digs.len());
                assert(digs[k] == s@[i as int]);
                assert(!is_digit(digs[k]));
                assert(!all_digits(digs));
            }
            return None;
        }
        proof {
            assert(digs.take(i + 1 - start).drop_last() =~= digs.take(i - start));
            assert(digs.take(i + 1 - start).last() == s@[i as int]);
        }
        acc = acc * 10 + ((code - 48) as i64);
        i = i + 1;
        if acc > 2147483648 {
            proof {
                if all_digits(digs) {
                    let pre = digs.take(i - start);
                    lemma_digits_val_prefix(digs, i - start);
                    assert(digits_val(digs) >= digits_val(pre));
                    assert(digits_val(digs) > i32::MAX);
                    assert(-digits_val(digs) < i32::MIN);
                }
            }
            return None;
        }
    }
    proof {
        assert(digs.take(n - start) =~= digs);
    }
    if negative {
        let v: i64 = -acc;
        assert(i32::MIN <= v <= i32::MAX);
        Some(v as i32)
    } else {
        if acc > 2147483647 {
            return None;
        }
        Some(acc as i32)
    }
}

fn push_digit(buf: &mut String, d: u32)
    requires
        d < 10,
    ensures
        final(buf)@ == old(buf)@ + seq![digit_char(d as int)],
{
    let piece: &str = match d {
        0 => "0",
        1 => "1",
        2 => "2",
        3 => "3",
        4 => "4",
        5 => "5",
        6 => "6",
        7 => "7",
        8 => "8",
        _ => "9",
    };
    proof {
        reveal_strlit("0");
        reveal_strlit("1");
        reveal_strlit("2");
        reveal_strlit("3");
        reveal_strlit("4");
        reveal_strlit("5");
        reveal_strlit("6");
        reveal_strlit("7");
        reveal_strlit("8");
        reveal_strlit("9");
        assert(piece@ =~= seq![digit_char(d as int)]);
    }
    buf.append(piece);
}

fn push_digits(buf: &mut String, m: u32)
    ensures
        final(buf)@ == old(buf)@ + digits_text(m as nat),
    decreases m,
{
    if m >= 10 {
        push_digits(buf, m / 10);
        push_digit(buf, m % 10);
        proof {
            assert(buf@ =~= old(buf)@ + digits_text(m as nat));
        }
    } else {
        push_digit(buf, m);
    }
}

/// Renders a storage key as the decimal text that carries it across the
/// schema boundary.
pub fn i32_to_text(n: i32) -> (r: String)
    ensures
        r@ == int_text_of(n as int),
{
    let mut buf = String::new();
    if n < 0 {
        buf.append("-");
        let mag64: i64 = -(n as i64);
        let mag: u32 = mag64 as u32;
        push_digits(&mut buf, mag);
        proof {
            reveal_strlit("-");
            assert(buf@ =~= seq!['-'] + digits_text(mag as nat));
        }
    } else {
        push_digits(&mut buf, n as u32);
    }
    buf
}

/// The rendering of a value is nonempty, all digits, and worth that value.
proof fn lemma_digits_text_val(n: nat)
    ensures
        digits_text(n).len() >= 1,
        all_digits(digits_text(n)),
        digits_val(digits_text(n)) == n,
    decreases n,
{
    if n < 10 {
        let s = digits_text(n);
        assert(s == seq![digit_char(n as int)]);
        assert(is_digit(s[0]));
        assert(s.drop_last() =~= Seq::<char>::empty());
        assert(digits_val(Seq::<char>::empty()) == 0);
        assert(s.last() == digit_char(n as int));
        assert(digits_val(s) == digit_val(digit_char(n as int)));
    } else {
        lemma_digits_text_val(n / 10);
        let s = digits_text(n);
        let prefix = digits_text(n / 10);
        assert(s == prefix.push(digit_char((n % 10) as int)));
        assert(s.drop_last() =~= prefix);
        assert(s.last() == digit_char((n % 10) as int));
        assert(digit_val(digit_char((n % 10) as int)) == n % 10);
        assert forall|i: int| 0 <= i < s.len() implies is_digit(#[trigger] s[i]) by {
            if i < prefix.len() {
                assert(s[i] == prefix[i]);
            }
        }
        assert(digits_val(s) == digits_val(prefix) * 10 + (n % 10));
        assert(digits_val(prefix) * 10 + n % 10 == n) by {
            assert((n / 10) * 10 + n % 10 == n);
        }
    }
}

/// Law (identifier dual representation): the decimal text a storage key is
/// rendered as parses back to that very key, for every key.
pub proof fn lemma_id_text_round_trip(v: i32)
    ensures
        spec_parse_i32(int_text_of(v as int)) == Some(v),
{
    if v >= 0 {
        let s = int_text_of(v as int);
        assert(s == digits_text(v as nat));
        lemma_digits_text_val(v as nat);
        assert(is_digit(s[0]));
        assert(s[0] != '-' && s[0] != '+');
    } else {
        let s = int_text_of(v as int);
        let digs = digits_text((-v) as nat);
        lemma_digits_text_val((-v) as nat);
        assert(s == seq!['-'] + digs);
        assert(s[0] == '-');
        assert(s.drop_first() =~= digs);
        assert(digits_val(digs) == (-v) as nat);
    }
}

/// Whether two strings hold the same characters.
pub fn text_eq(a: &str, b: &str) -> (r: bool)
    ensures
        r == (a@ == b@),
{
    let owned_a: String = a.to_owned();
    let owned_b: String = b.to_owned();
    owned_a.eq(&owned_b)
}

} // verus!
