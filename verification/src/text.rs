//! Verified text helpers: decimal rendering of the numbers that appear in
//! replies, parsing of the distance the user sends, and keyword comparison.

use vstd::prelude::*;
use vstd::string::StrSliceExecFns;
use vstd::string::StringExecFns;

verus! {

/// A decimal digit character.
pub open spec fn is_dec_digit(c: char) -> bool {
    '0' as int <= c as int <= '9' as int
}

/// The numeric value of a decimal digit character.
pub open spec fn digit_val(c: char) -> nat {
    (c as int - '0' as int) as nat
}

/// The decimal digit character for a value below ten.
pub open spec fn digit_to_char(d: nat) -> char {
    if d == 0 {
        '0'
    } else if d == 1 {
        '1'
    } else if d == 2 {
        '2'
    } else if d == 3 {
        '3'
    } else if d == 4 {
        '4'
    } else if d == 5 {
        '5'
    } else if d == 6 {
        '6'
    } else if d == 7 {
        '7'
    } else if d == 8 {
        '8'
    } else {
        '9'
    }
}

/// The usual decimal rendering of `n`: no sign, no leading zero except for
/// zero itself.
pub open spec fn dec_digits(n: nat) -> Seq<char>
    decreases n,
{
    if n < 10 {
        seq![digit_to_char(n)]
    } else {
        dec_digits(n / 10).push(digit_to_char(n % 10))
    }
}

/// Every character of `s` is a decimal digit.
pub open spec fn all_dec_digits(s: Seq<char>) -> bool {
    forall|i: int| 0 <= i < s.len() ==> is_dec_digit(#[trigger] s[i])
}

/// The value of a sequence of decimal digit characters, most significant
/// first.
pub open spec fn dec_val(s: Seq<char>) -> nat
    decreases s.len(),
{
    if s.len() == 0 {
        0
    } else {
        dec_val(s.drop_last()) * 10 + digit_val(s.last())
    }
}

/// `s` without its optional leading plus sign.
pub open spec fn unsigned_body(s: Seq<char>) -> Seq<char> {
    if s.len() > 0 && s[0] == '+' {
        s.subrange(1, s.len() as int)
    } else {
        s
    }
}

/// Whether `s` is what `u32` accepts as a decimal number: an optional plus
/// sign, then at least one digit, with a value that fits.
pub open spec fn parseable_u32(s: Seq<char>) -> bool {
    let t = unsigned_body(s);
    t.len() > 0 && all_dec_digits(t) && dec_val(t) <= u32::MAX
}

/// The value of a parseable `s`.
pub open spec fn parsed_u32(s: Seq<char>) -> nat {
    dec_val(unsigned_body(s))
}

/// Extending a digit string can only grow its value.
proof fn lemma_dec_val_prefix(s: Seq<char>, i: int)
    requires
        0 <= i <= s.len(),
    ensures
        dec_val(s.subrange(0, i)) <= dec_val(s),
    decreases s.len() - i,
{
    if i < s.len() {
        let a = s.subrange(0, i);
        let b = s.subrange(0, i + 1);
        assert(b.drop_last() =~= a);
        assert(dec_val(b) == dec_val(a) * 10 + digit_val(b.last()));
        assert(dec_val(a) <= dec_val(a) * 10) by (nonlinear_arith);
        lemma_dec_val_prefix(s, i + 1);
        assert(s.subrange(0, s.len() as int) =~= s);
    } else {
        assert(s.subrange(0, s.len() as int) =~= s);
    }
}

/// The one-character string for a digit value.
fn digit_str(d: u32) -> (r: &'static str)
    requires
        d < 10,
    ensures
        r@ =~= seq![digit_to_char(d as nat)],
{
    proof {
        reveal_strlit("0");
        reveal_strlit("1");
        reveal_strlit("2");
        reveal_strlit("3");
        reveal_strlit("4");
        reveal_strlit("5");
        reveal_strlit("6");
        reveal_strlit("7");
        reveal_strlit("8");
        reveal_strlit("9");
    }
    if d == 0 {
        "0"
    } else if d == 1 {
        "1"
    } else if d == 2 {
        "2"
    } else if d == 3 {
        "3"
    } else if d == 4 {
        "4"
    } else if d == 5 {
        "5"
    } else if d == 6 {
        "6"
    } else if d == 7 {
        "7"
    } else if d == 8 {
        "8"
    } else {
        "9"
    }
}

/// Renders `n` in decimal.
pub fn u64_to_string(n: u64) -> (s: String)
    ensures
        s@ == dec_digits(n as nat),
    decreases n,
{
    if n < 10 {
        String::from_str(digit_str(n as u32))
    } else {
        let mut s = u64_to_string(n / 10);
        let d = digit_str((n % 10) as u32);
        s.append(d);
        proof {
            assert(s@ =~= dec_digits(n as nat));
        }
        s
    }
}

/// Renders `n` in decimal.
pub fn u32_to_string(n: u32) -> (s: String)
    ensures
        s@ == dec_digits(n as nat),
{
    u64_to_string(n as u64)
}

/// Parses `s` exactly as `u32` does: an optional plus sign, then at least one
/// decimal digit, rejecting values that do not fit.
pub fn parse_u32(s: &str) -> (r: Option<u32>)
    ensures
        match r {
            Some(d) => parseable_u32(s@) && d as nat == parsed_u32(s@),
            None => !parseable_u32(s@),
        },
{
    let n = s.unicode_len();
    let start: usize = if n > 0 && s.get_char(0) == '+' {
        1
    } else {
        0
    };
    let ghost t = unsigned_body(s@);
    proof {
        assert(t =~= s@.subrange(start as int, n as int));
    }
    if n == start {
        return None;
    }
    let mut i: usize = start;
    let mut acc: u64 = 0;
    while i < n
        invariant
            start <= i <= n,
            n == s@.len(),
            start == 1 ==> s@.len() > 0 && s@[0] == '+',
            start == 0 ==> !(s@.len() > 0 && s@[0] == '+'),
            t == unsigned_body(s@),
            t =~= s@.subrange(start as int, n as int),
            acc == dec_val(t.subrange(0, i - start)),
            acc <= u32::MAX,
            all_dec_digits(t.subrange(0, i - start)),
        decreases n - i,
    {
        let c = s.get_char(i);
        let v = c as u32;
        if v < 48 || v > 57 {
            proof {
                assert(t[i - start] == s@[i as int]);
                assert(!is_dec_digit(t[i - start]));
            }
            return None;
        }
        let d: u64 = (v - 48) as u64;
        let next_acc: u64 = acc * 10 + d;
        proof {
            let p = t.subrange(0, i - start);
            let q = t.subrange(0, i + 1 - start);
            assert(q.drop_last() =~= p);
            assert(q.last() == t[i - start]);
            assert(t[i - start] == s@[i as int]);
            assert(digit_val(t[i - start]) == d);
        }
        if next_acc > 0xffff_ffff {
            proof {
                let q = t.subrange(0, i + 1 - start);
                assert(dec_val(q) == next_acc);
                lemma_dec_val_prefix(t, i + 1 - start);
                assert(dec_val(t) > u32::MAX);
            }
            return None;
        }
        acc = next_acc;
        i = i + 1;
    }
    proof {
        assert(t.subrange(0, n - start) =~= t);
    }
    Some(acc as u32)
}

/// Whether `m` is exactly the text `kw`.
pub fn text_is(m: &str, kw: &str) -> (r: bool)
    ensures
        r == (m@ == kw@),
{
    let a: String = m.to_owned();
    let b: String = kw.to_owned();
    a == b
}

} // verus!
