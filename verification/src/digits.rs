//! Decimal rendering and parsing of `u32` values, with a proved round
//! trip. Used for the `WxH` part of artifact names and for the size
//! sidecar files.

use vstd::prelude::*;
use vstd::string::StringExecFns;

verus! {

/// The character for a single decimal digit.
pub open spec fn digit_char(d: nat) -> char
    recommends
        d < 10,
{
    if d == 0 {
        '0'
    } else if d == 1 {
        '1'
    } else if d == 2 {
        '2'
    } else if d == 3 {
        '3'
    } else if d == 4 {
        '4'
    } else if d == 5 {
        '5'
    } else if d == 6 {
        '6'
    } else if d == 7 {
        '7'
    } else if d == 8 {
        '8'
    } else {
        '9'
    }
}

/// The value of a single decimal digit character.
pub open spec fn digit_val(c: char) -> nat
    recommends
        is_digit(c),
{
    (c as nat - '0' as nat) as nat
}

/// Whether `c` is a decimal digit.
pub open spec fn is_digit(c: char) -> bool {
    '0' <= c <= '9'
}

/// The usual decimal rendering of `n`: no sign, no leading zeros, and a
/// single `'0'` for zero.
pub open spec fn dec_str(n: nat) -> Seq<char>
    decreases n,
{
    if n < 10 {
        seq![digit_char(n)]
    } else {
        dec_str(n / 10) + seq![digit_char(n % 10)]
    }
}

/// A non-empty digit sequence without a superfluous leading zero.
pub open spec fn is_canonical_digits(s: Seq<char>) -> bool {
    &&& s.len() > 0
    &&& (forall|i: int| 0 <= i < s.len() ==> is_digit(s[i]))
    &&& (s.len() > 1 ==> s[0] != '0')
}

/// The value of a digit sequence, most significant digit first.
pub open spec fn dec_val(s: Seq<char>) -> nat
    decreases s.len(),
{
    if s.len() == 0 {
        0
    } else {
        dec_val(s.drop_last()) * 10 + digit_val(s.last())
    }
}

/// The single-character string for digit `d`.
fn digit_str(d: u32) -> (r: &'static str)
    requires
        d < 10,
    ensures
        r@ =~= seq![digit_char(d as nat)],
{
    proof {
        reveal_strlit("0");
        reveal_strlit("1");
        reveal_strlit("2");
        reveal_strlit("3");
        reveal_strlit("4");
        reveal_strlit("5");
        reveal_strlit("6");
        reveal_strlit("7");
        reveal_strlit("8");
        reveal_strlit("9");
    }
    match d {
        0 => "0",
        1 => "1",
        2 => "2",
        3 => "3",
        4 => "4",
        5 => "5",
        6 => "6",
        7 => "7",
        8 => "8",
        _ => "9",
    }
}

/// Render `n` in decimal.
pub fn u32_to_dec(n: u32) -> (r: String)
    ensures
        r@ == dec_str(n as nat),
    decreases n,
{
    if n < 10 {
        digit_str(n).to_owned()
    } else {
        let mut s: String = u32_to_dec(n / 10);
        s.append(digit_str(n % 10));
        s
    }
}

/// `dec_str` renders every value canonically.
pub proof fn lemma_dec_str_canonical(n: nat)
    ensures
        is_canonical_digits(dec_str(n)),
        n > 0 ==> dec_str(n)[0] != '0',
    decreases n,
{
    if n < 10 {
    } else {
        lemma_dec_str_canonical(n / 10);
        assert(n / 10 > 0);
        let s = dec_str(n);
        let hi = dec_str(n / 10);
        assert(s == hi + seq![digit_char(n % 10)]);
        assert(forall|i: int| 0 <= i < hi.len() ==> is_digit(#[trigger] s[i]));
        assert(is_digit(s[s.len() - 1]));
    }
}

/// Rendering and then evaluating a value gives the value back.
pub proof fn lemma_dec_str_val(n: nat)
    ensures
        dec_val(dec_str(n)) == n,
    decreases n,
{
    if n < 10 {
        let s = dec_str(n);
        assert(s.drop_last() =~= Seq::<char>::empty());
        assert(dec_val(Seq::<char>::empty()) == 0);
        assert(s.last() == digit_char(n));
        assert(dec_val(s) == digit_val(digit_char(n)));
        assert(digit_val(digit_char(n)) == n);
    } else {
        lemma_dec_str_val(n / 10);
        let s = dec_str(n);
        let hi = dec_str(n / 10);
        assert(s.drop_last() =~= hi);
        assert(s.last() == digit_char(n % 10));
        assert(digit_val(digit_char(n % 10)) == n % 10);
        assert(n / 10 * 10 + n % 10 == n);
    }
}

/// Parse a canonical decimal rendering of a value that fits in `u32`.
///
/// Returns `Some(v)` exactly when `s` is non-empty, all digits, free of a
/// superfluous leading zero, and of value at most `u32::MAX`.
pub fn parse_u32_dec(s: &str) -> (r: Option<u32>)
    ensures
        match r {
            Some(v) => is_canonical_digits(s@) && dec_val(s@) == v as nat,
            None => !(is_canonical_digits(s@) && dec_val(s@) <= u32::MAX),
        },
{
    let n: usize = s.unicode_len();
    if n == 0 {
        return None;
    }
    let first: char = s.get_char(0);
    if n > 1 && first == '0' {
        return None;
    }
    let mut acc: u64 = 0;
    let mut i: usize = 0;
    while i < n
        invariant
            i <= n,
            n == s@.len(),
            n > 0,
            n > 1 ==> s@[0] != '0',
            forall|j: int| 0 <= j < i ==> is_digit(s@[j]),
            acc as nat == dec_val(s@.subrange(0, i as int)),
            acc <= u32::MAX,
        decreases n - i,
    {
        let c: char = s.get_char(i);
        if c < '0' || c > '9' {
            return None;
        }
        let d: u32 = (c as u32) - ('0' as u32);
        let next: u64 = acc * 10 + (d as u64);
        if next > u32::MAX as u64 {
            proof {
                if forall|j: int| 0 <= j < s@.len() ==> is_digit(s@[j]) {
                    lemma_dec_val_prefix_exceeds(s@, i as int);
                }
            }
            return None;
        }
        proof {
            assert(s@.subrange(0, i + 1).drop_last() =~= s@.subrange(0, i as int));
        }
        acc = next;
        i = i + 1;
    }
    proof {
        assert(s@.subrange(0, n as int) =~= s@);
    }
    Some(acc as u32)
}

/// If a prefix of a digit sequence already exceeds `u32::MAX`, the whole
/// sequence does.
proof fn lemma_dec_val_prefix_exceeds(s: Seq<char>, i: int)
    requires
        0 <= i < s.len(),
        dec_val(s.subrange(0, i)) * 10 + digit_val(s[i]) > u32::MAX,
        forall|j: int| i <= j < s.len() ==> is_digit(s[j]),
    ensures
        dec_val(s) > u32::MAX,
    decreases s.len() - i,
{
    if i == s.len() - 1 {
        assert(s.subrange(0, s.len() as int) =~= s);
        assert(s.drop_last() =~= s.subrange(0, i));
    } else {
        let t = s.subrange(0, i + 1);
        assert(t.drop_last() =~= s.subrange(0, i));
        assert(t.last() == s[i]);
        assert(dec_val(t) > u32::MAX);
        assert(dec_val(t) * 10 + digit_val(s[i + 1]) > u32::MAX) by (nonlinear_arith)
            requires
                dec_val(t) > u32::MAX,
        ;
        lemma_dec_val_prefix_exceeds(s, i + 1);
    }
}

} // verus!
