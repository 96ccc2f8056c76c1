//! Decimal text of the signed integers that the session store keeps, such as
//! the expiry instant of a pending registration.
use vstd::prelude::*;

use crate::text::chars_of;

verus! {

pub open spec fn is_digit(c: char) -> bool {
    '0' <= c <= '9'
}

pub open spec fn digit_value(c: char) -> int {
    c as int - '0' as int
}

pub open spec fn digit_char(d: int) -> char {
    (d + '0' as int) as char
}

pub open spec fn all_digits(s: Seq<char>) -> bool {
    forall|i: int| 0 <= i < s.len() ==> is_digit(#[trigger] s[i])
}

/// The number that a run of decimal digits spells, most significant first.
pub open spec fn digits_value(s: Seq<char>) -> int
    decreases s.len(),
{
    if s.len() == 0 {
        0
    } else {
        10 * digits_value(s.drop_last()) + digit_value(s.last())
    }
}

/// The shortest decimal digits of `n`.
pub open spec fn decimal_digits(n: nat) -> Seq<char>
    decreases n,
{
    if n < 10 {
        seq![digit_char(n as int)]
    } else {
        decimal_digits(n / 10).push(digit_char((n % 10) as int))
    }
}

/// The decimal text of `n`: a minus sign for a negative number, then its digits.
pub open spec fn decimal_text(n: int) -> Seq<char> {
    if n < 0 {
        seq!['-'] + decimal_digits((-n) as nat)
    } else {
        decimal_digits(n as nat)
    }
}

/// The `i64` that `s` spells: an optional minus sign and at least one decimal
/// digit, nothing else, with a value in range.
pub open spec fn parse_decimal(s: Seq<char>) -> Option<int> {
    if s.len() > 0 && s[0] == '-' {
        let d = s.drop_first();
        if d.len() > 0 && all_digits(d) && -digits_value(d) >= i64::MIN {
            Some(-digits_value(d))
        } else {
            None
        }
    } else if s.len() > 0 && all_digits(s) && digits_value(s) <= i64::MAX {
        Some(digits_value(s))
    } else {
        None
    }
}

proof fn lemma_digits_value_nonneg(s: Seq<char>)
    requires
        all_digits(s),
    ensures
        digits_value(s) >= 0,
    decreases s.len(),
{
    if s.len() > 0 {
        lemma_digits_value_nonneg(s.drop_last());
    }
}

/// A prefix of a run of digits spells no more than the whole run.
proof fn lemma_digits_value_prefix(s: Seq<char>, i: int)
    requires
        all_digits(s),
        0 <= i <= s.len(),
    ensures
        digits_value(s.take(i)) <= digits_value(s),
    decreases s.len(),
{
    if i < s.len() {
        let p = s.drop_last();
        assert(p.take(i) =~= s.take(i));
        lemma_digits_value_prefix(p, i);
        lemma_digits_value_nonneg(p);
    } else {
        assert(s.take(i) =~= s);
    }
}

/// One more digit on the right of a run.
proof fn lemma_digits_step(cs: Seq<char>, start: int, i: int)
    requires
        0 <= start <= i < cs.len(),
        all_digits(cs.subrange(start, i)),
    ensures
        digits_value(cs.subrange(start, i + 1)) == 10 * digits_value(cs.subrange(start, i))
            + digit_value(cs[i]),
        all_digits(cs.subrange(start, i + 1)) <==> is_digit(cs[i]),
{
    let p = cs.subrange(start, i);
    let q = cs.subrange(start, i + 1);
    assert(q.drop_last() =~= p);
    if is_digit(cs[i]) {
        assert forall|k: int| 0 <= k < q.len() implies is_digit(#[trigger] q[k]) by {
            if k < p.len() {
                assert(q[k] == p[k]);
            }
        }
    } else {
        assert(q[i - start] == cs[i]);
    }
}

proof fn lemma_decimal_digits(n: nat)
    ensures
        decimal_digits(n).len() > 0,
        all_digits(decimal_digits(n)),
        digits_value(decimal_digits(n)) == n,
    decreases n,
{
    let r = (n % 10) as int;
    assert(digit_value(digit_char(r)) == r);
    assert(is_digit(digit_char(r)));
    let d = decimal_digits(n);
    if n >= 10 {
        lemma_decimal_digits(n / 10);
        assert(d.drop_last() =~= decimal_digits(n / 10));
        assert(d.last() == digit_char(r));
        assert(n == 10 * (n / 10) + r);
        assert forall|i: int| 0 <= i < d.len() implies is_digit(#[trigger] d[i]) by {
            if i < d.len() - 1 {
                assert(d[i] == decimal_digits(n / 10)[i]);
            }
        }
    } else {
        assert(d.drop_last() =~= Seq::<char>::empty());
        assert(d.last() == digit_char(n as int));
        assert(digits_value(d) == 10 * digits_value(d.drop_last()) + digit_value(d.last()));
    }
}

/// Reading back the decimal text of an `i64` gives that number.
pub proof fn lemma_parse_decimal_text(n: i64)
    ensures
        parse_decimal(decimal_text(n as int)) == Some(n as int),
{
    if n < 0 {
        let m = (-(n as int)) as nat;
        lemma_decimal_digits(m);
        let t = decimal_text(n as int);
        assert(t.drop_first() =~= decimal_digits(m));
    } else {
        lemma_decimal_digits(n as nat);
        let t = decimal_digits(n as nat);
        assert(!is_digit('-'));
        assert(t[0] != '-');
    }
}

/// Reads the `i64` that `s` spells in decimal.
pub fn parse_i64(s: &str) -> (r: Option<i64>)
    ensures
        r is Some <==> parse_decimal(s@) is Some,
        r is Some ==> parse_decimal(s@) == Some(r->0 as int),
{
    let cs = chars_of(s);
    let n = cs.len();
    if n == 0 {
        return None;
    }
    let neg = cs[0] == '-';
    let start: usize = if neg { 1 } else { 0 };
    if start >= n {
        return None;
    }
    let limit: u128 = if neg { 0x8000_0000_0000_0000 } else { 0x7fff_ffff_ffff_ffff };
    let ghost d = cs@.subrange(start as int, n as int);
    assert(neg ==> s@.drop_first() =~= d);
    assert(!neg ==> s@ =~= d && s@[0] != '-');
    let mut acc: u128 = 0;
    let mut i: usize = start;
    while i < n
        invariant
            n == cs.len(),
            cs@ == s@,
            start <= i <= n,
            d == cs@.subrange(start as int, n as int),
            neg ==> s@.len() > 0 && s@[0] == '-' && s@.drop_first() == d,
            !neg ==> s@ == d && s@[0] != '-',
            d.len() > 0,
            all_digits(cs@.subrange(start as int, i as int)),
            acc as int == digits_value(cs@.subrange(start as int, i as int)),
            acc <= limit,
            limit == if neg { 0x8000_0000_0000_0000u128 } else { 0x7fff_ffff_ffff_ffffu128 },
        decreases n - i,
    {
        let c = cs[i];
        let ghost q = cs@.subrange(start as int, i as int + 1);
        proof {
            lemma_digits_step(cs@, start as int, i as int);
        }
        if !('0' <= c && c <= '9') {
            assert(!all_digits(d)) by {
                assert(d[i - start] == c);
            }
            return None;
        }
        let next: u128 = acc * 10 + (c as u128 - '0' as u128);
        if next > limit {
            proof {
                if all_digits(d) {
                    assert(d.take(i - start + 1) =~= q);
                    lemma_digits_value_prefix(d, i - start + 1);
                }
            }
            return None;
        }
        acc = next;
        i = i + 1;
    }
    assert(cs@.subrange(start as int, n as int) =~= d);
    if neg {
        if acc == 0x8000_0000_0000_0000u128 {
            Some(i64::MIN)
        } else {
            Some(-(acc as i64))
        }
    } else {
        Some(acc as i64)
    }
}

/// The text of one decimal digit.
fn digit_text(d: u64) -> (r: &'static str)
    requires
        d < 10,
    ensures
        r@ == seq![digit_char(d as int)],
{
    proof {
        reveal_strlit("0");
        reveal_strlit("1");
        reveal_strlit("2");
        reveal_strlit("3");
        reveal_strlit("4");
        reveal_strlit("5");
        reveal_strlit("6");
        reveal_strlit("7");
        reveal_strlit("8");
        reveal_strlit("9");
    }
    let r = match d {
        0 => "0",
        1 => "1",
        2 => "2",
        3 => "3",
        4 => "4",
        5 => "5",
        6 => "6",
        7 => "7",
        8 => "8",
        _ => "9",
    };
    assert(r@ =~= seq![digit_char(d as int)]);
    r
}

/// Appends the decimal digits of `m` to `out`.
fn push_digits(out: &mut String, m: u64)
    ensures
        final(out)@ == old(out)@ + decimal_digits(m as nat),
    decreases m,
{
    if m >= 10 {
        push_digits(out, m / 10);
    }
    out.append(digit_text(m % 10));
    assert(old(out)@ + decimal_digits(m as nat) =~= if m >= 10 {
        old(out)@ + decimal_digits((m / 10) as nat) + seq![digit_char((m % 10) as int)]
    } else {
        old(out)@ + seq![digit_char((m % 10) as int)]
    });
}

/// The decimal text of `n`.
pub fn i64_to_text(n: i64) -> (r: String)
    ensures
        r@ == decimal_text(n as int),
{
    let mut out = String::new();
    if n < 0 {
        proof {
            reveal_strlit("-");
        }
        out.append("-");
        let m: u64 = if n == i64::MIN { 0x8000_0000_0000_0000u64 } else { (-n) as u64 };
        push_digits(&mut out, m);
        assert(out@ =~= decimal_text(n as int));
    } else {
        push_digits(&mut out, n as u64);
        assert(out@ =~= decimal_text(n as int));
    }
    out
}

} // verus!
