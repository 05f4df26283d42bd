//! Decimal text of integers, as Rust's `Display` and `{:0N}` write them.

use vstd::prelude::*;

verus! {

/// The ASCII character of a decimal digit.
pub open spec fn digit_char(d: int) -> char {
    if d == 0 { '0' }
    else if d == 1 { '1' }
    else if d == 2 { '2' }
    else if d == 3 { '3' }
    else if d == 4 { '4' }
    else if d == 5 { '5' }
    else if d == 6 { '6' }
    else if d == 7 { '7' }
    else if d == 8 { '8' }
    else { '9' }
}

/// Decimal digits of a natural number, most significant first, without leading zeros.
pub open spec fn nat_text(n: nat) -> Seq<char>
    decreases n,
{
    if n < 10 {
        seq![digit_char(n as int)]
    } else {
        nat_text(n / 10).push(digit_char((n % 10) as int))
    }
}

/// Decimal text of an integer, with a leading `-` when negative (Rust's `Display`).
pub open spec fn int_text(n: int) -> Seq<char> {
    if n < 0 {
        seq!['-'] + nat_text((-n) as nat)
    } else {
        nat_text(n as nat)
    }
}

/// `k` zero characters (none when `k <= 0`).
pub open spec fn zeros(k: int) -> Seq<char> {
    Seq::new(if k > 0 { k as nat } else { 0nat }, |i: int| '0')
}

/// Rust's `{:0width$}` of an integer: the sign first, then zeros up to `width`
/// characters in all, then the digits; never truncated.
pub open spec fn zero_padded(n: int, width: int) -> Seq<char> {
    if n < 0 {
        let d = nat_text((-n) as nat);
        seq!['-'] + zeros(width - 1 - d.len()) + d
    } else {
        let d = nat_text(n as nat);
        zeros(width - d.len()) + d
    }
}

/// Appends one decimal digit.
fn push_digit(s: &mut String, d: u64)
    requires
        d < 10,
    ensures
        final(s)@ == old(s)@.push(digit_char(d as int)),
{
    let lit: &str = if d == 0 {
        proof { reveal_strlit("0"); }
        "0"
    } else if d == 1 {
        proof { reveal_strlit("1"); }
        "1"
    } else if d == 2 {
        proof { reveal_strlit("2"); }
        "2"
    } else if d == 3 {
        proof { reveal_strlit("3"); }
        "3"
    } else if d == 4 {
        proof { reveal_strlit("4"); }
        "4"
    } else if d == 5 {
        proof { reveal_strlit("5"); }
        "5"
    } else if d == 6 {
        proof { reveal_strlit("6"); }
        "6"
    } else if d == 7 {
        proof { reveal_strlit("7"); }
        "7"
    } else if d == 8 {
        proof { reveal_strlit("8"); }
        "8"
    } else {
        proof { reveal_strlit("9"); }
        "9"
    };
    assert(lit@ =~= seq![digit_char(d as int)]);
    s.append(lit);
}

/// Appends the decimal digits of `n`.
fn push_nat(s: &mut String, n: u64)
    ensures
        final(s)@ == old(s)@ + nat_text(n as nat),
    decreases n,
{
    if n >= 10 {
        push_nat(s, n / 10);
    }
    let ghost mid = s@;
    push_digit(s, n % 10);
    if n >= 10 {
        assert(mid == old(s)@ + nat_text((n / 10) as nat));
        assert(s@ =~= old(s)@ + nat_text(n as nat));
    } else {
        assert(mid == old(s)@);
        assert(s@ =~= old(s)@ + nat_text(n as nat));
    }
}

/// Ten to the power `k`.
pub open spec fn pow10(k: nat) -> nat
    decreases k,
{
    if k == 0 { 1 } else { 10 * pow10((k - 1) as nat) }
}

/// A number below `10^k` has at most `k` digits.
pub proof fn lemma_nat_text_len(n: nat, k: nat)
    requires
        1 <= k,
        n < pow10(k),
    ensures
        1 <= nat_text(n).len() <= k,
    decreases n,
{
    if n >= 10 {
        assert(k >= 2) by {
            if k == 1 {
                assert(pow10(1) == 10) by { reveal_with_fuel(pow10, 2); }
            }
        }
        lemma_nat_text_len(n / 10, (k - 1) as nat);
    }
}

/// Number of decimal digits of `n`.
fn nat_len(n: u64) -> (r: usize)
    ensures
        r == nat_text(n as nat).len(),
        1 <= r <= 20,
    decreases n,
{
    proof {
        assert(pow10(20) == 100000000000000000000nat) by { reveal_with_fuel(pow10, 21); }
        lemma_nat_text_len(n as nat, 20);
    }
    if n >= 10 {
        let k = nat_len(n / 10);
        k + 1
    } else {
        1
    }
}

/// The absolute value of `n`, without overflow at `i64::MIN`.
fn magnitude(n: i64) -> (m: u64)
    ensures
        m as int == (if n < 0 { -n } else { n as int }),
{
    if n >= 0 {
        n as u64
    } else {
        ((-(n + 1)) as u64) + 1
    }
}

/// Appends `k` zero characters.
fn push_zeros(s: &mut String, k: usize)
    ensures
        final(s)@ == old(s)@ + zeros(k as int),
{
    let mut i: usize = 0;
    while i < k
        invariant
            i <= k,
            s@ == old(s)@ + zeros(i as int),
        decreases k - i,
    {
        push_digit(s, 0);
        i = i + 1;
        assert(s@ =~= old(s)@ + zeros(i as int));
    }
}

/// Appends the decimal text of `n`, as `Display` writes it.
pub fn push_int(s: &mut String, n: i64)
    ensures
        final(s)@ == old(s)@ + int_text(n as int),
{
    let m = magnitude(n);
    if n < 0 {
        proof { reveal_strlit("-"); }
        s.append("-");
        push_nat(s, m);
        assert(s@ =~= old(s)@ + int_text(n as int));
    } else {
        push_nat(s, m);
    }
}

/// Appends `n` as `{:0width$}` writes it: sign, zeros up to `width` characters, digits.
pub fn push_zero_padded(s: &mut String, n: i64, width: usize)
    ensures
        final(s)@ == old(s)@ + zero_padded(n as int, width as int),
{
    let m = magnitude(n);
    let len = nat_len(m);
    if n < 0 {
        proof { reveal_strlit("-"); }
        s.append("-");
        let pad: usize = if width > len + 1 { width - 1 - len } else { 0 };
        push_zeros(s, pad);
        push_nat(s, m);
        assert(zeros(pad as int) =~= zeros(width - 1 - len));
        assert(s@ =~= old(s)@ + zero_padded(n as int, width as int));
    } else {
        let pad: usize = if width > len { width - len } else { 0 };
        push_zeros(s, pad);
        push_nat(s, m);
        assert(zeros(pad as int) =~= zeros(width - len));
        assert(s@ =~= old(s)@ + zero_padded(n as int, width as int));
    }
}

/// The decimal text of `n` (what `n.to_string()` gives).
pub fn int_to_string(n: i64) -> (r: String)
    ensures
        r@ == int_text(n as int),
{
    let mut s = String::new();
    push_int(&mut s, n);
    assert(s@ =~= int_text(n as int));
    s
}

/// The value of a decimal digit character.
pub open spec fn digit_value(c: char) -> int {
    if c == '0' { 0 }
    else if c == '1' { 1 }
    else if c == '2' { 2 }
    else if c == '3' { 3 }
    else if c == '4' { 4 }
    else if c == '5' { 5 }
    else if c == '6' { 6 }
    else if c == '7' { 7 }
    else if c == '8' { 8 }
    else { 9 }
}

/// The number that a string of decimal digits reads as.
pub open spec fn digits_value(s: Seq<char>) -> int
    decreases s.len(),
{
    if s.len() == 0 {
        0
    } else {
        digits_value(s.drop_last()) * 10 + digit_value(s.last())
    }
}

/// The digits of `n` read back as `n`.
pub proof fn lemma_nat_text_value(n: nat)
    ensures
        digits_value(nat_text(n)) == n,
    decreases n,
{
    let d = (n % 10) as int;
    assert(digit_value(digit_char(d)) == d);
    if n >= 10 {
        lemma_nat_text_value(n / 10);
        assert(nat_text(n).drop_last() =~= nat_text(n / 10));
        assert(nat_text(n).last() == digit_char(d));
        assert(digits_value(nat_text(n)) == digits_value(nat_text(n / 10)) * 10 + d);
    } else {
        assert(nat_text(n).drop_last() =~= Seq::<char>::empty());
        assert(nat_text(n).last() == digit_char(d));
        assert(digits_value(nat_text(n)) == digits_value(Seq::<char>::empty()) * 10 + d);
    }
}

/// Leading zeros do not change what digits read as.
pub proof fn lemma_leading_zeros_value(k: int, s: Seq<char>)
    ensures
        digits_value(zeros(k) + s) == digits_value(s),
    decreases s.len(), (if k > 0 { k } else { 0 }),
{
    if s.len() == 0 {
        assert(zeros(k) + s =~= zeros(k));
        if k > 0 {
            assert(zeros(k).drop_last() =~= zeros(k - 1));
            lemma_leading_zeros_value(k - 1, s);
            assert(zeros(k - 1) + s =~= zeros(k - 1));
        } else {
            assert(zeros(k) =~= Seq::<char>::empty());
        }
    } else {
        assert((zeros(k) + s).drop_last() =~= zeros(k) + s.drop_last());
        lemma_leading_zeros_value(k, s.drop_last());
    }
}

/// A zero-padded non-negative number reads back as itself.
pub proof fn lemma_zero_padded_value(n: nat, width: int)
    ensures
        digits_value(zero_padded(n as int, width)) == n,
{
    lemma_leading_zeros_value(width - nat_text(n).len(), nat_text(n));
    lemma_nat_text_value(n);
}

} // verus!
