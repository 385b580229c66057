//! Fixed-point money amounts and their display form.
//!
//! An amount is a signed count of 10^-8 dollars. Display rounds to whole
//! cents (half away from zero), groups the dollars by thousands with commas,
//! and always shows two decimals: `1,234.56`, `-42.50`, `0.00`.

use vstd::prelude::*;
use crate::text::{decimal_digits, digit_char, zero_padded, push_decimal, push_zero_padded, string_from_chars};

verus! {

/// Internal units in one dollar.
pub const UNITS_PER_DOLLAR: i64 = 100_000_000;

/// Internal units in one cent.
pub const UNITS_PER_CENT: i64 = 1_000_000;

/// A money amount in units of 10^-8 dollars. Debits are positive in raw balances.
#[derive(Clone, Copy, Debug, PartialEq, Eq, Structural)]
pub struct Money(pub i64);

/// The absolute value of an integer.
pub open spec fn abs_int(v: int) -> int {
    if v < 0 { -v } else { v }
}

/// The magnitude of `v` (internal units) rounded to whole cents, half away from zero.
pub open spec fn rounded_cents(v: int) -> nat {
    ((abs_int(v) + 500_000) / 1_000_000) as nat
}

/// Digits grouped by thousands from the right with commas: `1234567` → `1,234,567`.
pub open spec fn group_thousands(s: Seq<char>) -> Seq<char>
    decreases s.len(),
{
    if s.len() <= 3 {
        s
    } else {
        group_thousands(s.take(s.len() - 3)) + seq![','] + s.skip(s.len() - 3)
    }
}

/// The display text of an amount of `v` internal units.
pub open spec fn money_text(v: int) -> Seq<char> {
    let c = rounded_cents(v);
    let sign = if v < 0 && c > 0 { seq!['-'] } else { Seq::<char>::empty() };
    sign + group_thousands(decimal_digits(c / 100)) + seq!['.'] + zero_padded(c % 100, 2)
}

/// The sum of two amounts fits in an `i64`.
pub open spec fn sum_fits(a: int, b: int) -> bool {
    i64::MIN <= a + b <= i64::MAX
}

impl Money {
    /// The display text of the amount: two decimals, thousands separators, leading
    /// minus sign for a negative amount that rounds to a nonzero number of cents.
    pub fn to_string(&self) -> (s: String)
        ensures
            s@ == money_text(self.0 as int),
    {
        let v = self.0;
        let a: i128 = if v < 0 { 0i128 - (v as i128) } else { v as i128 };
        assert(a == abs_int(v as int));
        let c128: i128 = (a + 500_000) / 1_000_000;
        assert(0 <= c128 <= u64::MAX);
        let cents: u64 = c128 as u64;
        assert(cents == rounded_cents(v as int));
        let mut out: Vec<char> = Vec::new();
        if v < 0 && cents > 0 {
            out.push('-');
        }
        let ghost prefix = out@;
        let mut digits: Vec<char> = Vec::new();
        push_decimal(&mut digits, cents / 100);
        assert(digits@ =~= decimal_digits((cents / 100) as nat));
        push_grouped(&mut out, &digits, digits.len());
        assert(digits@.take(digits@.len() as int) =~= digits@);
        out.push('.');
        push_zero_padded(&mut out, cents % 100, 2);
        assert(out@ =~= money_text(v as int));
        string_from_chars(&out)
    }

    /// The zero amount.
    pub fn zero() -> (m: Money)
        ensures
            m.0 == 0,
    {
        Money(0)
    }

    /// True when the amount is exactly zero.
    pub fn is_zero(&self) -> (b: bool)
        ensures
            b == (self.0 == 0),
    {
        self.0 == 0
    }

    /// The sum of two amounts.
    pub fn plus(self, other: Money) -> (m: Money)
        requires
            sum_fits(self.0 as int, other.0 as int),
        ensures
            m.0 == self.0 + other.0,
    {
        Money(self.0 + other.0)
    }

    /// The difference of two amounts.
    pub fn minus(self, other: Money) -> (m: Money)
        requires
            i64::MIN <= self.0 - other.0 <= i64::MAX,
        ensures
            m.0 == self.0 - other.0,
    {
        Money(self.0 - other.0)
    }

    /// The amount with its sign flipped.
    pub fn negated(self) -> (m: Money)
        requires
            self.0 != i64::MIN,
        ensures
            m.0 == -self.0,
    {
        Money(-self.0)
    }

    /// The absolute value of the amount.
    pub fn abs(self) -> (m: Money)
        requires
            self.0 != i64::MIN,
        ensures
            m.0 == abs_int(self.0 as int),
    {
        if self.0 < 0 { Money(-self.0) } else { self }
    }
}

/// Appends `s[lo..hi]` to `out`.
fn push_range(out: &mut Vec<char>, s: &Vec<char>, lo: usize, hi: usize)
    requires
        lo <= hi <= s@.len(),
    ensures
        final(out)@ == old(out)@ + s@.subrange(lo as int, hi as int),
{
    let mut i = lo;
    while i < hi
        invariant
            lo <= i <= hi,
            hi <= s@.len(),
            out@ == old(out)@ + s@.subrange(lo as int, i as int),
        decreases hi - i,
    {
        out.push(s[i]);
        i = i + 1;
        assert(out@ =~= old(out)@ + s@.subrange(lo as int, i as int));
    }
}

/// Appends the first `k` characters of `s`, grouped by thousands.
fn push_grouped(out: &mut Vec<char>, s: &Vec<char>, k: usize)
    requires
        k <= s@.len(),
    ensures
        final(out)@ == old(out)@ + group_thousands(s@.take(k as int)),
    decreases k,
{
    if k <= 3 {
        push_range(out, s, 0, k);
        assert(s@.subrange(0, k as int) =~= s@.take(k as int));
    } else {
        push_grouped(out, s, k - 3);
        out.push(',');
        push_range(out, s, k - 3, k);
        let ghost t = s@.take(k as int);
        assert(t.take(t.len() - 3) =~= s@.take(k - 3));
        assert(t.skip(t.len() - 3) =~= s@.subrange(k - 3, k as int));
        assert(out@ =~= old(out)@ + group_thousands(t));
    }
}

/// Powers of ten.
pub open spec fn pow10(k: nat) -> nat
    decreases k,
{
    if k == 0 { 1 } else { 10 * pow10((k - 1) as nat) }
}

/// A number below `10^k` has at most `k` decimal digits.
pub proof fn lemma_decimal_len_bound(n: nat, k: nat)
    requires
        k >= 1,
        n < pow10(k),
    ensures
        decimal_digits(n).len() <= k,
    decreases k,
{
    if n >= 10 {
        assert(k >= 2) by {
            if k == 1 {
                assert(pow10(1) == 10) by {
                    assert(pow10(0) == 1);
                }
            }
        }
        assert(n / 10 < pow10((k - 1) as nat)) by {
            assert(pow10(k) == 10 * pow10((k - 1) as nat));
        }
        lemma_decimal_len_bound(n / 10, (k - 1) as nat);
    }
}

/// Grouping by thousands at most doubles the length.
pub proof fn lemma_group_len(s: Seq<char>)
    ensures
        group_thousands(s).len() <= 2 * s.len(),
    decreases s.len(),
{
    if s.len() > 3 {
        lemma_group_len(s.take(s.len() - 3));
    }
}

/// The display text of any `i64` amount is short.
pub proof fn lemma_money_text_len(v: i64)
    ensures
        money_text(v as int).len() <= 40,
{
    let c = rounded_cents(v as int);
    assert(c < 10_000_000_000_000);
    reveal_with_fuel(pow10, 14);
    assert(pow10(13) == 10_000_000_000_000);
    assert(pow10(2) == 100);
    lemma_decimal_len_bound(c / 100, 13);
    lemma_group_len(decimal_digits(c / 100));
    lemma_decimal_len_bound(c % 100, 2);
}

} // verus!
