//! Natural numbers of any size, held as base 2^32 digits.

use num_bigint::BigUint;
use num_traits::ToPrimitive;
use vstd::prelude::*;

verus! {

/// 2^32 to the power `n`.
pub open spec fn pow_base(n: nat) -> nat
    decreases n,
{
    if n == 0 {
        1
    } else {
        0x1_0000_0000 * pow_base((n - 1) as nat)
    }
}

/// The digits in the opposite order.
pub open spec fn reversed(digits: Seq<u32>) -> Seq<u32> {
    Seq::new(digits.len(), |i: int| digits[digits.len() - 1 - i])
}

/// The number that base 2^32 digits denote, least significant digit first.
pub open spec fn digits_value(digits: Seq<u32>) -> nat
    decreases digits.len(),
{
    if digits.len() == 0 {
        0
    } else {
        digits[0] as nat + 0x1_0000_0000 * digits_value(digits.drop_first())
    }
}

/// The character of the decimal digit `digit`.
pub open spec fn digit_char(digit: nat) -> char {
    ((48 + digit) as u8) as char
}

/// The decimal numeral of a number: its digits from the most significant
/// down, without leading zeros, and "0" for zero.
pub open spec fn decimal_numeral(number: nat) -> Seq<char>
    decreases number,
{
    if number < 10 {
        seq![digit_char(number)]
    } else {
        decimal_numeral(number / 10).push(digit_char(number % 10))
    }
}

/// Calls `num_bigint::BigUint::from_slice`, which reads base 2^32 digits
/// least significant first, and then `num_traits::ToPrimitive::to_u64` on
/// the number. Trusted: `to_u64` hands out the number where a `u64` can hold
/// it and `None` where it cannot.
#[verifier::external_body]
fn digits_to_u64(digits: &[u32]) -> (converted: Option<u64>)
    ensures
        converted == if digits_value(digits@) <= u64::MAX {
            Some(digits_value(digits@) as u64)
        } else {
            None
        },
{
    BigUint::from_slice(digits).to_u64()
}

/// Calls `num_bigint::BigUint::from_slice`, which reads base 2^32 digits
/// least significant first, and then `to_string` on the number. Trusted:
/// `BigUint` displays itself as its decimal numeral.
#[verifier::external_body]
fn digits_to_decimal(digits: &[u32]) -> (text: String)
    ensures
        text@ == decimal_numeral(digits_value(digits@)),
{
    BigUint::from_slice(digits).to_string()
}

/// A natural number. It holds the number of its digits and then the digits
/// from the most significant down, the first of them not zero. So equal
/// numbers are equal values, and comparing the fields in turn, as the derived
/// order does, compares the numbers.
#[derive(Debug, PartialEq, Eq, Hash, PartialOrd, Ord)]
pub struct BigNat {
    len: usize,
    digits: Vec<u32>,
}

impl Clone for BigNat {
    fn clone(&self) -> (copy: BigNat)
        ensures
            copy.digits() == self.digits(),
    {
        proof {
            use_type_invariant(self);
        }
        BigNat::from_digits(self.to_digits())
    }
}

/// Whether `a` comes before `b` or equals it where digit strings of one
/// length are compared digit by digit from the front.
pub open spec fn digits_le(a: Seq<u32>, b: Seq<u32>) -> bool
    decreases a.len(),
{
    if a.len() == 0 || b.len() == 0 {
        true
    } else if a[0] != b[0] {
        a[0] < b[0]
    } else {
        digits_le(a.drop_first(), b.drop_first())
    }
}

impl BigNat {
    /// Whether the fields agree and no leading digit is zero.
    #[verifier::type_invariant]
    pub closed spec fn well_formed(self) -> bool {
        &&& self.len == self.digits@.len()
        &&& self.digits@.len() > 0 ==> self.digits@[0] != 0
    }

    /// The digits, least significant first.
    pub closed spec fn digits(&self) -> Seq<u32> {
        reversed(self.digits@)
    }

    /// The number itself.
    pub open spec fn value(&self) -> nat {
        digits_value(self.digits())
    }

    /// Whether `self` comes before `other` or equals it where the fields are
    /// compared in turn: first the number of digits, then the digits from
    /// the most significant down.
    pub closed spec fn fields_le(&self, other: &BigNat) -> bool {
        self.len < other.len || (self.len == other.len && digits_le(self.digits@, other.digits@))
    }

    /// The number that `digits` denote, least significant digit first.
    /// Zeros at the significant end are dropped.
    pub fn from_digits(digits: Vec<u32>) -> (number: BigNat)
        ensures
            number.well_formed(),
            number.value() == digits_value(digits@),
            number.digits().len() <= digits@.len(),
            number.digits() == digits@.subrange(0, number.digits().len() as int),
            number.digits().len() > 0 ==> number.digits().last() != 0,
            digits@.len() == 0 || digits@.last() != 0 ==> number.digits() == digits@,
    {
        let mut digits = digits;
        let ghost given = digits@;
        assert(given.subrange(0, given.len() as int) =~= given);
        while digits.len() > 0 && digits[digits.len() - 1] == 0
            invariant
                digits@.len() <= given.len(),
                digits@ == given.subrange(0, digits@.len() as int),
                digits_value(digits@) == digits_value(given),
                given.len() == 0 || given.last() != 0 ==> digits@ == given,
            decreases digits.len(),
        {
            proof {
                lemma_drop_zero_digit(digits@);
            }
            digits.pop();
            assert(digits@ =~= given.subrange(0, digits@.len() as int));
        }
        let n = digits.len();
        let mut stored: Vec<u32> = Vec::new();
        let mut i: usize = n;
        while i > 0
            invariant
                i <= n,
                n == digits@.len(),
                stored@.len() == n - i,
                forall|k: int| 0 <= k < stored@.len() ==> stored@[k] == digits@[n - 1 - k],
            decreases i,
        {
            i -= 1;
            stored.push(digits[i]);
        }
        let number = BigNat { len: n, digits: stored };
        assert(number.digits() =~= digits@);
        number
    }

    /// The number `value`.
    pub fn from_u64(value: u64) -> (number: BigNat)
        ensures
            number.well_formed(),
            number.value() == value,
    {
        let low: u32 = (value % 0x1_0000_0000) as u32;
        let high: u32 = (value / 0x1_0000_0000) as u32;
        let mut digits: Vec<u32> = Vec::new();
        digits.push(low);
        digits.push(high);
        proof {
            reveal_with_fuel(digits_value, 3);
            assert(digits@.drop_first() =~= seq![high]);
            assert(digits@.drop_first().drop_first() =~= Seq::<u32>::empty());
        }
        BigNat::from_digits(digits)
    }

    /// A copy of the digits, least significant first.
    pub fn to_digits(&self) -> (digits: Vec<u32>)
        ensures
            digits@ == self.digits(),
            digits@.len() == 0 || digits@.last() != 0,
    {
        proof {
            use_type_invariant(self);
        }
        let n = self.digits.len();
        let mut digits: Vec<u32> = Vec::new();
        let mut i: usize = 0;
        while i < n
            invariant
                i <= n,
                n == self.digits@.len(),
                digits@.len() == i,
                forall|k: int| 0 <= k < i ==> digits@[k] == self.digits@[n - 1 - k],
            decreases n - i,
        {
            digits.push(self.digits[n - 1 - i]);
            i += 1;
        }
        assert(digits@ =~= self.digits());
        digits
    }

    /// The number as a `u64`, where it fits in one.
    pub fn to_u64(&self) -> (converted: Option<u64>)
        ensures
            converted == if self.value() <= u64::MAX {
                Some(self.value() as u64)
            } else {
                None
            },
    {
        let digits = self.to_digits();
        digits_to_u64(digits.as_slice())
    }

    /// The decimal numeral of the number.
    pub fn to_decimal(&self) -> (text: String)
        ensures
            text@ == decimal_numeral(self.value()),
    {
        let digits = self.to_digits();
        digits_to_decimal(digits.as_slice())
    }
}

/// The most significant digit counts at the weight of the digits below it.
pub proof fn lemma_digits_value_top(digits: Seq<u32>)
    requires
        digits.len() > 0,
    ensures
        digits_value(digits) == digits_value(digits.drop_last()) + digits.last() * pow_base(
            (digits.len() - 1) as nat,
        ),
    decreases digits.len(),
{
    let rest = digits.drop_first();
    if rest.len() == 0 {
        assert(digits.drop_last() =~= Seq::<u32>::empty());
        assert(digits_value(rest) == 0);
        assert(digits_value(digits.drop_last()) == 0);
        assert(digits_value(digits) == digits[0] as nat);
        assert(digits.last() * pow_base(0) == digits.last()) by (nonlinear_arith)
            requires
                pow_base(0) == 1,
        ;
    } else {
        lemma_digits_value_top(rest);
        let below = digits.drop_last();
        let weight = pow_base((rest.len() - 1) as nat);
        assert(below.drop_first() =~= rest.drop_last());
        assert(below[0] == digits[0]);
        assert(rest.last() == digits.last());
        assert(pow_base(rest.len()) == 0x1_0000_0000 * weight);
        assert(digits_value(digits) == digits[0] as nat + 0x1_0000_0000 * digits_value(rest));
        assert(digits_value(below) == below[0] as nat + 0x1_0000_0000 * digits_value(
            below.drop_first(),
        ));
        assert(0x1_0000_0000 * (digits_value(rest.drop_last()) + rest.last() * weight)
            == 0x1_0000_0000 * digits_value(rest.drop_last()) + rest.last() * (0x1_0000_0000
            * weight)) by (nonlinear_arith);
    }
}

/// Digits denote a number below 2^32 to the power of their count.
pub proof fn lemma_digits_value_bound(digits: Seq<u32>)
    ensures
        digits_value(digits) < pow_base(digits.len()),
    decreases digits.len(),
{
    if digits.len() > 0 {
        lemma_digits_value_bound(digits.drop_first());
    }
}

/// Where the fields of two numbers are compared in turn, as a derived order
/// compares them, the numbers are compared.
pub proof fn lemma_fields_order_is_numeric(a: BigNat, b: BigNat)
    requires
        a.well_formed(),
        b.well_formed(),
    ensures
        a.fields_le(&b) <==> a.value() <= b.value(),
{
    let x = a.digits();
    let y = b.digits();
    lemma_digits_value_bound(x);
    lemma_digits_value_bound(y);
    if x.len() == y.len() {
        lemma_same_length_order(a.digits@, b.digits@);
    } else if x.len() < y.len() {
        lemma_digits_value_top(y);
        lemma_pow_base_monotonic(x.len(), (y.len() - 1) as nat);
        assert(y.last() * pow_base((y.len() - 1) as nat) >= pow_base((y.len() - 1) as nat))
            by (nonlinear_arith)
            requires
                y.last() >= 1,
        ;
    } else {
        lemma_digits_value_top(x);
        lemma_pow_base_monotonic(y.len(), (x.len() - 1) as nat);
        assert(x.last() * pow_base((x.len() - 1) as nat) >= pow_base((x.len() - 1) as nat))
            by (nonlinear_arith)
            requires
                x.last() >= 1,
        ;
    }
}

/// A larger exponent gives a larger power.
pub proof fn lemma_pow_base_monotonic(a: nat, b: nat)
    requires
        a <= b,
    ensures
        pow_base(a) <= pow_base(b),
    decreases b,
{
    if a < b {
        lemma_pow_base_monotonic(a, (b - 1) as nat);
    }
}

/// Digit strings of one length, most significant digit first, compare digit
/// by digit as the numbers that they denote compare.
pub proof fn lemma_same_length_order(x: Seq<u32>, y: Seq<u32>)
    requires
        x.len() == y.len(),
    ensures
        digits_le(x, y) <==> digits_value(reversed(x)) <= digits_value(reversed(y)),
    decreases x.len(),
{
    if x.len() > 0 {
        let p = reversed(x);
        let q = reversed(y);
        let weight = pow_base((x.len() - 1) as nat);
        lemma_digits_value_top(p);
        lemma_digits_value_top(q);
        assert(p.drop_last() =~= reversed(x.drop_first()));
        assert(q.drop_last() =~= reversed(y.drop_first()));
        lemma_digits_value_bound(p.drop_last());
        lemma_digits_value_bound(q.drop_last());
        assert(p.last() == x[0] && q.last() == y[0]);
        if x[0] == y[0] {
            lemma_same_length_order(x.drop_first(), y.drop_first());
        } else if x[0] < y[0] {
            assert(x[0] * weight + weight <= y[0] * weight) by (nonlinear_arith)
                requires
                    x[0] < y[0],
            ;
        } else {
            assert(y[0] * weight + weight <= x[0] * weight) by (nonlinear_arith)
                requires
                    y[0] < x[0],
            ;
        }
    } else {
        assert(reversed(x) =~= reversed(y));
    }
}

/// A zero at the significant end adds nothing to the number.
pub proof fn lemma_drop_zero_digit(digits: Seq<u32>)
    requires
        digits.len() > 0,
        digits.last() == 0,
    ensures
        digits_value(digits.drop_last()) == digits_value(digits),
    decreases digits.len(),
{
    if digits.len() == 1 {
        assert(digits.drop_first() =~= Seq::<u32>::empty());
        assert(digits.drop_last() =~= Seq::<u32>::empty());
        assert(digits_value(digits.drop_first()) == 0);
    } else {
        lemma_drop_zero_digit(digits.drop_first());
        assert(digits.drop_last().drop_first() =~= digits.drop_first().drop_last());
    }
}

} // verus!
