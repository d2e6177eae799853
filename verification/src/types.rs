//! Identifiers and timestamps shared by the models.

use vstd::prelude::*;

verus! {

broadcast use vstd::array::group_array_axioms;

/// A 128-bit identifier, stored as sixteen bytes.
pub type UUID = [u8; 16];

/// Nanoseconds since the epoch.
pub type Timestamp = u64;

/// The number that a byte string denotes when read with the most significant
/// byte first.
pub open spec fn be_value(bytes: Seq<u8>) -> nat
    decreases bytes.len(),
{
    if bytes.len() == 0 {
        0
    } else {
        be_value(bytes.drop_last()) * 256 + bytes.last() as nat
    }
}

/// 256 to the power `n`.
pub open spec fn pow256(n: nat) -> nat
    decreases n,
{
    if n == 0 {
        1
    } else {
        256 * pow256((n - 1) as nat)
    }
}

/// A byte string of length `n` denotes a number below 256 to the `n`.
pub proof fn lemma_be_value_bound(bytes: Seq<u8>)
    ensures
        be_value(bytes) < pow256(bytes.len()),
    decreases bytes.len(),
{
    if bytes.len() > 0 {
        lemma_be_value_bound(bytes.drop_last());
    }
}

/// Byte strings of one length that denote the same number are equal.
pub proof fn lemma_be_value_injective(a: Seq<u8>, b: Seq<u8>)
    requires
        a.len() == b.len(),
        be_value(a) == be_value(b),
    ensures
        a == b,
    decreases a.len(),
{
    if a.len() > 0 {
        let x = be_value(a.drop_last());
        let y = be_value(b.drop_last());
        assert(x * 256 + a.last() as nat == y * 256 + b.last() as nat);
        assert(x == y && a.last() == b.last());
        lemma_be_value_injective(a.drop_last(), b.drop_last());
        assert(a =~= a.drop_last().push(a.last()));
        assert(b =~= b.drop_last().push(b.last()));
    } else {
        assert(a =~= b);
    }
}

/// Sixteen bytes denote a number that fits in 128 bits.
pub proof fn lemma_pow256_sixteen()
    ensures
        pow256(16) == 0x1_0000_0000_0000_0000_0000_0000_0000_0000,
{
    reveal_with_fuel(pow256, 17);
}

/// Sixteen bytes denote a number that a `u128` holds.
pub proof fn lemma_uuid_value_fits(id: UUID)
    ensures
        be_value(id@) <= u128::MAX,
{
    lemma_be_value_bound(id@);
    lemma_pow256_sixteen();
}

/// Identifiers that denote the same number are equal.
pub proof fn lemma_uuid_value_injective(a: UUID, b: UUID)
    requires
        be_value(a@) == be_value(b@),
    ensures
        a == b,
{
    lemma_be_value_injective(a@, b@);
    assert(a =~= b);
}

/// Bytes that are all zero denote zero.
pub proof fn lemma_be_value_zeros(bytes: Seq<u8>)
    requires
        forall|i: int| 0 <= i < bytes.len() ==> bytes[i] == 0,
    ensures
        be_value(bytes) == 0,
    decreases bytes.len(),
{
    if bytes.len() > 0 {
        lemma_be_value_zeros(bytes.drop_last());
    }
}

/// Bytes that are all 255 denote the largest number of their length.
pub proof fn lemma_be_value_ones(bytes: Seq<u8>)
    requires
        forall|i: int| 0 <= i < bytes.len() ==> bytes[i] == 255,
    ensures
        be_value(bytes) == pow256(bytes.len()) - 1,
    decreases bytes.len(),
{
    if bytes.len() > 0 {
        lemma_be_value_ones(bytes.drop_last());
    }
}

/// Whether `a` comes before `b` or equals it where byte strings of one
/// length are compared byte by byte from the front.
pub open spec fn bytes_le(a: Seq<u8>, b: Seq<u8>) -> bool
    decreases a.len(),
{
    if a.len() == 0 || b.len() == 0 {
        true
    } else if a[0] != b[0] {
        a[0] < b[0]
    } else {
        bytes_le(a.drop_first(), b.drop_first())
    }
}

/// Byte strings of one length compare byte by byte as the numbers that they
/// denote compare.
pub proof fn lemma_be_value_ordered(a: Seq<u8>, b: Seq<u8>)
    requires
        a.len() == b.len(),
    ensures
        bytes_le(a, b) <==> be_value(a) <= be_value(b),
    decreases a.len(),
{
    if a.len() > 0 {
        let x = a.drop_first();
        let y = b.drop_first();
        let weight = pow256(x.len());
        assert(a =~= seq![a[0]] + x);
        assert(b =~= seq![b[0]] + y);
        lemma_be_value_prepend(a[0], x);
        lemma_be_value_prepend(b[0], y);
        lemma_be_value_bound(x);
        lemma_be_value_bound(y);
        if a[0] == b[0] {
            lemma_be_value_ordered(x, y);
        } else if a[0] < b[0] {
            assert(a[0] as nat * weight + weight <= b[0] as nat * weight) by (nonlinear_arith)
                requires
                    a[0] < b[0],
            ;
        } else {
            assert(b[0] as nat * weight + weight <= a[0] as nat * weight) by (nonlinear_arith)
                requires
                    b[0] < a[0],
            ;
        }
    }
}

/// Compares two identifiers byte by byte.
pub fn uuid_eq(a: &UUID, b: &UUID) -> (same: bool)
    ensures
        same == (a@ == b@),
        same == (*a == *b),
{
    let mut i: usize = 0;
    while i < 16
        invariant
            i <= 16,
            forall|j: int| 0 <= j < i ==> a@[j] == b@[j],
        decreases 16 - i,
    {
        if a[i] != b[i] {
            return false;
        }
        i += 1;
    }
    assert(a@ =~= b@);
    assert(*a =~= *b);
    true
}

/// Reads an identifier as a number, most significant byte first.
pub fn uuid_to_u128(id: &UUID) -> (value: u128)
    ensures
        value == be_value(id@),
{
    let mut value: u128 = 0;
    let mut i: usize = 0;
    while i < 16
        invariant
            i <= 16,
            value == be_value(id@.subrange(0, i as int)),
        decreases 16 - i,
    {
        proof {
            let prefix = id@.subrange(0, i as int);
            let next = id@.subrange(0, i + 1);
            lemma_be_value_bound(prefix);
            lemma_pow256_monotonic(i as nat, 15);
            lemma_pow256_sixteen();
            assert(next.drop_last() =~= prefix);
            assert(next.last() == id@[i as int]);
        }
        value = value * 256 + id[i] as u128;
        i += 1;
    }
    assert(id@.subrange(0, 16) =~= id@);
    value
}

/// A larger exponent gives a larger power.
pub proof fn lemma_pow256_monotonic(a: nat, b: nat)
    requires
        a <= b,
    ensures
        pow256(a) <= pow256(b),
    decreases b,
{
    if a < b {
        lemma_pow256_monotonic(a, (b - 1) as nat);
    }
}

/// Writes a number as an identifier, most significant byte first.
pub fn uuid_from_u128(value: u128) -> (id: UUID)
    ensures
        be_value(id@) == value,
{
    let mut id: UUID = [0u8; 16];
    let mut rest: u128 = value;
    let mut i: usize = 16;
    proof {
        lemma_pow256_sixteen();
        assert(id@.subrange(16, 16) =~= Seq::<u8>::empty());
        assert(be_value(id@.subrange(16, 16)) == 0);
        assert(pow256((16 - i) as nat) == 1);
        assert(rest * pow256((16 - i) as nat) == rest) by (nonlinear_arith)
            requires
                pow256((16 - i) as nat) == 1,
        ;
    }
    while i > 0
        invariant
            i <= 16,
            rest < pow256(i as nat),
            value == rest * pow256((16 - i) as nat) + be_value(id@.subrange(i as int, 16)),
        decreases i,
    {
        i -= 1;
        let byte: u8 = (rest % 256) as u8;
        let ghost before = id@;
        let ghost rest_before = rest;
        id[i] = byte;
        rest = rest / 256;
        proof {
            let tail = id@.subrange(i as int, 16);
            let kept = before.subrange(i + 1, 16);
            let weight = pow256((15 - i) as nat);
            lemma_be_value_prepend(byte, kept);
            assert(tail =~= seq![byte] + kept);
            assert(pow256((16 - i) as nat) == 256 * weight);
            assert(pow256((i + 1) as nat) == 256 * pow256(i as nat));
            assert(rest_before == rest * 256 + byte);
            assert(rest * (256 * weight) + (byte as nat * weight + be_value(kept)) == (rest * 256
                + byte) * weight + be_value(kept)) by (nonlinear_arith);
        }
    }
    assert(id@.subrange(0, 16) =~= id@);
    id
}

/// Putting a byte in front adds it at the weight of the string's length.
pub proof fn lemma_be_value_prepend(first: u8, rest: Seq<u8>)
    ensures
        be_value(seq![first] + rest) == first as nat * pow256(rest.len()) + be_value(rest),
    decreases rest.len(),
{
    let whole = seq![first] + rest;
    assert(be_value(whole) == be_value(whole.drop_last()) * 256 + whole.last() as nat);
    if rest.len() == 0 {
        assert(whole.drop_last() =~= Seq::<u8>::empty());
        assert(whole.last() == first);
        assert(be_value(whole.drop_last()) == 0);
        assert(be_value(whole) == first as nat);
        assert(pow256(0) == 1);
        assert(be_value(rest) == 0);
    } else {
        let shorter = rest.drop_last();
        let weight = pow256(shorter.len());
        lemma_be_value_prepend(first, shorter);
        assert(whole.drop_last() =~= seq![first] + shorter);
        assert(whole.last() == rest.last());
        assert(be_value(rest) == be_value(shorter) * 256 + rest.last() as nat);
        assert(pow256(rest.len()) == 256 * weight);
        assert((first as nat * weight + be_value(shorter)) * 256 == first as nat * (256 * weight)
            + be_value(shorter) * 256) by (nonlinear_arith);
    }
}

} // verus!
