//! Decoding of big-endian amounts, as other chains encode them, into `u64`.
use vstd::prelude::*;

verus! {

/// The number that `bytes` spell in base 256, most significant byte first.
pub open spec fn be_value(bytes: Seq<u8>) -> nat
    decreases bytes.len(),
{
    if bytes.len() == 0 {
        0
    } else {
        be_value(bytes.drop_last()) * 256 + bytes.last() as nat
    }
}

/// 256 to the power `n`.
pub open spec fn pow256(n: nat) -> nat
    decreases n,
{
    if n == 0 {
        1
    } else {
        256 * pow256((n - 1) as nat)
    }
}

/// The amount that `bytes` decode to: their big-endian value, of which only
/// the low 64 bits are kept.
pub open spec fn amount_of(bytes: Seq<u8>) -> nat {
    be_value(bytes) % 0x1_0000_0000_0000_0000
}

/// The `len`-byte big-endian spelling of `value`, left-padded with zeros
/// (and cut to its low `len` bytes where it needs more).
pub open spec fn be_bytes(value: nat, len: nat) -> Seq<u8>
    decreases len,
{
    if len == 0 {
        Seq::empty()
    } else {
        be_bytes(value / 256, (len - 1) as nat).push((value % 256) as u8)
    }
}

/// The powers of 256 that the decoding meets.
pub proof fn lemma_pow256_values()
    ensures
        pow256(0) == 1,
        pow256(1) == 0x100,
        pow256(7) == 0x100_0000_0000_0000,
        pow256(8) == 0x1_0000_0000_0000_0000,
{
    reveal_with_fuel(pow256, 9);
}

/// The powers of 256 are positive and grow with the exponent.
pub proof fn lemma_pow256_monotonic(a: nat, b: nat)
    requires
        a <= b,
    ensures
        0 < pow256(a) <= pow256(b),
    decreases b,
{
    if b == 0 {
    } else if a == b {
        lemma_pow256_monotonic((a - 1) as nat, (b - 1) as nat);
    } else {
        lemma_pow256_monotonic(a, (b - 1) as nat);
    }
}

/// A byte string of length `n` spells a number below `256^n`.
pub proof fn lemma_be_value_bound(bytes: Seq<u8>)
    ensures
        be_value(bytes) < pow256(bytes.len()),
    decreases bytes.len(),
{
    if bytes.len() > 0 {
        lemma_be_value_bound(bytes.drop_last());
    }
}

/// The value of a concatenation: the front part is shifted left by the
/// length of the back part.
pub proof fn lemma_be_value_concat(front: Seq<u8>, back: Seq<u8>)
    ensures
        be_value(front + back) == be_value(front) * pow256(back.len()) + be_value(back),
    decreases back.len(),
{
    if back.len() == 0 {
        assert(front + back =~= front);
        assert(be_value(front) * pow256(0) == be_value(front)) by (nonlinear_arith)
            requires
                pow256(0) == 1,
        ;
    } else {
        let whole = front + back;
        assert(whole.drop_last() =~= front + back.drop_last());
        assert(whole.last() == back.last());
        lemma_be_value_concat(front, back.drop_last());
        let f = be_value(front);
        let p = pow256(back.drop_last().len());
        let b = be_value(back.drop_last());
        assert((f * p + b) * 256 == f * (256 * p) + b * 256) by (nonlinear_arith);
        assert(f * pow256(back.len()) == f * (256 * p));
    }
}

/// A string of zero bytes spells zero.
pub proof fn lemma_be_value_zeros(bytes: Seq<u8>)
    requires
        forall|i: int| 0 <= i < bytes.len() ==> bytes[i] == 0,
    ensures
        be_value(bytes) == 0,
    decreases bytes.len(),
{
    if bytes.len() > 0 {
        lemma_be_value_zeros(bytes.drop_last());
    }
}

/// Leading zero bytes do not change the value: a padded amount and its
/// shortest spelling decode alike.
pub proof fn lemma_leading_zeros_ignored(bytes: Seq<u8>, start: int)
    requires
        0 <= start <= bytes.len(),
        forall|i: int| 0 <= i < start ==> bytes[i] == 0,
    ensures
        be_value(bytes) == be_value(bytes.skip(start)),
        amount_of(bytes) == amount_of(bytes.skip(start)),
{
    let front = bytes.take(start);
    let back = bytes.skip(start);
    assert(bytes =~= front + back);
    lemma_be_value_zeros(front);
    lemma_be_value_concat(front, back);
    assert(0 * pow256(back.len()) == 0) by (nonlinear_arith);
}

/// Only the last eight bytes reach the decoded amount.
pub proof fn lemma_amount_is_low_eight_bytes(bytes: Seq<u8>)
    requires
        bytes.len() >= 8,
    ensures
        amount_of(bytes) == be_value(bytes.skip(bytes.len() - 8)),
{
    let cut = bytes.len() - 8;
    let front = bytes.take(cut);
    let back = bytes.skip(cut);
    assert(bytes =~= front + back);
    lemma_be_value_concat(front, back);
    lemma_be_value_bound(back);
    lemma_pow256_values();
    let f = be_value(front);
    let b = be_value(back);
    assert((f * 0x1_0000_0000_0000_0000 + b) % 0x1_0000_0000_0000_0000 == b) by (nonlinear_arith)
        requires
            0 <= b < 0x1_0000_0000_0000_0000,
            0 <= f,
    ;
}

/// Spelling a number in `len` bytes and reading it back gives the number,
/// cut to what `len` bytes can hold.
pub proof fn lemma_be_bytes_value(value: nat, len: nat)
    ensures
        be_bytes(value, len).len() == len,
        be_value(be_bytes(value, len)) == value % pow256(len),
    decreases len,
{
    if len == 0 {
    } else {
        let rest = be_bytes(value / 256, (len - 1) as nat);
        lemma_be_bytes_value(value / 256, (len - 1) as nat);
        assert(be_bytes(value, len).drop_last() =~= rest);
        let p = pow256((len - 1) as nat);
        lemma_pow256_monotonic(0, (len - 1) as nat);
        vstd::arithmetic::div_mod::lemma_mod_breakdown(value as int, 256, p as int);
        assert(256 * ((value as int / 256) % (p as int)) == ((value / 256) % p) * 256);
    }
}

/// Every `u64` amount survives the trip through its big-endian spelling of
/// eight bytes or more, the 32-byte spelling of other chains among them.
pub proof fn lemma_amount_round_trip(value: u64, len: nat)
    requires
        len >= 8,
    ensures
        amount_of(be_bytes(value as nat, len)) == value,
{
    lemma_be_bytes_value(value as nat, len);
    lemma_pow256_values();
    lemma_pow256_monotonic(8, len);
    let p = pow256(len);
    let v = value as nat;
    assert(v % p == v) by (nonlinear_arith)
        requires
            v < p,
    ;
    assert(v % 0x1_0000_0000_0000_0000 == v) by (nonlinear_arith)
        requires
            v < 0x1_0000_0000_0000_0000,
    ;
}

/// Converts a big-endian byte string to a `u64` amount. Leading zero bytes
/// are skipped; of a value that needs more than eight bytes the low eight
/// are kept.
pub fn bytes_to_u64_number(amount_in_bytes: &[u8]) -> (amount: u64)
    ensures
        amount == amount_of(amount_in_bytes@),
{
    let len = amount_in_bytes.len();
    let mut start_idx: usize = 0;
    while start_idx < len && amount_in_bytes[start_idx] == 0
        invariant
            len == amount_in_bytes@.len(),
            start_idx <= len,
            forall|i: int| 0 <= i < start_idx ==> amount_in_bytes@[i] == 0,
        decreases len - start_idx,
    {
        start_idx += 1;
    }
    let from: usize = if len - start_idx >= 8 {
        len - 8
    } else {
        start_idx
    };
    let ghost digits = amount_in_bytes@.skip(from as int);
    proof {
        lemma_pow256_values();
        if len - start_idx >= 8 {
            lemma_amount_is_low_eight_bytes(amount_in_bytes@);
        } else {
            lemma_leading_zeros_ignored(amount_in_bytes@, start_idx as int);
            lemma_be_value_bound(digits);
            lemma_pow256_monotonic(digits.len(), 7);
            assert(be_value(digits) % 0x1_0000_0000_0000_0000 == be_value(digits))
                by (nonlinear_arith)
                requires
                    be_value(digits) < 0x1_0000_0000_0000_0000,
            ;
        }
        assert(amount_of(amount_in_bytes@) == be_value(digits));
        assert(digits.take(0) =~= Seq::<u8>::empty());
    }
    let mut amount: u64 = 0;
    let mut idx: usize = from;
    while idx < len
        invariant
            len == amount_in_bytes@.len(),
            from <= idx <= len,
            len - from <= 8,
            digits == amount_in_bytes@.skip(from as int),
            amount == be_value(digits.take(idx - from)),
        decreases len - idx,
    {
        let ghost seen = digits.take(idx - from);
        let ghost next = digits.take(idx - from + 1);
        proof {
            assert(next.drop_last() =~= seen);
            assert(next.last() == amount_in_bytes@[idx as int]);
            lemma_be_value_bound(seen);
            lemma_be_value_bound(next);
            lemma_pow256_monotonic(seen.len(), 7);
            lemma_pow256_monotonic(next.len(), 8);
            lemma_pow256_values();
        }
        amount = amount * 256 + amount_in_bytes[idx] as u64;
        idx += 1;
    }
    proof {
        assert(digits.take(len - from) =~= digits);
    }
    amount
}

/// Tells whether two 32-byte strings are the same.
pub fn bytes32_equal(a: &[u8; 32], b: &[u8; 32]) -> (same: bool)
    ensures
        same == (a@ == b@),
{
    let mut i: usize = 0;
    while i < 32
        invariant
            i <= 32,
            forall|j: int| 0 <= j < i ==> a@[j] == b@[j],
        decreases 32 - i,
    {
        if a[i] != b[i] {
            return false;
        }
        i += 1;
    }
    assert(a@ =~= b@);
    true
}

} // verus!
