//! Multiplication in the Galois field GF(2^8) under the AES reduction
//! polynomial x^8 + x^4 + x^3 + x + 1 (hex 0x11b), together with its
//! algebraic identities: zero is absorbing, one is the identity, and the
//! product is commutative.

use vstd::prelude::*;

verus! {

/// One doubling step in GF(2^8): multiply by x, reducing by 0x1b when the
/// bit shifted out of the top was set.
pub open spec fn xtime(a: u8) -> u8 {
    if a & 0x80 != 0 {
        (a << 1) ^ 0x1b
    } else {
        a << 1
    }
}

/// The running product after one round of the shift-and-add multiplier:
/// the current multiplicand is folded in when the low bit of `b` is set.
pub open spec fn gmul_acc(p: u8, a: u8, b: u8) -> u8 {
    if b & 1 != 0 {
        p ^ a
    } else {
        p
    }
}

/// `n` rounds of the shift-and-add multiplier loop, starting from the
/// running product `p`.
pub open spec fn gmul_rounds(p: u8, a: u8, b: u8, n: u32) -> u8
    decreases n,
{
    if n == 0 {
        p
    } else {
        gmul_rounds(gmul_acc(p, a, b), xtime(a), b >> 1, (n - 1) as u32)
    }
}

/// The product of `a` and `b` in GF(2^8): eight rounds of the shift-and-add
/// multiplier.
pub open spec fn gmul(a: u8, b: u8) -> u8 {
    gmul_rounds(0, a, b, 8)
}

/// Zero is absorbing: multiplying any byte by 0 yields 0.
pub proof fn lemma_gmul_zero()
    by (bit_vector)
    ensures
        forall|a: u8| #[trigger] gmul(a, 0) == 0,
{
}

/// One is the multiplicative identity: multiplying any byte by 1 yields the
/// byte itself.
pub proof fn lemma_gmul_one()
    by (bit_vector)
    ensures
        forall|a: u8| #[trigger] gmul(a, 1) == a,
{
}

/// Multiplication in GF(2^8) is commutative.
#[verifier::rlimit(100)]
pub proof fn lemma_gmul_commutes()
    by (bit_vector)
    ensures
        forall|a: u8, b: u8| #[trigger] gmul(a, b) == gmul(b, a),
{
}

/// The multiplier loop is linear in the running product and the
/// multiplicand: each round folds in either nothing or the multiplicand,
/// and the doubling step distributes over exclusive-or.
proof fn lemma_gmul_rounds_linear(p1: u8, p2: u8, a1: u8, a2: u8, b: u8, n: u32)
    ensures
        gmul_rounds(p1 ^ p2, a1 ^ a2, b, n) == gmul_rounds(p1, a1, b, n) ^ gmul_rounds(
            p2,
            a2,
            b,
            n,
        ),
    decreases n,
{
    if n != 0 {
        assert(gmul_acc(p1 ^ p2, a1 ^ a2, b) == gmul_acc(p1, a1, b) ^ gmul_acc(p2, a2, b))
            by (bit_vector);
        assert(xtime(a1 ^ a2) == xtime(a1) ^ xtime(a2)) by (bit_vector);
        lemma_gmul_rounds_linear(
            gmul_acc(p1, a1, b),
            gmul_acc(p2, a2, b),
            xtime(a1),
            xtime(a2),
            b >> 1,
            (n - 1) as u32,
        );
    }
}

/// Multiplication in GF(2^8) distributes over the byte-wise exclusive-or.
pub proof fn lemma_gmul_distributes(a: u8, b: u8, c: u8)
    ensures
        gmul(a ^ b, c) == gmul(a, c) ^ gmul(b, c),
{
    assert(0u8 ^ 0u8 == 0u8) by (bit_vector);
    lemma_gmul_rounds_linear(0, 0, a, b, c, 8);
}

} // verus!
