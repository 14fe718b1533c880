//! The block state: one 16-byte block addressed as a 4-row, 4-column byte
//! matrix, together with the four standard round transforms (byte
//! substitution, row rotation, column mixing, key mixing).
//!
//! The block is stored flat, in the column-major layout of the standard:
//! byte index `4 * col + row` holds matrix position `(row, col)`.  The spec
//! functions below speak the matrix language through `cell`.

use vstd::prelude::*;
use crate::tables::{sub_byte, sub_lookup};
use crate::galois::{gmul, gmul_acc, gmul_rounds, xtime};

verus! {

/// The byte of a 16-byte block that sits at matrix position (row, col).
pub open spec fn cell(s: Seq<u8>, row: int, col: int) -> u8 {
    s[4 * col + row]
}

/// The block after the byte-substitution step: every byte replaced through
/// the substitution table.
pub open spec fn sub_block(s: Seq<u8>) -> Seq<u8> {
    Seq::new(16, |i: int| sub_byte(s[i]))
}

/// The block after the row-rotation step: row r is cyclically rotated left
/// by r positions, so position (r, c) receives the byte from (r, (c+r)%4).
pub open spec fn shift_block(s: Seq<u8>) -> Seq<u8> {
    Seq::new(16, |i: int| cell(s, i % 4, (i / 4 + i % 4) % 4))
}

/// One output byte of the column-mixing step: the fixed linear combination
/// over GF(2^8) of the four bytes of the same column.
pub open spec fn mix_cell(s: Seq<u8>, row: int, col: int) -> u8 {
    let s0 = cell(s, 0, col);
    let s1 = cell(s, 1, col);
    let s2 = cell(s, 2, col);
    let s3 = cell(s, 3, col);
    if row == 0 {
        gmul(0x02, s0) ^ gmul(0x03, s1) ^ s2 ^ s3
    } else if row == 1 {
        s0 ^ gmul(0x02, s1) ^ gmul(0x03, s2) ^ s3
    } else if row == 2 {
        s0 ^ s1 ^ gmul(0x02, s2) ^ gmul(0x03, s3)
    } else {
        gmul(0x03, s0) ^ s1 ^ s2 ^ gmul(0x02, s3)
    }
}

/// The block after the column-mixing step, applied independently to all
/// four columns.
pub open spec fn mix_block(s: Seq<u8>) -> Seq<u8> {
    Seq::new(16, |i: int| mix_cell(s, i % 4, i / 4))
}

/// The block after key mixing: the byte-for-byte exclusive-or of the block
/// with a 16-byte round key.
pub open spec fn xor_block(s: Seq<u8>, k: Seq<u8>) -> Seq<u8> {
    Seq::new(16, |i: int| s[i] ^ k[i])
}

/// A transient 16-byte block mid-transform, created fresh per encryption
/// and consumed by the round transforms in place.
pub struct AesState(pub [u8; 16]);

impl View for AesState {
    type V = Seq<u8>;

    open spec fn view(&self) -> Seq<u8> {
        self.0@
    }
}

impl AesState {
    /// Load a 16-byte block into the state, byte i to matrix position
    /// (i mod 4, i div 4).
    pub fn from_bytes(bytes: &[u8]) -> (r: Self)
        requires
            bytes@.len() == 16,
        ensures
            r@ == bytes@,
    {
        let mut b = [0u8; 16];
        let mut i: usize = 0;
        while i < 16
            invariant
                i <= 16,
                bytes@.len() == 16,
                forall|j: int| 0 <= j < i ==> b@[j] == bytes@[j],
            decreases 16 - i,
        {
            b[i] = bytes[i];
            i += 1;
        }
        proof {
            assert(b@ =~= bytes@);
        }
        AesState(b)
    }

    /// Serialize the state back to 16 bytes, the inverse of `from_bytes`.
    pub fn to_bytes(&self) -> (r: [u8; 16])
        ensures
            r@ == self@,
    {
        self.0
    }

    /// Byte substitution: replace every byte with its substitution-table
    /// entry.
    pub fn sub_bytes(&mut self)
        ensures
            final(self)@ == sub_block(old(self)@),
    {
        let ghost orig = self@;
        let mut i: usize = 0;
        while i < 16
            invariant
                i <= 16,
                self@.len() == 16,
                orig.len() == 16,
                forall|j: int| 0 <= j < i ==> self@[j] == sub_byte(orig[j]),
                forall|j: int| i <= j < 16 ==> self@[j] == orig[j],
            decreases 16 - i,
        {
            let v = sub_lookup(self.0[i]);
            self.0[i] = v;
            i += 1;
        }
        proof {
            assert(self@ =~= sub_block(orig));
        }
    }

    /// Row rotation: row r is cyclically rotated left by r positions; row 0
    /// is untouched.
    pub fn shift_rows(&mut self)
        ensures
            final(self)@ == shift_block(old(self)@),
    {
        let m = self.0;
        self.0[1] = m[5];
        self.0[5] = m[9];
        self.0[9] = m[13];
        self.0[13] = m[1];
        self.0[2] = m[10];
        self.0[6] = m[14];
        self.0[10] = m[2];
        self.0[14] = m[6];
        self.0[3] = m[15];
        self.0[7] = m[3];
        self.0[11] = m[7];
        self.0[15] = m[11];
        proof {
            assert(self@ =~= shift_block(old(self)@));
        }
    }

    /// Multiplication in GF(2^8): eight rounds of the shift-and-add
    /// multiplier with reduction by 0x1b.
    pub fn galois_mul(a: u8, b: u8) -> (p: u8)
        ensures
            p == gmul(a, b),
    {
        let mut p: u8 = 0;
        let mut aa = a;
        let mut bb = b;
        let mut k: usize = 0;
        while k < 8
            invariant
                k <= 8,
                gmul_rounds(p, aa, bb, (8 - k) as u32) == gmul(a, b),
            decreases 8 - k,
        {
            proof {
                assert(gmul_rounds(p, aa, bb, (8 - k) as u32) == gmul_rounds(
                    gmul_acc(p, aa, bb),
                    xtime(aa),
                    bb >> 1,
                    (7 - k) as u32,
                ));
            }
            if bb & 1 != 0 {
                p = p ^ aa;
            }
            let hi = aa & 0x80 != 0;
            aa = aa << 1;
            if hi {
                aa = aa ^ 0x1b;
            }
            bb = bb >> 1;
            k += 1;
        }
        p
    }

    /// Column mixing: each column is replaced by the fixed GF(2^8) linear
    /// combination of its four bytes.
    pub fn mix_columns(&mut self)
        ensures
            final(self)@ == mix_block(old(self)@),
    {
        let ghost orig = self@;
        let mut c: usize = 0;
        while c < 4
            invariant
                c <= 4,
                self@.len() == 16,
                orig.len() == 16,
                forall|j: int| 0 <= j < 4 * c ==> self@[j] == mix_block(orig)[j],
                forall|j: int| 4 * c <= j < 16 ==> self@[j] == orig[j],
            decreases 4 - c,
        {
            let s0 = self.0[4 * c];
            let s1 = self.0[4 * c + 1];
            let s2 = self.0[4 * c + 2];
            let s3 = self.0[4 * c + 3];
            self.0[4 * c] = Self::galois_mul(0x02, s0) ^ Self::galois_mul(0x03, s1) ^ s2 ^ s3;
            self.0[4 * c + 1] = s0 ^ Self::galois_mul(0x02, s1) ^ Self::galois_mul(0x03, s2) ^ s3;
            self.0[4 * c + 2] = s0 ^ s1 ^ Self::galois_mul(0x02, s2) ^ Self::galois_mul(0x03, s3);
            self.0[4 * c + 3] = Self::galois_mul(0x03, s0) ^ s1 ^ s2 ^ Self::galois_mul(0x02, s3);
            c += 1;
        }
        proof {
            assert(self@ =~= mix_block(orig));
        }
    }

    /// Key mixing: exclusive-or the block, byte for byte, against one
    /// 16-byte round key.
    pub fn add_round_key(&mut self, round_key: &[u8])
        requires
            round_key@.len() == 16,
        ensures
            final(self)@ == xor_block(old(self)@, round_key@),
    {
        let ghost orig = self@;
        let mut i: usize = 0;
        while i < 16
            invariant
                i <= 16,
                self@.len() == 16,
                orig.len() == 16,
                round_key@.len() == 16,
                forall|j: int| 0 <= j < i ==> self@[j] == (orig[j] ^ round_key@[j]),
                forall|j: int| i <= j < 16 ==> self@[j] == orig[j],
            decreases 16 - i,
        {
            let v = self.0[i] ^ round_key[i];
            self.0[i] = v;
            i += 1;
        }
        proof {
            assert(self@ =~= xor_block(orig, round_key@));
        }
    }
}

} // verus!
