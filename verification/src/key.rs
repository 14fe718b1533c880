//! The key scheduler: expansion of a 16-byte key into 11 sequential
//! 16-byte round keys (176 bytes, 44 words of 4 bytes each).
//!
//! Words 0 through 3 equal the original key.  For every word index i from
//! 4 to 43, word i is word (i-4) XOR a transform of word (i-1): on indices
//! divisible by 4 the previous word is first rotated left one byte, passed
//! through the substitution table, and its first byte is XORed with the
//! round constant at index i/4.

use vstd::prelude::*;
use vstd::slice::slice_subrange;
use vstd::string::StringExecFns;
use crate::hex::{push_hex_bytes, round_label};
use crate::tables::{sub_byte, sub_lookup, ROUND_CONSTANTS};

verus! {

/// Word i (4 bytes) of the expanded key, per the standard recurrence.
pub open spec fn key_word(key: Seq<u8>, i: int) -> Seq<u8>
    decreases i,
{
    if i < 4 {
        key.subrange(4 * i, 4 * i + 4)
    } else {
        let prev = key_word(key, i - 1);
        let t = if i % 4 == 0 {
            seq![
                sub_byte(prev[1]) ^ ROUND_CONSTANTS[i / 4],
                sub_byte(prev[2]),
                sub_byte(prev[3]),
                sub_byte(prev[0]),
            ]
        } else {
            prev
        };
        let base = key_word(key, i - 4);
        seq![base[0] ^ t[0], base[1] ^ t[1], base[2] ^ t[2], base[3] ^ t[3]]
    }
}

/// The full 176-byte expanded key: word j/4, byte j%4.
pub open spec fn expanded_key(key: Seq<u8>) -> Seq<u8> {
    Seq::new(176, |j: int| key_word(key, j / 4)[j % 4])
}

/// The expanded key schedule, derived from a 16-byte key once per session
/// and immutable thereafter.
pub struct AesKey {
    pub expanded: [u8; 176],
}

impl View for AesKey {
    type V = Seq<u8>;

    open spec fn view(&self) -> Seq<u8> {
        self.expanded@
    }
}

impl AesKey {
    /// Expand a 16-byte key into the 176-byte schedule, returning the
    /// schedule together with a human-readable trace of the round keys.
    #[verifier::rlimit(60)]
    pub fn expand_with_log(key: &[u8; 16]) -> (r: (Self, String))
        ensures
            r.0@ == expanded_key(key@),
    {
        let mut expanded = [0u8; 176];
        let mut i: usize = 0;
        while i < 16
            invariant
                i <= 16,
                expanded@.len() == 176,
                key@.len() == 16,
                forall|j: int| 0 <= j < i ==> expanded@[j] == key@[j],
            decreases 16 - i,
        {
            expanded[i] = key[i];
            i += 1;
        }
        proof {
            assert forall|j: int| 0 <= j < 16 implies expanded@[j] == expanded_key(key@)[j] by {
                assert(4 * (j / 4) + j % 4 == j);
                assert(key_word(key@, j / 4)[j % 4] == key@[j]);
            }
        }
        let mut i: usize = 4;
        while i < 44
            invariant
                4 <= i <= 44,
                expanded@.len() == 176,
                key@.len() == 16,
                forall|j: int| 0 <= j < 4 * i ==> expanded@[j] == expanded_key(key@)[j],
            decreases 44 - i,
        {
            let mut t0 = expanded[4 * (i - 1)];
            let mut t1 = expanded[4 * (i - 1) + 1];
            let mut t2 = expanded[4 * (i - 1) + 2];
            let mut t3 = expanded[4 * (i - 1) + 3];
            proof {
                assert(expanded@[4 * (i - 1)] == key_word(key@, i - 1)[0]);
                assert(expanded@[4 * (i - 1) + 1] == key_word(key@, i - 1)[1]);
                assert(expanded@[4 * (i - 1) + 2] == key_word(key@, i - 1)[2]);
                assert(expanded@[4 * (i - 1) + 3] == key_word(key@, i - 1)[3]);
            }
            if i % 4 == 0 {
                let r0 = t1;
                let r1 = t2;
                let r2 = t3;
                let r3 = t0;
                t0 = sub_lookup(r0) ^ ROUND_CONSTANTS[i / 4];
                t1 = sub_lookup(r1);
                t2 = sub_lookup(r2);
                t3 = sub_lookup(r3);
            }
            let b0 = expanded[4 * (i - 4)];
            let b1 = expanded[4 * (i - 4) + 1];
            let b2 = expanded[4 * (i - 4) + 2];
            let b3 = expanded[4 * (i - 4) + 3];
            proof {
                assert(expanded@[4 * (i - 4)] == key_word(key@, i - 4)[0]);
                assert(expanded@[4 * (i - 4) + 1] == key_word(key@, i - 4)[1]);
                assert(expanded@[4 * (i - 4) + 2] == key_word(key@, i - 4)[2]);
                assert(expanded@[4 * (i - 4) + 3] == key_word(key@, i - 4)[3]);
            }
            expanded[4 * i] = b0 ^ t0;
            expanded[4 * i + 1] = b1 ^ t1;
            expanded[4 * i + 2] = b2 ^ t2;
            expanded[4 * i + 3] = b3 ^ t3;
            proof {
                assert forall|j: int| 0 <= j < 4 * (i + 1) implies expanded@[j] == expanded_key(
                    key@,
                )[j] by {
                    if j >= 4 * i {
                        assert(j / 4 == i as int && j % 4 == j - 4 * i);
                        assert(key_word(key@, i as int)[j % 4] == expanded@[j]);
                    }
                }
            }
            i += 1;
        }
        let aes_key = AesKey { expanded };
        proof {
            assert(aes_key@ =~= expanded_key(key@));
        }
        let mut log = String::new();
        log.append("key schedule:\n");
        let mut r: usize = 0;
        while r < 11
            invariant
                r <= 11,
            decreases 11 - r,
        {
            log.append("round key ");
            log.append(round_label(r));
            log.append(": ");
            push_hex_bytes(&mut log, aes_key.round_key(r));
            log.append("\n");
            r += 1;
        }
        (aes_key, log)
    }

    /// Round key r: bytes 16r through 16r+15 of the schedule.
    pub fn round_key(&self, round: usize) -> (r: &[u8])
        requires
            round < 11,
        ensures
            r@ == self@.subrange(16 * round, 16 * round + 16),
    {
        slice_subrange(self.expanded.as_slice(), 16 * round, 16 * round + 16)
    }
}

} // verus!
