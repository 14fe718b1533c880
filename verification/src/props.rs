//! The laws of the cipher that relate several operations: the round-trip
//! identity of OFB mode, determinism, keystream independence from the
//! processed content, and key-schedule stability.  The identities of the
//! Galois multiplier live beside it in `galois`.

use vstd::prelude::*;
use crate::key::expanded_key;
use crate::ofb::{keystream_byte, ofb_mask};

verus! {

/// Round-trip identity: for every key, IV and buffer, applying the OFB
/// transform to its own output under the same key and IV returns the
/// original buffer — decryption undoes encryption.
pub proof fn lemma_ofb_round_trip(key: Seq<u8>, iv: Seq<u8>, data: Seq<u8>)
    ensures
        ofb_mask(key, iv, ofb_mask(key, iv, data)) == data,
{
    let c = ofb_mask(key, iv, data);
    assert(forall|x: u8, y: u8| (x ^ y) ^ y == x) by (bit_vector);
    assert forall|i: int| 0 <= i < data.len() implies ofb_mask(key, iv, c)[i] == data[i] by {
        let k = keystream_byte(expanded_key(key), iv, i);
        assert(c[i] == (data[i] ^ k));
        assert((data[i] ^ k) ^ k == data[i]);
    }
    assert(ofb_mask(key, iv, c) =~= data);
}

/// Determinism: the OFB transform is a function of the key, the IV and the
/// input alone, so any two outputs produced from the same triple are
/// byte-identical.
pub proof fn lemma_ofb_deterministic(
    key: Seq<u8>,
    iv: Seq<u8>,
    data: Seq<u8>,
    c1: Seq<u8>,
    c2: Seq<u8>,
)
    requires
        c1 == ofb_mask(key, iv, data),
        c2 == ofb_mask(key, iv, data),
    ensures
        c1 == c2,
{
}

/// Keystream independence from content: the keystream byte recovered from
/// any transformed buffer (output XOR input at the same position) depends
/// only on the key, the IV and the position — never on the buffer itself.
pub proof fn lemma_keystream_independent(
    key: Seq<u8>,
    iv: Seq<u8>,
    d1: Seq<u8>,
    d2: Seq<u8>,
    i: int,
)
    requires
        0 <= i < d1.len(),
        i < d2.len(),
    ensures
        (ofb_mask(key, iv, d1)[i] ^ d1[i]) == (ofb_mask(key, iv, d2)[i] ^ d2[i]),
        (ofb_mask(key, iv, d1)[i] ^ d1[i]) == keystream_byte(expanded_key(key), iv, i),
{
    assert(forall|x: u8, y: u8| (x ^ y) ^ x == y) by (bit_vector);
    let k = keystream_byte(expanded_key(key), iv, i);
    assert(ofb_mask(key, iv, d1)[i] == (d1[i] ^ k));
    assert(ofb_mask(key, iv, d2)[i] == (d2[i] ^ k));
    assert((d1[i] ^ k) ^ d1[i] == k);
    assert((d2[i] ^ k) ^ d2[i] == k);
}

/// Key-schedule stability: the expansion is a function of the 16-byte key
/// alone, so any two schedules expanded from the same key are
/// byte-identical.
pub proof fn lemma_key_schedule_stable(key: Seq<u8>, s1: Seq<u8>, s2: Seq<u8>)
    requires
        s1 == expanded_key(key),
        s2 == expanded_key(key),
    ensures
        s1 == s2,
{
}

} // verus!
