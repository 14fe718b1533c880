//! The block cipher: the standard 10-round encryption transform composed
//! from the round primitives and the key schedule.  Round 0 is the initial
//! key mixing; rounds 1 through 9 substitute, rotate, mix columns and add
//! the round key; round 10 omits the column mixing.

use vstd::prelude::*;
use vstd::string::StringExecFns;
use crate::hex::{push_hex_bytes, round_label};
use crate::key::AesKey;
use crate::state::{mix_block, shift_block, sub_block, xor_block, AesState};

verus! {

/// Round key r of a 176-byte schedule: bytes 16r through 16r+15.
pub open spec fn sched_key(ks: Seq<u8>, r: int) -> Seq<u8> {
    ks.subrange(16 * r, 16 * r + 16)
}

/// One encryption round: substitute, rotate rows, mix columns (except in
/// the final round), add the round key.
pub open spec fn enc_round(s: Seq<u8>, rk: Seq<u8>, mix: bool) -> Seq<u8> {
    let t = shift_block(sub_block(s));
    xor_block(if mix { mix_block(t) } else { t }, rk)
}

/// The block state after round r of the cipher (round 0 is the initial key
/// mixing; round 10, the last, skips the column mixing).
pub open spec fn cipher_state(b: Seq<u8>, ks: Seq<u8>, r: int) -> Seq<u8>
    decreases r,
{
    if r <= 0 {
        xor_block(b, sched_key(ks, 0))
    } else {
        enc_round(cipher_state(b, ks, r - 1), sched_key(ks, r), r < 10)
    }
}

/// The 10-round encryption of one 16-byte block under a 176-byte schedule.
pub open spec fn encrypt_block(b: Seq<u8>, ks: Seq<u8>) -> Seq<u8> {
    cipher_state(b, ks, 10)
}

/// Encrypt one 16-byte block, returning the ciphertext block together with
/// a human-readable trace of the state after every round.
pub fn aes_encrypt_block_with_log(block: &[u8; 16], key: &AesKey) -> (r: ([u8; 16], String))
    ensures
        r.0@ == encrypt_block(block@, key@),
{
    let mut state = AesState::from_bytes(block.as_slice());
    let mut log = String::new();
    state.add_round_key(key.round_key(0));
    log.append("state after initial key mixing: ");
    let snap = state.to_bytes();
    push_hex_bytes(&mut log, snap.as_slice());
    log.append("\n");
    let mut round: usize = 1;
    while round < 10
        invariant
            1 <= round <= 10,
            key@.len() == 176,
            state@ == cipher_state(block@, key@, round - 1),
        decreases 10 - round,
    {
        state.sub_bytes();
        state.shift_rows();
        state.mix_columns();
        state.add_round_key(key.round_key(round));
        log.append("state after round ");
        log.append(round_label(round));
        log.append(": ");
        let snap = state.to_bytes();
        push_hex_bytes(&mut log, snap.as_slice());
        log.append("\n");
        round += 1;
    }
    state.sub_bytes();
    state.shift_rows();
    state.add_round_key(key.round_key(10));
    log.append("state after the final round: ");
    let snap = state.to_bytes();
    push_hex_bytes(&mut log, snap.as_slice());
    log.append("\n");
    (state.to_bytes(), log)
}

} // verus!
