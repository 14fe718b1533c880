//! The Output-Feedback (OFB) stream driver.  A feedback register seeded
//! with the IV is encrypted once per 16-byte chunk of input; each resulting
//! keystream block becomes the next feedback value and is XORed, byte for
//! byte, against the bytes of the chunk (the final chunk may be shorter
//! than 16 bytes, in which case only a prefix of the keystream block is
//! consumed).  Because the feedback chain depends only on the key and the
//! IV, the identical procedure both encrypts and decrypts.

use vstd::prelude::*;
use vstd::string::StringExecFns;
use crate::block::{aes_encrypt_block_with_log, encrypt_block};
use crate::key::{expanded_key, AesKey};

verus! {

/// Keystream block n: the (n+1)-fold encryption of the IV under the
/// expanded key `ks`.
pub open spec fn keystream_block(ks: Seq<u8>, iv: Seq<u8>, n: int) -> Seq<u8>
    decreases n,
{
    if n <= 0 {
        encrypt_block(iv, ks)
    } else {
        encrypt_block(keystream_block(ks, iv, n - 1), ks)
    }
}

/// Keystream byte i: byte i%16 of keystream block i/16.
pub open spec fn keystream_byte(ks: Seq<u8>, iv: Seq<u8>, i: int) -> u8 {
    keystream_block(ks, iv, i / 16)[i % 16]
}

/// The OFB transform of a whole buffer: byte i of the output is byte i of
/// the input XORed with keystream byte i.  Applying the transform to a
/// ciphertext under the same key and IV recovers the plaintext.
pub open spec fn ofb_mask(key: Seq<u8>, iv: Seq<u8>, data: Seq<u8>) -> Seq<u8> {
    Seq::new(data.len(), |i: int| data[i] ^ keystream_byte(expanded_key(key), iv, i))
}

/// Run the OFB transform over `input` under a 16-byte key and IV,
/// returning the output buffer (of the same length) together with a
/// human-readable trace of the key schedule and of every block encryption.
/// The same call serves encryption and decryption.
pub fn aes_ofb_process_with_log(key: &[u8; 16], iv: &[u8; 16], input: &[u8]) -> (r: (
    Vec<u8>,
    String,
))
    ensures
        r.0@ == ofb_mask(key@, iv@, input@),
{
    let ghost sched = expanded_key(key@);
    let (aes_key, key_log) = AesKey::expand_with_log(key);
    let mut log = key_log;
    let mut feedback: [u8; 16] = *iv;
    let mut out: Vec<u8> = Vec::new();
    let mut pos: usize = 0;
    while pos < input.len()
        invariant
            aes_key@ == sched,
            sched == expanded_key(key@),
            key@.len() == 16,
            iv@.len() == 16,
            pos <= input@.len(),
            out@.len() == pos,
            pos % 16 == 0 || pos == input@.len(),
            pos % 16 == 0 ==> ((pos == 0 ==> feedback@ == iv@) && (pos > 0 ==> feedback@
                == keystream_block(sched, iv@, pos / 16 - 1))),
            forall|i: int| 0 <= i < pos ==> out@[i] == (input@[i] ^ keystream_byte(
                sched,
                iv@,
                i,
            )),
        decreases input@.len() - pos,
    {
        let (kb, block_log) = aes_encrypt_block_with_log(&feedback, &aes_key);
        log.append(block_log.as_str());
        feedback = kb;
        proof {
            assert(feedback@ == keystream_block(sched, iv@, pos as int / 16));
        }
        let rem = input.len() - pos;
        let m = if rem < 16 {
            rem
        } else {
            16
        };
        let mut j: usize = 0;
        while j < m
            invariant
                j <= m,
                m <= 16,
                pos + m <= input@.len(),
                m == 16 || pos + m == input@.len(),
                pos % 16 == 0,
                out@.len() == pos + j,
                feedback@ == keystream_block(sched, iv@, pos as int / 16),
                feedback@.len() == 16,
                forall|i: int| 0 <= i < pos + j ==> out@[i] == (input@[i] ^ keystream_byte(
                    sched,
                    iv@,
                    i,
                )),
            decreases m - j,
        {
            let v = input[pos + j] ^ feedback[j];
            out.push(v);
            proof {
                assert((pos + j) as int / 16 == pos as int / 16 && (pos + j) as int % 16
                    == j as int);
            }
            j += 1;
        }
        pos = pos + m;
    }
    proof {
        assert(out@ =~= ofb_mask(key@, iv@, input@));
    }
    (out, log)
}

/// The one structured failure of the cipher core: key material (key or IV)
/// of the wrong length.
#[derive(Clone, Copy, Debug, PartialEq, Eq, Structural)]
pub enum CipherError {
    /// A key or IV that is not exactly 16 bytes long.
    InvalidKeyMaterial,
}

/// Encrypt (or equally decrypt) a buffer of arbitrary length in OFB mode.
/// A key or IV that is not exactly 16 bytes is rejected before any
/// processing; every 16-byte key and IV succeeds, whatever the input.
pub fn ofb_encrypt(key: &[u8], iv: &[u8], data: &[u8]) -> (r: Result<Vec<u8>, CipherError>)
    ensures
        (key@.len() == 16 && iv@.len() == 16) <==> r is Ok,
        r matches Ok(c) ==> c@ == ofb_mask(key@, iv@, data@),
        r matches Err(e) ==> e == CipherError::InvalidKeyMaterial,
{
    if key.len() != 16 || iv.len() != 16 {
        return Err(CipherError::InvalidKeyMaterial);
    }
    let mut k = [0u8; 16];
    let mut v = [0u8; 16];
    let mut i: usize = 0;
    while i < 16
        invariant
            i <= 16,
            key@.len() == 16,
            iv@.len() == 16,
            forall|j: int| 0 <= j < i ==> k@[j] == key@[j],
            forall|j: int| 0 <= j < i ==> v@[j] == iv@[j],
        decreases 16 - i,
    {
        k[i] = key[i];
        v[i] = iv[i];
        i += 1;
    }
    proof {
        assert(k@ =~= key@);
        assert(v@ =~= iv@);
    }
    let (out, _log) = aes_ofb_process_with_log(&k, &v, data);
    Ok(out)
}

/// Decrypt a buffer produced by `ofb_encrypt` under the same key and IV.
/// OFB decryption is the identical transform: the same keystream is
/// regenerated from the key and IV and XORed against the ciphertext.
pub fn ofb_decrypt(key: &[u8], iv: &[u8], data: &[u8]) -> (r: Result<Vec<u8>, CipherError>)
    ensures
        (key@.len() == 16 && iv@.len() == 16) <==> r is Ok,
        r matches Ok(p) ==> p@ == ofb_mask(key@, iv@, data@),
        r matches Err(e) ==> e == CipherError::InvalidKeyMaterial,
{
    ofb_encrypt(key, iv, data)
}

} // verus!
