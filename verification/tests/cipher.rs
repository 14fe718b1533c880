use aes_ofb::block::aes_encrypt_block_with_log;
use aes_ofb::key::AesKey;
use aes_ofb::ofb::{aes_ofb_process_with_log, ofb_decrypt, ofb_encrypt, CipherError};

fn unhex(s: &str) -> Vec<u8> {
    let digits: Vec<u32> = s.chars().map(|c| c.to_digit(16).unwrap()).collect();
    digits.chunks(2).map(|p| (p[0] * 16 + p[1]) as u8).collect()
}

fn key16(s: &str) -> [u8; 16] {
    let v = unhex(s);
    let mut a = [0u8; 16];
    a.copy_from_slice(&v);
    a
}

#[test]
fn known_answer_single_block() {
    // The FIPS-197 style single-block vector: raw cipher, not OFB.
    let key = key16("000102030405060708090a0b0c0d0e0f");
    let block = key16("00112233445566778899aabbccddeeff");
    let (schedule, _log) = AesKey::expand_with_log(&key);
    let (cipher, _log) = aes_encrypt_block_with_log(&block, &schedule);
    assert_eq!(cipher.to_vec(), unhex("69c4e0d86a7b0430d8cdb78070b4c55a"));
}

#[test]
fn known_answer_final_round_key() {
    let key = key16("000102030405060708090a0b0c0d0e0f");
    let (schedule, _log) = AesKey::expand_with_log(&key);
    assert_eq!(
        schedule.round_key(10).to_vec(),
        unhex("13111d7fe3944a17f307a78b4d2b30c5")
    );
}

#[test]
fn known_answer_ofb_stream() {
    // OFB mode vector: two full blocks under a published key and IV.
    let key = unhex("2b7e151628aed2a6abf7158809cf4f3c");
    let iv = unhex("000102030405060708090a0b0c0d0e0f");
    let plaintext = unhex(
        "6bc1bee22e409f96e93d7e117393172aae2d8a571e03ac9c9eb76fac45af8e51",
    );
    let ciphertext = ofb_encrypt(&key, &iv, &plaintext).unwrap();
    assert_eq!(
        ciphertext,
        unhex("3b3fd92eb72dad20333449f8e83cfb4a7789508d16918f03f53c52dac54ed825")
    );
}

#[test]
fn round_trip_various_lengths() {
    let key = unhex("2b7e151628aed2a6abf7158809cf4f3c");
    let iv = unhex("f0f1f2f3f4f5f6f7f8f9fafbfcfdfeff");
    for len in [0usize, 1, 15, 16, 17, 20, 32, 100] {
        let plaintext: Vec<u8> = (0..len).map(|i| (i * 37 + 11) as u8).collect();
        let ciphertext = ofb_encrypt(&key, &iv, &plaintext).unwrap();
        assert_eq!(ciphertext.len(), plaintext.len());
        let recovered = ofb_decrypt(&key, &iv, &ciphertext).unwrap();
        assert_eq!(recovered, plaintext);
    }
}

#[test]
fn encryption_is_deterministic() {
    let key = unhex("000102030405060708090a0b0c0d0e0f");
    let iv = unhex("101112131415161718191a1b1c1d1e1f");
    let plaintext = b"the same bytes in, the same bytes out".to_vec();
    let c1 = ofb_encrypt(&key, &iv, &plaintext).unwrap();
    let c2 = ofb_encrypt(&key, &iv, &plaintext).unwrap();
    assert_eq!(c1, c2);
}

#[test]
fn keystream_independent_of_content() {
    // output XOR input recovers the keystream, which must not depend on
    // the processed bytes.
    let key = unhex("000102030405060708090a0b0c0d0e0f");
    let iv = unhex("101112131415161718191a1b1c1d1e1f");
    let p1: Vec<u8> = (0..40).map(|i| i as u8).collect();
    let p2: Vec<u8> = (0..40).map(|i| (255 - i) as u8).collect();
    let c1 = ofb_encrypt(&key, &iv, &p1).unwrap();
    let c2 = ofb_encrypt(&key, &iv, &p2).unwrap();
    for i in 0..40 {
        assert_eq!(c1[i] ^ p1[i], c2[i] ^ p2[i]);
    }
}

#[test]
fn short_tail_handling() {
    // One full block plus 4 bytes: the first 16 output bytes equal the
    // output of an independent run over the 16-byte prefix, and the final
    // 4 bytes are the XOR of the second keystream block's first 4 bytes
    // against the trailing plaintext bytes.
    let key = key16("000102030405060708090a0b0c0d0e0f");
    let iv = key16("000102030405060708090a0b0c0d0e0f");
    let plaintext: Vec<u8> = (100..120).map(|i| i as u8).collect();
    let (ciphertext, _log) = aes_ofb_process_with_log(&key, &iv, &plaintext);
    assert_eq!(ciphertext.len(), 20);

    let (prefix_cipher, _log) = aes_ofb_process_with_log(&key, &iv, &plaintext[..16]);
    assert_eq!(&ciphertext[..16], &prefix_cipher[..]);

    let (schedule, _log) = AesKey::expand_with_log(&key);
    let (ks1, _log) = aes_encrypt_block_with_log(&iv, &schedule);
    let (ks2, _log) = aes_encrypt_block_with_log(&ks1, &schedule);
    for i in 0..4 {
        assert_eq!(ciphertext[16 + i], plaintext[16 + i] ^ ks2[i]);
    }
}

#[test]
fn zero_length_input() {
    let key = key16("000102030405060708090a0b0c0d0e0f");
    let iv = key16("101112131415161718191a1b1c1d1e1f");
    let (ciphertext, _log) = aes_ofb_process_with_log(&key, &iv, &[]);
    assert!(ciphertext.is_empty());
    let checked = ofb_encrypt(&key, &iv, &[]).unwrap();
    assert!(checked.is_empty());
}

#[test]
fn key_schedule_is_stable() {
    let key = key16("2b7e151628aed2a6abf7158809cf4f3c");
    let (s1, _log) = AesKey::expand_with_log(&key);
    let (s2, _log) = AesKey::expand_with_log(&key);
    for round in 0..11 {
        assert_eq!(s1.round_key(round), s2.round_key(round));
    }
}

#[test]
fn wrong_key_length_is_rejected() {
    let iv = unhex("101112131415161718191a1b1c1d1e1f");
    let data = b"abc".to_vec();
    let short_key = vec![0u8; 15];
    let long_key = vec![0u8; 17];
    assert_eq!(
        ofb_encrypt(&short_key, &iv, &data),
        Err(CipherError::InvalidKeyMaterial)
    );
    assert_eq!(
        ofb_decrypt(&long_key, &iv, &data),
        Err(CipherError::InvalidKeyMaterial)
    );
}

#[test]
fn wrong_iv_length_is_rejected() {
    let key = unhex("000102030405060708090a0b0c0d0e0f");
    let data = b"abc".to_vec();
    let short_iv = vec![0u8; 8];
    let empty_iv: Vec<u8> = Vec::new();
    assert_eq!(
        ofb_encrypt(&key, &short_iv, &data),
        Err(CipherError::InvalidKeyMaterial)
    );
    assert_eq!(
        ofb_decrypt(&key, &empty_iv, &data),
        Err(CipherError::InvalidKeyMaterial)
    );
}

#[test]
fn checked_api_matches_logged_api() {
    let key = key16("2b7e151628aed2a6abf7158809cf4f3c");
    let iv = key16("f0f1f2f3f4f5f6f7f8f9fafbfcfdfeff");
    let data: Vec<u8> = (0..50).map(|i| (i * 7) as u8).collect();
    let (logged, log) = aes_ofb_process_with_log(&key, &iv, &data);
    let checked = ofb_encrypt(&key, &iv, &data).unwrap();
    assert_eq!(logged, checked);
    assert!(!log.is_empty());
}
