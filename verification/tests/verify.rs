use k256::ecdsa::SigningKey;
use tee_integrity::api::{Signature, TEERequest, TEEResponse};
use tee_integrity::error::TEEError;
use tee_integrity::hash::digest;
use tee_integrity::verify::{address_from_hash, address_of_key, check_signer, same_address};

fn unhex(text: &str) -> Vec<u8> {
    let digits: Vec<u8> = text.bytes().map(|c| (c as char).to_digit(16).unwrap() as u8).collect();
    digits.chunks(2).map(|pair| pair[0] * 16 + pair[1]).collect()
}

fn test_key() -> SigningKey {
    let secret = unhex("ac0974bec39a17e36ba4a6b4d238ff944bacb478cbed5efcae784d7bf4f2ff80");
    SigningKey::from_slice(&secret).unwrap()
}

fn raw_public_key(key: &SigningKey) -> [u8; 64] {
    let point = key.verifying_key().to_encoded_point(false);
    let mut raw = [0u8; 64];
    raw.copy_from_slice(&point.as_bytes()[1..]);
    raw
}

fn address_of(key: &SigningKey) -> [u8; 20] {
    let address = alloy_primitives::Address::from_raw_public_key(&raw_public_key(key));
    let mut out = [0u8; 20];
    out.copy_from_slice(address.as_slice());
    out
}

fn sign(key: &SigningKey, vkey: [u8; 32], public_values: Vec<u8>) -> TEEResponse {
    let prehash = digest(&vkey, &public_values);
    let (signature, recovery_id) = key.sign_prehash_recoverable(&prehash).unwrap();
    let (r, s) = signature.split_bytes();
    TEEResponse {
        vkey,
        public_values,
        signature: Signature { r: r.into(), s: s.into() },
        recovery_id: recovery_id.to_byte(),
    }
}

fn sample() -> TEEResponse {
    sign(&test_key(), [0x42u8; 32], vec![0xde, 0xad, 0xbe, 0xef, 0x01, 0x02])
}

fn is_rejection(result: &Result<(), TEEError>) -> bool {
    matches!(result, Err(TEEError::SignatureRecoveryFailure) | Err(TEEError::AddressMismatch))
}

#[test]
fn address_of_a_known_key() {
    let expected = unhex("f39fd6e51aad88f6f4ce6ab8827279cfffb92266");
    assert_eq!(address_of_key(&raw_public_key(&test_key())).as_slice(), expected.as_slice());
}

#[test]
fn address_of_the_key_one() {
    let mut secret = [0u8; 32];
    secret[31] = 1;
    let key = SigningKey::from_slice(&secret).unwrap();
    let expected = unhex("7e5f4552091a69125d5dfcb7b8c2659029395bdf");
    assert_eq!(address_of_key(&raw_public_key(&key)).as_slice(), expected.as_slice());
}

#[test]
fn address_of_key_agrees_with_alloy() {
    let key = test_key();
    assert_eq!(address_of_key(&raw_public_key(&key)), address_of(&key));
}

#[test]
fn address_from_hash_takes_the_last_twenty_bytes() {
    let mut hash = [0u8; 32];
    for i in 0..32 {
        hash[i] = i as u8;
    }
    let expected: Vec<u8> = (12..32u8).collect();
    assert_eq!(address_from_hash(&hash).as_slice(), expected.as_slice());
}

#[test]
fn same_address_compares_every_byte() {
    let a = [5u8; 20];
    assert!(same_address(&a, &a));
    for i in 0..20 {
        let mut b = a;
        b[i] ^= 1;
        assert!(!same_address(&a, &b));
    }
}

#[test]
fn check_signer_tells_the_three_outcomes() {
    let trusted = [1u8; 20];
    assert_eq!(check_signer(Some(trusted), &trusted), Ok(()));
    assert_eq!(check_signer(Some([2u8; 20]), &trusted), Err(TEEError::AddressMismatch));
    assert_eq!(check_signer(None, &trusted), Err(TEEError::SignatureRecoveryFailure));
}

#[test]
fn signed_response_verifies_and_recovers_the_signer() {
    let key = test_key();
    let response = sample();
    let signer = address_of(&key);
    assert_eq!(signer.as_slice(), unhex("f39fd6e51aad88f6f4ce6ab8827279cfffb92266").as_slice());
    assert_eq!(response.recover_signer(), Ok(signer));
    assert_eq!(response.verify(&signer), Ok(()));
}

#[test]
fn verification_does_not_change_the_response() {
    let response = sample();
    let before = response.clone();
    let _ = response.verify(&address_of(&test_key()));
    assert_eq!(response, before);
}

#[test]
fn another_trusted_address_is_a_mismatch() {
    let response = sample();
    let mut other = address_of(&test_key());
    other[0] ^= 0xff;
    assert_eq!(response.verify(&other), Err(TEEError::AddressMismatch));
    assert_eq!(response.verify(&[0u8; 20]), Err(TEEError::AddressMismatch));
}

#[test]
fn response_signed_by_another_key_is_a_mismatch() {
    let mut secret = [0u8; 32];
    secret[31] = 1;
    let other = SigningKey::from_slice(&secret).unwrap();
    let response = sign(&other, [0x42u8; 32], vec![1, 2, 3]);
    assert_eq!(response.verify(&address_of(&test_key())), Err(TEEError::AddressMismatch));
    assert_eq!(response.verify(&address_of(&other)), Ok(()));
}

#[test]
fn recovery_id_out_of_range_is_a_recovery_failure() {
    let signer = address_of(&test_key());
    for recovery_id in [2u8, 3, 4, 27, 28, 255] {
        let mut response = sample();
        response.recovery_id = recovery_id;
        assert_eq!(response.recover_signer(), Err(TEEError::SignatureRecoveryFailure));
        assert_eq!(response.verify(&signer), Err(TEEError::SignatureRecoveryFailure));
    }
}

#[test]
fn zero_scalars_are_a_recovery_failure() {
    let signer = address_of(&test_key());
    let mut response = sample();
    response.signature.r = [0u8; 32];
    assert_eq!(response.verify(&signer), Err(TEEError::SignatureRecoveryFailure));
    let mut response = sample();
    response.signature.s = [0u8; 32];
    assert_eq!(response.verify(&signer), Err(TEEError::SignatureRecoveryFailure));
}

#[test]
fn scalars_above_the_group_order_are_a_recovery_failure() {
    let signer = address_of(&test_key());
    let mut response = sample();
    response.signature.r = [0xffu8; 32];
    assert_eq!(response.verify(&signer), Err(TEEError::SignatureRecoveryFailure));
    let mut response = sample();
    response.signature.s = [0xffu8; 32];
    assert_eq!(response.verify(&signer), Err(TEEError::SignatureRecoveryFailure));
}

#[test]
fn flipping_any_byte_of_vkey_fails_verification() {
    let signer = address_of(&test_key());
    for i in 0..32 {
        let mut response = sample();
        response.vkey[i] ^= 0x01;
        assert!(is_rejection(&response.verify(&signer)), "vkey byte {}", i);
    }
}

#[test]
fn flipping_any_byte_of_public_values_fails_verification() {
    let signer = address_of(&test_key());
    let len = sample().public_values.len();
    for i in 0..len {
        let mut response = sample();
        response.public_values[i] ^= 0x80;
        assert!(is_rejection(&response.verify(&signer)), "public values byte {}", i);
    }
}

#[test]
fn flipping_any_byte_of_r_fails_verification() {
    let signer = address_of(&test_key());
    for i in 0..32 {
        let mut response = sample();
        response.signature.r[i] ^= 0x01;
        assert!(is_rejection(&response.verify(&signer)), "r byte {}", i);
    }
}

#[test]
fn flipping_any_byte_of_s_fails_verification() {
    let signer = address_of(&test_key());
    for i in 0..32 {
        let mut response = sample();
        response.signature.s[i] ^= 0x01;
        assert!(is_rejection(&response.verify(&signer)), "s byte {}", i);
    }
}

#[test]
fn toggling_the_recovery_id_fails_verification() {
    let signer = address_of(&test_key());
    let mut response = sample();
    assert!(response.recovery_id <= 1);
    response.recovery_id ^= 1;
    assert!(is_rejection(&response.verify(&signer)));
}

#[test]
fn appending_to_public_values_fails_verification() {
    let signer = address_of(&test_key());
    let mut response = sample();
    response.public_values.push(0);
    assert!(is_rejection(&response.verify(&signer)));
}

#[test]
fn verified_prefix_is_the_prefix_of_an_authentic_response() {
    let signer = address_of(&test_key());
    let response = sample();
    assert_eq!(response.verified_prefix(&signer), Ok(response.as_prefix_bytes()));
}

#[test]
fn verified_prefix_gives_no_bytes_for_a_forged_response() {
    let signer = address_of(&test_key());
    let mut response = sample();
    response.public_values[0] ^= 1;
    assert!(matches!(
        response.verified_prefix(&signer),
        Err(TEEError::SignatureRecoveryFailure) | Err(TEEError::AddressMismatch)
    ));
    let mut response = sample();
    response.recovery_id = 9;
    assert_eq!(response.verified_prefix(&signer), Err(TEEError::SignatureRecoveryFailure));
}

#[test]
fn request_for_a_program_is_answered_by_a_verifiable_response() {
    let request = TEERequest { id: [0u8; 32], program: b"p".to_vec(), stdin: Vec::new() };
    assert_eq!(request.id, [0u8; 32]);
    let key = test_key();
    let response = sign(&key, [0x17u8; 32], b"public".to_vec());
    assert_eq!(response.recover_signer(), Ok(address_of(&key)));
    let prefix = response.as_prefix_bytes();
    assert_eq!(prefix.len(), 69);
    let expected = alloy_primitives::keccak256("SP1TeeVerifier");
    assert_eq!(&prefix[0..4], &expected.as_slice()[0..4]);
}

#[test]
fn signature_validity_agrees_with_k256() {
    let order = unhex("fffffffffffffffffffffffffffffffebaaedce6af48a03bbfd25e8cd0364141");
    let mut below = order.clone();
    below[31] -= 1;
    let mut above = order.clone();
    above[31] += 1;
    let mut one = vec![0u8; 32];
    one[31] = 1;
    let mut high_byte = vec![0u8; 32];
    high_byte[0] = 1;
    let mut near = order.clone();
    near[15] = 0xff;
    let scalars: Vec<Vec<u8>> =
        vec![vec![0u8; 32], one, high_byte, below, order, above, near, vec![0xffu8; 32], vec![0x7fu8; 32]];
    for r in &scalars {
        for s in &scalars {
            let mut signature = Signature { r: [0u8; 32], s: [0u8; 32] };
            signature.r.copy_from_slice(r);
            signature.s.copy_from_slice(s);
            let expected = k256::ecdsa::Signature::from_scalars(signature.r, signature.s).is_ok();
            assert_eq!(signature.is_valid(), expected, "r = {:02x?}, s = {:02x?}", r, s);
        }
    }
}

#[test]
fn signed_response_has_a_valid_signature() {
    assert!(sample().signature.is_valid());
}

#[test]
fn the_order_of_the_group_is_a_recovery_failure() {
    let signer = address_of(&test_key());
    let order = unhex("fffffffffffffffffffffffffffffffebaaedce6af48a03bbfd25e8cd0364141");
    let mut response = sample();
    response.signature.s.copy_from_slice(&order);
    assert!(!response.signature.is_valid());
    assert_eq!(response.verify(&signer), Err(TEEError::SignatureRecoveryFailure));
}

#[test]
fn mirrored_signature_is_rejected() {
    // The same signature with `s` replaced by the order of the group less `s`,
    // and the other recovery id.
    let signer = address_of(&test_key());
    let order = unhex("fffffffffffffffffffffffffffffffebaaedce6af48a03bbfd25e8cd0364141");
    let mut response = sample();
    let mut borrow = 0i16;
    for i in (0..32).rev() {
        let mut byte = order[i] as i16 - response.signature.s[i] as i16 - borrow;
        borrow = 0;
        if byte < 0 {
            byte += 256;
            borrow = 1;
        }
        response.signature.s[i] = byte as u8;
    }
    response.recovery_id ^= 1;
    assert!(response.signature.is_valid());
    assert!(is_rejection(&response.verify(&signer)));
}
