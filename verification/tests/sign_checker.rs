use nonce_airdrop::address::Address;
use nonce_airdrop::encoding::to_hex;
use nonce_airdrop::payload::build_payload;
use nonce_airdrop::sign_checker::{sign_data, signature_array, verdict, verify_sign, SignCheckError};
use solana_sdk::signature::Signer;
use solana_sdk::signer::keypair::keypair_from_seed;

const ZERO: &str = "11111111111111111111111111111111";
const MINT: &str = "TokenkegQfeZyiNwAJbNbGKPFXCWuBvf9Ss623VQ5DA";
const USER: &str = "4U17W5WH9JJQZK9HcZaD9mYhWehhBSyymAoG6gMYj5CW";
const PROJECT: &str = "GMznVrvA9P4WfBzJPWq92BWmsBMQUo6pb8B7CMSvgX9n";
const BUSINESS: &str = "GaHqnnZv2CeZYEA23V1zGuADSFhWnJZSmFzLeje1H2T1";

#[test]
fn sign_data_of_zero_addresses() {
    let text = sign_data(0, 1000, ZERO, ZERO, ZERO, ZERO).unwrap();
    let expected = format!("{}{}{}", "00000000", "e803000000000000", "0".repeat(256));
    assert_eq!(text.len(), 280);
    assert_eq!(text, expected);
}

#[test]
fn sign_data_is_the_hex_of_the_payload() {
    let text = sign_data(7, u64::MAX, MINT, USER, PROJECT, BUSINESS).unwrap();
    let payload = build_payload(
        7,
        u64::MAX,
        &Address::from_base58(MINT).unwrap(),
        &Address::from_base58(USER).unwrap(),
        &Address::from_base58(PROJECT).unwrap(),
        &Address::from_base58(BUSINESS).unwrap(),
    );
    assert_eq!(text, to_hex(&payload));
    assert!(text.starts_with("07000000ffffffffffffffff06ddf6e1d765a193"));
}

#[test]
fn sign_data_names_the_first_address_that_does_not_parse() {
    assert_eq!(
        sign_data(0, 0, "bad", "bad", "bad", "bad"),
        Err(SignCheckError::InvalidMintAddress)
    );
    assert_eq!(
        sign_data(0, 0, MINT, "bad", "bad", "bad"),
        Err(SignCheckError::InvalidUserAddress)
    );
    assert_eq!(
        sign_data(0, 0, MINT, USER, "", BUSINESS),
        Err(SignCheckError::InvalidAirdropProjectAddress)
    );
    assert_eq!(
        sign_data(0, 0, MINT, USER, PROJECT, "0000"),
        Err(SignCheckError::InvalidNonceBusinessProjectAddress)
    );
}

#[test]
fn round_trip_passes_and_a_flipped_signature_byte_fails() {
    let keypair = keypair_from_seed(&[42u8; 32]).unwrap();
    let pk = keypair.pubkey().to_string();
    let text = sign_data(3, 1000, MINT, USER, PROJECT, BUSINESS).unwrap();
    let payload = hex::decode(&text).unwrap();
    let signature: [u8; 64] = keypair.sign_message(&payload).into();
    let signature_text = hex::encode(signature);
    assert_eq!(verify_sign(&text, &signature_text, &pk), Ok(true));
    assert_eq!(verdict(verify_sign(&text, &signature_text, &pk).unwrap()), "pass");
    for at in 0..64 {
        let mut flipped = signature;
        flipped[at] ^= 0x01;
        let flipped_text = hex::encode(flipped);
        assert_eq!(verify_sign(&text, &flipped_text, &pk), Ok(false), "byte {}", at);
    }
    let mut flipped = signature;
    flipped[10] ^= 0x80;
    assert_eq!(verdict(verify_sign(&text, &hex::encode(flipped), &pk).unwrap()), "failed");
}

#[test]
fn verify_sign_fails_for_another_payload_or_key() {
    let keypair = keypair_from_seed(&[42u8; 32]).unwrap();
    let other = keypair_from_seed(&[43u8; 32]).unwrap();
    let text = sign_data(3, 1000, MINT, USER, PROJECT, BUSINESS).unwrap();
    let payload = hex::decode(&text).unwrap();
    let signature: [u8; 64] = keypair.sign_message(&payload).into();
    let signature_text = hex::encode(signature);
    let other_text = sign_data(4, 1000, MINT, USER, PROJECT, BUSINESS).unwrap();
    assert_eq!(
        verify_sign(&other_text, &signature_text, &keypair.pubkey().to_string()),
        Ok(false)
    );
    assert_eq!(
        verify_sign(&text, &signature_text, &other.pubkey().to_string()),
        Ok(false)
    );
    assert_eq!(
        verify_sign(&text.to_uppercase(), &signature_text.to_uppercase(), &keypair.pubkey().to_string()),
        Ok(true)
    );
}

#[test]
fn verify_sign_names_the_first_argument_that_cannot_be_read() {
    let good_signature = "00".repeat(64);
    assert_eq!(verify_sign("zz", "zz", "bad"), Err(SignCheckError::InvalidPk));
    assert_eq!(verify_sign("zz", "zz", ZERO), Err(SignCheckError::DecodeSignatureFailed));
    assert_eq!(verify_sign("zz", "abc", ZERO), Err(SignCheckError::DecodeSignatureFailed));
    assert_eq!(verify_sign("zz", "abcd", ZERO), Err(SignCheckError::InvalidSignature));
    assert_eq!(
        verify_sign("zz", &"00".repeat(65), ZERO),
        Err(SignCheckError::InvalidSignature)
    );
    assert_eq!(verify_sign("zz", "", ZERO), Err(SignCheckError::InvalidSignature));
    assert_eq!(
        verify_sign("zz", &good_signature, ZERO),
        Err(SignCheckError::DecodeSignDataFailed)
    );
    assert_eq!(
        verify_sign("012", &good_signature, ZERO),
        Err(SignCheckError::DecodeSignDataFailed)
    );
    assert_eq!(verify_sign("", &good_signature, USER), Ok(false));
}

#[test]
fn signature_array_takes_exactly_sixty_four_bytes() {
    let bytes: Vec<u8> = (0..64).collect();
    let array = signature_array(&bytes).unwrap();
    assert_eq!(array.to_vec(), bytes);
    assert_eq!(signature_array(&bytes[..63].to_vec()), None);
    assert_eq!(signature_array(&vec![0; 65]), None);
    assert_eq!(signature_array(&Vec::new()), None);
}

#[test]
fn verdict_words() {
    assert_eq!(verdict(true), "pass");
    assert_eq!(verdict(false), "failed");
}
