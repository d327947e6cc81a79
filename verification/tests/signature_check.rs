use nonce_airdrop::address::Address;
use nonce_airdrop::programs::{ed25519_program, token_program};
use nonce_airdrop::runtime::{AccountMeta, Instruction, InstructionsSysvar};
use nonce_airdrop::solana_airdrop::signature_check::verify_sign_data_used_by_ed25519_program;
use nonce_airdrop::solana_airdrop::AirdropErrors;

fn canonical_data(key: &[u8], signature: &[u8], message: &[u8]) -> Vec<u8> {
    let mut data = vec![1u8, 0u8];
    data.extend_from_slice(&((16 + key.len()) as u16).to_le_bytes());
    data.extend_from_slice(&u16::MAX.to_le_bytes());
    data.extend_from_slice(&16u16.to_le_bytes());
    data.extend_from_slice(&u16::MAX.to_le_bytes());
    data.extend_from_slice(&((16 + key.len() + signature.len()) as u16).to_le_bytes());
    data.extend_from_slice(&(message.len() as u16).to_le_bytes());
    data.extend_from_slice(&u16::MAX.to_le_bytes());
    data.extend_from_slice(key);
    data.extend_from_slice(signature);
    data.extend_from_slice(message);
    data
}

fn bundle_with(data: Vec<u8>) -> InstructionsSysvar {
    InstructionsSysvar {
        current_index: 1,
        instructions: vec![
            Instruction { program_id: ed25519_program(), accounts: Vec::new(), data },
            Instruction { program_id: Address::new([9; 32]), accounts: Vec::new(), data: Vec::new() },
        ],
    }
}

fn sample() -> (Vec<u8>, Vec<u8>, Vec<u8>) {
    let key: Vec<u8> = (0..32).collect();
    let signature: Vec<u8> = (100..164).collect();
    let message: Vec<u8> = (0..140).map(|i| (i * 3 % 251) as u8).collect();
    (key, signature, message)
}

#[test]
fn canonical_signature_check_is_accepted() {
    let (key, signature, message) = sample();
    let data = canonical_data(&key, &signature, &message);
    assert_eq!(data.len(), 16 + 64 + 32 + 140);
    assert_eq!(&data[..16], &[1, 0, 48, 0, 255, 255, 16, 0, 255, 255, 112, 0, 140, 0, 255, 255]);
    let bundle = bundle_with(data);
    assert_eq!(
        verify_sign_data_used_by_ed25519_program(&bundle, &message, &signature, &key),
        Ok(())
    );
}

#[test]
fn empty_message_is_accepted_when_canonical() {
    let (key, signature, _) = sample();
    let bundle = bundle_with(canonical_data(&key, &signature, &[]));
    assert_eq!(verify_sign_data_used_by_ed25519_program(&bundle, &[], &signature, &key), Ok(()));
}

#[test]
fn claim_placed_first_misses_its_companion() {
    let (key, signature, message) = sample();
    let mut bundle = bundle_with(canonical_data(&key, &signature, &message));
    bundle.current_index = 0;
    assert_eq!(
        verify_sign_data_used_by_ed25519_program(&bundle, &message, &signature, &key),
        Err(AirdropErrors::MissingEd25519Instruction)
    );
    let empty = InstructionsSysvar { current_index: 0, instructions: Vec::new() };
    assert_eq!(
        verify_sign_data_used_by_ed25519_program(&empty, &message, &signature, &key),
        Err(AirdropErrors::MissingEd25519Instruction)
    );
}

#[test]
fn position_beyond_the_bundle_misses_its_companion() {
    let (key, signature, message) = sample();
    let mut bundle = bundle_with(canonical_data(&key, &signature, &message));
    bundle.current_index = 3;
    assert_eq!(
        verify_sign_data_used_by_ed25519_program(&bundle, &message, &signature, &key),
        Err(AirdropErrors::MissingEd25519Instruction)
    );
    bundle.current_index = u16::MAX;
    assert_eq!(
        verify_sign_data_used_by_ed25519_program(&bundle, &message, &signature, &key),
        Err(AirdropErrors::MissingEd25519Instruction)
    );
}

#[test]
fn only_the_instruction_immediately_before_counts() {
    let (key, signature, message) = sample();
    let good = Instruction {
        program_id: ed25519_program(),
        accounts: Vec::new(),
        data: canonical_data(&key, &signature, &message),
    };
    let other = Instruction { program_id: token_program(), accounts: Vec::new(), data: vec![1, 2, 3] };
    let bundle = InstructionsSysvar {
        current_index: 2,
        instructions: vec![good.clone(), other.clone(), other.clone()],
    };
    assert_eq!(
        verify_sign_data_used_by_ed25519_program(&bundle, &message, &signature, &key),
        Err(AirdropErrors::InvalidEd25519Instruction)
    );
    let bundle = InstructionsSysvar { current_index: 2, instructions: vec![other.clone(), good, other] };
    assert_eq!(
        verify_sign_data_used_by_ed25519_program(&bundle, &message, &signature, &key),
        Ok(())
    );
}

#[test]
fn another_program_is_an_invalid_companion() {
    let (key, signature, message) = sample();
    let mut bundle = bundle_with(canonical_data(&key, &signature, &message));
    bundle.instructions[0].program_id = token_program();
    assert_eq!(
        verify_sign_data_used_by_ed25519_program(&bundle, &message, &signature, &key),
        Err(AirdropErrors::InvalidEd25519Instruction)
    );
}

#[test]
fn a_companion_with_accounts_is_invalid() {
    let (key, signature, message) = sample();
    let mut bundle = bundle_with(canonical_data(&key, &signature, &message));
    bundle.instructions[0].accounts.push(AccountMeta {
        pubkey: Address::new([1; 32]),
        is_signer: false,
        is_writable: false,
    });
    assert_eq!(
        verify_sign_data_used_by_ed25519_program(&bundle, &message, &signature, &key),
        Err(AirdropErrors::InvalidEd25519Instruction)
    );
}

#[test]
fn data_of_another_length_is_an_invalid_companion() {
    let (key, signature, message) = sample();
    let mut longer = canonical_data(&key, &signature, &message);
    longer.push(0);
    assert_eq!(
        verify_sign_data_used_by_ed25519_program(&bundle_with(longer), &message, &signature, &key),
        Err(AirdropErrors::InvalidEd25519Instruction)
    );
    let mut shorter = canonical_data(&key, &signature, &message);
    shorter.pop();
    assert_eq!(
        verify_sign_data_used_by_ed25519_program(&bundle_with(shorter), &message, &signature, &key),
        Err(AirdropErrors::InvalidEd25519Instruction)
    );
    for short in [Vec::new(), vec![1u8], vec![1u8; 15], vec![1u8; 79]] {
        assert_eq!(
            verify_sign_data_used_by_ed25519_program(&bundle_with(short), &message, &signature, &key),
            Err(AirdropErrors::InvalidEd25519Instruction)
        );
    }
}

#[test]
fn message_length_field_that_disagrees_is_rejected() {
    let (key, signature, message) = sample();
    let mut data = canonical_data(&key, &signature, &message);
    data[12] = 139;
    assert_eq!(
        verify_sign_data_used_by_ed25519_program(&bundle_with(data), &message, &signature, &key),
        Err(AirdropErrors::SigVerificationFailed)
    );
    let mut data = canonical_data(&key, &signature, &message);
    data[13] = 1;
    assert_eq!(
        verify_sign_data_used_by_ed25519_program(&bundle_with(data), &message, &signature, &key),
        Err(AirdropErrors::SigVerificationFailed)
    );
}

#[test]
fn every_header_byte_is_checked() {
    let (key, signature, message) = sample();
    for at in 0..16 {
        let mut data = canonical_data(&key, &signature, &message);
        data[at] ^= 0x01;
        assert_eq!(
            verify_sign_data_used_by_ed25519_program(&bundle_with(data), &message, &signature, &key),
            Err(AirdropErrors::SigVerificationFailed),
            "header byte {}",
            at
        );
    }
}

#[test]
fn every_argument_byte_is_checked() {
    let (key, signature, message) = sample();
    let len = canonical_data(&key, &signature, &message).len();
    for at in 16..len {
        let mut data = canonical_data(&key, &signature, &message);
        data[at] ^= 0x80;
        assert_eq!(
            verify_sign_data_used_by_ed25519_program(&bundle_with(data), &message, &signature, &key),
            Err(AirdropErrors::SigVerificationFailed),
            "byte {}",
            at
        );
    }
}

#[test]
fn expected_key_signature_and_message_must_be_the_embedded_ones() {
    let (key, signature, message) = sample();
    let bundle = bundle_with(canonical_data(&key, &signature, &message));
    let mut other_key = key.clone();
    other_key[0] ^= 1;
    assert_eq!(
        verify_sign_data_used_by_ed25519_program(&bundle, &message, &signature, &other_key),
        Err(AirdropErrors::SigVerificationFailed)
    );
    let mut other_signature = signature.clone();
    other_signature[63] ^= 1;
    assert_eq!(
        verify_sign_data_used_by_ed25519_program(&bundle, &message, &other_signature, &key),
        Err(AirdropErrors::SigVerificationFailed)
    );
    let mut other_message = message.clone();
    other_message[70] ^= 1;
    assert_eq!(
        verify_sign_data_used_by_ed25519_program(&bundle, &other_message, &signature, &key),
        Err(AirdropErrors::SigVerificationFailed)
    );
}

#[test]
fn signature_of_another_length_is_rejected() {
    let (key, signature, message) = sample();
    let bundle = bundle_with(canonical_data(&key, &signature, &message));
    assert_eq!(
        verify_sign_data_used_by_ed25519_program(&bundle, &message, &signature[..63], &key),
        Err(AirdropErrors::SigVerificationFailed)
    );
    assert_eq!(
        verify_sign_data_used_by_ed25519_program(&bundle, &message, &[], &key),
        Err(AirdropErrors::SigVerificationFailed)
    );
    let long: Vec<u8> = vec![0; 65];
    let shifted = canonical_data(&key, &long, &message[1..]);
    assert_eq!(shifted.len(), 16 + 64 + 32 + 140);
    assert_eq!(
        verify_sign_data_used_by_ed25519_program(&bundle_with(shifted), &message, &long, &key),
        Err(AirdropErrors::SigVerificationFailed)
    );
    let huge: Vec<u8> = vec![0; 100_000];
    assert_eq!(
        verify_sign_data_used_by_ed25519_program(&bundle, &message, &huge, &key),
        Err(AirdropErrors::SigVerificationFailed)
    );
}

#[test]
fn lengths_are_traded_between_key_and_message_only_as_invalid_or_failed() {
    let (key, signature, message) = sample();
    let bundle = bundle_with(canonical_data(&key, &signature, &message));
    let mut joined = key.clone();
    joined.push(signature[0]);
    assert_eq!(
        verify_sign_data_used_by_ed25519_program(&bundle, &message[1..], &signature, &joined),
        Err(AirdropErrors::SigVerificationFailed)
    );
    assert_eq!(
        verify_sign_data_used_by_ed25519_program(&bundle, &message, &signature, &key[..31]),
        Err(AirdropErrors::InvalidEd25519Instruction)
    );
}

#[test]
fn message_too_long_for_the_length_field_is_rejected() {
    let (key, signature, _) = sample();
    let message = vec![7u8; 65_536];
    let mut data = vec![1u8, 0, 48, 0, 255, 255, 16, 0, 255, 255, 112, 0, 0, 0, 255, 255];
    data.extend_from_slice(&key);
    data.extend_from_slice(&signature);
    data.extend_from_slice(&message);
    assert_eq!(
        verify_sign_data_used_by_ed25519_program(&bundle_with(data), &message, &signature, &key),
        Err(AirdropErrors::SigVerificationFailed)
    );
    let longest = vec![7u8; 65_535];
    let data = canonical_data(&key, &signature, &longest);
    assert_eq!(
        verify_sign_data_used_by_ed25519_program(&bundle_with(data), &longest, &signature, &key),
        Ok(())
    );
}
