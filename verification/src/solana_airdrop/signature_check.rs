//! The structural validator of the signature check that must stand
//! immediately before a claim in its bundle.
//!
//! The signature itself is verified by the ed25519 program when the bundle
//! runs. The validator proves that this program was handed exactly the
//! key, the signature and the message that the claim expects, laid out as
//! expected, and nothing else.

use crate::encoding::{le_bytes, le_u16_at, lemma_le_bytes_len, lemma_le_bytes_u16, read_u16_le};
use crate::programs::{ed25519_program, program, ED25519_PROGRAM_ID};
use crate::runtime::{Instruction, InstructionsSysvar};
use crate::solana_airdrop::errors::AirdropErrors;
use vstd::prelude::*;

verus! {

/// Length of the header of the signature check's data.
pub const HEADER_LEN: usize = 16;

/// Length of an ed25519 signature.
pub const SIGNATURE_LEN: usize = 64;

/// The instruction index that stands for "the instruction itself".
pub const CURRENT_INSTRUCTION: u16 = 0xffff;

/// Whether `ix` has the shape of a signature check for a key of `key_len`
/// bytes and a message of `message_len` bytes: it targets the ed25519
/// program, names no account, and its data is exactly as long as header,
/// signature, key and message together.
pub open spec fn shape_matches(ix: Instruction, key_len: nat, message_len: nat) -> bool {
    &&& ix.program_id == program(ED25519_PROGRAM_ID)
    &&& ix.accounts@.len() == 0
    &&& ix.data@.len() == HEADER_LEN + SIGNATURE_LEN + key_len + message_len
}

/// Whether the header of `data` announces one signature and the expected
/// layout: the key right after the header, the signature right after the
/// key, the message right after the signature, all three in the instruction
/// itself.
pub open spec fn header_matches(data: Seq<u8>, key_len: nat, signature_len: nat, message_len: nat) -> bool
    recommends
        data.len() >= HEADER_LEN,
{
    &&& data[0] == 1
    &&& data[1] == 0
    &&& le_u16_at(data, 2) == HEADER_LEN + key_len
    &&& le_u16_at(data, 4) == CURRENT_INSTRUCTION
    &&& le_u16_at(data, 6) == HEADER_LEN
    &&& le_u16_at(data, 8) == CURRENT_INSTRUCTION
    &&& le_u16_at(data, 10) == HEADER_LEN + key_len + signature_len
    &&& le_u16_at(data, 12) == message_len
    &&& le_u16_at(data, 14) == CURRENT_INSTRUCTION
}

/// Whether `data` holds, after its header, exactly the key, the signature
/// and the message, in this order and with nothing left over.
pub open spec fn arguments_match(
    data: Seq<u8>,
    key: Seq<u8>,
    signature: Seq<u8>,
    message: Seq<u8>,
) -> bool {
    &&& data.len() == HEADER_LEN + key.len() + signature.len() + message.len()
    &&& data.subrange(HEADER_LEN as int, HEADER_LEN + key.len()) == key
    &&& data.subrange(HEADER_LEN + key.len(), HEADER_LEN + key.len() + signature.len())
        == signature
    &&& data.subrange(HEADER_LEN + key.len() + signature.len(), data.len() as int) == message
}

/// What the validator answers for a bundle, a message, a signature and a
/// key.
pub open spec fn signature_check_outcome(
    sysvar: InstructionsSysvar,
    message: Seq<u8>,
    signature: Seq<u8>,
    key: Seq<u8>,
) -> Result<(), AirdropErrors> {
    if !sysvar.has_preceding() {
        Err(AirdropErrors::MissingEd25519Instruction)
    } else if !shape_matches(sysvar.preceding(), key.len(), message.len()) {
        Err(AirdropErrors::InvalidEd25519Instruction)
    } else if !header_matches(sysvar.preceding().data@, key.len(), signature.len(), message.len())
        || !arguments_match(sysvar.preceding().data@, key, signature, message) {
        Err(AirdropErrors::SigVerificationFailed)
    } else {
        Ok(())
    }
}

/// The data of the one signature check that the validator accepts for a
/// key, a signature and a message.
pub open spec fn signature_check_data(key: Seq<u8>, signature: Seq<u8>, message: Seq<u8>) -> Seq<
    u8,
> {
    seq![1u8, 0u8] + le_bytes(HEADER_LEN as nat + key.len(), 2) + le_bytes(
        CURRENT_INSTRUCTION as nat,
        2,
    ) + le_bytes(HEADER_LEN as nat, 2) + le_bytes(CURRENT_INSTRUCTION as nat, 2) + le_bytes(
        HEADER_LEN as nat + key.len() + signature.len(),
        2,
    ) + le_bytes(message.len(), 2) + le_bytes(CURRENT_INSTRUCTION as nat, 2) + key + signature
        + message
}

/// Whether the lengths of key, signature and message can be written into
/// the 16-bit fields of the header.
pub open spec fn lengths_fit(key_len: nat, signature_len: nat, message_len: nat) -> bool {
    HEADER_LEN + key_len + signature_len <= 0xffff && message_len <= 0xffff
}

/// Two bytes spell a number below 65536 exactly when they are its two
/// little-endian bytes.
proof fn lemma_field(data: Seq<u8>, offset: int, value: nat)
    requires
        0 <= offset,
        offset + 2 <= data.len(),
    ensures
        le_u16_at(data, offset) == value <==> value < 65536 && data.subrange(offset, offset + 2)
            == le_bytes(value, 2),
{
    let field = data.subrange(offset, offset + 2);
    assert(field[0] == data[offset]);
    assert(field[1] == data[offset + 1]);
    if value < 65536 {
        lemma_le_bytes_u16(value);
        if le_u16_at(data, offset) == value {
            assert(field =~= le_bytes(value, 2));
        }
    }
}

/// Header and arguments match exactly when the data is the canonical
/// encoding and the lengths fit the header's fields.
pub proof fn lemma_canonical_data(
    data: Seq<u8>,
    key: Seq<u8>,
    signature: Seq<u8>,
    message: Seq<u8>,
)
    ensures
        (data.len() >= HEADER_LEN && header_matches(
            data,
            key.len(),
            signature.len(),
            message.len(),
        ) && arguments_match(data, key, signature, message)) <==> (data == signature_check_data(
            key,
            signature,
            message,
        ) && lengths_fit(key.len(), signature.len(), message.len())),
{
    let canonical = signature_check_data(key, signature, message);
    let k = key.len() as int;
    let s = signature.len() as int;
    let m = message.len() as int;
    let current = CURRENT_INSTRUCTION as nat;
    let signature_at = HEADER_LEN as nat + key.len();
    let message_at = HEADER_LEN as nat + key.len() + signature.len();
    lemma_le_bytes_len(signature_at, 2);
    lemma_le_bytes_len(current, 2);
    lemma_le_bytes_len(HEADER_LEN as nat, 2);
    lemma_le_bytes_len(message_at, 2);
    lemma_le_bytes_len(message.len(), 2);
    assert(canonical.len() == 16 + k + s + m);
    assert(canonical.subrange(0, 2) =~= seq![1u8, 0u8]);
    assert(canonical.subrange(2, 4) =~= le_bytes(signature_at, 2));
    assert(canonical.subrange(4, 6) =~= le_bytes(current, 2));
    assert(canonical.subrange(6, 8) =~= le_bytes(HEADER_LEN as nat, 2));
    assert(canonical.subrange(8, 10) =~= le_bytes(current, 2));
    assert(canonical.subrange(10, 12) =~= le_bytes(message_at, 2));
    assert(canonical.subrange(12, 14) =~= le_bytes(message.len(), 2));
    assert(canonical.subrange(14, 16) =~= le_bytes(current, 2));
    assert(canonical.subrange(16, 16 + k) =~= key);
    assert(canonical.subrange(16 + k, 16 + k + s) =~= signature);
    assert(canonical.subrange(16 + k + s, canonical.len() as int) =~= message);
    if data.len() >= HEADER_LEN {
        lemma_field(data, 2, signature_at);
        lemma_field(data, 4, current);
        lemma_field(data, 6, HEADER_LEN as nat);
        lemma_field(data, 8, current);
        lemma_field(data, 10, message_at);
        lemma_field(data, 12, message.len());
        lemma_field(data, 14, current);
        if header_matches(data, key.len(), signature.len(), message.len()) && arguments_match(data, key, signature, message) {
            assert(data.subrange(0, 2) =~= seq![1u8, 0u8]);
            assert forall|i: int| 0 <= i < data.len() implies data[i] == canonical[i] by {
                if i < 2 {
                    assert(data.subrange(0, 2)[i] == canonical.subrange(0, 2)[i]);
                } else if i < 4 {
                    assert(data.subrange(2, 4)[i - 2] == canonical.subrange(2, 4)[i - 2]);
                } else if i < 6 {
                    assert(data.subrange(4, 6)[i - 4] == canonical.subrange(4, 6)[i - 4]);
                } else if i < 8 {
                    assert(data.subrange(6, 8)[i - 6] == canonical.subrange(6, 8)[i - 6]);
                } else if i < 10 {
                    assert(data.subrange(8, 10)[i - 8] == canonical.subrange(8, 10)[i - 8]);
                } else if i < 12 {
                    assert(data.subrange(10, 12)[i - 10] == canonical.subrange(10, 12)[i - 10]);
                } else if i < 14 {
                    assert(data.subrange(12, 14)[i - 12] == canonical.subrange(12, 14)[i - 12]);
                } else if i < 16 {
                    assert(data.subrange(14, 16)[i - 14] == canonical.subrange(14, 16)[i - 14]);
                } else if i < 16 + k {
                    assert(data.subrange(16, 16 + k)[i - 16] == canonical.subrange(16, 16 + k)[i
                        - 16]);
                } else if i < 16 + k + s {
                    assert(data.subrange(16 + k, 16 + k + s)[i - 16 - k] == canonical.subrange(
                        16 + k,
                        16 + k + s,
                    )[i - 16 - k]);
                } else {
                    assert(data.subrange(16 + k + s, data.len() as int)[i - 16 - k - s]
                        == canonical.subrange(16 + k + s, canonical.len() as int)[i - 16 - k - s]);
                }
            }
            assert(data =~= canonical);
        }
        if data == canonical && lengths_fit(key.len(), signature.len(), message.len()) {
            assert(data[0] == data.subrange(0, 2)[0]);
            assert(data[1] == data.subrange(0, 2)[1]);
        }
    }
}

/// The validator accepts a bundle exactly when the instruction before the
/// current one is a signature check of the ed25519 program without
/// accounts, the signature is 64 bytes long, the lengths fit the header,
/// and the data is the canonical encoding of key, signature and message.
pub proof fn lemma_accepts_exactly_canonical(
    sysvar: InstructionsSysvar,
    message: Seq<u8>,
    signature: Seq<u8>,
    key: Seq<u8>,
)
    ensures
        signature_check_outcome(sysvar, message, signature, key) is Ok <==> {
            &&& sysvar.has_preceding()
            &&& sysvar.preceding().program_id == program(ED25519_PROGRAM_ID)
            &&& sysvar.preceding().accounts@.len() == 0
            &&& signature.len() == SIGNATURE_LEN
            &&& lengths_fit(key.len(), signature.len(), message.len())
            &&& sysvar.preceding().data@ == signature_check_data(key, signature, message)
        },
{
    if sysvar.has_preceding() {
        let data = sysvar.preceding().data@;
        lemma_canonical_data(data, key, signature, message);
        let canonical = signature_check_data(key, signature, message);
        lemma_le_bytes_len(HEADER_LEN as nat + key.len(), 2);
        lemma_le_bytes_len(CURRENT_INSTRUCTION as nat, 2);
        lemma_le_bytes_len(HEADER_LEN as nat, 2);
        lemma_le_bytes_len(HEADER_LEN as nat + key.len() + signature.len(), 2);
        lemma_le_bytes_len(message.len(), 2);
        assert(canonical.len() == 16 + key.len() + signature.len() + message.len());
    }
}

/// A signature check whose message-length field differs from the length of
/// the payload is rejected, whatever key and signature bytes it carries.
pub proof fn lemma_message_length_mismatch_rejected(
    sysvar: InstructionsSysvar,
    message: Seq<u8>,
    signature: Seq<u8>,
    key: Seq<u8>,
)
    requires
        sysvar.has_preceding(),
        le_u16_at(sysvar.preceding().data@, 12) != message.len(),
    ensures
        signature_check_outcome(sysvar, message, signature, key) is Err,
{
}

/// A claim that stands first in its bundle fails with
/// `MissingEd25519Instruction`, whatever the payload, the signature and the
/// key are.
pub proof fn lemma_first_instruction_rejected(
    sysvar: InstructionsSysvar,
    message: Seq<u8>,
    signature: Seq<u8>,
    key: Seq<u8>,
)
    requires
        sysvar.current_index == 0,
    ensures
        signature_check_outcome(sysvar, message, signature, key) == Err::<(), AirdropErrors>(
            AirdropErrors::MissingEd25519Instruction,
        ),
{
}

/// Whether the bytes of `data` from `start` on begin with `expected`.
fn holds_at(data: &Vec<u8>, start: usize, expected: &[u8]) -> (r: bool)
    requires
        start + expected@.len() <= data.len(),
    ensures
        r == (data@.subrange(start as int, start + expected@.len()) == expected@),
{
    let len = expected.len();
    let mut i: usize = 0;
    while i < len
        invariant
            i <= len,
            len == expected@.len(),
            start + len <= data.len(),
            forall|j: int| 0 <= j < i ==> data@[start + j] == expected@[j],
        decreases len - i,
    {
        if data[start + i] != expected[i] {
            assert(data@.subrange(start as int, start + len)[i as int] != expected@[i as int]);
            return false;
        }
        i = i + 1;
    }
    assert(data@.subrange(start as int, start + len) =~= expected@);
    true
}

/// Whether the header of `data` matches a key of `key_len` bytes, a
/// signature of 64 bytes and a message of `message_len` bytes.
fn check_header(data: &Vec<u8>, key_len: usize, message_len: usize) -> (r: bool)
    requires
        data.len() == HEADER_LEN + SIGNATURE_LEN + key_len + message_len,
    ensures
        r == header_matches(data@, key_len as nat, SIGNATURE_LEN as nat, message_len as nat),
{
    let key_offset: usize = HEADER_LEN;
    let signature_offset: usize = HEADER_LEN + key_len;
    let message_offset: usize = signature_offset + SIGNATURE_LEN;
    data[0] == 1 && data[1] == 0 && read_u16_le(data, 2) as usize == signature_offset
        && read_u16_le(data, 4) == CURRENT_INSTRUCTION && read_u16_le(data, 6) as usize
        == key_offset && read_u16_le(data, 8) == CURRENT_INSTRUCTION && read_u16_le(data, 10) as usize
        == message_offset && read_u16_le(data, 12) as usize == message_len && read_u16_le(data, 14)
        == CURRENT_INSTRUCTION
}

/// Checks that the instruction immediately before the current one is the
/// signature check of `msg` under `pk` with `signature`.
///
/// The check is structural: it compares what the ed25519 program was given
/// with what the claim expects, byte for byte, and never reads past the data.
pub fn verify_sign_data_used_by_ed25519_program(
    ix_sysvar: &InstructionsSysvar,
    msg: &[u8],
    signature: &[u8],
    pk: &[u8],
) -> (r: Result<(), AirdropErrors>)
    ensures
        r == signature_check_outcome(*ix_sysvar, msg@, signature@, pk@),
        ix_sysvar.current_index == 0 ==> r == Err::<(), AirdropErrors>(
            AirdropErrors::MissingEd25519Instruction,
        ),
        r is Ok ==> ix_sysvar.preceding().data@ == signature_check_data(pk@, signature@, msg@),
{
    proof {
        lemma_accepts_exactly_canonical(*ix_sysvar, msg@, signature@, pk@);
    }
    let ix = match ix_sysvar.load_preceding() {
        None => {
            return Err(AirdropErrors::MissingEd25519Instruction);
        },
        Some(ix) => ix,
    };
    let fixed: usize = HEADER_LEN + SIGNATURE_LEN;
    let n = ix.data.len();
    if !ix.program_id.same(&ed25519_program()) || ix.accounts.len() != 0 || n < fixed || pk.len()
        > n - fixed || n - fixed - pk.len() != msg.len() {
        return Err(AirdropErrors::InvalidEd25519Instruction);
    }
    if signature.len() != SIGNATURE_LEN {
        return Err(AirdropErrors::SigVerificationFailed);
    }
    if !check_header(&ix.data, pk.len(), msg.len()) {
        return Err(AirdropErrors::SigVerificationFailed);
    }
    let signature_offset: usize = HEADER_LEN + pk.len();
    let message_offset: usize = signature_offset + SIGNATURE_LEN;
    if !holds_at(&ix.data, HEADER_LEN, pk) || !holds_at(&ix.data, signature_offset, signature)
        || !holds_at(&ix.data, message_offset, msg) {
        return Err(AirdropErrors::SigVerificationFailed);
    }
    Ok(())
}

} // verus!
