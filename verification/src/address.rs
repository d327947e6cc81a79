//! Account addresses and the addresses derived from them.

use anchor_lang::solana_program::pubkey::Pubkey;
use std::str::FromStr;
use vstd::prelude::*;
use vstd::string::StringSliceAdditionalSpecFns;

verus! {

/// Width of an account address in bytes.
pub const ADDRESS_LEN: usize = 32;

/// The address of an account: thirty-two raw bytes.
#[derive(Clone, Copy, Debug, PartialEq, Eq, Hash)]
pub struct Address {
    pub bytes: [u8; 32],
}

impl View for Address {
    type V = Seq<u8>;

    open spec fn view(&self) -> Seq<u8> {
        self.bytes@
    }
}

/// An address that a program derived from seeds, with the bump that was
/// appended to the seeds to push the address off the signing curve.
#[derive(Clone, Copy, Debug, PartialEq, Eq)]
pub struct DerivedAddress {
    pub address: Address,
    pub bump: u8,
}

/// What the base58 text `s` decodes to as an address: the thirty-two bytes,
/// or `None` where `s` is no base58 rendering of exactly thirty-two bytes.
pub uninterp spec fn base58_address(s: Seq<char>) -> Option<Seq<u8>>;

/// The program derived address of `seeds` under `program_id`, with its bump:
/// the first of the bumps 255, 254, .. for which the hash of the seeds, the
/// bump and the program id is no point of the signing curve. `None` where no
/// bump serves or the seeds are too many or too long.
pub uninterp spec fn program_derived_address(seeds: Seq<Seq<u8>>, program_id: Seq<u8>) -> Option<
    (Seq<u8>, u8),
>;

/// The bytes of a domain tag: its text in UTF-8.
pub open spec fn tag_bytes(tag: &str) -> Seq<u8> {
    tag.spec_bytes()
}

/// The bytes of each seed, in order.
pub open spec fn seed_views(seeds: Seq<Vec<u8>>) -> Seq<Seq<u8>> {
    seeds.map_values(|seed: Vec<u8>| seed@)
}

/// The view of a derivation result: bytes and bump.
pub open spec fn derived_view(d: Option<DerivedAddress>) -> Option<(Seq<u8>, u8)> {
    match d {
        Some(d) => Some((d.address@, d.bump)),
        None => None,
    }
}

/// The view of an optional address.
pub open spec fn address_view(a: Option<Address>) -> Option<Seq<u8>> {
    match a {
        Some(a) => Some(a@),
        None => None,
    }
}

/// Two addresses with the same bytes are the same address.
pub proof fn lemma_address_ext(a: Address, b: Address)
    requires
        a@ == b@,
    ensures
        a == b,
{
    assert(a.bytes =~= b.bytes);
}

/// `Pubkey::from_str` of solana-program: decodes base58 text into a public
/// key. The contract names the decoded bytes `base58_address` of the text and
/// says nothing else of them; failure of the outside parser is `None`.
#[verifier::external_body]
pub(crate) fn pubkey_from_str(s: &str) -> (r: Option<Address>)
    ensures
        address_view(r) == base58_address(s@),
{
    match Pubkey::from_str(s) {
        Ok(key) => Some(Address { bytes: key.to_bytes() }),
        Err(_) => None,
    }
}

/// `Pubkey::try_find_program_address` of solana-program. The contract names
/// its result `program_derived_address` of the seeds and the program id; the
/// outside function computes it from those alone and returns `None` rather
/// than panic.
#[verifier::external_body]
pub(crate) fn try_find_program_address(seeds: &Vec<Vec<u8>>, program_id: &Address) -> (r: Option<
    DerivedAddress,
>)
    ensures
        derived_view(r) == program_derived_address(seed_views(seeds@), program_id@),
{
    let parts: Vec<&[u8]> = seeds.iter().map(|seed| seed.as_slice()).collect();
    let program = Pubkey::new_from_array(program_id.bytes);
    match Pubkey::try_find_program_address(&parts, &program) {
        Some((key, bump)) => Some(DerivedAddress { address: Address { bytes: key.to_bytes() }, bump }),
        None => None,
    }
}

impl Address {
    /// The address made of `bytes`.
    pub fn new(bytes: [u8; 32]) -> (a: Address)
        ensures
            a@ == bytes@,
            a.bytes == bytes,
    {
        Address { bytes }
    }

    /// The address whose bytes are all zero.
    pub fn zero() -> (a: Address)
        ensures
            a@ == Seq::new(32, |i: int| 0u8),
    {
        let a = Address { bytes: [0u8; 32] };
        assert(a@ =~= Seq::new(32, |i: int| 0u8));
        a
    }

    /// Whether `self` and `other` are the same address.
    pub fn same(&self, other: &Address) -> (r: bool)
        ensures
            r == (self@ == other@),
            r == (*self == *other),
    {
        let mut i: usize = 0;
        while i < 32
            invariant
                i <= 32,
                forall|j: int| 0 <= j < i ==> self.bytes[j] == other.bytes[j],
            decreases 32 - i,
        {
            if self.bytes[i] != other.bytes[i] {
                return false;
            }
            i = i + 1;
        }
        proof {
            assert(self@ =~= other@);
            lemma_address_ext(*self, *other);
        }
        true
    }

    /// The bytes of the address as a vector.
    pub fn to_vec(&self) -> (v: Vec<u8>)
        ensures
            v@ == self@,
    {
        let mut v: Vec<u8> = Vec::new();
        let mut i: usize = 0;
        while i < 32
            invariant
                i <= 32,
                v@ == self@.subrange(0, i as int),
            decreases 32 - i,
        {
            v.push(self.bytes[i]);
            i = i + 1;
        }
        assert(self@.subrange(0, 32) =~= self@);
        v
    }

    /// Appends the bytes of the address to `out`.
    pub fn append_to(&self, out: &mut Vec<u8>)
        ensures
            final(out)@ == old(out)@ + self@,
    {
        let mut i: usize = 0;
        while i < 32
            invariant
                i <= 32,
                out@ == old(out)@ + self@.subrange(0, i as int),
            decreases 32 - i,
        {
            out.push(self.bytes[i]);
            i = i + 1;
            assert(self@.subrange(0, i as int) =~= self@.subrange(0, i - 1).push(self@[i - 1]));
        }
        assert(self@.subrange(0, 32) =~= self@);
    }

    /// Decodes the base58 text of an address.
    pub fn from_base58(s: &str) -> (r: Option<Address>)
        ensures
            address_view(r) == base58_address(s@),
    {
        pubkey_from_str(s)
    }
}

/// Derives the address that `program_id` controls for `seeds`.
///
/// No private key signs for the result, so only the deriving program can
/// act under it. `None` where the seeds admit no such address.
pub fn find_program_address(seeds: &Vec<Vec<u8>>, program_id: &Address) -> (r: Option<
    DerivedAddress,
>)
    ensures
        derived_view(r) == program_derived_address(seed_views(seeds@), program_id@),
{
    try_find_program_address(seeds, program_id)
}

/// Whether `key` is the address derived from `seeds` under `program_id`.
pub open spec fn is_derived_from(key: Address, seeds: Seq<Seq<u8>>, program_id: Address) -> bool {
    match program_derived_address(seeds, program_id@) {
        Some((bytes, _)) => bytes == key@,
        None => false,
    }
}

/// Seeds name one address: two accounts that both stand at the address
/// derived from the same seeds under the same program are one account. So a
/// record whose address is derived from its key exists at most once per key.
pub proof fn lemma_one_address_per_seeds(
    first: Address,
    second: Address,
    seeds: Seq<Seq<u8>>,
    program_id: Address,
)
    requires
        is_derived_from(first, seeds, program_id),
        is_derived_from(second, seeds, program_id),
    ensures
        first == second,
{
    lemma_address_ext(first, second);
}

/// The bump of the address derived from `seeds` under `program_id`.
pub open spec fn derived_bump(seeds: Seq<Seq<u8>>, program_id: Address) -> u8 {
    match program_derived_address(seeds, program_id@) {
        Some((_, bump)) => bump,
        None => 0,
    }
}

/// Checks that `key` is the address derived from `seeds` under
/// `program_id`, and gives the bump if it is.
pub fn check_seeds(key: &Address, seeds: &Vec<Vec<u8>>, program_id: &Address) -> (r: Option<u8>)
    ensures
        r is Some == is_derived_from(*key, seed_views(seeds@), *program_id),
        r is Some ==> r == Some(derived_bump(seed_views(seeds@), *program_id)),
{
    match try_find_program_address(seeds, program_id) {
        Some(derived) => {
            if derived.address.same(key) {
                Some(derived.bump)
            } else {
                None
            }
        },
        None => None,
    }
}

/// The seeds under which a program signs for the address that it derived
/// from `seeds`: the seeds themselves, then the bump as a seed of one byte.
/// `None` where the seeds admit no derived address.
pub fn signer_seeds(seeds: Vec<Vec<u8>>, program_id: &Address) -> (r: Option<Vec<Vec<u8>>>)
    ensures
        match program_derived_address(seed_views(seeds@), program_id@) {
            Some((_, bump)) => r matches Some(signing) && seed_views(signing@) == seed_views(
                seeds@,
            ).push(seq![bump]),
            None => r is None,
        },
{
    match try_find_program_address(&seeds, program_id) {
        None => None,
        Some(derived) => {
            let mut signing = seeds;
            let mut bump: Vec<u8> = Vec::new();
            bump.push(derived.bump);
            signing.push(bump);
            assert(seed_views(signing@) =~= seed_views(seeds@).push(seq![derived.bump]));
            Some(signing)
        },
    }
}

/// The seeds made of a tag alone.
pub fn seeds_of_tag(tag: &str) -> (seeds: Vec<Vec<u8>>)
    ensures
        seed_views(seeds@) == seq![tag_bytes(tag)],
{
    let mut seeds: Vec<Vec<u8>> = Vec::new();
    seeds.push(tag.as_bytes_vec());
    assert(seed_views(seeds@) =~= seq![tag_bytes(tag)]);
    seeds
}

/// The seeds made of a tag and one address.
pub fn seeds_of_one(tag: &str, first: &Address) -> (seeds: Vec<Vec<u8>>)
    ensures
        seed_views(seeds@) == seq![tag_bytes(tag), first@],
{
    let mut seeds: Vec<Vec<u8>> = Vec::new();
    seeds.push(tag.as_bytes_vec());
    seeds.push(first.to_vec());
    assert(seed_views(seeds@) =~= seq![tag_bytes(tag), first@]);
    seeds
}

/// The seeds made of a tag and two addresses.
pub fn seeds_of_two(tag: &str, first: &Address, second: &Address) -> (seeds: Vec<Vec<u8>>)
    ensures
        seed_views(seeds@) == seq![tag_bytes(tag), first@, second@],
{
    let mut seeds: Vec<Vec<u8>> = Vec::new();
    seeds.push(tag.as_bytes_vec());
    seeds.push(first.to_vec());
    seeds.push(second.to_vec());
    assert(seed_views(seeds@) =~= seq![tag_bytes(tag), first@, second@]);
    seeds
}

} // verus!
