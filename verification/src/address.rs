//! Deterministic record addresses.
//!
//! Every record lives at an address derived from a kind tag and the ordered
//! identifiers of the parties it belongs to. The derivation hashes the tag,
//! the parts and a fixed domain separator, and searches a one-byte
//! disambiguator until the hash is usable as an address.

use crate::error::ErrorCode;
use anchor_lang::prelude::Pubkey;
use vstd::prelude::*;
use vstd::std_specs::cmp::PartialEqSpecImpl;

verus! {

/// An opaque 32-byte identity: an actor, a record owner or a record address.
#[derive(Clone, Copy, Debug, Eq, Hash)]
pub struct Address {
    pub bytes: [u8; 32],
}

impl View for Address {
    type V = Seq<u8>;

    open spec fn view(&self) -> Seq<u8> {
        self.bytes@
    }
}

impl PartialEq for Address {
    fn eq(&self, other: &Address) -> (r: bool) {
        let mut i: usize = 0;
        while i < 32
            invariant
                i <= 32,
                forall|j: int| 0 <= j < i ==> self.bytes@[j] == other.bytes@[j],
            decreases 32 - i,
        {
            if self.bytes[i] != other.bytes[i] {
                return false;
            }
            i += 1;
        }
        assert(self.bytes@ =~= other.bytes@);
        true
    }
}

impl PartialEqSpecImpl for Address {
    open spec fn obeys_eq_spec() -> bool {
        true
    }

    open spec fn eq_spec(&self, other: &Address) -> bool {
        self@ == other@
    }
}

impl Address {
    /// The address made of the given bytes.
    pub fn new(bytes: [u8; 32]) -> (a: Address)
        ensures
            a@ == bytes@,
    {
        Address { bytes }
    }
}

/// The domain under which every address of this store is derived.
pub const PROGRAM_ID: [u8; 32] = [
    3, 198, 21, 243, 140, 155, 252, 11, 46, 233, 226, 155, 86, 4, 178, 129,
    136, 71, 251, 182, 22, 25, 182, 167, 43, 181, 153, 50, 207, 100, 82, 248,
];

/// Kind tag of contact records: `contact`.
pub const CONTACT_SEED_BYTES: [u8; 7] = [99, 111, 110, 116, 97, 99, 116];

/// Kind tag of conversation records: `direct_conversation`.
pub const DIRECT_CONVERSATION_SEED_BYTES: [u8; 19] = [
    100, 105, 114, 101, 99, 116, 95, 99, 111, 110, 118, 101, 114, 115, 97, 116, 105, 111, 110,
];

/// Kind tag of group records: `group`.
pub const GROUP_SEED_BYTES: [u8; 5] = [103, 114, 111, 117, 112];

/// Kind tag of membership records: `group_contact`.
pub const GROUP_CONTACT_SEED_BYTES: [u8; 13] = [
    103, 114, 111, 117, 112, 95, 99, 111, 110, 116, 97, 99, 116,
];

/// What `Pubkey::try_find_program_address` returns for the given seeds and
/// program id: the first usable address among the hashes of the seeds, a
/// disambiguator counted down from 255 to 1, the program id and a fixed
/// marker, together with that disambiguator; or `None` where none is
/// usable, the seeds are more than fifteen, or one is longer than 32 bytes.
pub uninterp spec fn program_address(
    seeds: Seq<Seq<u8>>,
    program_id: Seq<u8>,
) -> Option<(Seq<u8>, u8)>;

/// The byte strings that a list of seeds holds.
pub open spec fn seed_views(seeds: Seq<&[u8]>) -> Seq<Seq<u8>> {
    Seq::new(seeds.len(), |i: int| seeds[i]@)
}

/// A found address and disambiguator as plain values.
pub open spec fn found_view(found: Option<([u8; 32], u8)>) -> Option<(Seq<u8>, u8)> {
    match found {
        Some((bytes, bump)) => Some((bytes@, bump)),
        None => None,
    }
}

/// Calls `Pubkey::try_find_program_address` of `anchor_lang` (which hands on
/// `solana_program`'s). Not proved, but taken from that function's source:
/// its result depends on the seeds and the program id alone, so it is the
/// value that `program_address` names for them, and it returns for every
/// input, without a panic.
#[verifier::external_body]
fn find_program_address(seeds: &[&[u8]], program_id: &[u8; 32]) -> (found: Option<([u8; 32], u8)>)
    ensures
        found_view(found) == program_address(seed_views(seeds@), program_id@),
{
    let id = Pubkey::new_from_array(*program_id);
    Pubkey::try_find_program_address(seeds, &id).map(|(key, bump)| (key.to_bytes(), bump))
}

/// The address and disambiguator derived from a kind tag and ordered parts,
/// or `AddressSpaceExhausted` where the search finds none.
pub open spec fn derive_spec(
    kind_tag: Seq<u8>,
    parts: Seq<Seq<u8>>,
) -> Result<(Seq<u8>, u8), ErrorCode> {
    match program_address(seq![kind_tag] + parts, PROGRAM_ID@) {
        Some(found) => Ok(found),
        None => Err(ErrorCode::AddressSpaceExhausted),
    }
}

/// A derivation result as plain values.
pub open spec fn derived_view(
    r: Result<(Address, u8), ErrorCode>,
) -> Result<(Seq<u8>, u8), ErrorCode> {
    match r {
        Ok((address, bump)) => Ok((address@, bump)),
        Err(e) => Err(e),
    }
}

/// Derives the address of the record of kind `kind_tag` that belongs to
/// `parts`, in this order, and the disambiguator that goes with it. The
/// result is a function of the inputs: the same inputs always give the same
/// address. Where the search finds no address the failure is
/// `AddressSpaceExhausted`; nothing is retried.
pub fn derive(kind_tag: &[u8], parts: &[&[u8]]) -> (r: Result<(Address, u8), ErrorCode>)
    ensures
        derived_view(r) == derive_spec(kind_tag@, seed_views(parts@)),
{
    let mut seeds: Vec<&[u8]> = Vec::new();
    seeds.push(kind_tag);
    let mut i: usize = 0;
    while i < parts.len()
        invariant
            i <= parts.len(),
            seeds.len() == i + 1,
            seeds@[0]@ == kind_tag@,
            forall|j: int| 0 <= j < i ==> seeds@[j + 1]@ == parts@[j]@,
        decreases parts.len() - i,
    {
        seeds.push(parts[i]);
        i += 1;
    }
    assert(seed_views(seeds@) =~= seq![kind_tag@] + seed_views(parts@));
    found_address(find_program_address(seeds.as_slice(), &PROGRAM_ID))
}

/// The outcome of a finished search: the address and disambiguator it found,
/// or `AddressSpaceExhausted` where it found none.
pub fn found_address(found: Option<([u8; 32], u8)>) -> (r: Result<(Address, u8), ErrorCode>)
    ensures
        match found {
            Some((bytes, bump)) => r == Ok::<(Address, u8), ErrorCode>((Address { bytes }, bump)),
            None => r == Err::<(Address, u8), ErrorCode>(ErrorCode::AddressSpaceExhausted),
        },
{
    match found {
        Some((bytes, bump)) => Ok((Address { bytes }, bump)),
        None => Err(ErrorCode::AddressSpaceExhausted),
    }
}

/// The two bytes of a group nonce, most significant first.
pub open spec fn nonce_bytes_spec(nonce: u16) -> Seq<u8> {
    seq![(nonce / 256) as u8, (nonce % 256) as u8]
}

/// The two bytes of a group nonce, most significant first.
pub fn nonce_bytes(nonce: u16) -> (bytes: [u8; 2])
    ensures
        bytes@ == nonce_bytes_spec(nonce),
{
    let bytes: [u8; 2] = [(nonce / 256) as u8, (nonce % 256) as u8];
    assert(bytes@ =~= nonce_bytes_spec(nonce));
    bytes
}

/// Where the contact of `creator` lives.
pub open spec fn contact_address_spec(creator: Seq<u8>) -> Result<(Seq<u8>, u8), ErrorCode> {
    derive_spec(CONTACT_SEED_BYTES@, seq![creator])
}

/// Where the conversation of the two participants, in this order, lives.
pub open spec fn conversation_address_spec(
    participant_a: Seq<u8>,
    participant_b: Seq<u8>,
) -> Result<(Seq<u8>, u8), ErrorCode> {
    derive_spec(DIRECT_CONVERSATION_SEED_BYTES@, seq![participant_a, participant_b])
}

/// Where the group of `creator` with the given nonce lives.
pub open spec fn group_address_spec(
    creator: Seq<u8>,
    nonce: u16,
) -> Result<(Seq<u8>, u8), ErrorCode> {
    derive_spec(GROUP_SEED_BYTES@, seq![creator, nonce_bytes_spec(nonce)])
}

/// Where the membership row of `contact` in `group` lives.
pub open spec fn group_contact_address_spec(group: Seq<u8>, contact: Seq<u8>) -> Result<
    (Seq<u8>, u8),
    ErrorCode,
> {
    derive_spec(GROUP_CONTACT_SEED_BYTES@, seq![group, contact])
}

/// Derives where the contact of `creator` lives.
pub fn contact_address(creator: &Address) -> (r: Result<(Address, u8), ErrorCode>)
    ensures
        derived_view(r) == contact_address_spec(creator@),
{
    let parts: [&[u8]; 1] = [creator.bytes.as_slice()];
    assert(seed_views(parts@) =~= seq![creator@]);
    derive(CONTACT_SEED_BYTES.as_slice(), parts.as_slice())
}

/// Derives where the conversation of the two participants, in this order,
/// lives. The two orders of one pair give two conversations.
pub fn conversation_address(participant_a: &Address, participant_b: &Address) -> (r: Result<
    (Address, u8),
    ErrorCode,
>)
    ensures
        derived_view(r) == conversation_address_spec(participant_a@, participant_b@),
{
    let parts: [&[u8]; 2] = [participant_a.bytes.as_slice(), participant_b.bytes.as_slice()];
    assert(seed_views(parts@) =~= seq![participant_a@, participant_b@]);
    derive(DIRECT_CONVERSATION_SEED_BYTES.as_slice(), parts.as_slice())
}

/// Derives where the group of `creator` with the given nonce lives.
pub fn group_address(creator: &Address, nonce: u16) -> (r: Result<(Address, u8), ErrorCode>)
    ensures
        derived_view(r) == group_address_spec(creator@, nonce),
{
    let number: [u8; 2] = nonce_bytes(nonce);
    let parts: [&[u8]; 2] = [creator.bytes.as_slice(), number.as_slice()];
    assert(seed_views(parts@) =~= seq![creator@, nonce_bytes_spec(nonce)]);
    derive(GROUP_SEED_BYTES.as_slice(), parts.as_slice())
}

/// Derives where the membership row of `contact` in `group` lives.
pub fn group_contact_address(group: &Address, contact: &Address) -> (r: Result<
    (Address, u8),
    ErrorCode,
>)
    ensures
        derived_view(r) == group_contact_address_spec(group@, contact@),
{
    let parts: [&[u8]; 2] = [group.bytes.as_slice(), contact.bytes.as_slice()];
    assert(seed_views(parts@) =~= seq![group@, contact@]);
    derive(GROUP_CONTACT_SEED_BYTES.as_slice(), parts.as_slice())
}

} // verus!
