//! Addresses, and the deterministic derivation of the address of each record.

use crate::errors::AuctionError;
use vstd::prelude::*;
use vstd::std_specs::cmp::PartialEqSpecImpl;

verus! {

/// Domain prefix: the first seed of every derived address (`"auction"`).
pub const PREFIX: [u8; 7] = [97, 117, 99, 116, 105, 111, 110];

/// Tag that ends the seeds of a bidder's metadata record (`"metadata"`).
pub const METADATA: [u8; 8] = [109, 101, 116, 97, 100, 97, 116, 97];

/// A 32-byte address.
#[derive(Clone, Copy, Debug, Eq)]
pub struct Pubkey(pub [u8; 32]);

impl View for Pubkey {
    type V = Seq<u8>;

    open spec fn view(&self) -> Seq<u8> {
        self.0@
    }
}

impl PartialEq for Pubkey {
    fn eq(&self, other: &Pubkey) -> (r: bool) {
        let mut i: usize = 0;
        while i < 32
            invariant
                i <= 32,
                forall|j: int| 0 <= j < i ==> self.0[j] == other.0[j],
            decreases 32 - i,
        {
            if self.0[i] != other.0[i] {
                return false;
            }
            i += 1;
        }
        assert(self.0 =~= other.0);
        true
    }
}

impl PartialEqSpecImpl for Pubkey {
    open spec fn obeys_eq_spec() -> bool {
        true
    }

    open spec fn eq_spec(&self, other: &Pubkey) -> bool {
        *self == *other
    }
}

impl Pubkey {
    pub fn new_from_array(bytes: [u8; 32]) -> (r: Pubkey)
        ensures
            r.0 == bytes,
    {
        Pubkey(bytes)
    }

    pub fn to_bytes(&self) -> (r: [u8; 32])
        ensures
            r == self.0,
    {
        self.0
    }

    /// Two addresses with the same bytes are the same address.
    pub proof fn lemma_view_injective(self, other: Pubkey)
        requires
            self@ == other@,
        ensures
            self == other,
    {
        assert(self.0 =~= other.0);
    }
}

/// The record whose address is derived.
#[derive(Clone, Copy, Debug)]
pub enum RecordKey {
    /// The auction of `resource`.
    Auction { resource: Pubkey },
    /// The escrow pot of `bidder` in `auction`.
    BidderPot { auction: Pubkey, bidder: Pubkey },
    /// The metadata of `bidder` in `auction`.
    BidderMetadata { auction: Pubkey, bidder: Pubkey },
}

/// The seeds from which the address of `record` is derived under `program_id`.
pub open spec fn seeds_of(program_id: Pubkey, record: RecordKey) -> Seq<Seq<u8>> {
    match record {
        RecordKey::Auction { resource } => seq![PREFIX@, program_id@, resource@],
        RecordKey::BidderPot { auction, bidder } => seq![PREFIX@, program_id@, auction@, bidder@],
        RecordKey::BidderMetadata { auction, bidder } => seq![
            PREFIX@,
            program_id@,
            auction@,
            bidder@,
            METADATA@,
        ],
    }
}

/// The program address that the host's derivation finds for `seeds` under
/// `program_id`, with its bump seed; `None` where it finds none.
pub uninterp spec fn program_address(seeds: Seq<Seq<u8>>, program_id: Pubkey) -> Option<
    (Pubkey, u8),
>;

/// The derived address of `record` under `program_id`, with its bump seed.
pub open spec fn address_of(program_id: Pubkey, record: RecordKey) -> Option<(Pubkey, u8)> {
    program_address(seeds_of(program_id, record), program_id)
}

/// The bytes that the seeds of `record` present to the derivation, one seed
/// after the other.
pub open spec fn seed_bytes(program_id: Pubkey, record: RecordKey) -> Seq<u8> {
    seeds_of(program_id, record).flatten()
}

proof fn lemma_seed_bytes(program_id: Pubkey, record: RecordKey)
    ensures
        seed_bytes(program_id, record) == match record {
            RecordKey::Auction { resource } => PREFIX@ + program_id@ + resource@,
            RecordKey::BidderPot { auction, bidder } => PREFIX@ + program_id@ + auction@ + bidder@,
            RecordKey::BidderMetadata { auction, bidder } => PREFIX@ + program_id@ + auction@
                + bidder@ + METADATA@,
        },
{
    reveal_with_fuel(Seq::flatten, 6);
    let seeds = seeds_of(program_id, record);
    match record {
        RecordKey::Auction { resource } => {
            assert(seeds.flatten() =~= PREFIX@ + program_id@ + resource@);
        },
        RecordKey::BidderPot { auction, bidder } => {
            assert(seeds.flatten() =~= PREFIX@ + program_id@ + auction@ + bidder@);
        },
        RecordKey::BidderMetadata { auction, bidder } => {
            assert(seeds.flatten() =~= PREFIX@ + program_id@ + auction@ + bidder@ + METADATA@);
        },
    }
}

/// The key whose 32 bytes stand at `at` in `bytes` is the only one that does.
proof fn lemma_key_at(bytes: Seq<u8>, at: int, a: Pubkey, b: Pubkey)
    requires
        0 <= at,
        at + 32 <= bytes.len(),
        bytes.subrange(at, at + 32) == a@,
        bytes.subrange(at, at + 32) == b@,
    ensures
        a == b,
{
    a.lemma_view_injective(b);
}

/// No collision among the seeds. Under one program, two records present the
/// same bytes to the derivation only if they are the same record: of the
/// same kind, with the same resource, or the same auction and bidder.
pub proof fn lemma_seed_bytes_injective(program_id: Pubkey, a: RecordKey, b: RecordKey)
    requires
        seed_bytes(program_id, a) == seed_bytes(program_id, b),
    ensures
        a == b,
{
    lemma_seed_bytes(program_id, a);
    lemma_seed_bytes(program_id, b);
    let bytes = seed_bytes(program_id, a);
    match (a, b) {
        (RecordKey::Auction { resource: r1 }, RecordKey::Auction { resource: r2 }) => {
            assert(bytes.subrange(39, 71) =~= r1@);
            assert(bytes.subrange(39, 71) =~= r2@);
            lemma_key_at(bytes, 39, r1, r2);
        },
        (
            RecordKey::BidderPot { auction: a1, bidder: b1 },
            RecordKey::BidderPot { auction: a2, bidder: b2 },
        ) => {
            assert(bytes.subrange(39, 71) =~= a1@);
            assert(bytes.subrange(39, 71) =~= a2@);
            assert(bytes.subrange(71, 103) =~= b1@);
            assert(bytes.subrange(71, 103) =~= b2@);
            lemma_key_at(bytes, 39, a1, a2);
            lemma_key_at(bytes, 71, b1, b2);
        },
        (
            RecordKey::BidderMetadata { auction: a1, bidder: b1 },
            RecordKey::BidderMetadata { auction: a2, bidder: b2 },
        ) => {
            assert(bytes.subrange(39, 71) =~= a1@);
            assert(bytes.subrange(39, 71) =~= a2@);
            assert(bytes.subrange(71, 103) =~= b1@);
            assert(bytes.subrange(71, 103) =~= b2@);
            lemma_key_at(bytes, 39, a1, a2);
            lemma_key_at(bytes, 71, b1, b2);
        },
        _ => {
            assert(seed_bytes(program_id, a).len() != seed_bytes(program_id, b).len());
        },
    }
}

/// Determinism. The derived address of a record depends on nothing but the
/// bytes of the program id and of the keys of the record.
pub proof fn lemma_address_determined(p: Pubkey, a: RecordKey, q: Pubkey, b: RecordKey)
    requires
        p@ == q@,
        seeds_of(p, a) == seeds_of(q, b),
    ensures
        address_of(p, a) == address_of(q, b),
{
    p.lemma_view_injective(q);
}

/// Calls `solana_program::pubkey::Pubkey::try_find_program_address`, which
/// hashes the seeds, a bump seed and the program id, and tries bump seeds
/// from 255 downwards until the hash is no curve point. Trusted: the result
/// is a function of the seeds and the program id alone.
#[verifier::external_body]
fn try_find_program_address(seeds: &Vec<Vec<u8>>, program_id: &Pubkey) -> (r: Option<(Pubkey, u8)>)
    ensures
        r == program_address(seeds.deep_view(), *program_id),
{
    let seeds: Vec<&[u8]> = seeds.iter().map(|seed| seed.as_slice()).collect();
    let program_id = solana_program::pubkey::Pubkey::new_from_array(program_id.0);
    solana_program::pubkey::Pubkey::try_find_program_address(&seeds, &program_id).map(
        |(key, bump)| (Pubkey(key.to_bytes()), bump),
    )
}

fn seed(key: &Pubkey) -> (r: Vec<u8>)
    ensures
        r@ == key@,
{
    vstd::slice::slice_to_vec(key.0.as_slice())
}

/// Builds the seeds of `record`.
pub fn seeds(program_id: &Pubkey, record: &RecordKey) -> (r: Vec<Vec<u8>>)
    ensures
        r.deep_view() == seeds_of(*program_id, *record),
{
    let mut r: Vec<Vec<u8>> = Vec::new();
    r.push(vstd::slice::slice_to_vec(PREFIX.as_slice()));
    r.push(seed(program_id));
    match record {
        RecordKey::Auction { resource } => {
            r.push(seed(resource));
        },
        RecordKey::BidderPot { auction, bidder } => {
            r.push(seed(auction));
            r.push(seed(bidder));
        },
        RecordKey::BidderMetadata { auction, bidder } => {
            r.push(seed(auction));
            r.push(seed(bidder));
            r.push(vstd::slice::slice_to_vec(METADATA.as_slice()));
        },
    }
    assert(r.deep_view() =~~= seeds_of(*program_id, *record));
    r
}

/// Derives the address of `record` under `program_id`.
pub fn find_address(program_id: &Pubkey, record: &RecordKey) -> (r: Option<(Pubkey, u8)>)
    ensures
        r == address_of(*program_id, *record),
{
    let seeds = seeds(program_id, record);
    try_find_program_address(&seeds, program_id)
}

/// Whether `key` is the address that a derivation gave.
pub open spec fn derivation_matches(key: Pubkey, derived: Option<(Pubkey, u8)>) -> bool {
    derived matches Some((address, _)) && address == key
}

/// Holds a supplied address against the one derived for its record: the bump
/// seed where they agree, `DerivedKeyInvalid` where they differ or no address
/// could be derived.
pub fn assert_derivation(key: &Pubkey, derived: Option<(Pubkey, u8)>) -> (r: Result<
    u8,
    AuctionError,
>)
    ensures
        r is Ok <==> derivation_matches(*key, derived),
        r matches Ok(bump) ==> derived matches Some((_, found)) && found == bump,
        r matches Err(e) ==> e == AuctionError::DerivedKeyInvalid,
{
    match derived {
        Some((address, bump)) => {
            if address == *key {
                Ok(bump)
            } else {
                Err(AuctionError::DerivedKeyInvalid)
            }
        },
        None => Err(AuctionError::DerivedKeyInvalid),
    }
}

} // verus!
