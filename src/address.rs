//! Record addresses: identities, the seed table, and derivation through
//! solana_program's `Pubkey`.
use solana_program::pubkey::Pubkey;
use vstd::arithmetic::div_mod::{
    lemma_div_denominator, lemma_fundamental_div_mod, lemma_fundamental_div_mod_converse, lemma_small_mod,
};
use vstd::prelude::*;
use vstd::string::StringSliceAdditionalSpecFns;

verus! {

/// A 32-byte account identity (a public key or a derived address).
#[derive(Clone, Copy, Debug, PartialEq, Eq)]
pub struct Address {
    pub bytes: [u8; 32],
}

impl View for Address {
    type V = Seq<u8>;

    open spec fn view(&self) -> Seq<u8> {
        self.bytes@
    }
}

pub open spec fn opt_address_view(o: Option<Address>) -> Option<Seq<u8>> {
    match o {
        Some(a) => Some(a@),
        None => None,
    }
}

pub open spec fn opt_found_view(o: Option<(Address, u8)>) -> Option<(Seq<u8>, u8)> {
    match o {
        Some((a, b)) => Some((a@, b)),
        None => None,
    }
}

/// The address that `create_program_address` gives for these seeds (the bump
/// included as the last seed), or `None` where it refuses them.
pub uninterp spec fn program_address(seeds: Seq<Seq<u8>>, program_id: Seq<u8>) -> Option<Seq<u8>>;

/// The address and bump that `try_find_program_address` gives for these seeds.
pub uninterp spec fn bump_search(seeds: Seq<Seq<u8>>, program_id: Seq<u8>) -> Option<(Seq<u8>, u8)>;

/// The address that `create_with_seed` gives for a base, a text seed and an owner.
pub uninterp spec fn seeded_address(base: Seq<u8>, seed: Seq<u8>, owner: Seq<u8>) -> Option<Seq<u8>>;

/// Relies on solana_program's `Pubkey::create_program_address`: a hash of the
/// seeds and the program id, refused (`Err`) off the curve check or on
/// over-long seeds; it depends on its arguments alone.
#[verifier::external_body]
fn create_program_address(seeds: &Vec<Vec<u8>>, program_id: &Address) -> (r: Option<Address>)
    ensures
        opt_address_view(r) == program_address(seeds.deep_view(), program_id@),
{
    let refs: Vec<&[u8]> = seeds.iter().map(|s| s.as_slice()).collect();
    Pubkey::create_program_address(&refs, &Pubkey::new_from_array(program_id.bytes))
        .ok()
        .map(|k| Address { bytes: k.to_bytes() })
}

/// Relies on solana_program's `Pubkey::try_find_program_address`: it tries the
/// bumps from 255 down and returns the first one for which
/// `create_program_address` on the seeds followed by that bump succeeds,
/// together with that address.
#[verifier::external_body]
fn try_find_program_address(seeds: &Vec<Vec<u8>>, program_id: &Address) -> (r: Option<(Address, u8)>)
    ensures
        opt_found_view(r) == bump_search(seeds.deep_view(), program_id@),
        r matches Some((a, b)) ==> program_address(seeds.deep_view().push(seq![b]), program_id@)
            == Some(a@),
{
    let refs: Vec<&[u8]> = seeds.iter().map(|s| s.as_slice()).collect();
    Pubkey::try_find_program_address(&refs, &Pubkey::new_from_array(program_id.bytes))
        .map(|(k, b)| (Address { bytes: k.to_bytes() }, b))
}

/// Relies on solana_program's `Pubkey::create_with_seed`: a hash of the base,
/// the seed and the owner, refused (`Err`) on a seed over 32 bytes or an owner
/// that ends in the derived-address marker; it depends on its arguments alone.
#[verifier::external_body]
fn create_with_seed(base: &Address, seed: &str, owner: &Address) -> (r: Option<Address>)
    ensures
        opt_address_view(r) == seeded_address(base@, seed.spec_bytes(), owner@),
{
    Pubkey::create_with_seed(
        &Pubkey::new_from_array(base.bytes),
        seed,
        &Pubkey::new_from_array(owner.bytes),
    ).ok().map(|k| Address { bytes: k.to_bytes() })
}

/// Relies on solana_program's `system_program::id()`: the system program's
/// id, "11111111111111111111111111111111" in base58, is 32 zero bytes.
#[verifier::external_body]
pub(crate) fn system_program_id() -> (r: Address)
    ensures
        r@ == system_program_spec(),
{
    Address { bytes: solana_program::system_program::id().to_bytes() }
}

/// The system program's id: 32 zero bytes.
pub open spec fn system_program_spec() -> Seq<u8> {
    Seq::new(32, |i: int| 0u8)
}

/// This program's id.
pub open spec fn program_id_spec() -> Seq<u8> {
    seq![
        218u8, 7, 92, 178, 255, 94, 198, 129, 118, 19, 222, 83, 11, 105, 42, 135,
        53, 71, 119, 105, 218, 71, 67, 12, 189, 129, 84, 51, 92, 74, 131, 39,
    ]
}

/// This program's id (`Fg6PaFpoGXkYsidMpWTK6W2BeZ7FEfcYkg476zPFsLnS`).
pub fn id() -> (r: Address)
    ensures
        r@ == program_id_spec(),
{
    let r = Address {
        bytes: [
            218u8, 7, 92, 178, 255, 94, 198, 129, 118, 19, 222, 83, 11, 105, 42, 135,
            53, 71, 119, 105, 218, 71, 67, 12, 189, 129, 84, 51, 92, 74, 131, 39,
        ],
    };
    assert(r@ =~= program_id_spec());
    r
}

/// Whether two addresses are the same bytes.
pub fn same_address(a: &Address, b: &Address) -> (r: bool)
    ensures
        r == (a@ == b@),
{
    let mut i: usize = 0;
    while i < 32
        invariant
            i <= 32,
            a@.len() == 32,
            b@.len() == 32,
            forall|j: int| 0 <= j < i ==> a@[j] == b@[j],
        decreases 32 - i,
    {
        if a.bytes[i] != b.bytes[i] {
            return false;
        }
        i = i + 1;
    }
    assert(a@ =~= b@);
    true
}


/// The seed scheme of an address derivation with a given bump: the bump is
/// one more seed of one byte, after the others.
pub open spec fn with_bump(seeds: Seq<Seq<u8>>, bump: u8) -> Seq<Seq<u8>> {
    seeds.push(seq![bump])
}

/// `claimed` is the address that the seeds, followed by `bump`, derive.
pub open spec fn address_verifies(claimed: Seq<u8>, seeds: Seq<Seq<u8>>, bump: u8, program_id: Seq<u8>) -> bool {
    program_address(with_bump(seeds, bump), program_id) == Some(claimed)
}

proof fn lemma_bytes_deep_view(v: Vec<u8>)
    ensures
        v.deep_view() == v@,
{
    assert(v.deep_view() =~= v@);
}

/// The bytes of an address, as a seed.
pub fn address_seed(a: &Address) -> (r: Vec<u8>)
    ensures
        r@ == a@,
{
    vstd::slice::slice_to_vec(a.bytes.as_slice())
}

/// Derives the address of a record and its bump from the seeds.
pub fn derive_address(seeds: &Vec<Vec<u8>>, program_id: &Address) -> (r: Option<(Address, u8)>)
    ensures
        opt_found_view(r) == bump_search(seeds.deep_view(), program_id@),
        r matches Some((a, b)) ==> address_verifies(a@, seeds.deep_view(), b, program_id@),
{
    try_find_program_address(seeds, program_id)
}

/// Derivation is deterministic: the same seeds and program id give the same
/// address and bump, and `derive_address` returns exactly that pair.
pub proof fn derivation_is_deterministic(
    seeds: Seq<Seq<u8>>,
    program_id: Seq<u8>,
    same_seeds: Seq<Seq<u8>>,
    same_program_id: Seq<u8>,
)
    requires
        seeds == same_seeds,
        program_id == same_program_id,
    ensures
        bump_search(seeds, program_id) == bump_search(same_seeds, same_program_id),
{
}

/// Whether the seeds, followed by `bump`, derive `claimed`.
pub fn verify_address(claimed: &Address, seeds: &Vec<Vec<u8>>, bump: u8, program_id: &Address) -> (r: bool)
    ensures
        r == address_verifies(claimed@, seeds.deep_view(), bump, program_id@),
{
    let mut all: Vec<Vec<u8>> = Vec::new();
    let mut i: usize = 0;
    while i < seeds.len()
        invariant
            i <= seeds.len(),
            all@.len() == i,
            forall|j: int| 0 <= j < i ==> (#[trigger] all@[j])@ == seeds@[j]@,
        decreases seeds.len() - i,
    {
        all.push(vstd::slice::slice_to_vec(seeds[i].as_slice()));
        i = i + 1;
    }
    let last = vec![bump];
    proof {
        lemma_bytes_deep_view(last);
        assert(last@ =~= seq![bump]);
    }
    all.push(last);
    assert forall|j: int| 0 <= j < all@.len() implies all.deep_view()[j] == with_bump(seeds.deep_view(), bump)[j] by {
        lemma_bytes_deep_view(all@[j]);
        if j < seeds@.len() {
            lemma_bytes_deep_view(seeds@[j]);
        }
    }
    assert(all.deep_view() =~= with_bump(seeds.deep_view(), bump));
    match create_program_address(&all, program_id) {
        Some(a) => same_address(&a, claimed),
        None => false,
    }
}

/// The text seed of a voting session's address, scoped to its owner.
pub open spec fn voting_state_seed() -> Seq<u8> {
    seq![118u8, 111, 116, 105, 110, 103, 95, 115, 116, 97, 116, 101]
}

/// The address of the voting session that `owner` holds.
pub open spec fn voting_state_address_spec(owner: Seq<u8>, program_id: Seq<u8>) -> Option<Seq<u8>> {
    seeded_address(owner, voting_state_seed(), program_id)
}

/// The address of the voting session that `owner` holds, `None` where the
/// derivation refuses them.
pub fn voting_state_address(owner: &Address, program_id: &Address) -> (r: Option<Address>)
    ensures
        opt_address_view(r) == voting_state_address_spec(owner@, program_id@),
{
    let seed = "voting_state";
    proof {
        reveal_strlit("voting_state");
        vstd::string::is_ascii_spec_bytes(seed);
        assert(vstd::string::is_ascii(seed));
        assert(seed.spec_bytes() =~= voting_state_seed());
    }
    create_with_seed(owner, seed, program_id)
}

pub open spec fn voter_votes_tag() -> Seq<u8> {
    seq![118u8, 111, 116, 101, 114, 95, 118, 111, 116, 101, 115]
}

pub open spec fn voter_voted_tag() -> Seq<u8> {
    seq![118u8, 111, 116, 101, 114, 95, 118, 111, 116, 101, 100]
}

pub open spec fn party_tag() -> Seq<u8> {
    seq![112u8, 97, 114, 116, 121]
}

/// Little-endian bytes of a 32-bit integer.
pub open spec fn le_bytes(x: u32) -> Seq<u8> {
    seq![
        (x % 256) as u8,
        ((x / 256) % 256) as u8,
        ((x / 65536) % 256) as u8,
        ((x / 16777216) % 256) as u8,
    ]
}

/// The 32-bit integer whose little-endian bytes are the four bytes of `s`.
pub open spec fn le_u32(s: Seq<u8>) -> u32 {
    (s[0] as int + s[1] as int * 256 + s[2] as int * 65536 + s[3] as int * 16777216) as u32
}

pub proof fn lemma_le_bytes_of_le_u32(s: Seq<u8>)
    requires
        s.len() == 4,
    ensures
        le_bytes(le_u32(s)) == s,
{
    let v = s[0] as int + s[1] as int * 256 + s[2] as int * 65536 + s[3] as int * 16777216;
    assert(le_u32(s) as int == v);
    lemma_fundamental_div_mod_converse(v, 256, s[1] as int + s[2] as int * 256 + s[3] as int * 65536, s[0] as int);
    lemma_fundamental_div_mod_converse(s[1] as int + s[2] as int * 256 + s[3] as int * 65536, 256, s[2] as int + s[3] as int * 256, s[1] as int);
    lemma_fundamental_div_mod_converse(v, 65536, s[2] as int + s[3] as int * 256, s[0] as int + s[1] as int * 256);
    lemma_fundamental_div_mod_converse(s[2] as int + s[3] as int * 256, 256, s[3] as int, s[2] as int);
    lemma_fundamental_div_mod_converse(v, 16777216, s[3] as int, s[0] as int + s[1] as int * 256 + s[2] as int * 65536);
    lemma_small_mod(s[3] as nat, 256);
    assert(le_bytes(le_u32(s)) =~= s);
}

pub proof fn lemma_le_u32_of_le_bytes(x: u32)
    ensures
        le_u32(le_bytes(x)) == x,
{
    let xi = x as int;
    lemma_fundamental_div_mod(xi, 256);
    lemma_fundamental_div_mod(xi / 256, 256);
    lemma_div_denominator(xi, 256, 256);
    lemma_fundamental_div_mod(xi / 65536, 256);
    lemma_div_denominator(xi, 65536, 256);
    lemma_small_mod((xi / 16777216) as nat, 256);
}

/// Reads the 32-bit little-endian integer at `data[at..at + 4]`.
pub fn read_u32_le(data: &[u8], at: usize) -> (r: u32)
    requires
        at + 4 <= data@.len(),
    ensures
        r == le_u32(data@.subrange(at as int, at + 4)),
{
    let r: u32 = data[at] as u32 + data[at + 1] as u32 * 256 + data[at + 2] as u32 * 65536
        + data[at + 3] as u32 * 16777216;
    let ghost s = data@.subrange(at as int, at + 4);
    assert(s[0] == data@[at as int] && s[1] == data@[at + 1] && s[2] == data@[at + 2] && s[3] == data@[at + 3]);
    r
}

/// Reads the address at `data[at..at + 32]`.
pub fn read_address(data: &[u8], at: usize) -> (r: Address)
    requires
        at + 32 <= data@.len(),
    ensures
        r@ == data@.subrange(at as int, at + 32),
{
    let len = data.len();
    let mut bytes = [0u8; 32];
    let mut i: usize = 0;
    while i < 32
        invariant
            i <= 32,
            len == data@.len(),
            at + 32 <= data@.len(),
            bytes@.len() == 32,
            forall|j: int| 0 <= j < i ==> bytes@[j] == data@[at + j],
        decreases 32 - i,
    {
        bytes[i] = data[at + i];
        i = i + 1;
    }
    let r = Address { bytes };
    assert(r@ =~= data@.subrange(at as int, at + 32));
    r
}

/// Seeds of the vote counter of `voter` in session `voting_state`.
pub open spec fn voter_votes_seeds(voter: Seq<u8>, voting_state: Seq<u8>) -> Seq<Seq<u8>> {
    seq![voter_votes_tag(), voter, voting_state]
}

/// Seeds of the party with index `index` in session `voting_state`.
pub open spec fn party_seeds(index: u32, voting_state: Seq<u8>) -> Seq<Seq<u8>> {
    seq![party_tag(), le_bytes(index), voting_state]
}

/// Seeds of the marker that `voter` voted on `party` in session `voting_state`.
pub open spec fn voter_voted_seeds(voter: Seq<u8>, party: Seq<u8>, voting_state: Seq<u8>) -> Seq<Seq<u8>> {
    seq![voter_voted_tag(), voter, party, voting_state]
}

pub fn voter_votes_seed_list(voter: &Address, voting_state: &Address) -> (r: Vec<Vec<u8>>)
    ensures
        r.deep_view() == voter_votes_seeds(voter@, voting_state@),
{
    let tag = vec![118u8, 111, 116, 101, 114, 95, 118, 111, 116, 101, 115];
    let r = vec![tag, address_seed(voter), address_seed(voting_state)];
    assert(tag@ =~= voter_votes_tag());
    proof {
        lemma_bytes_deep_view(r[0]);
        lemma_bytes_deep_view(r[1]);
        lemma_bytes_deep_view(r[2]);
    }
    assert(r.deep_view() =~= voter_votes_seeds(voter@, voting_state@));
    r
}

pub fn voter_voted_seed_list(voter: &Address, party: &Address, voting_state: &Address) -> (r: Vec<Vec<u8>>)
    ensures
        r.deep_view() == voter_voted_seeds(voter@, party@, voting_state@),
{
    let tag = vec![118u8, 111, 116, 101, 114, 95, 118, 111, 116, 101, 100];
    let r = vec![tag, address_seed(voter), address_seed(party), address_seed(voting_state)];
    assert(tag@ =~= voter_voted_tag());
    proof {
        lemma_bytes_deep_view(r[0]);
        lemma_bytes_deep_view(r[1]);
        lemma_bytes_deep_view(r[2]);
        lemma_bytes_deep_view(r[3]);
    }
    assert(r.deep_view() =~= voter_voted_seeds(voter@, party@, voting_state@));
    r
}

pub fn le_bytes_of(x: u32) -> (r: Vec<u8>)
    ensures
        r@ == le_bytes(x),
{
    let r = vec![
        (x % 256) as u8,
        ((x / 256) % 256) as u8,
        ((x / 65536) % 256) as u8,
        ((x / 16777216) % 256) as u8,
    ];
    assert(r@ =~= le_bytes(x));
    r
}

pub fn party_seed_list(index: u32, voting_state: &Address) -> (r: Vec<Vec<u8>>)
    ensures
        r.deep_view() == party_seeds(index, voting_state@),
{
    let tag = vec![112u8, 97, 114, 116, 121];
    let r = vec![tag, le_bytes_of(index), address_seed(voting_state)];
    assert(tag@ =~= party_tag());
    proof {
        lemma_bytes_deep_view(r[0]);
        lemma_bytes_deep_view(r[1]);
        lemma_bytes_deep_view(r[2]);
    }
    assert(r.deep_view() =~= party_seeds(index, voting_state@));
    r
}

} // verus!
