//! The operations, their wire encoding, and the builders that pair an
//! encoded operation with the accounts that the processor expects.
use crate::address::{
    address_seed, bump_search, derive_address, id, party_seed_list, party_seeds, program_id_spec,
    system_program_id, system_program_spec, voter_voted_seed_list, voter_voted_seeds,
    voter_votes_seed_list, voter_votes_seeds, voting_state_address, voting_state_address_spec, le_bytes, le_bytes_of, le_u32, lemma_le_bytes_of_le_u32,
    lemma_le_u32_of_le_bytes, read_address, read_u32_le, Address,
};
use crate::error::VotingError;
use vstd::prelude::*;
use vstd::string::StringSliceAdditionalSpecFns;

verus! {

/// The four operations of the program.
#[derive(Clone, Debug, PartialEq, Eq)]
pub enum VotingInstruction {
    InitVoting,
    AddVoter { voter_pubkey: Address, voter_votes_bump_seed: u8 },
    AddParty { name: Vec<u8>, party_bump_seed: u8 },
    Vote { positive: bool, voter_votes_bump_seed: u8 },
}

/// Whether `b` is valid UTF-8.
pub uninterp spec fn is_utf8(b: Seq<u8>) -> bool;

/// Relies on std's `str::from_utf8`: it succeeds exactly on valid UTF-8,
/// which depends on the bytes alone.
#[verifier::external_body]
pub(crate) fn utf8_valid(b: &[u8]) -> (r: bool)
    ensures
        r == is_utf8(b@),
{
    std::str::from_utf8(b).is_ok()
}

/// The wire encoding: the variant's position as one byte, then its fields
/// in order; an address as its 32 bytes, a name as its length in four
/// little-endian bytes and then its bytes, a flag as 0 or 1.
pub open spec fn encoding(op: VotingInstruction) -> Seq<u8> {
    match op {
        VotingInstruction::InitVoting => seq![0u8],
        VotingInstruction::AddVoter { voter_pubkey, voter_votes_bump_seed } => seq![1u8] + voter_pubkey@
            + seq![voter_votes_bump_seed],
        VotingInstruction::AddParty { name, party_bump_seed } => seq![2u8] + le_bytes(name@.len() as u32)
            + name@ + seq![party_bump_seed],
        VotingInstruction::Vote { positive, voter_votes_bump_seed } => seq![
            3u8,
            if positive { 1u8 } else { 0u8 },
            voter_votes_bump_seed,
        ],
    }
}

/// An operation that can be sent: a name fits its length prefix and is text.
pub open spec fn encodable(op: VotingInstruction) -> bool {
    op matches VotingInstruction::AddParty { name, .. } ==> name@.len() <= u32::MAX && is_utf8(name@)
}

/// The byte strings that decode to an operation.
pub open spec fn well_formed(b: Seq<u8>) -> bool {
    &&& b.len() > 0
    &&& (b[0] == 0 ==> b.len() == 1)
    &&& (b[0] == 1 ==> b.len() == 34)
    &&& (b[0] == 2 ==> b.len() >= 6 && b.len() - 6 == le_u32(b.subrange(1, 5)) && is_utf8(
        b.subrange(5, b.len() - 1),
    ))
    &&& (b[0] == 3 ==> b.len() == 3 && b[1] <= 1)
    &&& b[0] <= 3
}

/// Copies `input[from..to]`.
fn copy_range(input: &[u8], from: usize, to: usize) -> (r: Vec<u8>)
    requires
        from <= to <= input@.len(),
    ensures
        r@ == input@.subrange(from as int, to as int),
{
    let mut r: Vec<u8> = Vec::new();
    let mut i: usize = from;
    while i < to
        invariant
            from <= i <= to <= input@.len(),
            r@ == input@.subrange(from as int, i as int),
        decreases to - i,
    {
        r.push(input[i]);
        i = i + 1;
        assert(r@ =~= input@.subrange(from as int, i as int));
    }
    r
}

impl VotingInstruction {
    /// Decodes an operation; any byte string that is not the exact encoding
    /// of one is refused with `InvalidInstruction`.
    pub fn unpack(input: &[u8]) -> (r: Result<VotingInstruction, VotingError>)
        ensures
            r is Ok <==> well_formed(input@),
            r matches Ok(op) ==> encoding(op) == input@ && encodable(op),
            r matches Err(e) ==> e == VotingError::InvalidInstruction,
    {
        if input.len() == 0 {
            return Err(VotingError::InvalidInstruction);
        }
        let tag = input[0];
        if tag == 0 {
            if input.len() != 1 {
                return Err(VotingError::InvalidInstruction);
            }
            assert(input@ =~= seq![0u8]);
            Ok(VotingInstruction::InitVoting)
        } else if tag == 1 {
            if input.len() != 34 {
                return Err(VotingError::InvalidInstruction);
            }
            let op = VotingInstruction::AddVoter {
                voter_pubkey: read_address(input, 1),
                voter_votes_bump_seed: input[33],
            };
            assert(encoding(op) =~= input@);
            Ok(op)
        } else if tag == 2 {
            if input.len() < 6 {
                return Err(VotingError::InvalidInstruction);
            }
            let n: u32 = read_u32_le(input, 1);
            if (input.len() - 6) as u64 != n as u64 {
                return Err(VotingError::InvalidInstruction);
            }
            let end = input.len() - 1;
            let name = copy_range(input, 5, end);
            if !utf8_valid(name.as_slice()) {
                return Err(VotingError::InvalidInstruction);
            }
            let op = VotingInstruction::AddParty { name, party_bump_seed: input[end] };
            proof {
                lemma_le_bytes_of_le_u32(input@.subrange(1, 5));
                assert(name@.len() as u32 == n);
            }
            assert(encoding(op) =~= input@);
            Ok(op)
        } else if tag == 3 {
            if input.len() != 3 || input[1] > 1 {
                return Err(VotingError::InvalidInstruction);
            }
            let op = VotingInstruction::Vote { positive: input[1] == 1, voter_votes_bump_seed: input[2] };
            assert(encoding(op) =~= input@);
            Ok(op)
        } else {
            Err(VotingError::InvalidInstruction)
        }
    }

    /// Encodes the operation.
    pub fn pack(&self) -> (r: Vec<u8>)
        requires
            self matches VotingInstruction::AddParty { name, .. } ==> name@.len() <= u32::MAX,
        ensures
            r@ == encoding(*self),
    {
        match self {
            VotingInstruction::InitVoting => {
                let r = vec![0u8];
                assert(r@ =~= encoding(*self));
                r
            },
            VotingInstruction::AddVoter { voter_pubkey, voter_votes_bump_seed } => {
                let mut r = vec![1u8];
                let mut key = address_seed(voter_pubkey);
                r.append(&mut key);
                r.push(*voter_votes_bump_seed);
                assert(r@ =~= encoding(*self));
                r
            },
            VotingInstruction::AddParty { name, party_bump_seed } => {
                let mut r = vec![2u8];
                let mut len = le_bytes_of(name.len() as u32);
                r.append(&mut len);
                let mut i: usize = 0;
                while i < name.len()
                    invariant
                        i <= name@.len(),
                        r@ == seq![2u8] + le_bytes(name@.len() as u32) + name@.subrange(0, i as int),
                    decreases name@.len() - i,
                {
                    r.push(name[i]);
                    i = i + 1;
                    assert(r@ =~= seq![2u8] + le_bytes(name@.len() as u32) + name@.subrange(0, i as int));
                }
                r.push(*party_bump_seed);
                assert(name@.subrange(0, name@.len() as int) =~= name@);
                assert(r@ =~= encoding(*self));
                r
            },
            VotingInstruction::Vote { positive, voter_votes_bump_seed } => {
                let r = vec![3u8, if *positive { 1u8 } else { 0u8 }, *voter_votes_bump_seed];
                assert(r@ =~= encoding(*self));
                r
            },
        }
    }
}

/// The encoding of every operation that can be sent is well formed, so
/// `unpack` accepts it and returns an operation with that same encoding.
pub proof fn encoding_round_trip(op: VotingInstruction)
    requires
        encodable(op),
    ensures
        well_formed(encoding(op)),
{
    let b = encoding(op);
    match op {
        VotingInstruction::AddParty { name, party_bump_seed } => {
            lemma_le_u32_of_le_bytes(name@.len() as u32);
            assert(b.subrange(1, 5) =~= le_bytes(name@.len() as u32));
            assert(b.subrange(5, b.len() - 1) =~= name@);
        },
        VotingInstruction::AddVoter { voter_pubkey, .. } => {
            assert(b.len() == 34);
        },
        _ => {},
    }
}


/// An account that an instruction names, and what the processor may do with it.
#[derive(Clone, Copy, Debug, PartialEq, Eq)]
pub struct AccountMeta {
    pub pubkey: Address,
    pub is_signer: bool,
    pub is_writable: bool,
}

impl AccountMeta {
    /// A writable account.
    pub fn new(pubkey: Address, is_signer: bool) -> (r: AccountMeta)
        ensures
            r == (AccountMeta { pubkey, is_signer, is_writable: true }),
    {
        AccountMeta { pubkey, is_signer, is_writable: true }
    }

    /// A read-only account.
    pub fn new_readonly(pubkey: Address, is_signer: bool) -> (r: AccountMeta)
        ensures
            r == (AccountMeta { pubkey, is_signer, is_writable: false }),
    {
        AccountMeta { pubkey, is_signer, is_writable: false }
    }
}

/// An encoded operation for a program, with the accounts it names in order.
#[derive(Clone, Debug, PartialEq, Eq)]
pub struct Instruction {
    pub program_id: Address,
    pub accounts: Vec<AccountMeta>,
    pub data: Vec<u8>,
}

/// `m` names `key`, with these roles.
pub open spec fn meta_is(m: AccountMeta, key: Seq<u8>, is_signer: bool, is_writable: bool) -> bool {
    m.pubkey@ == key && m.is_signer == is_signer && m.is_writable == is_writable
}

/// `ix` is for this program and carries `data`.
pub open spec fn sent_here(ix: Instruction, data: Seq<u8>) -> bool {
    ix.program_id@ == program_id_spec() && ix.data@ == data
}

/// InitVoting for `voting_owner_pubkey`: the owner countersigns, the session
/// account at the owner's derived address is written. `None` where that
/// address cannot be derived.
pub fn init_voting(voting_owner_pubkey: &Address) -> (r: Option<Instruction>)
    ensures
        r is Some <==> voting_state_address_spec(voting_owner_pubkey@, program_id_spec()) is Some,
        r matches Some(ix) ==> {
            &&& sent_here(ix, encoding(VotingInstruction::InitVoting))
            &&& ix.accounts@.len() == 2
            &&& meta_is(ix.accounts@[0], voting_owner_pubkey@, true, true)
            &&& meta_is(
                ix.accounts@[1],
                voting_state_address_spec(voting_owner_pubkey@, program_id_spec())->0,
                false,
                true,
            )
        },
{
    let program_id = id();
    let state = match voting_state_address(voting_owner_pubkey, &program_id) {
        Some(a) => a,
        None => {
            return None;
        },
    };
    let accounts = vec![AccountMeta::new(*voting_owner_pubkey, true), AccountMeta::new(state, false)];
    let op = VotingInstruction::InitVoting;
    let data = op.pack();
    Some(Instruction { program_id, accounts, data })
}

/// AddVoter of `voter_pubkey` in the session of `voting_owner_pubkey`, with the
/// voter's counter address. `None` where an address cannot be derived.
pub fn add_voter(voting_owner_pubkey: &Address, voter_pubkey: &Address) -> (r: Option<(Instruction, Address)>)
    ensures
        r is Some <==> (voting_state_address_spec(voting_owner_pubkey@, program_id_spec()) matches Some(s)
            && bump_search(voter_votes_seeds(voter_pubkey@, s), program_id_spec()) is Some),
        r matches Some((ix, counter)) ==> {
            let s = voting_state_address_spec(voting_owner_pubkey@, program_id_spec())->0;
            let (c, bump) = bump_search(voter_votes_seeds(voter_pubkey@, s), program_id_spec())->0;
            &&& counter@ == c
            &&& sent_here(
                ix,
                encoding(VotingInstruction::AddVoter { voter_pubkey: *voter_pubkey, voter_votes_bump_seed: bump }),
            )
            &&& ix.accounts@.len() == 4
            &&& meta_is(ix.accounts@[0], voting_owner_pubkey@, true, true)
            &&& meta_is(ix.accounts@[1], s, false, false)
            &&& meta_is(ix.accounts@[2], c, false, true)
            &&& meta_is(ix.accounts@[3], system_program_spec(), false, false)
        },
{
    let program_id = id();
    let state = match voting_state_address(voting_owner_pubkey, &program_id) {
        Some(a) => a,
        None => {
            return None;
        },
    };
    let seeds = voter_votes_seed_list(voter_pubkey, &state);
    let (counter, bump) = match derive_address(&seeds, &program_id) {
        Some(found) => found,
        None => {
            return None;
        },
    };
    let accounts = vec![
        AccountMeta::new(*voting_owner_pubkey, true),
        AccountMeta::new_readonly(state, false),
        AccountMeta::new(counter, false),
        AccountMeta::new_readonly(system_program_id(), false),
    ];
    let op = VotingInstruction::AddVoter { voter_pubkey: *voter_pubkey, voter_votes_bump_seed: bump };
    let data = op.pack();
    Some((Instruction { program_id, accounts, data }, counter))
}

/// AddParty of a party named `party_name` as party number `party_count` of
/// the session at `voting_state_pubkey`, with the party's address. `None`
/// where the address cannot be derived.
pub fn add_party(fee_payer: &Address, party_name: &str, party_count: u32, voting_state_pubkey: &Address) -> (r: Option<
    (Instruction, Address),
>)
    requires
        party_name.spec_bytes().len() <= u32::MAX,
    ensures
        r is Some <==> bump_search(party_seeds(party_count, voting_state_pubkey@), program_id_spec()) is Some,
        r matches Some((ix, party)) ==> {
            let (p, bump) = bump_search(party_seeds(party_count, voting_state_pubkey@), program_id_spec())->0;
            &&& party@ == p
            &&& ix.program_id@ == program_id_spec()
            &&& ix.data@ == seq![2u8] + le_bytes(party_name.spec_bytes().len() as u32) + party_name.spec_bytes()
                + seq![bump]
            &&& ix.accounts@.len() == 4
            &&& meta_is(ix.accounts@[0], fee_payer@, true, true)
            &&& meta_is(ix.accounts@[1], p, false, true)
            &&& meta_is(ix.accounts@[2], voting_state_pubkey@, false, true)
            &&& meta_is(ix.accounts@[3], system_program_spec(), false, false)
        },
{
    let program_id = id();
    let seeds = party_seed_list(party_count, voting_state_pubkey);
    let (party, bump) = match derive_address(&seeds, &program_id) {
        Some(found) => found,
        None => {
            return None;
        },
    };
    let accounts = vec![
        AccountMeta::new(*fee_payer, true),
        AccountMeta::new(party, false),
        AccountMeta::new(*voting_state_pubkey, false),
        AccountMeta::new_readonly(system_program_id(), false),
    ];
    let name = vstd::slice::slice_to_vec(party_name.as_bytes());
    let op = VotingInstruction::AddParty { name, party_bump_seed: bump };
    let data = op.pack();
    Some((Instruction { program_id, accounts, data }, party))
}

/// Vote of `voter_pubkey` on the party at `party_pubkey` of the session at
/// `voting_state_pubkey`, with the voter's counter address and the address
/// of the marker that the vote creates. `None` where an address cannot be
/// derived.
pub fn vote(voter_pubkey: &Address, voting_state_pubkey: &Address, party_pubkey: &Address, positive: bool) -> (r:
    Option<(Instruction, Address, Address)>)
    ensures
        r is Some <==> (bump_search(voter_votes_seeds(voter_pubkey@, voting_state_pubkey@), program_id_spec()) is Some
            && bump_search(voter_voted_seeds(voter_pubkey@, party_pubkey@, voting_state_pubkey@), program_id_spec()) is Some),
        r matches Some((ix, counter, marker)) ==> {
            let (c, _) = bump_search(voter_votes_seeds(voter_pubkey@, voting_state_pubkey@), program_id_spec())->0;
            let (m, bump) = bump_search(voter_voted_seeds(voter_pubkey@, party_pubkey@, voting_state_pubkey@), program_id_spec())->0;
            &&& counter@ == c
            &&& marker@ == m
            &&& sent_here(ix, encoding(VotingInstruction::Vote { positive, voter_votes_bump_seed: bump }))
            &&& ix.accounts@.len() == 6
            &&& meta_is(ix.accounts@[0], voter_pubkey@, true, true)
            &&& meta_is(ix.accounts@[1], voting_state_pubkey@, false, false)
            &&& meta_is(ix.accounts@[2], m, false, true)
            &&& meta_is(ix.accounts@[3], c, false, true)
            &&& meta_is(ix.accounts@[4], party_pubkey@, false, true)
            &&& meta_is(ix.accounts@[5], system_program_spec(), false, false)
        },
{
    let program_id = id();
    let counter_seeds = voter_votes_seed_list(voter_pubkey, voting_state_pubkey);
    let counter = match derive_address(&counter_seeds, &program_id) {
        Some((a, _)) => a,
        None => {
            return None;
        },
    };
    let marker_seeds = voter_voted_seed_list(voter_pubkey, party_pubkey, voting_state_pubkey);
    let (marker, bump) = match derive_address(&marker_seeds, &program_id) {
        Some(found) => found,
        None => {
            return None;
        },
    };
    let accounts = vec![
        AccountMeta::new(*voter_pubkey, true),
        AccountMeta::new_readonly(*voting_state_pubkey, false),
        AccountMeta::new(marker, false),
        AccountMeta::new(counter, false),
        AccountMeta::new(*party_pubkey, false),
        AccountMeta::new_readonly(system_program_id(), false),
    ];
    let op = VotingInstruction::Vote { positive, voter_votes_bump_seed: bump };
    let data = op.pack();
    Some((Instruction { program_id, accounts, data }, counter, marker))
}

} // verus!
