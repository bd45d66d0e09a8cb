//! The records that the program keeps at derived addresses.
use crate::address::{address_seed, le_bytes, le_bytes_of, le_u32, lemma_le_bytes_of_le_u32, read_address, read_u32_le, Address};
use crate::instruction::{is_utf8, utf8_valid};
use vstd::prelude::*;

verus! {

/// The longest party name, in bytes, that a party record can hold.
pub const MAX_NAME_LEN: usize = 32;

/// How many votes one voter may cast in one session.
pub const MAX_VOTES_PER_VOTER: u32 = 3;

/// One voting session, at the address seeded by its owner.
#[derive(Clone, Copy, Debug, PartialEq, Eq)]
pub struct VotingState {
    pub is_initialized: bool,
    pub voting_owner: Address,
    pub party_count: u32,
}

/// One option that voters may vote for or against.
#[derive(Clone, Debug, PartialEq, Eq)]
pub struct Party {
    pub is_initialized: bool,
    pub positive_votes: u32,
    pub negative_votes: u32,
    pub name: Vec<u8>,
    pub voting_state_pubkey: Address,
}

/// How many votes one voter has cast in one session.
#[derive(Clone, Copy, Debug, PartialEq, Eq)]
pub struct VoterVotes {
    pub is_initialized: bool,
    pub votes: u32,
}

/// The marker that a voter has voted on a party; its presence is the record.
#[derive(Clone, Copy, Debug, PartialEq, Eq)]
pub struct VoterVoted {
    pub is_initialized: bool,
}

/// Encoded size of a party whose name has `name_len` bytes: flag, two
/// counters, the name's length prefix and bytes, the session address.
pub open spec fn party_size(name_len: nat) -> nat {
    1 + 4 + 4 + 4 + name_len + 32
}

impl Party {
    /// The size to allocate for a party record: that of the longest name.
    pub fn serialized_size() -> (r: usize)
        ensures
            r == party_size(MAX_NAME_LEN as nat),
    {
        1 + 4 + 4 + 4 + MAX_NAME_LEN + 32
    }

    /// The size of the record of a party with a name of `name_len` bytes.
    pub fn size_for_name(name_len: usize) -> (r: usize)
        requires
            name_len <= MAX_NAME_LEN,
        ensures
            r == party_size(name_len as nat),
    {
        1 + 4 + 4 + 4 + name_len + 32
    }
}

impl VotingState {
    pub fn serialized_size() -> (r: usize)
        ensures
            r == 1 + 32 + 4,
    {
        1 + 32 + 4
    }
}

impl VoterVotes {
    pub fn serialized_size() -> (r: usize)
        ensures
            r == 1 + 4,
    {
        1 + 4
    }
}

impl VoterVoted {
    pub fn serialized_size() -> (r: usize)
        ensures
            r == 1,
    {
        1
    }
}


/// A flag as one byte.
pub open spec fn flag_byte(b: bool) -> u8 {
    if b { 1u8 } else { 0u8 }
}

/// Layout of a session record: flag, owner, party count.
pub open spec fn voting_state_bytes(s: VotingState) -> Seq<u8> {
    seq![flag_byte(s.is_initialized)] + s.voting_owner@ + le_bytes(s.party_count)
}

/// Layout of a party record: flag, the two counters, the name with its
/// length prefix, the session address.
pub open spec fn party_bytes(p: Party) -> Seq<u8> {
    seq![flag_byte(p.is_initialized)] + le_bytes(p.positive_votes) + le_bytes(p.negative_votes) + le_bytes(
        p.name@.len() as u32,
    ) + p.name@ + p.voting_state_pubkey@
}

/// Layout of a voter's counter record: flag, count.
pub open spec fn voter_votes_bytes(v: VoterVotes) -> Seq<u8> {
    seq![flag_byte(v.is_initialized)] + le_bytes(v.votes)
}

/// Layout of a vote marker: its flag.
pub open spec fn voter_voted_bytes(v: VoterVoted) -> Seq<u8> {
    seq![flag_byte(v.is_initialized)]
}

/// Record bytes that hold a session.
pub open spec fn voting_state_well_formed(b: Seq<u8>) -> bool {
    b.len() == 37 && b[0] <= 1
}

/// Record bytes that hold a party.
pub open spec fn party_well_formed(b: Seq<u8>) -> bool {
    &&& b.len() >= 45
    &&& b[0] <= 1
    &&& b.len() - 45 == le_u32(b.subrange(9, 13))
    &&& is_utf8(b.subrange(13, b.len() - 32))
}

/// Each record's layout has the size that its `serialized_size` allocates
/// (for a party, the size for its name's length).
pub proof fn layouts_have_allocated_sizes(s: VotingState, p: Party, v: VoterVotes, m: VoterVoted)
    ensures
        voting_state_bytes(s).len() == 1 + 32 + 4,
        party_bytes(p).len() == party_size(p.name@.len()),
        voter_votes_bytes(v).len() == 1 + 4,
        voter_voted_bytes(m).len() == 1,
{
}

fn push_u32(out: &mut Vec<u8>, x: u32)
    ensures
        final(out)@ == old(out)@ + le_bytes(x),
{
    let mut b = le_bytes_of(x);
    out.append(&mut b);
}

impl VotingState {
    pub fn pack(&self) -> (r: Vec<u8>)
        ensures
            r@ == voting_state_bytes(*self),
    {
        let mut r = vec![if self.is_initialized { 1u8 } else { 0u8 }];
        let mut owner = address_seed(&self.voting_owner);
        r.append(&mut owner);
        push_u32(&mut r, self.party_count);
        assert(r@ =~= voting_state_bytes(*self));
        r
    }

    /// Decodes a session record; `None` on any other bytes.
    pub fn unpack(data: &[u8]) -> (r: Option<VotingState>)
        ensures
            r is Some <==> voting_state_well_formed(data@),
            r matches Some(s) ==> voting_state_bytes(s) == data@,
    {
        if data.len() != 37 || data[0] > 1 {
            return None;
        }
        let s = VotingState {
            is_initialized: data[0] == 1,
            voting_owner: read_address(data, 1),
            party_count: read_u32_le(data, 33),
        };
        proof {
            lemma_le_bytes_of_le_u32(data@.subrange(33, 37));
        }
        assert(voting_state_bytes(s) =~= data@);
        Some(s)
    }
}

impl VoterVotes {
    pub fn pack(&self) -> (r: Vec<u8>)
        ensures
            r@ == voter_votes_bytes(*self),
    {
        let mut r = vec![if self.is_initialized { 1u8 } else { 0u8 }];
        push_u32(&mut r, self.votes);
        assert(r@ =~= voter_votes_bytes(*self));
        r
    }

    /// Decodes a voter's counter record; `None` on any other bytes.
    pub fn unpack(data: &[u8]) -> (r: Option<VoterVotes>)
        ensures
            r is Some <==> (data@.len() == 5 && data@[0] <= 1),
            r matches Some(v) ==> voter_votes_bytes(v) == data@,
    {
        if data.len() != 5 || data[0] > 1 {
            return None;
        }
        let v = VoterVotes { is_initialized: data[0] == 1, votes: read_u32_le(data, 1) };
        proof {
            lemma_le_bytes_of_le_u32(data@.subrange(1, 5));
        }
        assert(voter_votes_bytes(v) =~= data@);
        Some(v)
    }
}

impl VoterVoted {
    pub fn pack(&self) -> (r: Vec<u8>)
        ensures
            r@ == voter_voted_bytes(*self),
    {
        let r = vec![if self.is_initialized { 1u8 } else { 0u8 }];
        assert(r@ =~= voter_voted_bytes(*self));
        r
    }

    /// Decodes a vote marker; `None` on any other bytes.
    pub fn unpack(data: &[u8]) -> (r: Option<VoterVoted>)
        ensures
            r is Some <==> (data@.len() == 1 && data@[0] <= 1),
            r matches Some(v) ==> voter_voted_bytes(v) == data@,
    {
        if data.len() != 1 || data[0] > 1 {
            return None;
        }
        let v = VoterVoted { is_initialized: data[0] == 1 };
        assert(voter_voted_bytes(v) =~= data@);
        Some(v)
    }
}

impl Party {
    pub fn pack(&self) -> (r: Vec<u8>)
        requires
            self.name@.len() <= u32::MAX,
        ensures
            r@ == party_bytes(*self),
    {
        let mut r = vec![if self.is_initialized { 1u8 } else { 0u8 }];
        push_u32(&mut r, self.positive_votes);
        push_u32(&mut r, self.negative_votes);
        push_u32(&mut r, self.name.len() as u32);
        let ghost head = r@;
        let mut i: usize = 0;
        while i < self.name.len()
            invariant
                i <= self.name@.len(),
                r@ == head + self.name@.subrange(0, i as int),
            decreases self.name@.len() - i,
        {
            r.push(self.name[i]);
            i = i + 1;
            assert(r@ =~= head + self.name@.subrange(0, i as int));
        }
        assert(self.name@.subrange(0, self.name@.len() as int) =~= self.name@);
        let mut home = address_seed(&self.voting_state_pubkey);
        r.append(&mut home);
        assert(r@ =~= party_bytes(*self));
        r
    }

    /// Decodes a party record; `None` on any other bytes.
    pub fn unpack(data: &[u8]) -> (r: Option<Party>)
        ensures
            r is Some <==> party_well_formed(data@),
            r matches Some(p) ==> party_bytes(p) == data@,
    {
        if data.len() < 45 || data[0] > 1 {
            return None;
        }
        let n = read_u32_le(data, 9);
        if (data.len() - 45) as u64 != n as u64 {
            return None;
        }
        let end = data.len() - 32;
        let mut name: Vec<u8> = Vec::new();
        let mut i: usize = 13;
        while i < end
            invariant
                13 <= i <= end,
                end + 32 == data@.len(),
                name@ == data@.subrange(13, i as int),
            decreases end - i,
        {
            name.push(data[i]);
            i = i + 1;
            assert(name@ =~= data@.subrange(13, i as int));
        }
        if !utf8_valid(name.as_slice()) {
            return None;
        }
        let p = Party {
            is_initialized: data[0] == 1,
            positive_votes: read_u32_le(data, 1),
            negative_votes: read_u32_le(data, 5),
            name,
            voting_state_pubkey: read_address(data, end),
        };
        proof {
            lemma_le_bytes_of_le_u32(data@.subrange(1, 5));
            lemma_le_bytes_of_le_u32(data@.subrange(5, 9));
            lemma_le_bytes_of_le_u32(data@.subrange(9, 13));
        }
        assert(party_bytes(p) =~= data@);
        Some(p)
    }
}

} // verus!
