//! The state-transition engine: each operation checks every precondition
//! first and only then writes its records.
use crate::address::{
    address_verifies, bump_search, derive_address, party_seed_list, party_seeds, same_address,
    verify_address, voter_voted_seed_list, voter_voted_seeds, voter_votes_seed_list,
    voter_votes_seeds, voting_state_address, voting_state_address_spec, Address,
};
use crate::error::VotingError;
use crate::state::{Party, VoterVoted, VoterVotes, VotingState, MAX_NAME_LEN, MAX_VOTES_PER_VOTER};
use vstd::prelude::*;

verus! {

/// An account that an operation names, with whether it countersigned.
#[derive(Clone, Copy, Debug, PartialEq, Eq)]
pub struct Signer {
    pub key: Address,
    pub is_signer: bool,
}

/// A record account: its address, and its record where one exists there.
#[derive(Clone, Debug, PartialEq, Eq)]
pub struct Slot<T> {
    pub key: Address,
    pub record: Option<T>,
}

/// The session at `state`, where it holds an initialized one.
pub open spec fn session(state: Slot<VotingState>) -> Option<VotingState> {
    match state.record {
        Some(s) => if s.is_initialized { Some(s) } else { None },
        None => None,
    }
}

/// `state` lies at the address that its own owner's seed gives.
pub open spec fn session_at_home(state: Slot<VotingState>, s: VotingState, program_id: Seq<u8>) -> bool {
    voting_state_address_spec(s.voting_owner@, program_id) == Some(state.key@)
}

/// InitVoting: the result and the session account afterwards.
pub open spec fn init_voting_step(program_id: Seq<u8>, owner: Signer, state: Slot<VotingState>) -> (
    Result<(), VotingError>,
    Slot<VotingState>,
) {
    if !owner.is_signer {
        (Err(VotingError::MissingSignature), state)
    } else if voting_state_address_spec(owner.key@, program_id) != Some(state.key@) {
        (Err(VotingError::AddressMismatch), state)
    } else if state.record is Some {
        (Err(VotingError::AlreadyInitialized), state)
    } else {
        (
            Ok(()),
            Slot {
                key: state.key,
                record: Some(VotingState { is_initialized: true, voting_owner: owner.key, party_count: 0 }),
            },
        )
    }
}

/// Creates the session of `owner` at its derived address.
pub fn process_init_voting(program_id: &Address, owner: &Signer, state: &mut Slot<VotingState>) -> (r: Result<(), VotingError>)
    ensures
        (r, *final(state)) == init_voting_step(program_id@, *owner, *old(state)),
{
    if !owner.is_signer {
        return Err(VotingError::MissingSignature);
    }
    match voting_state_address(&owner.key, program_id) {
        Some(a) => {
            if !same_address(&a, &state.key) {
                return Err(VotingError::AddressMismatch);
            }
        },
        None => {
            return Err(VotingError::AddressMismatch);
        },
    }
    if state.record.is_some() {
        return Err(VotingError::AlreadyInitialized);
    }
    state.record = Some(VotingState { is_initialized: true, voting_owner: owner.key, party_count: 0 });
    Ok(())
}


/// AddVoter: the result and the voter's counter account afterwards.
pub open spec fn add_voter_step(
    program_id: Seq<u8>,
    owner: Signer,
    state: Slot<VotingState>,
    votes: Slot<VoterVotes>,
    voter: Address,
    bump: u8,
) -> (Result<(), VotingError>, Slot<VoterVotes>) {
    if !owner.is_signer {
        (Err(VotingError::MissingSignature), votes)
    } else if voting_state_address_spec(owner.key@, program_id) != Some(state.key@) {
        (Err(VotingError::AddressMismatch), votes)
    } else if session(state) is None {
        (Err(VotingError::NotInitialized), votes)
    } else if !address_verifies(votes.key@, voter_votes_seeds(voter@, state.key@), bump, program_id) {
        (Err(VotingError::AddressMismatch), votes)
    } else if votes.record is Some {
        (Err(VotingError::AlreadyInitialized), votes)
    } else {
        (Ok(()), Slot { key: votes.key, record: Some(VoterVotes { is_initialized: true, votes: 0 }) })
    }
}

/// Registers `voter` in the session of `owner`, with no votes cast.
pub fn process_add_voter(
    program_id: &Address,
    owner: &Signer,
    state: &Slot<VotingState>,
    votes: &mut Slot<VoterVotes>,
    voter: &Address,
    bump: u8,
) -> (r: Result<(), VotingError>)
    ensures
        (r, *final(votes)) == add_voter_step(program_id@, *owner, *state, *old(votes), *voter, bump),
{
    if !owner.is_signer {
        return Err(VotingError::MissingSignature);
    }
    match voting_state_address(&owner.key, program_id) {
        Some(a) => {
            if !same_address(&a, &state.key) {
                return Err(VotingError::AddressMismatch);
            }
        },
        None => {
            return Err(VotingError::AddressMismatch);
        },
    }
    match &state.record {
        Some(s) => {
            if !s.is_initialized {
                return Err(VotingError::NotInitialized);
            }
        },
        None => {
            return Err(VotingError::NotInitialized);
        },
    }
    let seeds = voter_votes_seed_list(voter, &state.key);
    if !verify_address(&votes.key, &seeds, bump, program_id) {
        return Err(VotingError::AddressMismatch);
    }
    if votes.record.is_some() {
        return Err(VotingError::AlreadyInitialized);
    }
    votes.record = Some(VoterVotes { is_initialized: true, votes: 0 });
    Ok(())
}

/// AddParty: the result, the party account and the session account afterwards.
pub open spec fn add_party_step(
    program_id: Seq<u8>,
    payer: Signer,
    party: Slot<Party>,
    state: Slot<VotingState>,
    name: Vec<u8>,
    bump: u8,
) -> (Result<(), VotingError>, Slot<Party>, Slot<VotingState>) {
    if !payer.is_signer {
        (Err(VotingError::MissingSignature), party, state)
    } else if session(state) is None {
        (Err(VotingError::NotInitialized), party, state)
    } else {
        let s = session(state)->0;
        if !session_at_home(state, s, program_id) {
            (Err(VotingError::AddressMismatch), party, state)
        } else if name@.len() > MAX_NAME_LEN {
            (Err(VotingError::NameTooLong), party, state)
        } else if !address_verifies(party.key@, party_seeds(s.party_count, state.key@), bump, program_id) {
            (Err(VotingError::AddressMismatch), party, state)
        } else if party.record is Some {
            (Err(VotingError::AlreadyInitialized), party, state)
        } else if s.party_count == u32::MAX {
            (Err(VotingError::CounterOverflow), party, state)
        } else {
            (
                Ok(()),
                Slot {
                    key: party.key,
                    record: Some(Party {
                        is_initialized: true,
                        positive_votes: 0,
                        negative_votes: 0,
                        name,
                        voting_state_pubkey: state.key,
                    }),
                },
                Slot {
                    key: state.key,
                    record: Some(VotingState { party_count: (s.party_count + 1) as u32, ..s }),
                },
            )
        }
    }
}

/// Creates party number `party_count` of a session, named `name`, and counts it.
pub fn process_add_party(
    program_id: &Address,
    payer: &Signer,
    party: &mut Slot<Party>,
    state: &mut Slot<VotingState>,
    name: Vec<u8>,
    bump: u8,
) -> (r: Result<(), VotingError>)
    ensures
        (r, *final(party), *final(state)) == add_party_step(program_id@, *payer, *old(party), *old(state), name, bump),
{
    if !payer.is_signer {
        return Err(VotingError::MissingSignature);
    }
    let s: VotingState = match &state.record {
        Some(s) => {
            if !s.is_initialized {
                return Err(VotingError::NotInitialized);
            }
            *s
        },
        None => {
            return Err(VotingError::NotInitialized);
        },
    };
    match voting_state_address(&s.voting_owner, program_id) {
        Some(a) => {
            if !same_address(&a, &state.key) {
                return Err(VotingError::AddressMismatch);
            }
        },
        None => {
            return Err(VotingError::AddressMismatch);
        },
    }
    if name.len() > MAX_NAME_LEN {
        return Err(VotingError::NameTooLong);
    }
    let seeds = party_seed_list(s.party_count, &state.key);
    if !verify_address(&party.key, &seeds, bump, program_id) {
        return Err(VotingError::AddressMismatch);
    }
    if party.record.is_some() {
        return Err(VotingError::AlreadyInitialized);
    }
    if s.party_count == u32::MAX {
        return Err(VotingError::CounterOverflow);
    }
    party.record = Some(Party {
        is_initialized: true,
        positive_votes: 0,
        negative_votes: 0,
        name,
        voting_state_pubkey: state.key,
    });
    state.record = Some(VotingState { party_count: s.party_count + 1, ..s });
    Ok(())
}


/// The party at `party`, where it holds an initialized one.
pub open spec fn party_of(party: Slot<Party>) -> Option<Party> {
    match party.record {
        Some(p) => if p.is_initialized { Some(p) } else { None },
        None => None,
    }
}

/// The voter's counter at `votes`, where it holds an initialized one.
pub open spec fn counter_of(votes: Slot<VoterVotes>) -> Option<VoterVotes> {
    match votes.record {
        Some(v) => if v.is_initialized { Some(v) } else { None },
        None => None,
    }
}

/// The counter that a vote in direction `positive` raises.
pub open spec fn tally(p: Party, positive: bool) -> u32 {
    if positive { p.positive_votes } else { p.negative_votes }
}

/// `votes` lies at the canonical address of `voter`'s counter in the session at `state_key`.
pub open spec fn counter_at_home(votes: Slot<VoterVotes>, voter: Seq<u8>, state_key: Seq<u8>, program_id: Seq<u8>) -> bool {
    bump_search(voter_votes_seeds(voter, state_key), program_id) matches Some((a, _)) && a == votes.key@
}

/// Vote: the result, and the marker, counter and party accounts afterwards.
pub open spec fn vote_step(
    program_id: Seq<u8>,
    voter: Signer,
    state: Slot<VotingState>,
    voted: Slot<VoterVoted>,
    votes: Slot<VoterVotes>,
    party: Slot<Party>,
    positive: bool,
    bump: u8,
) -> (Result<(), VotingError>, Slot<VoterVoted>, Slot<VoterVotes>, Slot<Party>) {
    if !voter.is_signer {
        (Err(VotingError::MissingSignature), voted, votes, party)
    } else if voted.record is Some {
        (Err(VotingError::AlreadyVoted), voted, votes, party)
    } else if session(state) is None {
        (Err(VotingError::NotInitialized), voted, votes, party)
    } else if !session_at_home(state, session(state)->0, program_id) {
        (Err(VotingError::AddressMismatch), voted, votes, party)
    } else if party_of(party) is None {
        (Err(VotingError::NotInitialized), voted, votes, party)
    } else if party_of(party)->0.voting_state_pubkey@ != state.key@ {
        (Err(VotingError::AddressMismatch), voted, votes, party)
    } else if !counter_at_home(votes, voter.key@, state.key@, program_id) {
        (Err(VotingError::AddressMismatch), voted, votes, party)
    } else if counter_of(votes) is None {
        (Err(VotingError::NotInitialized), voted, votes, party)
    } else if !address_verifies(voted.key@, voter_voted_seeds(voter.key@, party.key@, state.key@), bump, program_id) {
        (Err(VotingError::AddressMismatch), voted, votes, party)
    } else if counter_of(votes)->0.votes >= MAX_VOTES_PER_VOTER {
        (Err(VotingError::VoteLimitExceeded), voted, votes, party)
    } else if tally(party_of(party)->0, positive) == u32::MAX {
        (Err(VotingError::CounterOverflow), voted, votes, party)
    } else {
        let p = party_of(party)->0;
        let v = counter_of(votes)->0;
        (
            Ok(()),
            Slot { key: voted.key, record: Some(VoterVoted { is_initialized: true }) },
            Slot { key: votes.key, record: Some(VoterVotes { votes: (v.votes + 1) as u32, ..v }) },
            Slot {
                key: party.key,
                record: Some(
                    if positive {
                        Party { positive_votes: (p.positive_votes + 1) as u32, ..p }
                    } else {
                        Party { negative_votes: (p.negative_votes + 1) as u32, ..p }
                    },
                ),
            },
        )
    }
}

/// Casts `voter`'s vote on `party`, for it when `positive`, else against it.
pub fn process_vote(
    program_id: &Address,
    voter: &Signer,
    state: &Slot<VotingState>,
    voted: &mut Slot<VoterVoted>,
    votes: &mut Slot<VoterVotes>,
    party: &mut Slot<Party>,
    positive: bool,
    bump: u8,
) -> (r: Result<(), VotingError>)
    ensures
        (r, *final(voted), *final(votes), *final(party)) == vote_step(
            program_id@,
            *voter,
            *state,
            *old(voted),
            *old(votes),
            *old(party),
            positive,
            bump,
        ),
{
    if !voter.is_signer {
        return Err(VotingError::MissingSignature);
    }
    if voted.record.is_some() {
        return Err(VotingError::AlreadyVoted);
    }
    let s: VotingState = match &state.record {
        Some(s) => {
            if !s.is_initialized {
                return Err(VotingError::NotInitialized);
            }
            *s
        },
        None => {
            return Err(VotingError::NotInitialized);
        },
    };
    match voting_state_address(&s.voting_owner, program_id) {
        Some(a) => {
            if !same_address(&a, &state.key) {
                return Err(VotingError::AddressMismatch);
            }
        },
        None => {
            return Err(VotingError::AddressMismatch);
        },
    }
    let (tally_now, home): (u32, Address) = match &party.record {
        Some(p) => {
            if !p.is_initialized {
                return Err(VotingError::NotInitialized);
            }
            (if positive { p.positive_votes } else { p.negative_votes }, p.voting_state_pubkey)
        },
        None => {
            return Err(VotingError::NotInitialized);
        },
    };
    if !same_address(&home, &state.key) {
        return Err(VotingError::AddressMismatch);
    }
    let counter_seeds = voter_votes_seed_list(&voter.key, &state.key);
    match derive_address(&counter_seeds, program_id) {
        Some((a, _)) => {
            if !same_address(&a, &votes.key) {
                return Err(VotingError::AddressMismatch);
            }
        },
        None => {
            return Err(VotingError::AddressMismatch);
        },
    }
    let v: VoterVotes = match &votes.record {
        Some(v) => {
            if !v.is_initialized {
                return Err(VotingError::NotInitialized);
            }
            *v
        },
        None => {
            return Err(VotingError::NotInitialized);
        },
    };
    let marker_seeds = voter_voted_seed_list(&voter.key, &party.key, &state.key);
    if !verify_address(&voted.key, &marker_seeds, bump, program_id) {
        return Err(VotingError::AddressMismatch);
    }
    if v.votes >= MAX_VOTES_PER_VOTER {
        return Err(VotingError::VoteLimitExceeded);
    }
    if tally_now == u32::MAX {
        return Err(VotingError::CounterOverflow);
    }
    voted.record = Some(VoterVoted { is_initialized: true });
    votes.record = Some(VoterVotes { votes: v.votes + 1, ..v });
    match &mut party.record {
        Some(p) => {
            if positive {
                p.positive_votes = p.positive_votes + 1;
            } else {
                p.negative_votes = p.negative_votes + 1;
            }
        },
        None => {},
    }
    Ok(())
}


/// InitVoting succeeds once per owner: on an empty account at the owner's
/// derived address, with the owner's countersignature, it succeeds; after a
/// success, every further InitVoting by that owner fails with
/// `AlreadyInitialized` and leaves the session as it is.
pub proof fn init_voting_only_once(program_id: Seq<u8>, owner: Signer, state: Slot<VotingState>)
    ensures
        (owner.is_signer && voting_state_address_spec(owner.key@, program_id) == Some(state.key@)
            && state.record is None) ==> init_voting_step(program_id, owner, state).0 is Ok,
        init_voting_step(program_id, owner, state).0 is Ok ==> init_voting_step(
            program_id,
            owner,
            init_voting_step(program_id, owner, state).1,
        ) == (
            Err::<(), VotingError>(VotingError::AlreadyInitialized),
            init_voting_step(program_id, owner, state).1,
        ),
{
}

/// The double-vote guard: once a voter's vote on a party has succeeded, every
/// later countersigned vote that presents the same marker account fails with
/// `AlreadyVoted`, in either direction and with any bump, and changes nothing.
pub proof fn vote_only_once(
    program_id: Seq<u8>,
    voter: Signer,
    state: Slot<VotingState>,
    voted: Slot<VoterVoted>,
    votes: Slot<VoterVotes>,
    party: Slot<Party>,
    positive: bool,
    bump: u8,
    later_state: Slot<VotingState>,
    later_votes: Slot<VoterVotes>,
    later_party: Slot<Party>,
    later_positive: bool,
    later_bump: u8,
)
    requires
        vote_step(program_id, voter, state, voted, votes, party, positive, bump).0 is Ok,
    ensures
        ({
            let marked = vote_step(program_id, voter, state, voted, votes, party, positive, bump).1;
            vote_step(program_id, voter, later_state, marked, later_votes, later_party, later_positive, later_bump)
                == (Err::<(), VotingError>(VotingError::AlreadyVoted), marked, later_votes, later_party)
        }),
{
}

/// The party counters never fell from `before` to `after`.
pub open spec fn party_not_lower(before: Slot<Party>, after: Slot<Party>) -> bool {
    before.record matches Some(p) ==> (after.record matches Some(q) && q.positive_votes >= p.positive_votes
        && q.negative_votes >= p.negative_votes)
}

/// The party count of a session never fell from `before` to `after`.
pub open spec fn party_count_not_lower(before: Slot<VotingState>, after: Slot<VotingState>) -> bool {
    before.record matches Some(s) ==> (after.record matches Some(t) && t.party_count >= s.party_count)
}

/// No operation lowers a party's vote counters or a session's party count,
/// whether it succeeds or fails (AddVoter writes neither record).
pub proof fn counters_never_decrease(
    program_id: Seq<u8>,
    signer: Signer,
    state: Slot<VotingState>,
    voted: Slot<VoterVoted>,
    votes: Slot<VoterVotes>,
    party: Slot<Party>,
    name: Vec<u8>,
    positive: bool,
    bump: u8,
)
    ensures
        party_count_not_lower(state, init_voting_step(program_id, signer, state).1),
        party_not_lower(party, add_party_step(program_id, signer, party, state, name, bump).1),
        party_count_not_lower(state, add_party_step(program_id, signer, party, state, name, bump).2),
        party_not_lower(party, vote_step(program_id, signer, state, voted, votes, party, positive, bump).3),
{
}

/// `party` with the counter of direction `positive` set to `value`.
pub open spec fn with_tally(party: Slot<Party>, positive: bool, value: u32) -> Slot<Party> {
    match party.record {
        Some(p) => Slot {
            key: party.key,
            record: Some(
                if positive {
                    Party { positive_votes: value, ..p }
                } else {
                    Party { negative_votes: value, ..p }
                },
            ),
        },
        None => party,
    }
}

/// A vote that would raise a counter past `u32::MAX` is rejected and changes
/// no account; where the same vote with that counter one lower succeeds, the
/// rejection is `CounterOverflow`.
pub proof fn vote_overflow_rejected(
    program_id: Seq<u8>,
    voter: Signer,
    state: Slot<VotingState>,
    voted: Slot<VoterVoted>,
    votes: Slot<VoterVotes>,
    party: Slot<Party>,
    positive: bool,
    bump: u8,
)
    requires
        party_of(party) matches Some(p) && tally(p, positive) == u32::MAX,
    ensures
        vote_step(program_id, voter, state, voted, votes, party, positive, bump).0 is Err,
        vote_step(program_id, voter, state, voted, votes, party, positive, bump).1 == voted,
        vote_step(program_id, voter, state, voted, votes, party, positive, bump).2 == votes,
        vote_step(program_id, voter, state, voted, votes, party, positive, bump).3 == party,
        vote_step(program_id, voter, state, voted, votes, with_tally(party, positive, (u32::MAX - 1) as u32), positive, bump).0 is Ok
            ==> vote_step(program_id, voter, state, voted, votes, party, positive, bump).0
            == Err::<(), VotingError>(VotingError::CounterOverflow),
{
    let lowered = with_tally(party, positive, (u32::MAX - 1) as u32);
    assert(party_of(lowered) matches Some(q) && q.voting_state_pubkey == party_of(party)->0.voting_state_pubkey);
    assert(lowered.key == party.key);
}

} // verus!
