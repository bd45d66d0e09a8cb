use solana_program::pubkey::Pubkey;
use voting::address::{derive_address, id, verify_address, voting_state_address, Address};
use voting::error::VotingError;
use voting::instruction::{add_party, add_voter, init_voting, vote, VotingInstruction};
use voting::processor::{
    process_add_party, process_add_voter, process_init_voting, process_vote, Signer, Slot,
};
use voting::state::{Party, VoterVoted, VoterVotes, VotingState, MAX_VOTES_PER_VOTER};

fn key(b: u8) -> Address {
    Address { bytes: [b; 32] }
}

fn signer(k: Address) -> Signer {
    Signer { key: k, is_signer: true }
}

struct Session {
    owner: Address,
    state: Slot<VotingState>,
}

fn new_session(owner: Address) -> Session {
    let pid = id();
    let vs = voting_state_address(&owner, &pid).unwrap();
    let mut state = Slot { key: vs, record: None };
    assert_eq!(process_init_voting(&pid, &signer(owner), &mut state), Ok(()));
    Session { owner, state }
}

fn new_party(s: &mut Session, name: &str) -> Slot<Party> {
    let count = s.state.record.unwrap().party_count;
    let (ix, party_key) = add_party(&s.owner, name, count, &s.state.key).unwrap();
    let (name, bump) = match VotingInstruction::unpack(&ix.data).unwrap() {
        VotingInstruction::AddParty { name, party_bump_seed } => (name, party_bump_seed),
        other => panic!("unexpected {:?}", other),
    };
    let mut party = Slot { key: party_key, record: None };
    assert_eq!(
        process_add_party(&id(), &signer(s.owner), &mut party, &mut s.state, name, bump),
        Ok(())
    );
    party
}

fn new_voter(s: &Session, voter: Address) -> Slot<VoterVotes> {
    let (ix, counter_key) = add_voter(&s.owner, &voter).unwrap();
    let (v, bump) = match VotingInstruction::unpack(&ix.data).unwrap() {
        VotingInstruction::AddVoter { voter_pubkey, voter_votes_bump_seed } => {
            (voter_pubkey, voter_votes_bump_seed)
        }
        other => panic!("unexpected {:?}", other),
    };
    assert_eq!(v, voter);
    let mut counter = Slot { key: counter_key, record: None };
    assert_eq!(
        process_add_voter(&id(), &signer(s.owner), &s.state, &mut counter, &v, bump),
        Ok(())
    );
    counter
}

fn cast(
    s: &Session,
    voter: Address,
    counter: &mut Slot<VoterVotes>,
    party: &mut Slot<Party>,
    positive: bool,
) -> (Result<(), VotingError>, Slot<VoterVoted>) {
    let (ix, counter_key, marker_key) = vote(&voter, &s.state.key, &party.key, positive).unwrap();
    assert_eq!(counter_key, counter.key);
    let (p, bump) = match VotingInstruction::unpack(&ix.data).unwrap() {
        VotingInstruction::Vote { positive, voter_votes_bump_seed } => (positive, voter_votes_bump_seed),
        other => panic!("unexpected {:?}", other),
    };
    assert_eq!(p, positive);
    let mut marker = Slot { key: marker_key, record: None };
    let r = process_vote(&id(), &signer(voter), &s.state, &mut marker, counter, party, p, bump);
    (r, marker)
}

#[test]
fn end_to_end_session() {
    let owner = key(1);
    let voter = key(2);
    let mut s = new_session(owner);
    assert_eq!(s.state.record.unwrap().party_count, 0);
    let mut party = new_party(&mut s, "Alpha");
    assert_eq!(s.state.record.unwrap().party_count, 1);
    let p = party.record.clone().unwrap();
    assert_eq!(p.name, b"Alpha".to_vec());
    assert_eq!((p.positive_votes, p.negative_votes), (0, 0));
    assert_eq!(p.voting_state_pubkey, s.state.key);

    let mut counter = new_voter(&s, voter);
    assert_eq!(counter.record.unwrap().votes, 0);

    let (r, mut marker) = cast(&s, voter, &mut counter, &mut party, true);
    assert_eq!(r, Ok(()));
    let p = party.record.clone().unwrap();
    assert_eq!((p.positive_votes, p.negative_votes), (1, 0));
    assert_eq!(counter.record.unwrap().votes, 1);
    assert!(marker.record.is_some());

    let (_, _, marker_key) = vote(&voter, &s.state.key, &party.key, false).unwrap();
    assert_eq!(marker_key, marker.key);
    let (ix, _, _) = vote(&voter, &s.state.key, &party.key, false).unwrap();
    let bump = match VotingInstruction::unpack(&ix.data).unwrap() {
        VotingInstruction::Vote { voter_votes_bump_seed, .. } => voter_votes_bump_seed,
        other => panic!("unexpected {:?}", other),
    };
    let r = process_vote(&id(), &signer(voter), &s.state, &mut marker, &mut counter, &mut party, false, bump);
    assert_eq!(r, Err(VotingError::AlreadyVoted));
    let p = party.record.clone().unwrap();
    assert_eq!((p.positive_votes, p.negative_votes), (1, 0));
    assert_eq!(counter.record.unwrap().votes, 1);
}

#[test]
fn init_voting_twice_is_refused() {
    let owner = key(3);
    let mut s = new_session(owner);
    let before = s.state.clone();
    assert_eq!(
        process_init_voting(&id(), &signer(owner), &mut s.state),
        Err(VotingError::AlreadyInitialized)
    );
    assert_eq!(s.state, before);
}

#[test]
fn init_voting_needs_signature_and_home_address() {
    let owner = key(4);
    let pid = id();
    let vs = voting_state_address(&owner, &pid).unwrap();
    let mut state = Slot { key: vs, record: None };
    let unsigned = Signer { key: owner, is_signer: false };
    assert_eq!(
        process_init_voting(&pid, &unsigned, &mut state),
        Err(VotingError::MissingSignature)
    );
    let mut elsewhere = Slot { key: key(9), record: None };
    assert_eq!(
        process_init_voting(&pid, &signer(owner), &mut elsewhere),
        Err(VotingError::AddressMismatch)
    );
    assert!(state.record.is_none() && elsewhere.record.is_none());
}

#[test]
fn add_party_counts_up_and_checks_name() {
    let owner = key(5);
    let mut s = new_session(owner);
    let a = new_party(&mut s, "Alpha");
    let b = new_party(&mut s, "Beta");
    assert_ne!(a.key, b.key);
    assert_eq!(s.state.record.unwrap().party_count, 2);

    let long = "x".repeat(33);
    let (ix, party_key) = add_party(&owner, &long, 2, &s.state.key).unwrap();
    let (name, bump) = match VotingInstruction::unpack(&ix.data).unwrap() {
        VotingInstruction::AddParty { name, party_bump_seed } => (name, party_bump_seed),
        other => panic!("unexpected {:?}", other),
    };
    let mut party = Slot { key: party_key, record: None };
    let before = s.state.clone();
    assert_eq!(
        process_add_party(&id(), &signer(owner), &mut party, &mut s.state, name, bump),
        Err(VotingError::NameTooLong)
    );
    assert_eq!(s.state, before);
    assert!(party.record.is_none());
}

#[test]
fn add_party_wrong_index_is_address_mismatch() {
    let owner = key(6);
    let mut s = new_session(owner);
    let (_, stale_key) = add_party(&owner, "Old", 5, &s.state.key).unwrap();
    let (ix, _) = add_party(&owner, "Old", 5, &s.state.key).unwrap();
    let bump = match VotingInstruction::unpack(&ix.data).unwrap() {
        VotingInstruction::AddParty { party_bump_seed, .. } => party_bump_seed,
        other => panic!("unexpected {:?}", other),
    };
    let mut party = Slot { key: stale_key, record: None };
    assert_eq!(
        process_add_party(&id(), &signer(owner), &mut party, &mut s.state, b"Old".to_vec(), bump),
        Err(VotingError::AddressMismatch)
    );
    assert_eq!(s.state.record.unwrap().party_count, 0);
}

#[test]
fn add_party_without_session_is_not_initialized() {
    let pid = id();
    let owner = key(7);
    let vs = voting_state_address(&owner, &pid).unwrap();
    let mut state = Slot { key: vs, record: None };
    let mut party = Slot { key: key(8), record: None };
    assert_eq!(
        process_add_party(&pid, &signer(owner), &mut party, &mut state, b"A".to_vec(), 255),
        Err(VotingError::NotInitialized)
    );
}

#[test]
fn add_party_count_overflow() {
    let owner = key(10);
    let mut s = new_session(owner);
    let mut st = s.state.record.unwrap();
    st.party_count = u32::MAX;
    s.state.record = Some(st);
    let (ix, party_key) = add_party(&owner, "Z", u32::MAX, &s.state.key).unwrap();
    let bump = match VotingInstruction::unpack(&ix.data).unwrap() {
        VotingInstruction::AddParty { party_bump_seed, .. } => party_bump_seed,
        other => panic!("unexpected {:?}", other),
    };
    let mut party = Slot { key: party_key, record: None };
    assert_eq!(
        process_add_party(&id(), &signer(owner), &mut party, &mut s.state, b"Z".to_vec(), bump),
        Err(VotingError::CounterOverflow)
    );
    assert_eq!(s.state.record.unwrap().party_count, u32::MAX);
    assert!(party.record.is_none());
}

#[test]
fn add_voter_twice_is_refused() {
    let owner = key(11);
    let voter = key(12);
    let s = new_session(owner);
    let mut counter = new_voter(&s, voter);
    let (ix, _) = add_voter(&owner, &voter).unwrap();
    let bump = match VotingInstruction::unpack(&ix.data).unwrap() {
        VotingInstruction::AddVoter { voter_votes_bump_seed, .. } => voter_votes_bump_seed,
        other => panic!("unexpected {:?}", other),
    };
    assert_eq!(
        process_add_voter(&id(), &signer(owner), &s.state, &mut counter, &voter, bump),
        Err(VotingError::AlreadyInitialized)
    );
}

#[test]
fn add_voter_wrong_bump_is_address_mismatch() {
    let owner = key(13);
    let voter = key(14);
    let s = new_session(owner);
    let (ix, counter_key) = add_voter(&owner, &voter).unwrap();
    let bump = match VotingInstruction::unpack(&ix.data).unwrap() {
        VotingInstruction::AddVoter { voter_votes_bump_seed, .. } => voter_votes_bump_seed,
        other => panic!("unexpected {:?}", other),
    };
    let mut counter = Slot { key: counter_key, record: None };
    assert_eq!(
        process_add_voter(&id(), &signer(owner), &s.state, &mut counter, &voter, bump.wrapping_sub(1)),
        Err(VotingError::AddressMismatch)
    );
    assert!(counter.record.is_none());
}

#[test]
fn vote_limit_is_enforced() {
    let owner = key(15);
    let voter = key(16);
    let mut s = new_session(owner);
    let mut counter = new_voter(&s, voter);
    for i in 0..MAX_VOTES_PER_VOTER {
        let mut party = new_party(&mut s, "P");
        let (r, _) = cast(&s, voter, &mut counter, &mut party, true);
        assert_eq!(r, Ok(()));
        assert_eq!(counter.record.unwrap().votes, i + 1);
    }
    let mut party = new_party(&mut s, "Q");
    let (r, marker) = cast(&s, voter, &mut counter, &mut party, false);
    assert_eq!(r, Err(VotingError::VoteLimitExceeded));
    assert!(marker.record.is_none());
    assert_eq!(party.record.unwrap().negative_votes, 0);
    assert_eq!(counter.record.unwrap().votes, MAX_VOTES_PER_VOTER);
}

#[test]
fn vote_counter_overflow_changes_nothing() {
    let owner = key(17);
    let voter = key(18);
    let mut s = new_session(owner);
    let mut counter = new_voter(&s, voter);
    let mut party = new_party(&mut s, "Full");
    let mut p = party.record.clone().unwrap();
    p.positive_votes = u32::MAX;
    party.record = Some(p);
    let (r, marker) = cast(&s, voter, &mut counter, &mut party, true);
    assert_eq!(r, Err(VotingError::CounterOverflow));
    assert!(marker.record.is_none());
    assert_eq!(counter.record.unwrap().votes, 0);
    assert_eq!(party.record.clone().unwrap().positive_votes, u32::MAX);
    let (r, _) = cast(&s, voter, &mut counter, &mut party, false);
    assert_eq!(r, Ok(()));
    assert_eq!(party.record.unwrap().negative_votes, 1);
}

#[test]
fn vote_needs_signature_and_registration() {
    let owner = key(19);
    let voter = key(20);
    let mut s = new_session(owner);
    let mut party = new_party(&mut s, "A");
    let (ix, counter_key, marker_key) = vote(&voter, &s.state.key, &party.key, true).unwrap();
    let bump = match VotingInstruction::unpack(&ix.data).unwrap() {
        VotingInstruction::Vote { voter_votes_bump_seed, .. } => voter_votes_bump_seed,
        other => panic!("unexpected {:?}", other),
    };
    let mut counter = Slot { key: counter_key, record: None };
    let mut marker = Slot { key: marker_key, record: None };
    let unsigned = Signer { key: voter, is_signer: false };
    assert_eq!(
        process_vote(&id(), &unsigned, &s.state, &mut marker, &mut counter, &mut party, true, bump),
        Err(VotingError::MissingSignature)
    );
    assert_eq!(
        process_vote(&id(), &signer(voter), &s.state, &mut marker, &mut counter, &mut party, true, bump),
        Err(VotingError::NotInitialized)
    );
    assert_eq!(party.record.unwrap().positive_votes, 0);
}

#[test]
fn vote_on_foreign_party_is_address_mismatch() {
    let voter = key(21);
    let mut s1 = new_session(key(22));
    let s2 = new_session(key(23));
    let mut party = new_party(&mut s1, "A");
    let mut counter = new_voter(&s2, voter);
    let (r, _) = cast(&s2, voter, &mut counter, &mut party, true);
    assert_eq!(r, Err(VotingError::AddressMismatch));
}

#[test]
fn derivation_is_deterministic_and_matches_solana() {
    let pid = id();
    let seeds = vec![b"voter_votes".to_vec(), vec![1u8; 32], vec![2u8; 32]];
    let a = derive_address(&seeds, &pid).unwrap();
    let b = derive_address(&seeds, &pid).unwrap();
    assert_eq!(a, b);
    let refs: Vec<&[u8]> = seeds.iter().map(|s| s.as_slice()).collect();
    let (k, bump) = Pubkey::find_program_address(&refs, &Pubkey::new_from_array(pid.bytes));
    assert_eq!(a, (Address { bytes: k.to_bytes() }, bump));
    assert!(verify_address(&a.0, &seeds, a.1, &pid));
}

#[test]
fn verify_rejects_other_bumps_and_addresses() {
    let pid = id();
    let seeds = vec![b"party".to_vec(), 0u32.to_le_bytes().to_vec(), vec![3u8; 32]];
    let (addr, bump) = derive_address(&seeds, &pid).unwrap();
    assert!(!verify_address(&addr, &seeds, bump.wrapping_sub(1), &pid));
    assert!(!verify_address(&key(0), &seeds, bump, &pid));
    let other = vec![b"party".to_vec(), 1u32.to_le_bytes().to_vec(), vec![3u8; 32]];
    assert!(!verify_address(&addr, &other, bump, &pid));
}

#[test]
fn program_and_session_addresses() {
    let pid = id();
    let expected: Pubkey = "Fg6PaFpoGXkYsidMpWTK6W2BeZ7FEfcYkg476zPFsLnS".parse().unwrap();
    assert_eq!(pid.bytes, expected.to_bytes());
    let owner = key(24);
    let vs = voting_state_address(&owner, &pid).unwrap();
    let k = Pubkey::create_with_seed(&Pubkey::new_from_array(owner.bytes), "voting_state", &expected)
        .unwrap();
    assert_eq!(vs.bytes, k.to_bytes());
    assert_ne!(vs, owner);
}

#[test]
fn builders_list_accounts_in_order() {
    let owner = key(25);
    let voter = key(26);
    let ix = init_voting(&owner).unwrap();
    assert_eq!(ix.data, vec![0u8]);
    assert_eq!(ix.accounts.len(), 2);
    assert!(ix.accounts[0].is_signer && ix.accounts[0].is_writable);
    assert_eq!(ix.accounts[1].pubkey, voting_state_address(&owner, &id()).unwrap());

    let (ix, counter) = add_voter(&owner, &voter).unwrap();
    assert_eq!(ix.accounts.len(), 4);
    assert!(!ix.accounts[1].is_writable);
    assert_eq!(ix.accounts[2].pubkey, counter);
    assert_eq!(ix.accounts[3].pubkey, key(0));
    assert!(!ix.accounts[3].is_writable);
    assert_eq!(ix.data.len(), 34);
    assert_eq!(ix.data[0], 1);
    assert_eq!(&ix.data[1..33], &voter.bytes[..]);

    let vs = voting_state_address(&owner, &id()).unwrap();
    let (ix, counter2, marker) = vote(&voter, &vs, &key(27), false).unwrap();
    assert_eq!(counter2, counter);
    assert_eq!(ix.accounts.len(), 6);
    assert_eq!(ix.accounts[2].pubkey, marker);
    assert_eq!(ix.accounts[3].pubkey, counter);
    assert_eq!(ix.accounts[4].pubkey, key(27));
    assert!(ix.accounts[0].is_signer);
    assert!(!ix.accounts[1].is_writable);
    assert_eq!(ix.data[0..2], [3u8, 0u8]);
}

#[test]
fn serialized_sizes() {
    assert_eq!(Party::serialized_size(), 1 + 4 + 4 + 4 + 32 + 32);
    assert_eq!(Party::size_for_name(5), 50);
    assert_eq!(VotingState::serialized_size(), 37);
    assert_eq!(VoterVotes::serialized_size(), 5);
    assert_eq!(VoterVoted::serialized_size(), 1);
}
