use multisig_vote::addr::{derive_record_address, Address, ballot_domain_bytes, proposal_domain_bytes};
use multisig_vote::state::{
    decode_ballot, decode_group, decode_proposal, ProposalStatus, Record, BALLOT_LEN, CONFIG_LEN,
    GROUP_LEN, PROPOSAL_LEN,
};
use multisig_vote::vote::{process_vote, process_vote_instruction};
use multisig_vote::VoteError;

pub fn addr_of(byte: u8) -> Address {
    Address::from_bytes(vec![byte; 32])
}

pub fn program_id() -> Address {
    addr_of(0xAA)
}

/// A bump for which both the proposal and the ballot derivation succeed.
pub fn dual_bump(group_addr: &Address, proposal_id: u64) -> u8 {
    let pid = program_id();
    let pd = proposal_domain_bytes();
    let bd = ballot_domain_bytes();
    let mut bump = 255u8;
    loop {
        let p = derive_record_address(&pd, group_addr, proposal_id, bump, &pid);
        let b = derive_record_address(&bd, group_addr, proposal_id, bump, &pid);
        if p.is_some() && b.is_some() {
            return bump;
        }
        assert!(bump > 0, "no usable bump for these seeds");
        bump -= 1;
    }
}

pub fn group_data(member_count: u8, members: &[Address]) -> Vec<u8> {
    let mut data = vec![0u8; GROUP_LEN];
    data[0] = member_count;
    for (i, m) in members.iter().enumerate() {
        data[1 + 32 * i..33 + 32 * i].copy_from_slice(&m.bytes);
    }
    data
}

pub fn proposal_data(proposal_id: u64, status: u8, expiry: u64, active: &[Address]) -> Vec<u8> {
    let mut data = vec![0u8; PROPOSAL_LEN];
    data[0..8].copy_from_slice(&proposal_id.to_le_bytes());
    data[8] = status;
    data[16..24].copy_from_slice(&expiry.to_le_bytes());
    for (i, m) in active.iter().enumerate() {
        data[50 + 32 * i..82 + 32 * i].copy_from_slice(&m.bytes);
    }
    data
}

pub fn config_data(min_threshold: u64) -> Vec<u8> {
    let mut data = vec![0u8; CONFIG_LEN];
    data[0..8].copy_from_slice(&min_threshold.to_le_bytes());
    data
}

pub fn ballot_data(has_permission: bool, vote_count: u64, bump: u8, votes: &[u8]) -> Vec<u8> {
    let mut data = vec![0u8; BALLOT_LEN];
    data[0] = if has_permission { 1 } else { 0 };
    data[8..16].copy_from_slice(&vote_count.to_le_bytes());
    data[16] = bump;
    data[17..17 + votes.len()].copy_from_slice(votes);
    data
}

pub struct Setup {
    pub voter: Record,
    pub group: Record,
    pub proposal: Record,
    pub ballot: Record,
    pub config: Record,
    pub proposal_id: u64,
    pub bump: u8,
}

/// The canonical scenario: a group of two members with threshold 1, a
/// proposal that expires far in the future, the first member eligible,
/// and a ballot record not yet owned by the program.
pub fn fresh_setup() -> Setup {
    let user = addr_of(0x01);
    let other = addr_of(0x02);
    let group_addr = addr_of(0x02);
    let proposal_id = 12345u64;
    let bump = dual_bump(&group_addr, proposal_id);
    let pid = program_id();
    let proposal_addr =
        derive_record_address(&proposal_domain_bytes(), &group_addr, proposal_id, bump, &pid)
            .unwrap();
    let ballot_addr =
        derive_record_address(&ballot_domain_bytes(), &group_addr, proposal_id, bump, &pid)
            .unwrap();
    let system = addr_of(0x00);
    Setup {
        voter: Record {
            address: Address::from_bytes(user.bytes.clone()),
            owner: Address::from_bytes(system.bytes.clone()),
            is_signer: true,
            is_writable: true,
            data: vec![],
        },
        group: Record {
            address: group_addr,
            owner: Address::from_bytes(pid.bytes.clone()),
            is_signer: false,
            is_writable: true,
            data: group_data(2, &[addr_of(0x01), other]),
        },
        proposal: Record {
            address: proposal_addr,
            owner: Address::from_bytes(pid.bytes.clone()),
            is_signer: false,
            is_writable: true,
            data: proposal_data(proposal_id, 0, 9999999999, &[addr_of(0x01)]),
        },
        ballot: Record {
            address: ballot_addr,
            owner: system,
            is_signer: false,
            is_writable: true,
            data: vec![],
        },
        config: Record {
            address: addr_of(0x03),
            owner: Address::from_bytes(pid.bytes.clone()),
            is_signer: false,
            is_writable: false,
            data: config_data(1),
        },
    proposal_id,
        bump,
    }
}

pub fn run_vote(s: &mut Setup, choice: u8, now: u64) -> Result<(), VoteError> {
    let pid = program_id();
    process_vote(
        &pid,
        &s.voter,
        &s.group,
        &mut s.proposal,
        &mut s.ballot,
        &s.config,
        s.proposal_id,
        choice,
        s.bump,
        now,
    )
}

#[test]
fn test_process_vote_instruction() {
    let mut s = fresh_setup();
    let r = run_vote(&mut s, 1, 33);
    assert_eq!(r, Ok(()));

    // The ballot record was created under the program's ownership.
    assert_eq!(s.ballot.owner.bytes, program_id().bytes);
    assert_eq!(s.ballot.data.len(), BALLOT_LEN);
    let b = decode_ballot(&s.ballot.data).unwrap();
    assert!(b.has_permission);
    assert_eq!(b.vote_count, 1);
    assert_eq!(b.bump, s.bump);
    assert_eq!(b.votes[0], 1);

    // The proposal tallied one For ballot and, with threshold 1, succeeded.
    let p = decode_proposal(&s.proposal.data).unwrap();
    assert_eq!(p.votes[0], 1);
    assert_eq!(p.votes[1], 0);
    assert_eq!(p.status, ProposalStatus::Succeeded);
    assert_eq!(p.proposal_id, 12345);
}

#[test]
fn test_vote_instruction_wrong_program_owner() {
    let mut s = fresh_setup();
    // The group record is owned by a foreign identity.
    s.group.owner = addr_of(0x77);
    let before_proposal = s.proposal.data.clone();
    let r = run_vote(&mut s, 1, 33);
    assert_eq!(r, Err(VoteError::WrongOwner));
    assert_eq!(s.proposal.data, before_proposal);
    assert!(s.ballot.data.is_empty());
}

#[test]
fn test_duplicate_vote_prevention() {
    let mut s = fresh_setup();
    // The voter's ballot record already exists and already records a vote
    // in the voter's slot; the proposal mirrors it.
    s.ballot.owner = Address::from_bytes(program_id().bytes.clone());
    s.ballot.data = ballot_data(true, 1, s.bump, &[1, 0, 0, 0, 0, 0, 0, 0, 0, 0]);
    s.proposal.data = proposal_data(s.proposal_id, 0, 9999999999, &[addr_of(0x01)]);
    s.proposal.data[24] = 1;
    let before_proposal = s.proposal.data.clone();
    let before_ballot = s.ballot.data.clone();

    let r = run_vote(&mut s, 2, 33);
    assert_eq!(r, Err(VoteError::DuplicateVote));
    // The rejected call changed nothing.
    assert_eq!(s.proposal.data, before_proposal);
    assert_eq!(s.ballot.data, before_ballot);
    let p = decode_proposal(&s.proposal.data).unwrap();
    assert_eq!(p.status, ProposalStatus::Active);
}

#[test]
fn test_proposal_expired() {
    let mut s = fresh_setup();
    s.proposal.data = proposal_data(s.proposal_id, 0, 100, &[addr_of(0x01)]);
    let r = run_vote(&mut s, 1, 101);
    assert_eq!(r, Err(VoteError::ProposalExpired));
    assert!(s.ballot.data.is_empty());
}

#[test]
fn test_vote_at_expiry_moment_is_accepted() {
    let mut s = fresh_setup();
    s.proposal.data = proposal_data(s.proposal_id, 0, 100, &[addr_of(0x01)]);
    let r = run_vote(&mut s, 1, 100);
    assert_eq!(r, Ok(()));
}

#[test]
fn test_not_a_member() {
    let mut s = fresh_setup();
    // The voter is on the proposal's allow-list but not in the group.
    s.group.data = group_data(2, &[addr_of(0x08), addr_of(0x09)]);
    let r = run_vote(&mut s, 1, 33);
    assert_eq!(r, Err(VoteError::NotAMember));
}

#[test]
fn test_member_beyond_count_is_rejected() {
    let mut s = fresh_setup();
    // The voter sits in slot 2, but only the first two slots are valid.
    s.group.data = group_data(2, &[addr_of(0x08), addr_of(0x09), addr_of(0x01)]);
    let r = run_vote(&mut s, 1, 33);
    assert_eq!(r, Err(VoteError::NotAMember));
}

#[test]
fn test_not_eligible() {
    let mut s = fresh_setup();
    // A group member missing from the proposal's allow-list.
    s.proposal.data = proposal_data(s.proposal_id, 0, 9999999999, &[addr_of(0x05)]);
    let r = run_vote(&mut s, 1, 33);
    assert_eq!(r, Err(VoteError::NotEligible));
}

#[test]
fn test_bad_proposal_address() {
    let mut s = fresh_setup();
    s.proposal.address = addr_of(0x55);
    let r = run_vote(&mut s, 1, 33);
    assert_eq!(r, Err(VoteError::BadAddress));
}

#[test]
fn test_bad_ballot_address() {
    let mut s = fresh_setup();
    s.ballot.address = addr_of(0x56);
    let r = run_vote(&mut s, 1, 33);
    assert_eq!(r, Err(VoteError::BadAddress));
}

#[test]
fn test_invalid_choice() {
    let mut s = fresh_setup();
    assert_eq!(run_vote(&mut s, 0, 33), Err(VoteError::InvalidChoice));
    assert_eq!(run_vote(&mut s, 4, 33), Err(VoteError::InvalidChoice));
}

#[test]
fn test_unauthorized() {
    let mut s = fresh_setup();
    s.voter.is_signer = false;
    assert_eq!(run_vote(&mut s, 1, 33), Err(VoteError::Unauthorized));
}

#[test]
fn test_not_writable() {
    let mut s = fresh_setup();
    s.proposal.is_writable = false;
    assert_eq!(run_vote(&mut s, 1, 33), Err(VoteError::NotWritable));
}

#[test]
fn test_malformed_group_record() {
    let mut s = fresh_setup();
    s.group.data = vec![0u8; 10];
    assert_eq!(run_vote(&mut s, 1, 33), Err(VoteError::MalformedRecord));
}

#[test]
fn test_group_member_count_above_capacity_is_malformed() {
    let mut s = fresh_setup();
    s.group.data[0] = 11;
    assert_eq!(run_vote(&mut s, 1, 33), Err(VoteError::MalformedRecord));
}

#[test]
fn test_proposal_mismatch() {
    let mut s = fresh_setup();
    // The record stores a different proposal id; derive the addresses for
    // the id the caller supplies so that the address check passes.
    let other_id = 777u64;
    let bump = dual_bump(&s.group.address, other_id);
    let pid = program_id();
    s.proposal.address = derive_record_address(
        &proposal_domain_bytes(),
        &s.group.address,
        other_id,
        bump,
        &pid,
    )
    .unwrap();
    s.ballot.address =
        derive_record_address(&ballot_domain_bytes(), &s.group.address, other_id, bump, &pid)
            .unwrap();
    s.proposal_id = other_id;
    s.bump = bump;
    assert_eq!(run_vote(&mut s, 1, 33), Err(VoteError::ProposalMismatch));
}

#[test]
fn test_proposal_not_active() {
    let mut s = fresh_setup();
    s.proposal.data[8] = 1;
    assert_eq!(run_vote(&mut s, 1, 33), Err(VoteError::ProposalNotActive));
    s.proposal.data[8] = 2;
    assert_eq!(run_vote(&mut s, 1, 33), Err(VoteError::ProposalNotActive));
    s.proposal.data[8] = 3;
    assert_eq!(run_vote(&mut s, 1, 33), Err(VoteError::ProposalNotActive));
}

#[test]
fn test_permission_denied() {
    let mut s = fresh_setup();
    s.ballot.owner = Address::from_bytes(program_id().bytes.clone());
    s.ballot.data = ballot_data(false, 0, s.bump, &[0; 10]);
    assert_eq!(run_vote(&mut s, 1, 33), Err(VoteError::PermissionDenied));
}

#[test]
fn test_two_voters_reach_threshold() {
    let mut s = fresh_setup();
    // Threshold 2, both members eligible.
    s.config.data = config_data(2);
    s.proposal.data =
        proposal_data(s.proposal_id, 0, 9999999999, &[addr_of(0x01), addr_of(0x02)]);

    // First member votes For: one ballot is short of the threshold.
    assert_eq!(run_vote(&mut s, 1, 33), Ok(()));
    let p = decode_proposal(&s.proposal.data).unwrap();
    assert_eq!(p.status, ProposalStatus::Active);
    assert_eq!(decode_ballot(&s.ballot.data).unwrap().vote_count, 1);

    // Second member votes For through the same ballot record: succeeded.
    s.voter.address = addr_of(0x02);
    assert_eq!(run_vote(&mut s, 1, 34), Ok(()));
    let p = decode_proposal(&s.proposal.data).unwrap();
    assert_eq!(p.status, ProposalStatus::Succeeded);
    assert_eq!(p.votes[0], 1);
    assert_eq!(p.votes[1], 1);
    let b = decode_ballot(&s.ballot.data).unwrap();
    assert_eq!(b.vote_count, 2);
    assert_eq!(b.votes[1], 1);
}

#[test]
fn test_against_threshold_fails_proposal() {
    let mut s = fresh_setup();
    assert_eq!(run_vote(&mut s, 2, 33), Ok(()));
    let p = decode_proposal(&s.proposal.data).unwrap();
    assert_eq!(p.status, ProposalStatus::Failed);
}

#[test]
fn test_abstain_never_finalizes() {
    let mut s = fresh_setup();
    assert_eq!(run_vote(&mut s, 3, 33), Ok(()));
    let p = decode_proposal(&s.proposal.data).unwrap();
    assert_eq!(p.status, ProposalStatus::Active);
    assert_eq!(p.votes[0], 3);
}

#[test]
fn test_second_vote_after_success_rejected() {
    let mut s = fresh_setup();
    // Threshold 2 keeps the proposal active after the first vote, so the
    // duplicate gate is what rejects the voter's second call.
    s.config.data = config_data(2);
    assert_eq!(run_vote(&mut s, 1, 33), Ok(()));
    let before = s.proposal.data.clone();
    assert_eq!(run_vote(&mut s, 2, 33), Err(VoteError::DuplicateVote));
    assert_eq!(s.proposal.data, before);
}

#[test]
fn test_instruction_payload_end_to_end() {
    let mut s = fresh_setup();
    let pid = program_id();
    let mut payload = vec![1u8];
    payload.extend_from_slice(&s.proposal_id.to_le_bytes());
    payload.push(1);
    payload.push(s.bump);
    let r = process_vote_instruction(
        &pid,
        &s.voter,
        &s.group,
        &mut s.proposal,
        &mut s.ballot,
        &s.config,
        &payload,
        33,
    );
    assert_eq!(r, Ok(()));
    let p = decode_proposal(&s.proposal.data).unwrap();
    assert_eq!(p.status, ProposalStatus::Succeeded);
}

#[test]
fn test_instruction_payload_too_short() {
    let mut s = fresh_setup();
    let pid = program_id();
    let payload = vec![1u8, 57, 2, s.bump];
    let before = s.proposal.data.clone();
    let r = process_vote_instruction(
        &pid,
        &s.voter,
        &s.group,
        &mut s.proposal,
        &mut s.ballot,
        &s.config,
        &payload,
        33,
    );
    assert_eq!(r, Err(VoteError::MalformedInstruction));
    assert_eq!(s.proposal.data, before);
}

#[test]
fn test_finalized_proposal_rejects_further_votes() {
    let mut s = fresh_setup();
    // Threshold 1: the first vote finalizes the proposal; a second voter
    // is then stopped by the active-status gate.
    assert_eq!(run_vote(&mut s, 1, 33), Ok(()));
    s.voter.address = addr_of(0x02);
    s.proposal.data[50 + 32..50 + 64].copy_from_slice(&[0x02; 32]);
    let before = s.proposal.data.clone();
    assert_eq!(run_vote(&mut s, 1, 34), Err(VoteError::ProposalNotActive));
    assert_eq!(s.proposal.data, before);
}
