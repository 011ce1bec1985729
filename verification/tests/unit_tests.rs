use multisig_vote::addr::{
    addr_eq, ballot_domain_bytes, derive_record_address, find_record_address,
    proposal_domain_bytes, verify_record_address, Address,
};
use multisig_vote::state::{
    decode_ballot, decode_config, decode_group, decode_proposal, status_from_byte, status_to_byte,
    store_ballot, store_proposal, Ballot, Proposal, ProposalStatus, BALLOT_LEN, GROUP_LEN,
    PROPOSAL_LEN,
};
use multisig_vote::vote::{parse_vote_payload, tally_votes};
use multisig_vote::VoteError;

fn addr_of(byte: u8) -> Address {
    Address::from_bytes(vec![byte; 32])
}

#[test]
fn test_parse_vote_payload_exact() {
    let mut data = vec![1u8];
    data.extend_from_slice(&12345u64.to_le_bytes());
    data.push(1);
    data.push(254);
    assert_eq!(parse_vote_payload(&data), Ok((12345, 1, 254)));
}

#[test]
fn test_parse_vote_payload_short() {
    let data = vec![1u8, 57, 2, 250];
    assert_eq!(parse_vote_payload(&data), Err(VoteError::MalformedInstruction));
    assert_eq!(parse_vote_payload(&vec![]), Err(VoteError::MalformedInstruction));
}

#[test]
fn test_parse_vote_payload_wrong_opcode() {
    let mut data = vec![9u8];
    data.extend_from_slice(&12345u64.to_le_bytes());
    data.push(1);
    data.push(254);
    assert_eq!(parse_vote_payload(&data), Err(VoteError::MalformedInstruction));
}

#[test]
fn test_tally_votes_counts() {
    let votes = vec![1u8, 2, 3, 1, 0, 1, 2, 0, 0, 0];
    let (for_c, against_c, abstain_c, total) = tally_votes(&votes, 10);
    assert_eq!((for_c, against_c, abstain_c, total), (3, 2, 1, 6));
    // Slots past the member count are not scanned.
    let (for_c, against_c, abstain_c, total) = tally_votes(&votes, 4);
    assert_eq!((for_c, against_c, abstain_c, total), (2, 1, 1, 4));
}

#[test]
fn test_status_bytes_round_trip() {
    for s in [
        ProposalStatus::Active,
        ProposalStatus::Succeeded,
        ProposalStatus::Failed,
        ProposalStatus::Cancelled,
    ] {
        assert_eq!(status_from_byte(status_to_byte(s)), Some(s));
    }
    assert_eq!(status_from_byte(4), None);
}

#[test]
fn test_proposal_codec_round_trip() {
    let mut data = vec![7u8; PROPOSAL_LEN];
    data[8] = 0;
    let members: Vec<Address> = (0..10).map(|i| addr_of(i as u8)).collect();
    let p = Proposal {
        proposal_id: 987654321,
        status: ProposalStatus::Failed,
        expiry: 55555,
        active_members: members,
        votes: vec![0, 1, 2, 3, 0, 0, 0, 1, 0, 2],
    };
    store_proposal(&p, &mut data);
    let q = decode_proposal(&data).unwrap();
    assert_eq!(q.proposal_id, 987654321);
    assert_eq!(q.status, ProposalStatus::Failed);
    assert_eq!(q.expiry, 55555);
    assert_eq!(q.votes, vec![0, 1, 2, 3, 0, 0, 0, 1, 0, 2]);
    for i in 0..10 {
        assert!(addr_eq(&q.active_members[i], &addr_of(7)));
    }
    // Reserved bytes keep their old value.
    assert_eq!(data[9], 7);
    assert_eq!(data[34], 7);
}

#[test]
fn test_ballot_codec_round_trip() {
    let mut data = vec![9u8; BALLOT_LEN];
    let b = Ballot {
        has_permission: true,
        vote_count: 3,
        bump: 251,
        votes: vec![0, 0, 2, 0, 0, 0, 0, 0, 0, 0],
    };
    store_ballot(&b, &mut data);
    let c = decode_ballot(&data).unwrap();
    assert!(c.has_permission);
    assert_eq!(c.vote_count, 3);
    assert_eq!(c.bump, 251);
    assert_eq!(c.votes, vec![0, 0, 2, 0, 0, 0, 0, 0, 0, 0]);
    assert_eq!(data[1], 9);
}

#[test]
fn test_decode_group_reads_members() {
    let mut data = vec![0u8; GROUP_LEN];
    data[0] = 2;
    data[1..33].copy_from_slice(&[0x11; 32]);
    data[33..65].copy_from_slice(&[0x22; 32]);
    let g = decode_group(&data).unwrap();
    assert_eq!(g.member_count, 2);
    assert!(addr_eq(&g.members[0], &addr_of(0x11)));
    assert!(addr_eq(&g.members[1], &addr_of(0x22)));
    assert!(addr_eq(&g.members[2], &addr_of(0x00)));
}

#[test]
fn test_decode_group_rejects_bad_count() {
    let mut data = vec![0u8; GROUP_LEN];
    data[0] = 11;
    assert!(decode_group(&data).is_err());
}

#[test]
fn test_decode_config_reads_threshold() {
    let mut data = vec![0u8; 8];
    data[0..8].copy_from_slice(&42u64.to_le_bytes());
    assert_eq!(decode_config(&data).unwrap().min_threshold, 42);
    assert!(decode_config(&vec![0u8; 7]).is_err());
}

#[test]
fn test_derivation_is_deterministic_and_fresh() {
    let group = addr_of(0x02);
    let pid = addr_of(0xAA);
    let pd = proposal_domain_bytes();
    let (a, bump) = find_record_address(&pd, &group, 12345, &pid).unwrap();
    let again = derive_record_address(&pd, &group, 12345, bump, &pid).unwrap();
    assert!(addr_eq(&a, &again));
    assert_eq!(a.bytes.len(), 32);
    // The derived address is a digest, not any of its inputs.
    assert!(!addr_eq(&a, &group));
    assert!(!addr_eq(&a, &pid));
    // A different proposal id lands elsewhere.
    let (b, _) = find_record_address(&pd, &group, 12346, &pid).unwrap();
    assert!(!addr_eq(&a, &b));
    // A different seed domain lands elsewhere.
    let bd = ballot_domain_bytes();
    let (c, _) = find_record_address(&bd, &group, 12345, &pid).unwrap();
    assert!(!addr_eq(&a, &c));
}

#[test]
fn test_verify_record_address() {
    let group = addr_of(0x02);
    let pid = addr_of(0xAA);
    let pd = proposal_domain_bytes();
    let (a, bump) = find_record_address(&pd, &group, 12345, &pid).unwrap();
    assert!(verify_record_address(&a, &pd, &group, 12345, bump, &pid));
    assert!(!verify_record_address(&addr_of(0x33), &pd, &group, 12345, bump, &pid));
}

#[test]
fn test_addr_eq_and_dup() {
    let a = addr_of(0x10);
    let b = a.dup();
    assert!(addr_eq(&a, &b));
    assert!(!addr_eq(&a, &addr_of(0x11)));
    assert!(!addr_eq(&a, &Address::from_bytes(vec![0x10; 31])));
}
