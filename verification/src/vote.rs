//! The vote-processing state machine.
//!
//! [`process_vote`] runs the full sequence on in-memory records: the
//! ordered validations, lazy creation of the ballot record on a voter's
//! first vote, recording of the choice in both the ballot and the proposal,
//! the tally over the member slots, and the threshold-driven status
//! transition. The whole transition is pinned down by the specification
//! function [`vote_outcome`]: the first failing check wins, a failure
//! leaves both writable records exactly as they were, and on success the
//! new record bytes are stated byte for byte.

use vstd::prelude::*;

verus! {

use vstd::bytes::spec_u64_from_le_bytes;
use vstd::bytes::u64_from_le_bytes;
use vstd::slice::slice_subrange;
use crate::VoteError;
use crate::addr::{
    Address,
    addr_eq,
    ballot_domain,
    ballot_domain_bytes,
    derive_record_address,
    derived_record_address,
    proposal_domain,
    proposal_domain_bytes,
};
use crate::state::{
    Ballot,
    BallotV,
    decode_ballot,
    decode_config,
    decode_group,
    decode_proposal,
    decoded_ballot,
    decoded_config,
    decoded_group,
    decoded_proposal,
    Group,
    Proposal,
    ProposalStatus,
    ProposalV,
    Record,
    RecordV,
    store_ballot,
    store_proposal,
    stored_ballot_bytes,
    stored_proposal_bytes,
    BALLOT_LEN,
};

/// The opcode byte that selects the vote instruction.
pub const VOTE_OPCODE: u8 = 1;

/// Parse a vote instruction payload: byte 0 is the opcode, bytes 1..9 the
/// proposal id in little-endian order, byte 9 the vote choice and byte 10
/// the bump.
pub fn parse_vote_payload(data: &Vec<u8>) -> (r: Result<(u64, u8, u8), VoteError>)
    ensures
        data@.len() < 11 || data@[0] != 1 ==> r == Err::<(u64, u8, u8), VoteError>(
            VoteError::MalformedInstruction,
        ),
        data@.len() >= 11 && data@[0] == 1 ==> r == Ok::<(u64, u8, u8), VoteError>(
            (spec_u64_from_le_bytes(data@.subrange(1, 9)), data@[9], data@[10]),
        ),
{
    if data.len() < 11 {
        return Err(VoteError::MalformedInstruction);
    }
    if data[0] != VOTE_OPCODE {
        return Err(VoteError::MalformedInstruction);
    }
    let proposal_id = u64_from_le_bytes(slice_subrange(data.as_slice(), 1, 9));
    Ok((proposal_id, data[9], data[10]))
}

/// The first index in `members[i..n]` holding `voter`, if any.
pub open spec fn member_slot_from(members: Seq<Seq<u8>>, voter: Seq<u8>, i: int, n: int) -> Option<
    int,
>
    decreases n - i,
{
    if i >= n {
        None
    } else if members[i] == voter {
        Some(i)
    } else {
        member_slot_from(members, voter, i + 1, n)
    }
}

/// The first index in `members[0..n]` holding `voter`, if any.
pub open spec fn member_slot(members: Seq<Seq<u8>>, n: int, voter: Seq<u8>) -> Option<int> {
    member_slot_from(members, voter, 0, n)
}

/// A found member slot lies in `[0, n)`.
pub proof fn lemma_member_slot_in_range(members: Seq<Seq<u8>>, voter: Seq<u8>, i: int, n: int)
    requires
        0 <= i,
        member_slot_from(members, voter, i, n) is Some,
    ensures
        i <= member_slot_from(members, voter, i, n).unwrap() < n,
        members[member_slot_from(members, voter, i, n).unwrap()] == voter,
    decreases n - i,
{
    if i < n && members[i] != voter {
        lemma_member_slot_in_range(members, voter, i + 1, n);
    }
}

/// Find the voter's slot among the first `member_count` members.
pub fn find_member_slot(group: &Group, voter: &Address) -> (r: Option<usize>)
    requires
        group@.wf(),
    ensures
        match r {
            Some(i) => member_slot(group@.members, group@.member_count as int, voter@) == Some(
                i as int,
            ) && i < group@.member_count,
            None => member_slot(group@.members, group@.member_count as int, voter@) is None,
        },
{
    let n = group.member_count as usize;
    let ghost members = group@.members;
    let mut i: usize = 0;
    while i < n
        invariant
            i <= n,
            n == group@.member_count as int,
            group@.wf(),
            members == group@.members,
            group.members@.len() == 10,
            member_slot(members, n as int, voter@) == member_slot_from(members, voter@, i as int, n as int),
        decreases n - i,
    {
        if addr_eq(&group.members[i], voter) {
            proof {
                assert(members[i as int] == voter@);
            }
            return Some(i);
        }
        proof {
            assert(member_slot_from(members, voter@, i as int, n as int) == member_slot_from(
                members,
                voter@,
                i + 1,
                n as int,
            ));
        }
        i = i + 1;
    }
    None
}

/// Whether some entry of `members` holds the address `a`.
pub open spec fn contains_addr(members: Seq<Seq<u8>>, a: Seq<u8>) -> bool {
    exists|i: int| 0 <= i < members.len() && members[i] == a
}

/// Whether the address appears in the list.
pub fn contains_address(members: &Vec<Address>, a: &Address) -> (r: bool)
    ensures
        r == contains_addr(members@.map_values(|m: Address| m@), a@),
{
    let ghost ms = members@.map_values(|m: Address| m@);
    let mut i: usize = 0;
    while i < members.len()
        invariant
            i <= members@.len(),
            ms == members@.map_values(|m: Address| m@),
            forall|j: int| 0 <= j < i ==> ms[j] != a@,
        decreases members@.len() - i,
    {
        if addr_eq(&members[i], a) {
            proof {
                assert(ms[i as int] == a@);
            }
            return true;
        }
        i = i + 1;
    }
    false
}

/// How many entries of `s` hold the choice `c`.
pub open spec fn count_choice(s: Seq<u8>, c: u8) -> nat
    decreases s.len(),
{
    if s.len() == 0 {
        0
    } else {
        count_choice(s.drop_last(), c) + if s.last() == c {
            1nat
        } else {
            0nat
        }
    }
}

/// Count the ballots for each choice among the first `n` vote slots:
/// `(for, against, abstain, total)`, where the total counts the slots
/// holding any of the three choices.
pub fn tally_votes(votes: &Vec<u8>, n: usize) -> (r: (u64, u64, u64, u64))
    requires
        n <= votes@.len(),
        n <= 10,
    ensures
        r.0 == count_choice(votes@.take(n as int), 1),
        r.1 == count_choice(votes@.take(n as int), 2),
        r.2 == count_choice(votes@.take(n as int), 3),
        r.3 == r.0 + r.1 + r.2,
{
    let mut for_count: u64 = 0;
    let mut against_count: u64 = 0;
    let mut abstain_count: u64 = 0;
    let mut i: usize = 0;
    while i < n
        invariant
            i <= n,
            n <= votes@.len(),
            n <= 10,
            for_count == count_choice(votes@.take(i as int), 1),
            against_count == count_choice(votes@.take(i as int), 2),
            abstain_count == count_choice(votes@.take(i as int), 3),
            for_count <= i,
            against_count <= i,
            abstain_count <= i,
        decreases n - i,
    {
        proof {
            assert(votes@.take(i + 1).drop_last() =~= votes@.take(i as int));
            assert(votes@.take(i + 1).last() == votes@[i as int]);
        }
        let v = votes[i];
        if v == 1 {
            for_count = for_count + 1;
        } else if v == 2 {
            against_count = against_count + 1;
        } else if v == 3 {
            abstain_count = abstain_count + 1;
        }
        i = i + 1;
    }
    let total = for_count + against_count + abstain_count;
    (for_count, against_count, abstain_count, total)
}

/// The status a proposal moves to once a vote is recorded, evaluated in
/// fixed priority order: approval threshold, rejection threshold, expiry,
/// otherwise still active.
pub open spec fn next_status(
    for_count: nat,
    against_count: nat,
    threshold: u64,
    now: u64,
    expiry: u64,
) -> ProposalStatus {
    if for_count >= threshold {
        ProposalStatus::Succeeded
    } else if against_count >= threshold {
        ProposalStatus::Failed
    } else if now > expiry {
        ProposalStatus::Cancelled
    } else {
        ProposalStatus::Active
    }
}

/// The vote counter after one more ballot; the unsigned counter wraps
/// around as an unchecked increment would.
pub open spec fn inc_count(x: u64) -> u64 {
    if x == u64::MAX {
        0
    } else {
        (x + 1) as u64
    }
}

/// An all-zero vote table.
pub open spec fn zero_votes() -> Seq<u8> {
    Seq::new(10, |i: int| 0u8)
}

/// The all-zero bytes of a freshly created ballot record.
pub open spec fn fresh_ballot_record_bytes() -> Seq<u8> {
    Seq::new(27, |i: int| 0u8)
}

/// The proposal after the voter's choice lands in slot `idx` and the tally
/// over the first `n` slots decides the new status.
pub open spec fn updated_proposal(
    p: ProposalV,
    idx: int,
    vote_choice: u8,
    n: int,
    threshold: u64,
    now: u64,
) -> ProposalV {
    let new_votes = p.votes.update(idx, vote_choice);
    ProposalV {
        status: next_status(
            count_choice(new_votes.take(n), 1),
            count_choice(new_votes.take(n), 2),
            threshold,
            now,
            p.expiry,
        ),
        votes: new_votes,
        ..p
    }
}

/// The whole vote transition: either the error of the first failing check,
/// or the new values of the proposal and ballot records.
///
/// The checks run in this order: the voter's signature; writability of the
/// group, proposal and ballot records; the vote choice; program ownership
/// of the group, proposal and config records; decodability of those three
/// records; the voter's membership in the group; the proposal record's
/// derived address; the proposal id; active status; expiry; the voter's
/// eligibility on the proposal's allow-list; the ballot record's derived
/// address; and, for a ballot record that already exists, its permission
/// flag and the voter's empty ballot slot.
pub open spec fn vote_outcome(
    program_id: Seq<u8>,
    voter: RecordV,
    group_rec: RecordV,
    proposal_rec: RecordV,
    ballot_rec: RecordV,
    config_rec: RecordV,
    proposal_id: u64,
    vote_choice: u8,
    bump: u8,
    now: u64,
) -> Result<(RecordV, RecordV), VoteError> {
    if !voter.is_signer {
        Err(VoteError::Unauthorized)
    } else if !(group_rec.is_writable && proposal_rec.is_writable && ballot_rec.is_writable) {
        Err(VoteError::NotWritable)
    } else if !(1 <= vote_choice <= 3) {
        Err(VoteError::InvalidChoice)
    } else if !(group_rec.owner == program_id && proposal_rec.owner == program_id
        && config_rec.owner == program_id) {
        Err(VoteError::WrongOwner)
    } else if decoded_group(group_rec.data) is None || decoded_proposal(proposal_rec.data) is None
        || decoded_config(config_rec.data) is None {
        Err(VoteError::MalformedRecord)
    } else {
        let g = decoded_group(group_rec.data).unwrap();
        let p = decoded_proposal(proposal_rec.data).unwrap();
        let cfg = decoded_config(config_rec.data).unwrap();
        if member_slot(g.members, g.member_count as int, voter.address) is None {
            Err(VoteError::NotAMember)
        } else {
            let idx = member_slot(g.members, g.member_count as int, voter.address).unwrap();
            if derived_record_address(proposal_domain(), group_rec.address, proposal_id, bump, program_id)
                != Some(proposal_rec.address) {
                Err(VoteError::BadAddress)
            } else if p.proposal_id != proposal_id {
                Err(VoteError::ProposalMismatch)
            } else if p.status != ProposalStatus::Active {
                Err(VoteError::ProposalNotActive)
            } else if now > p.expiry {
                Err(VoteError::ProposalExpired)
            } else if !contains_addr(p.active_members, voter.address) {
                Err(VoteError::NotEligible)
            } else if derived_record_address(ballot_domain(), group_rec.address, proposal_id, bump, program_id)
                != Some(ballot_rec.address) {
                Err(VoteError::BadAddress)
            } else if ballot_rec.owner == program_id {
                if decoded_ballot(ballot_rec.data) is None {
                    Err(VoteError::MalformedRecord)
                } else {
                    let b = decoded_ballot(ballot_rec.data).unwrap();
                    if !b.has_permission {
                        Err(VoteError::PermissionDenied)
                    } else if b.votes[idx] != 0 {
                        Err(VoteError::DuplicateVote)
                    } else {
                        let b2 = BallotV {
                            vote_count: inc_count(b.vote_count),
                            votes: b.votes.update(idx, vote_choice),
                            ..b
                        };
                        Ok(
                            (
                                committed_proposal_rec(
                                    proposal_rec,
                                    p,
                                    idx,
                                    vote_choice,
                                    g.member_count as int,
                                    cfg.min_threshold,
                                    now,
                                ),
                                RecordV {
                                    data: stored_ballot_bytes(b2, ballot_rec.data),
                                    ..ballot_rec
                                },
                            ),
                        )
                    }
                }
            } else {
                let b2 = BallotV {
                    has_permission: true,
                    vote_count: 1,
                    bump: bump,
                    votes: zero_votes().update(idx, vote_choice),
                };
                Ok(
                    (
                        committed_proposal_rec(
                            proposal_rec,
                            p,
                            idx,
                            vote_choice,
                            g.member_count as int,
                            cfg.min_threshold,
                            now,
                        ),
                        RecordV {
                            owner: program_id,
                            data: stored_ballot_bytes(b2, fresh_ballot_record_bytes()),
                            ..ballot_rec
                        },
                    ),
                )
            }
        }
    }
}

/// The proposal record after the updated proposal is committed over its
/// old bytes.
pub open spec fn committed_proposal_rec(
    proposal_rec: RecordV,
    p: ProposalV,
    idx: int,
    vote_choice: u8,
    n: int,
    threshold: u64,
    now: u64,
) -> RecordV {
    RecordV {
        data: stored_proposal_bytes(
            updated_proposal(p, idx, vote_choice, n, threshold, now),
            proposal_rec.data,
        ),
        ..proposal_rec
    }
}

/// Process one vote against in-memory records.
///
/// Runs every validation of [`vote_outcome`] in order; on the first
/// failure returns that error with both writable records untouched. On
/// success the voter's choice is recorded in the proposal's vote table and
/// in the ballot record (created under this program's ownership if it did
/// not yet own one), the tally over the member slots is recomputed, and
/// the proposal's new status is committed.
pub fn process_vote(
    program_id: &Address,
    voter: &Record,
    group_rec: &Record,
    proposal_rec: &mut Record,
    ballot_rec: &mut Record,
    config_rec: &Record,
    proposal_id: u64,
    vote_choice: u8,
    bump: u8,
    now: u64,
) -> (r: Result<(), VoteError>)
    requires
        program_id.wf(),
        old(proposal_rec).wf(),
        old(ballot_rec).wf(),
    ensures
        ({
            let outcome = vote_outcome(
                program_id@,
                voter@,
                group_rec@,
                old(proposal_rec)@,
                old(ballot_rec)@,
                config_rec@,
                proposal_id,
                vote_choice,
                bump,
                now,
            );
            match r {
                Ok(()) => {
                    &&& outcome is Ok
                    &&& final(proposal_rec)@ == outcome.unwrap().0
                    &&& final(ballot_rec)@ == outcome.unwrap().1
                    &&& final(proposal_rec).wf()
                    &&& final(ballot_rec).wf()
                },
                Err(e) => {
                    &&& outcome == Err::<(RecordV, RecordV), VoteError>(e)
                    &&& *final(proposal_rec) == *old(proposal_rec)
                    &&& *final(ballot_rec) == *old(ballot_rec)
                },
            }
        }),
{
    if !voter.is_signer {
        return Err(VoteError::Unauthorized);
    }
    if !(group_rec.is_writable && proposal_rec.is_writable && ballot_rec.is_writable) {
        return Err(VoteError::NotWritable);
    }
    if vote_choice < 1 || vote_choice > 3 {
        return Err(VoteError::InvalidChoice);
    }
    if !(addr_eq(&group_rec.owner, program_id) && addr_eq(&proposal_rec.owner, program_id)
        && addr_eq(&config_rec.owner, program_id)) {
        return Err(VoteError::WrongOwner);
    }
    let g = match decode_group(&group_rec.data) {
        Ok(g) => g,
        Err(e) => {
            return Err(e);
        },
    };
    let p = match decode_proposal(&proposal_rec.data) {
        Ok(p) => p,
        Err(e) => {
            return Err(e);
        },
    };
    let cfg = match decode_config(&config_rec.data) {
        Ok(c) => c,
        Err(e) => {
            return Err(e);
        },
    };
    let idx = match find_member_slot(&g, &voter.address) {
        Some(i) => i,
        None => {
            return Err(VoteError::NotAMember);
        },
    };
    proof {
        lemma_member_slot_in_range(g@.members, voter@.address, 0, g@.member_count as int);
    }
    let proposal_seed = proposal_domain_bytes();
    match derive_record_address(&proposal_seed, &group_rec.address, proposal_id, bump, program_id) {
        Some(derived) => {
            if !addr_eq(&derived, &proposal_rec.address) {
                return Err(VoteError::BadAddress);
            }
        },
        None => {
            return Err(VoteError::BadAddress);
        },
    }
    if p.proposal_id != proposal_id {
        return Err(VoteError::ProposalMismatch);
    }
    if p.status != ProposalStatus::Active {
        return Err(VoteError::ProposalNotActive);
    }
    if now > p.expiry {
        return Err(VoteError::ProposalExpired);
    }
    if !contains_address(&p.active_members, &voter.address) {
        return Err(VoteError::NotEligible);
    }
    let ballot_seed = ballot_domain_bytes();
    match derive_record_address(&ballot_seed, &group_rec.address, proposal_id, bump, program_id) {
        Some(derived) => {
            if !addr_eq(&derived, &ballot_rec.address) {
                return Err(VoteError::BadAddress);
            }
        },
        None => {
            return Err(VoteError::BadAddress);
        },
    }
    let ghost old_ballot_rec = ballot_rec@;
    if addr_eq(&ballot_rec.owner, program_id) {
        let b = match decode_ballot(&ballot_rec.data) {
            Ok(b) => b,
            Err(e) => {
                return Err(e);
            },
        };
        if !b.has_permission {
            return Err(VoteError::PermissionDenied);
        }
        if b.votes[idx] != 0 {
            return Err(VoteError::DuplicateVote);
        }
        let new_count: u64 = if b.vote_count == u64::MAX {
            0
        } else {
            b.vote_count + 1
        };
        let mut ballot_votes = b.votes;
        ballot_votes[idx] = vote_choice;
        let b2 = Ballot {
            has_permission: b.has_permission,
            vote_count: new_count,
            bump: b.bump,
            votes: ballot_votes,
        };
        store_ballot(&b2, &mut ballot_rec.data);
    } else {
        let mut ballot_votes: Vec<u8> = Vec::new();
        let mut k: usize = 0;
        while k < 10
            invariant
                k <= 10,
                ballot_votes@ =~= zero_votes().take(k as int),
            decreases 10 - k,
        {
            ballot_votes.push(0);
            proof {
                assert(ballot_votes@ =~= zero_votes().take(k + 1));
            }
            k = k + 1;
        }
        proof {
            assert(ballot_votes@ =~= zero_votes());
        }
        ballot_votes[idx] = vote_choice;
        let b2 = Ballot { has_permission: true, vote_count: 1, bump: bump, votes: ballot_votes };
        let mut fresh_data: Vec<u8> = Vec::new();
        let mut k2: usize = 0;
        while k2 < BALLOT_LEN
            invariant
                k2 <= 27,
                fresh_data@ =~= fresh_ballot_record_bytes().take(k2 as int),
            decreases 27 - k2,
        {
            fresh_data.push(0);
            proof {
                assert(fresh_data@ =~= fresh_ballot_record_bytes().take(k2 + 1));
            }
            k2 = k2 + 1;
        }
        proof {
            assert(fresh_data@ =~= fresh_ballot_record_bytes());
        }
        ballot_rec.owner = program_id.dup();
        ballot_rec.data = fresh_data;
        store_ballot(&b2, &mut ballot_rec.data);
    }
    let mut new_votes = p.votes;
    new_votes[idx] = vote_choice;
    let n = g.member_count as usize;
    let (for_count, against_count, _abstain_count, _total) = tally_votes(&new_votes, n);
    let new_status = if for_count >= cfg.min_threshold {
        ProposalStatus::Succeeded
    } else if against_count >= cfg.min_threshold {
        ProposalStatus::Failed
    } else if now > p.expiry {
        ProposalStatus::Cancelled
    } else {
        ProposalStatus::Active
    };
    let p2 = Proposal {
        proposal_id: p.proposal_id,
        status: new_status,
        expiry: p.expiry,
        active_members: p.active_members,
        votes: new_votes,
    };
    store_proposal(&p2, &mut proposal_rec.data);
    proof {
        let outcome = vote_outcome(
            program_id@,
            voter@,
            group_rec@,
            old(proposal_rec)@,
            old_ballot_rec,
            config_rec@,
            proposal_id,
            vote_choice,
            bump,
            now,
        );
        assert(p2@ =~= updated_proposal(
            decoded_proposal(old(proposal_rec)@.data).unwrap(),
            idx as int,
            vote_choice,
            g@.member_count as int,
            cfg.min_threshold,
            now,
        ));
        assert(proposal_rec@ =~= outcome.unwrap().0);
        assert(ballot_rec@ =~= outcome.unwrap().1);
    }
    Ok(())
}

/// Process one vote instruction from its raw payload: parse the opcode,
/// proposal id, choice and bump, then run [`process_vote`]. A payload the
/// parser rejects leaves both records untouched.
pub fn process_vote_instruction(
    program_id: &Address,
    voter: &Record,
    group_rec: &Record,
    proposal_rec: &mut Record,
    ballot_rec: &mut Record,
    config_rec: &Record,
    payload: &Vec<u8>,
    now: u64,
) -> (r: Result<(), VoteError>)
    requires
        program_id.wf(),
        old(proposal_rec).wf(),
        old(ballot_rec).wf(),
    ensures
        payload@.len() < 11 || payload@[0] != 1 ==> r == Err::<(), VoteError>(
            VoteError::MalformedInstruction,
        ) && *final(proposal_rec) == *old(proposal_rec) && *final(ballot_rec) == *old(ballot_rec),
        payload@.len() >= 11 && payload@[0] == 1 ==> ({
            let outcome = vote_outcome(
                program_id@,
                voter@,
                group_rec@,
                old(proposal_rec)@,
                old(ballot_rec)@,
                config_rec@,
                spec_u64_from_le_bytes(payload@.subrange(1, 9)),
                payload@[9],
                payload@[10],
                now,
            );
            match r {
                Ok(()) => {
                    &&& outcome is Ok
                    &&& final(proposal_rec)@ == outcome.unwrap().0
                    &&& final(ballot_rec)@ == outcome.unwrap().1
                    &&& final(proposal_rec).wf()
                    &&& final(ballot_rec).wf()
                },
                Err(e) => {
                    &&& outcome == Err::<(RecordV, RecordV), VoteError>(e)
                    &&& *final(proposal_rec) == *old(proposal_rec)
                    &&& *final(ballot_rec) == *old(ballot_rec)
                },
            }
        }),
{
    let (proposal_id, vote_choice, bump) = match parse_vote_payload(payload) {
        Ok(parsed) => parsed,
        Err(e) => {
            return Err(e);
        },
    };
    process_vote(
        program_id,
        voter,
        group_rec,
        proposal_rec,
        ballot_rec,
        config_rec,
        proposal_id,
        vote_choice,
        bump,
        now,
    )
}

} // verus!
