//! Proved properties of the vote-processing state machine.
//!
//! Each proof function here states one law of [`crate::vote::vote_outcome`],
//! the specification that [`crate::vote::process_vote`] is verified
//! against: rejected calls leave the records untouched by that function's
//! own contract, so every law about `vote_outcome` carries over to the
//! executable machine.

use vstd::prelude::*;

verus! {

use crate::VoteError;
use crate::state::{
    decoded_ballot,
    decoded_config,
    decoded_group,
    decoded_proposal,
    lemma_ballot_commit_round_trip,
    lemma_proposal_commit_round_trip,
    BallotV,
    ProposalStatus,
    RecordV,
};
use crate::vote::{
    contains_addr,
    count_choice,
    fresh_ballot_record_bytes,
    inc_count,
    member_slot,
    updated_proposal,
    vote_outcome,
    zero_votes,
};

/// The checks of [`vote_outcome`] that precede the membership scan all
/// pass: signature, writability, a legal choice, and program ownership
/// with decodable records.
pub open spec fn structural_checks_pass(
    program_id: Seq<u8>,
    voter: RecordV,
    group_rec: RecordV,
    proposal_rec: RecordV,
    ballot_rec: RecordV,
    config_rec: RecordV,
    vote_choice: u8,
) -> bool {
    &&& voter.is_signer
    &&& group_rec.is_writable
    &&& proposal_rec.is_writable
    &&& ballot_rec.is_writable
    &&& 1 <= vote_choice <= 3
    &&& group_rec.owner == program_id
    &&& proposal_rec.owner == program_id
    &&& config_rec.owner == program_id
    &&& decoded_group(group_rec.data) is Some
    &&& decoded_proposal(proposal_rec.data) is Some
    &&& decoded_config(config_rec.data) is Some
}

/// How many of the vote slots hold any cast ballot.
pub open spec fn count_voted(s: Seq<u8>) -> nat
    decreases s.len(),
{
    if s.len() == 0 {
        0
    } else {
        count_voted(s.drop_last()) + if s.last() != 0 {
            1nat
        } else {
            0nat
        }
    }
}

/// A decoded proposal is well formed.
pub proof fn lemma_decoded_proposal_wf(s: Seq<u8>)
    requires
        decoded_proposal(s) is Some,
    ensures
        decoded_proposal(s).unwrap().wf(),
        decoded_proposal(s).unwrap().active_members =~= Seq::new(
            10,
            |i: int| s.subrange(50 + 32 * i, 82 + 32 * i),
        ),
{
}

/// Tally partition: when every slot holds a legal entry (a choice or
/// zero), the three per-choice counts add up to exactly the number of
/// voters who cast a ballot.
pub proof fn lemma_tally_partition(s: Seq<u8>)
    requires
        forall|i: int| 0 <= i < s.len() ==> s[i] <= 3,
    ensures
        count_choice(s, 1) + count_choice(s, 2) + count_choice(s, 3) == count_voted(s),
    decreases s.len(),
{
    if s.len() > 0 {
        assert(forall|i: int| 0 <= i < s.drop_last().len() ==> s.drop_last()[i] <= 3);
        lemma_tally_partition(s.drop_last());
    }
}

/// Terminal states are stable: a proposal whose status has left `Active`
/// rejects every further vote, so no call ever changes its record again
/// (a rejected call leaves the records untouched by `process_vote`'s
/// contract).
pub proof fn lemma_terminal_status_rejects(
    program_id: Seq<u8>,
    voter: RecordV,
    group_rec: RecordV,
    proposal_rec: RecordV,
    ballot_rec: RecordV,
    config_rec: RecordV,
    proposal_id: u64,
    vote_choice: u8,
    bump: u8,
    now: u64,
)
    requires
        decoded_proposal(proposal_rec.data) is Some,
        decoded_proposal(proposal_rec.data).unwrap().status != ProposalStatus::Active,
    ensures
        vote_outcome(
            program_id,
            voter,
            group_rec,
            proposal_rec,
            ballot_rec,
            config_rec,
            proposal_id,
            vote_choice,
            bump,
            now,
        ) is Err,
{
}

/// Votes land only on active proposals: a successful call proves the
/// proposal record held `Active` status going in. Together with
/// [`lemma_terminal_status_rejects`] this pins the status lifecycle: a
/// terminal status can never be left, and `Active` is the only state a
/// vote can move.
pub proof fn lemma_vote_requires_active(
    program_id: Seq<u8>,
    voter: RecordV,
    group_rec: RecordV,
    proposal_rec: RecordV,
    ballot_rec: RecordV,
    config_rec: RecordV,
    proposal_id: u64,
    vote_choice: u8,
    bump: u8,
    now: u64,
)
    requires
        vote_outcome(
            program_id,
            voter,
            group_rec,
            proposal_rec,
            ballot_rec,
            config_rec,
            proposal_id,
            vote_choice,
            bump,
            now,
        ) is Ok,
    ensures
        decoded_proposal(proposal_rec.data) is Some,
        decoded_proposal(proposal_rec.data).unwrap().status == ProposalStatus::Active,
        now <= decoded_proposal(proposal_rec.data).unwrap().expiry,
        1 <= vote_choice <= 3,
{
}

/// What a successful vote records: the voter's slot in the proposal's
/// vote table and in the ballot record both end up holding the submitted
/// choice, every other slot keeps its value, and the ballot's counter
/// moves up by one (from one fresh record, or from the old count).
pub proof fn lemma_vote_recorded(
    program_id: Seq<u8>,
    voter: RecordV,
    group_rec: RecordV,
    proposal_rec: RecordV,
    ballot_rec: RecordV,
    config_rec: RecordV,
    proposal_id: u64,
    vote_choice: u8,
    bump: u8,
    now: u64,
)
    requires
        vote_outcome(
            program_id,
            voter,
            group_rec,
            proposal_rec,
            ballot_rec,
            config_rec,
            proposal_id,
            vote_choice,
            bump,
            now,
        ) is Ok,
    ensures
        ({
            let g = decoded_group(group_rec.data).unwrap();
            let p = decoded_proposal(proposal_rec.data).unwrap();
            let slot = member_slot(g.members, g.member_count as int, voter.address);
            let (p1, b1) = vote_outcome(
                program_id,
                voter,
                group_rec,
                proposal_rec,
                ballot_rec,
                config_rec,
                proposal_id,
                vote_choice,
                bump,
                now,
            ).unwrap();
            let p2 = decoded_proposal(p1.data).unwrap();
            let b2 = decoded_ballot(b1.data).unwrap();
            &&& slot is Some
            &&& decoded_proposal(p1.data) is Some
            &&& decoded_ballot(b1.data) is Some
            &&& p2.votes == p.votes.update(slot.unwrap(), vote_choice)
            &&& b2.votes[slot.unwrap()] == vote_choice
            &&& b2.has_permission
            &&& b2.vote_count == if ballot_rec.owner == program_id {
                inc_count(decoded_ballot(ballot_rec.data).unwrap().vote_count)
            } else {
                1u64
            }
        }),
{
    let g = decoded_group(group_rec.data).unwrap();
    let p = decoded_proposal(proposal_rec.data).unwrap();
    let cfg = decoded_config(config_rec.data).unwrap();
    let idx = member_slot(g.members, g.member_count as int, voter.address).unwrap();
    crate::vote::lemma_member_slot_in_range(g.members, voter.address, 0, g.member_count as int);
    let (p1, b1) = vote_outcome(
        program_id,
        voter,
        group_rec,
        proposal_rec,
        ballot_rec,
        config_rec,
        proposal_id,
        vote_choice,
        bump,
        now,
    ).unwrap();
    let p2 = updated_proposal(p, idx, vote_choice, g.member_count as int, cfg.min_threshold, now);
    lemma_decoded_proposal_wf(proposal_rec.data);
    lemma_proposal_commit_round_trip(p2, proposal_rec.data);
    if ballot_rec.owner == program_id {
        let b = decoded_ballot(ballot_rec.data).unwrap();
        let b2 = BallotV {
            vote_count: inc_count(b.vote_count),
            votes: b.votes.update(idx, vote_choice),
            ..b
        };
        lemma_ballot_commit_round_trip(b2, ballot_rec.data);
    } else {
        let b2 = BallotV {
            has_permission: true,
            vote_count: 1,
            bump: bump,
            votes: zero_votes().update(idx, vote_choice),
        };
        lemma_ballot_commit_round_trip(b2, fresh_ballot_record_bytes());
    }
}

/// Membership gate, first half: a voter who is not among the group's
/// first `member_count` members is rejected as `NotAMember`, whatever the
/// proposal's allow-list says.
pub proof fn lemma_non_member_rejected(
    program_id: Seq<u8>,
    voter: RecordV,
    group_rec: RecordV,
    proposal_rec: RecordV,
    ballot_rec: RecordV,
    config_rec: RecordV,
    proposal_id: u64,
    vote_choice: u8,
    bump: u8,
    now: u64,
)
    requires
        structural_checks_pass(
            program_id,
            voter,
            group_rec,
            proposal_rec,
            ballot_rec,
            config_rec,
            vote_choice,
        ),
        member_slot(
            decoded_group(group_rec.data).unwrap().members,
            decoded_group(group_rec.data).unwrap().member_count as int,
            voter.address,
        ) is None,
    ensures
        vote_outcome(
            program_id,
            voter,
            group_rec,
            proposal_rec,
            ballot_rec,
            config_rec,
            proposal_id,
            vote_choice,
            bump,
            now,
        ) == Err::<(RecordV, RecordV), VoteError>(VoteError::NotAMember),
{
}

/// Membership gate, second half: a group member who is missing from the
/// proposal's allow-list is rejected as `NotEligible`, once every check
/// up to the expiry gate passes.
pub proof fn lemma_ineligible_rejected(
    program_id: Seq<u8>,
    voter: RecordV,
    group_rec: RecordV,
    proposal_rec: RecordV,
    ballot_rec: RecordV,
    config_rec: RecordV,
    proposal_id: u64,
    vote_choice: u8,
    bump: u8,
    now: u64,
)
    requires
        structural_checks_pass(
            program_id,
            voter,
            group_rec,
            proposal_rec,
            ballot_rec,
            config_rec,
            vote_choice,
        ),
        member_slot(
            decoded_group(group_rec.data).unwrap().members,
            decoded_group(group_rec.data).unwrap().member_count as int,
            voter.address,
        ) is Some,
        crate::addr::derived_record_address(
            crate::addr::proposal_domain(),
            group_rec.address,
            proposal_id,
            bump,
            program_id,
        ) == Some(proposal_rec.address),
        decoded_proposal(proposal_rec.data).unwrap().proposal_id == proposal_id,
        decoded_proposal(proposal_rec.data).unwrap().status == ProposalStatus::Active,
        now <= decoded_proposal(proposal_rec.data).unwrap().expiry,
        !contains_addr(decoded_proposal(proposal_rec.data).unwrap().active_members, voter.address),
    ensures
        vote_outcome(
            program_id,
            voter,
            group_rec,
            proposal_rec,
            ballot_rec,
            config_rec,
            proposal_id,
            vote_choice,
            bump,
            now,
        ) == Err::<(RecordV, RecordV), VoteError>(VoteError::NotEligible),
{
}

/// Address binding, proposal half: however well formed the record's
/// fields are, a proposal record whose address differs from the seed
/// derivation is rejected as `BadAddress`.
pub proof fn lemma_proposal_address_binding(
    program_id: Seq<u8>,
    voter: RecordV,
    group_rec: RecordV,
    proposal_rec: RecordV,
    ballot_rec: RecordV,
    config_rec: RecordV,
    proposal_id: u64,
    vote_choice: u8,
    bump: u8,
    now: u64,
)
    requires
        structural_checks_pass(
            program_id,
            voter,
            group_rec,
            proposal_rec,
            ballot_rec,
            config_rec,
            vote_choice,
        ),
        member_slot(
            decoded_group(group_rec.data).unwrap().members,
            decoded_group(group_rec.data).unwrap().member_count as int,
            voter.address,
        ) is Some,
        crate::addr::derived_record_address(
            crate::addr::proposal_domain(),
            group_rec.address,
            proposal_id,
            bump,
            program_id,
        ) != Some(proposal_rec.address),
    ensures
        vote_outcome(
            program_id,
            voter,
            group_rec,
            proposal_rec,
            ballot_rec,
            config_rec,
            proposal_id,
            vote_choice,
            bump,
            now,
        ) == Err::<(RecordV, RecordV), VoteError>(VoteError::BadAddress),
{
}

/// Address binding, ballot half: once every earlier check passes, a
/// ballot record whose address differs from the seed derivation is
/// rejected as `BadAddress`.
pub proof fn lemma_ballot_address_binding(
    program_id: Seq<u8>,
    voter: RecordV,
    group_rec: RecordV,
    proposal_rec: RecordV,
    ballot_rec: RecordV,
    config_rec: RecordV,
    proposal_id: u64,
    vote_choice: u8,
    bump: u8,
    now: u64,
)
    requires
        structural_checks_pass(
            program_id,
            voter,
            group_rec,
            proposal_rec,
            ballot_rec,
            config_rec,
            vote_choice,
        ),
        member_slot(
            decoded_group(group_rec.data).unwrap().members,
            decoded_group(group_rec.data).unwrap().member_count as int,
            voter.address,
        ) is Some,
        crate::addr::derived_record_address(
            crate::addr::proposal_domain(),
            group_rec.address,
            proposal_id,
            bump,
            program_id,
        ) == Some(proposal_rec.address),
        decoded_proposal(proposal_rec.data).unwrap().proposal_id == proposal_id,
        decoded_proposal(proposal_rec.data).unwrap().status == ProposalStatus::Active,
        now <= decoded_proposal(proposal_rec.data).unwrap().expiry,
        contains_addr(decoded_proposal(proposal_rec.data).unwrap().active_members, voter.address),
        crate::addr::derived_record_address(
            crate::addr::ballot_domain(),
            group_rec.address,
            proposal_id,
            bump,
            program_id,
        ) != Some(ballot_rec.address),
    ensures
        vote_outcome(
            program_id,
            voter,
            group_rec,
            proposal_rec,
            ballot_rec,
            config_rec,
            proposal_id,
            vote_choice,
            bump,
            now,
        ) == Err::<(RecordV, RecordV), VoteError>(VoteError::BadAddress),
{
}

/// Idempotent rejection: after a successful vote, a second call for the
/// same voter and proposal — as long as the proposal is still active — is
/// rejected as `DuplicateVote`, whatever choice it submits; by
/// `process_vote`'s contract the rejected call changes no tally or status
/// field.
pub proof fn lemma_repeat_vote_rejected(
    program_id: Seq<u8>,
    voter: RecordV,
    group_rec: RecordV,
    proposal_rec: RecordV,
    ballot_rec: RecordV,
    config_rec: RecordV,
    proposal_id: u64,
    first_choice: u8,
    second_choice: u8,
    bump: u8,
    now: u64,
)
    requires
        vote_outcome(
            program_id,
            voter,
            group_rec,
            proposal_rec,
            ballot_rec,
            config_rec,
            proposal_id,
            first_choice,
            bump,
            now,
        ) is Ok,
        1 <= second_choice <= 3,
        ({
            let (p1, b1) = vote_outcome(
                program_id,
                voter,
                group_rec,
                proposal_rec,
                ballot_rec,
                config_rec,
                proposal_id,
                first_choice,
                bump,
                now,
            ).unwrap();
            decoded_proposal(p1.data).unwrap().status == ProposalStatus::Active
        }),
    ensures
        ({
            let (p1, b1) = vote_outcome(
                program_id,
                voter,
                group_rec,
                proposal_rec,
                ballot_rec,
                config_rec,
                proposal_id,
                first_choice,
                bump,
                now,
            ).unwrap();
            vote_outcome(
                program_id,
                voter,
                group_rec,
                p1,
                b1,
                config_rec,
                proposal_id,
                second_choice,
                bump,
                now,
            ) == Err::<(RecordV, RecordV), VoteError>(VoteError::DuplicateVote)
        }),
{
    let g = decoded_group(group_rec.data).unwrap();
    let p = decoded_proposal(proposal_rec.data).unwrap();
    let idx = member_slot(g.members, g.member_count as int, voter.address).unwrap();
    crate::vote::lemma_member_slot_in_range(g.members, voter.address, 0, g.member_count as int);
    let (p1, b1) = vote_outcome(
        program_id,
        voter,
        group_rec,
        proposal_rec,
        ballot_rec,
        config_rec,
        proposal_id,
        first_choice,
        bump,
        now,
    ).unwrap();
    let p2 = updated_proposal(p, idx, first_choice, g.member_count as int, decoded_config(
        config_rec.data,
    ).unwrap().min_threshold, now);
    lemma_decoded_proposal_wf(proposal_rec.data);
    lemma_proposal_commit_round_trip(p2, proposal_rec.data);
    assert(decoded_proposal(p1.data) == Some(p2));
    if ballot_rec.owner == program_id {
        let b = decoded_ballot(ballot_rec.data).unwrap();
        let b2 = BallotV {
            vote_count: inc_count(b.vote_count),
            votes: b.votes.update(idx, first_choice),
            ..b
        };
        lemma_ballot_commit_round_trip(b2, ballot_rec.data);
        assert(decoded_ballot(b1.data) == Some(b2));
        assert(b2.votes[idx] == first_choice);
    } else {
        let b2 = BallotV {
            has_permission: true,
            vote_count: 1,
            bump: bump,
            votes: zero_votes().update(idx, first_choice),
        };
        lemma_ballot_commit_round_trip(b2, fresh_ballot_record_bytes());
        assert(decoded_ballot(b1.data) == Some(b2));
        assert(b2.votes[idx] == first_choice);
    }
}

/// Tally correctness: a successful vote leaves the proposal `Succeeded`
/// exactly when the new count of `For` ballots reaches the threshold, and
/// `Failed` exactly when it does not but the count of `Against` ballots
/// does; when the old slots were all legal entries, the three counts over
/// the scanned slots add up to the number of voters who have voted.
pub proof fn lemma_tally_drives_status(
    program_id: Seq<u8>,
    voter: RecordV,
    group_rec: RecordV,
    proposal_rec: RecordV,
    ballot_rec: RecordV,
    config_rec: RecordV,
    proposal_id: u64,
    vote_choice: u8,
    bump: u8,
    now: u64,
)
    requires
        vote_outcome(
            program_id,
            voter,
            group_rec,
            proposal_rec,
            ballot_rec,
            config_rec,
            proposal_id,
            vote_choice,
            bump,
            now,
        ) is Ok,
    ensures
        ({
            let g = decoded_group(group_rec.data).unwrap();
            let cfg = decoded_config(config_rec.data).unwrap();
            let (p1, b1) = vote_outcome(
                program_id,
                voter,
                group_rec,
                proposal_rec,
                ballot_rec,
                config_rec,
                proposal_id,
                vote_choice,
                bump,
                now,
            ).unwrap();
            let p2 = decoded_proposal(p1.data).unwrap();
            let scanned = p2.votes.take(g.member_count as int);
            &&& decoded_proposal(p1.data) is Some
            &&& (p2.status == ProposalStatus::Succeeded <==> count_choice(scanned, 1)
                >= cfg.min_threshold)
            &&& (p2.status == ProposalStatus::Failed <==> count_choice(scanned, 1)
                < cfg.min_threshold && count_choice(scanned, 2) >= cfg.min_threshold)
            &&& (forall|i: int|
                0 <= i < decoded_proposal(proposal_rec.data).unwrap().votes.len()
                    ==> decoded_proposal(proposal_rec.data).unwrap().votes[i] <= 3) ==> count_choice(
                scanned,
                1,
            ) + count_choice(scanned, 2) + count_choice(scanned, 3) == count_voted(scanned)
        }),
{
    let g = decoded_group(group_rec.data).unwrap();
    let p = decoded_proposal(proposal_rec.data).unwrap();
    let cfg = decoded_config(config_rec.data).unwrap();
    let idx = member_slot(g.members, g.member_count as int, voter.address).unwrap();
    crate::vote::lemma_member_slot_in_range(g.members, voter.address, 0, g.member_count as int);
    let (p1, b1) = vote_outcome(
        program_id,
        voter,
        group_rec,
        proposal_rec,
        ballot_rec,
        config_rec,
        proposal_id,
        vote_choice,
        bump,
        now,
    ).unwrap();
    let p2 = updated_proposal(p, idx, vote_choice, g.member_count as int, cfg.min_threshold, now);
    lemma_decoded_proposal_wf(proposal_rec.data);
    lemma_proposal_commit_round_trip(p2, proposal_rec.data);
    assert(decoded_proposal(p1.data) == Some(p2));
    let scanned = p2.votes.take(g.member_count as int);
    if forall|i: int| 0 <= i < p.votes.len() ==> p.votes[i] <= 3 {
        assert(forall|i: int| 0 <= i < scanned.len() ==> scanned[i] <= 3);
        lemma_tally_partition(scanned);
    }
}

} // verus!