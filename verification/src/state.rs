//! Records and the fixed-layout entities stored in them.
//!
//! A [`Record`] models one durable, key-addressed byte record as the
//! transaction environment hands it over: its address, its owner tag, the
//! signer and writable capabilities the caller declared, and its raw bytes.
//!
//! Four entities live in record bytes, each at fixed little-endian offsets:
//! the authority [`Group`], its [`GroupConfig`], a [`Proposal`] under vote,
//! and the per-proposal [`Ballot`] record. Decoding is total over byte
//! lengths (a short or ill-formed buffer is rejected); committing writes the
//! mutable fields back at their offsets and leaves every reserved byte as it
//! was. The proposal's membership allow-list region is read-only to this
//! crate and is never committed.

use vstd::prelude::*;

verus! {

use vstd::bytes::{spec_u64_from_le_bytes, spec_u64_to_le_bytes, u64_from_le_bytes, u64_to_le_bytes};
use vstd::slice::slice_subrange;
use crate::addr::Address;
use crate::VoteError;

/// Fixed capacity of the member table and of every vote table.
pub const MEMBER_CAPACITY: usize = 10;

/// Byte length of a group record: a count byte, then ten 32-byte members.
pub const GROUP_LEN: usize = 321;

/// Byte length of a group-config record: the threshold alone.
pub const CONFIG_LEN: usize = 8;

/// Byte length of a proposal record.
pub const PROPOSAL_LEN: usize = 370;

/// Byte length of a ballot record.
pub const BALLOT_LEN: usize = 27;

/// Offset of the expiry field in a proposal record.
pub const PROPOSAL_EXPIRY_OFFSET: usize = 16;

/// Offset of the vote table in a proposal record.
pub const PROPOSAL_VOTES_OFFSET: usize = 24;

/// Offset of the membership allow-list in a proposal record.
pub const PROPOSAL_MEMBERS_OFFSET: usize = 50;

/// Offset of the cumulative vote counter in a ballot record.
pub const BALLOT_COUNT_OFFSET: usize = 8;

/// Offset of the bump byte in a ballot record.
pub const BALLOT_BUMP_OFFSET: usize = 16;

/// Offset of the vote table in a ballot record.
pub const BALLOT_VOTES_OFFSET: usize = 17;

/// One durable record as the transaction environment presents it.
pub struct Record {
    /// The record's address.
    pub address: Address,
    /// The program that owns the record's bytes.
    pub owner: Address,
    /// Whether the holder of this record signed the transaction.
    pub is_signer: bool,
    /// Whether the caller declared the record writable.
    pub is_writable: bool,
    /// The record's raw bytes.
    pub data: Vec<u8>,
}

/// The mathematical value of a [`Record`].
#[verifier::ext_equal]
pub struct RecordV {
    pub address: Seq<u8>,
    pub owner: Seq<u8>,
    pub is_signer: bool,
    pub is_writable: bool,
    pub data: Seq<u8>,
}

impl View for Record {
    type V = RecordV;

    open spec fn view(&self) -> RecordV {
        RecordV {
            address: self.address@,
            owner: self.owner@,
            is_signer: self.is_signer,
            is_writable: self.is_writable,
            data: self.data@,
        }
    }
}

impl Record {
    /// Both address fields hold full 32-byte addresses.
    pub open spec fn wf(&self) -> bool {
        self.address.wf() && self.owner.wf()
    }
}

/// The status of a proposal. `Active` is the only state in which votes are
/// accepted; the other three are terminal.
#[derive(Clone, Copy, Debug, PartialEq, Eq, Structural)]
pub enum ProposalStatus {
    /// Votes are being collected.
    Active,
    /// The approval threshold was reached.
    Succeeded,
    /// The rejection threshold was reached.
    Failed,
    /// The deadline passed without either threshold being reached.
    Cancelled,
}

/// The byte under which a status is stored.
pub open spec fn status_byte(s: ProposalStatus) -> u8 {
    match s {
        ProposalStatus::Active => 0,
        ProposalStatus::Succeeded => 1,
        ProposalStatus::Failed => 2,
        ProposalStatus::Cancelled => 3,
    }
}

/// The status a byte decodes to, if any.
pub open spec fn status_of_byte(b: u8) -> Option<ProposalStatus> {
    if b == 0 {
        Some(ProposalStatus::Active)
    } else if b == 1 {
        Some(ProposalStatus::Succeeded)
    } else if b == 2 {
        Some(ProposalStatus::Failed)
    } else if b == 3 {
        Some(ProposalStatus::Cancelled)
    } else {
        None
    }
}

/// Encode a status as its record byte.
pub fn status_to_byte(s: ProposalStatus) -> (r: u8)
    ensures
        r == status_byte(s),
{
    match s {
        ProposalStatus::Active => 0,
        ProposalStatus::Succeeded => 1,
        ProposalStatus::Failed => 2,
        ProposalStatus::Cancelled => 3,
    }
}

/// Decode a record byte as a status.
pub fn status_from_byte(b: u8) -> (r: Option<ProposalStatus>)
    ensures
        r == status_of_byte(b),
{
    if b == 0 {
        Some(ProposalStatus::Active)
    } else if b == 1 {
        Some(ProposalStatus::Succeeded)
    } else if b == 2 {
        Some(ProposalStatus::Failed)
    } else if b == 3 {
        Some(ProposalStatus::Cancelled)
    } else {
        None
    }
}

/// The authority group: the members allowed to vote, in a stable order
/// whose index is each member's ballot slot.
pub struct Group {
    /// How many of the ten member slots are valid.
    pub member_count: u8,
    /// The ten member slots; entries at or after `member_count` carry no
    /// meaning.
    pub members: Vec<Address>,
}

/// The mathematical value of a [`Group`].
#[verifier::ext_equal]
pub struct GroupV {
    pub member_count: u8,
    pub members: Seq<Seq<u8>>,
}

impl View for Group {
    type V = GroupV;

    open spec fn view(&self) -> GroupV {
        GroupV {
            member_count: self.member_count,
            members: self.members@.map_values(|m: Address| m@),
        }
    }
}

impl GroupV {
    /// The member table is full-capacity with 32-byte entries and the count
    /// stays within capacity.
    pub open spec fn wf(&self) -> bool {
        &&& self.member_count <= 10
        &&& self.members.len() == 10
        &&& forall|i: int| 0 <= i < 10 ==> (#[trigger] self.members[i]).len() == 32
    }
}

/// Governance parameters of one group.
#[derive(Clone, Copy, Debug, PartialEq, Eq, Structural)]
pub struct GroupConfig {
    /// Minimum count of same-choice ballots that finalizes a proposal.
    pub min_threshold: u64,
}

/// A proposal under vote.
pub struct Proposal {
    /// Caller-chosen identifier, unique per group.
    pub proposal_id: u64,
    /// Where the proposal stands.
    pub status: ProposalStatus,
    /// Absolute time after which new votes are rejected.
    pub expiry: u64,
    /// Per-proposal eligibility allow-list.
    pub active_members: Vec<Address>,
    /// Ballot choice per member slot; 0 means not voted.
    pub votes: Vec<u8>,
}

/// The mathematical value of a [`Proposal`].
#[verifier::ext_equal]
pub struct ProposalV {
    pub proposal_id: u64,
    pub status: ProposalStatus,
    pub expiry: u64,
    pub active_members: Seq<Seq<u8>>,
    pub votes: Seq<u8>,
}

impl View for Proposal {
    type V = ProposalV;

    open spec fn view(&self) -> ProposalV {
        ProposalV {
            proposal_id: self.proposal_id,
            status: self.status,
            expiry: self.expiry,
            active_members: self.active_members@.map_values(|m: Address| m@),
            votes: self.votes@,
        }
    }
}

impl ProposalV {
    /// Both tables are full-capacity and the allow-list entries are
    /// 32-byte addresses.
    pub open spec fn wf(&self) -> bool {
        &&& self.votes.len() == 10
        &&& self.active_members.len() == 10
        &&& forall|i: int| 0 <= i < 10 ==> (#[trigger] self.active_members[i]).len() == 32
    }
}

/// The per-proposal ballot record: permission, running count, the bump its
/// address was derived with, and one slot per member mirroring the cast
/// choices for duplicate detection.
pub struct Ballot {
    /// Whether voting through this record is permitted.
    pub has_permission: bool,
    /// Ballots recorded through this record so far.
    pub vote_count: u64,
    /// The bump byte the record's address was derived with.
    pub bump: u8,
    /// Cast choice per member slot; 0 means not voted.
    pub votes: Vec<u8>,
}

/// The mathematical value of a [`Ballot`].
#[verifier::ext_equal]
pub struct BallotV {
    pub has_permission: bool,
    pub vote_count: u64,
    pub bump: u8,
    pub votes: Seq<u8>,
}

impl View for Ballot {
    type V = BallotV;

    open spec fn view(&self) -> BallotV {
        BallotV {
            has_permission: self.has_permission,
            vote_count: self.vote_count,
            bump: self.bump,
            votes: self.votes@,
        }
    }
}

impl BallotV {
    /// The vote table is full-capacity.
    pub open spec fn wf(&self) -> bool {
        self.votes.len() == 10
    }
}

/// The group a byte buffer decodes to, if it is long enough and its member
/// count stays within capacity.
pub open spec fn decoded_group(s: Seq<u8>) -> Option<GroupV> {
    if s.len() >= 321 && s[0] <= 10 {
        Some(
            GroupV {
                member_count: s[0],
                members: Seq::new(10, |i: int| s.subrange(1 + 32 * i, 33 + 32 * i)),
            },
        )
    } else {
        None
    }
}

/// The config a byte buffer decodes to, if it is long enough.
pub open spec fn decoded_config(s: Seq<u8>) -> Option<GroupConfig> {
    if s.len() >= 8 {
        Some(GroupConfig { min_threshold: spec_u64_from_le_bytes(s.subrange(0, 8)) })
    } else {
        None
    }
}

/// The proposal a byte buffer decodes to, if it is long enough and its
/// status byte is legal.
pub open spec fn decoded_proposal(s: Seq<u8>) -> Option<ProposalV> {
    if s.len() >= 370 && status_of_byte(s[8]) is Some {
        Some(
            ProposalV {
                proposal_id: spec_u64_from_le_bytes(s.subrange(0, 8)),
                status: status_of_byte(s[8]).unwrap(),
                expiry: spec_u64_from_le_bytes(s.subrange(16, 24)),
                active_members: Seq::new(10, |i: int| s.subrange(50 + 32 * i, 82 + 32 * i)),
                votes: s.subrange(24, 34),
            },
        )
    } else {
        None
    }
}

/// The ballot a byte buffer decodes to, if it is long enough. Any nonzero
/// permission byte counts as permission granted.
pub open spec fn decoded_ballot(s: Seq<u8>) -> Option<BallotV> {
    if s.len() >= 27 {
        Some(
            BallotV {
                has_permission: s[0] != 0,
                vote_count: spec_u64_from_le_bytes(s.subrange(8, 16)),
                bump: s[16],
                votes: s.subrange(17, 27),
            },
        )
    } else {
        None
    }
}

/// Copy `len` bytes of a buffer starting at `off`.
pub fn read_chunk(data: &Vec<u8>, off: usize, len: usize) -> (r: Vec<u8>)
    requires
        off + len <= data@.len(),
    ensures
        r@ == data@.subrange(off as int, off as int + len as int),
{
    let n = data.len();
    let mut out: Vec<u8> = Vec::new();
    let mut i: usize = 0;
    while i < len
        invariant
            i <= len,
            off + len <= n,
            n == data@.len(),
            out@ == data@.subrange(off as int, off as int + i as int),
        decreases len - i,
    {
        out.push(data[off + i]);
        proof {
            assert(out@ =~= data@.subrange(off as int, off as int + (i + 1) as int));
        }
        i = i + 1;
    }
    out
}

/// Overwrite the bytes of a buffer at `off` with the bytes of `src`.
pub fn write_chunk(data: &mut Vec<u8>, off: usize, src: &Vec<u8>)
    requires
        off + src@.len() <= old(data)@.len(),
    ensures
        final(data)@.len() == old(data)@.len(),
        forall|j: int|
            0 <= j < final(data)@.len() && !(off <= j < off + src@.len()) ==> final(data)@[j]
                == old(data)@[j],
        forall|j: int| 0 <= j < src@.len() ==> final(data)@[off + j] == src@[j],
{
    let m = src.len();
    let n = data.len();
    let mut i: usize = 0;
    while i < m
        invariant
            i <= m,
            m == src@.len(),
            n == data@.len(),
            off + m <= n,
            data@.len() == old(data)@.len(),
            forall|j: int|
                0 <= j < data@.len() && !(off <= j < off + i) ==> data@[j] == old(data)@[j],
            forall|j: int| 0 <= j < i ==> data@[off + j] == src@[j],
        decreases src@.len() - i,
    {
        data[off + i] = src[i];
        i = i + 1;
    }
}

/// Decode a group record's bytes.
pub fn decode_group(data: &Vec<u8>) -> (r: Result<Group, VoteError>)
    ensures
        r is Ok <==> decoded_group(data@) is Some,
        r is Ok ==> r.unwrap()@ == decoded_group(data@).unwrap(),
        r is Ok ==> r.unwrap()@.wf(),
        r is Err ==> r == Err::<Group, VoteError>(VoteError::MalformedRecord),
{
    if data.len() < GROUP_LEN {
        return Err(VoteError::MalformedRecord);
    }
    let member_count = data[0];
    if member_count > 10 {
        return Err(VoteError::MalformedRecord);
    }
    let mut members: Vec<Address> = Vec::new();
    let mut i: usize = 0;
    while i < 10
        invariant
            i <= 10,
            data@.len() >= 321,
            members@.len() == i,
            forall|j: int|
                0 <= j < i ==> (#[trigger] members@[j])@ == data@.subrange(1 + 32 * j, 33 + 32 * j),
        decreases 10 - i,
    {
        let chunk = read_chunk(data, 1 + 32 * i, 32);
        members.push(Address { bytes: chunk });
        i = i + 1;
    }
    let g = Group { member_count, members };
    proof {
        assert(g@ =~= decoded_group(data@).unwrap());
    }
    Ok(g)
}

/// Decode a group-config record's bytes.
pub fn decode_config(data: &Vec<u8>) -> (r: Result<GroupConfig, VoteError>)
    ensures
        r is Ok <==> decoded_config(data@) is Some,
        r is Ok ==> r.unwrap() == decoded_config(data@).unwrap(),
        r is Err ==> r == Err::<GroupConfig, VoteError>(VoteError::MalformedRecord),
{
    if data.len() < CONFIG_LEN {
        return Err(VoteError::MalformedRecord);
    }
    let slice = slice_subrange(data.as_slice(), 0, 8);
    let min_threshold = u64_from_le_bytes(slice);
    Ok(GroupConfig { min_threshold })
}

/// Decode a proposal record's bytes.
pub fn decode_proposal(data: &Vec<u8>) -> (r: Result<Proposal, VoteError>)
    ensures
        r is Ok <==> decoded_proposal(data@) is Some,
        r is Ok ==> r.unwrap()@ == decoded_proposal(data@).unwrap(),
        r is Ok ==> r.unwrap()@.wf(),
        r is Err ==> r == Err::<Proposal, VoteError>(VoteError::MalformedRecord),
{
    if data.len() < PROPOSAL_LEN {
        return Err(VoteError::MalformedRecord);
    }
    let status = match status_from_byte(data[8]) {
        Some(s) => s,
        None => {
            return Err(VoteError::MalformedRecord);
        },
    };
    let proposal_id = u64_from_le_bytes(slice_subrange(data.as_slice(), 0, 8));
    let expiry = u64_from_le_bytes(
        slice_subrange(data.as_slice(), PROPOSAL_EXPIRY_OFFSET, PROPOSAL_EXPIRY_OFFSET + 8),
    );
    let votes = read_chunk(data, PROPOSAL_VOTES_OFFSET, 10);
    let mut active_members: Vec<Address> = Vec::new();
    let mut i: usize = 0;
    while i < 10
        invariant
            i <= 10,
            data@.len() >= 370,
            active_members@.len() == i,
            forall|j: int|
                0 <= j < i ==> (#[trigger] active_members@[j])@ == data@.subrange(
                    50 + 32 * j,
                    82 + 32 * j,
                ),
        decreases 10 - i,
    {
        let chunk = read_chunk(data, PROPOSAL_MEMBERS_OFFSET + 32 * i, 32);
        active_members.push(Address { bytes: chunk });
        i = i + 1;
    }
    let p = Proposal { proposal_id, status, expiry, active_members, votes };
    proof {
        assert(p@ =~= decoded_proposal(data@).unwrap());
    }
    Ok(p)
}

/// Decode a ballot record's bytes.
pub fn decode_ballot(data: &Vec<u8>) -> (r: Result<Ballot, VoteError>)
    ensures
        r is Ok <==> decoded_ballot(data@) is Some,
        r is Ok ==> r.unwrap()@ == decoded_ballot(data@).unwrap(),
        r is Ok ==> r.unwrap()@.wf(),
        r is Err ==> r == Err::<Ballot, VoteError>(VoteError::MalformedRecord),
{
    if data.len() < BALLOT_LEN {
        return Err(VoteError::MalformedRecord);
    }
    let has_permission = data[0] != 0;
    let vote_count = u64_from_le_bytes(
        slice_subrange(data.as_slice(), BALLOT_COUNT_OFFSET, BALLOT_COUNT_OFFSET + 8),
    );
    let bump = data[BALLOT_BUMP_OFFSET];
    let votes = read_chunk(data, BALLOT_VOTES_OFFSET, 10);
    let b = Ballot { has_permission, vote_count, bump, votes };
    proof {
        assert(b@ =~= decoded_ballot(data@).unwrap());
    }
    Ok(b)
}

/// The bytes of a proposal record after its mutable fields are committed
/// over the old bytes `s0`. The allow-list region and every reserved byte
/// keep their old value.
pub open spec fn stored_proposal_bytes(p: ProposalV, s0: Seq<u8>) -> Seq<u8> {
    Seq::new(
        s0.len(),
        |i: int|
            if 0 <= i < 8 {
                spec_u64_to_le_bytes(p.proposal_id)[i]
            } else if i == 8 {
                status_byte(p.status)
            } else if 16 <= i < 24 {
                spec_u64_to_le_bytes(p.expiry)[i - 16]
            } else if 24 <= i < 34 {
                p.votes[i - 24]
            } else {
                s0[i]
            },
    )
}

/// The bytes of a ballot record after all its fields are committed over the
/// old bytes `s0`. Reserved bytes keep their old value.
pub open spec fn stored_ballot_bytes(b: BallotV, s0: Seq<u8>) -> Seq<u8> {
    Seq::new(
        s0.len(),
        |i: int|
            if i == 0 {
                if b.has_permission {
                    1u8
                } else {
                    0u8
                }
            } else if 8 <= i < 16 {
                spec_u64_to_le_bytes(b.vote_count)[i - 8]
            } else if i == 16 {
                b.bump
            } else if 17 <= i < 27 {
                b.votes[i - 17]
            } else {
                s0[i]
            },
    )
}

/// Commit a proposal's mutable fields into its record bytes.
pub fn store_proposal(p: &Proposal, data: &mut Vec<u8>)
    requires
        p@.wf(),
        old(data)@.len() >= PROPOSAL_LEN,
    ensures
        final(data)@ == stored_proposal_bytes(p@, old(data)@),
{
    let id_bytes = u64_to_le_bytes(p.proposal_id);
    write_chunk(data, 0, &id_bytes);
    data[8] = status_to_byte(p.status);
    let expiry_bytes = u64_to_le_bytes(p.expiry);
    write_chunk(data, PROPOSAL_EXPIRY_OFFSET, &expiry_bytes);
    write_chunk(data, PROPOSAL_VOTES_OFFSET, &p.votes);
    proof {
        assert(data@ =~= stored_proposal_bytes(p@, old(data)@));
    }
}

/// Commit a ballot's fields into its record bytes.
pub fn store_ballot(b: &Ballot, data: &mut Vec<u8>)
    requires
        b@.wf(),
        old(data)@.len() >= BALLOT_LEN,
    ensures
        final(data)@ == stored_ballot_bytes(b@, old(data)@),
{
    data[0] = if b.has_permission {
        1
    } else {
        0
    };
    let count_bytes = u64_to_le_bytes(b.vote_count);
    write_chunk(data, BALLOT_COUNT_OFFSET, &count_bytes);
    data[BALLOT_BUMP_OFFSET] = b.bump;
    write_chunk(data, BALLOT_VOTES_OFFSET, &b.votes);
    proof {
        assert(data@ =~= stored_ballot_bytes(b@, old(data)@));
    }
}

/// Committing a proposal and decoding the result gives the proposal back,
/// provided the old bytes carry the same allow-list (which the commit never
/// writes).
pub proof fn lemma_proposal_commit_round_trip(p: ProposalV, s0: Seq<u8>)
    requires
        p.wf(),
        s0.len() >= 370,
        p.active_members =~= Seq::new(10, |i: int| s0.subrange(50 + 32 * i, 82 + 32 * i)),
    ensures
        decoded_proposal(stored_proposal_bytes(p, s0)) == Some(p),
{
    let s = stored_proposal_bytes(p, s0);
    vstd::bytes::lemma_auto_spec_u64_to_from_le_bytes();
    assert(s.subrange(0, 8) =~= spec_u64_to_le_bytes(p.proposal_id));
    assert(s.subrange(16, 24) =~= spec_u64_to_le_bytes(p.expiry));
    assert(s.subrange(24, 34) =~= p.votes);
    assert(status_of_byte(status_byte(p.status)) == Some(p.status));
    assert forall|i: int| 0 <= i < 10 implies #[trigger] s.subrange(50 + 32 * i, 82 + 32 * i)
        == s0.subrange(50 + 32 * i, 82 + 32 * i) by {
        assert(s.subrange(50 + 32 * i, 82 + 32 * i) =~= s0.subrange(50 + 32 * i, 82 + 32 * i));
    }
    assert(decoded_proposal(s).unwrap() =~= p);
}

/// Committing a ballot and decoding the result gives the ballot back.
pub proof fn lemma_ballot_commit_round_trip(b: BallotV, s0: Seq<u8>)
    requires
        b.wf(),
        s0.len() >= 27,
    ensures
        decoded_ballot(stored_ballot_bytes(b, s0)) == Some(b),
{
    let s = stored_ballot_bytes(b, s0);
    vstd::bytes::lemma_auto_spec_u64_to_from_le_bytes();
    assert(s.subrange(8, 16) =~= spec_u64_to_le_bytes(b.vote_count));
    assert(s.subrange(17, 27) =~= b.votes);
    assert(decoded_ballot(s).unwrap() =~= b);
}

} // verus!
