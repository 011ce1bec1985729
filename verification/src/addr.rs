//! Addresses and seed-based address derivation.
//!
//! A record address is 32 bytes. Proposal and ballot records live at
//! addresses derived deterministically from a seed domain, the group's
//! address, the proposal id and a disambiguating bump byte, so that related
//! records can be located without an index. The derivation is a digest and
//! may fail for a given bump; [`find_record_address`] searches for a bump
//! that works.

use vstd::prelude::*;

verus! {

use vstd::bytes::{spec_u64_to_le_bytes, u64_to_le_bytes};

/// The number of bytes in an address.
pub const ADDRESS_LEN: usize = 32;

/// A 32-byte record address.
pub struct Address {
    pub bytes: Vec<u8>,
}

impl View for Address {
    type V = Seq<u8>;

    open spec fn view(&self) -> Seq<u8> {
        self.bytes@
    }
}

impl Address {
    /// A well-formed address holds exactly 32 bytes.
    pub open spec fn wf(&self) -> bool {
        self.bytes@.len() == 32
    }

    /// Build an address from its bytes.
    pub fn from_bytes(bytes: Vec<u8>) -> (r: Address)
        ensures
            r@ == bytes@,
    {
        Address { bytes }
    }

    /// An independent copy of this address.
    pub fn dup(&self) -> (r: Address)
        ensures
            r@ == self@,
    {
        let mut out: Vec<u8> = Vec::new();
        let mut i: usize = 0;
        while i < self.bytes.len()
            invariant
                i <= self.bytes@.len(),
                out@ == self.bytes@.subrange(0, i as int),
            decreases self.bytes@.len() - i,
        {
            out.push(self.bytes[i]);
            i = i + 1;
        }
        proof {
            assert(out@ =~= self.bytes@);
        }
        Address { bytes: out }
    }
}

/// Whether two addresses hold the same bytes.
pub fn addr_eq(a: &Address, b: &Address) -> (r: bool)
    ensures
        r == (a@ == b@),
{
    if a.bytes.len() != b.bytes.len() {
        proof {
            assert(a@ != b@);
        }
        return false;
    }
    let mut i: usize = 0;
    while i < a.bytes.len()
        invariant
            i <= a.bytes@.len(),
            a.bytes@.len() == b.bytes@.len(),
            forall|j: int| 0 <= j < i ==> a.bytes@[j] == b.bytes@[j],
        decreases a.bytes@.len() - i,
    {
        if a.bytes[i] != b.bytes[i] {
            proof {
                assert(a@[i as int] != b@[i as int]);
            }
            return false;
        }
        i = i + 1;
    }
    proof {
        assert(a@ =~= b@);
    }
    true
}

/// The address that the seed digest yields for the given seeds and program
/// identity: `None` when the digest lands on a reserved pattern for which
/// no program address may exist.
pub uninterp spec fn pda_of(seeds: Seq<Seq<u8>>, program_id: Seq<u8>) -> Option<Seq<u8>>;

/// Relies on `solana_pubkey::Pubkey::create_program_address`: the result
/// is a function of the seed slices and the program id alone — a 32-byte
/// digest, or a failure that the same arguments always reproduce (the
/// documented cases: a seed longer than 32 bytes, or a digest that lands
/// on the reserved pattern no program address may use).
#[verifier::external_body]
fn create_program_address_raw(s0: &Vec<u8>, s1: &Vec<u8>, s2: &Vec<u8>, s3: u8, program_id: &Vec<u8>) -> (r: Option<Vec<u8>>)
    requires
        program_id@.len() == 32,
    ensures
        r is Some <==> pda_of(seq![s0@, s1@, s2@, seq![s3]], program_id@) is Some,
        r is Some ==> r.unwrap()@ == pda_of(seq![s0@, s1@, s2@, seq![s3]], program_id@).unwrap(),
        r is Some ==> r.unwrap()@.len() == 32,
        s0@.len() > 32 || s1@.len() > 32 || s2@.len() > 32 ==> r is None,
{
    let bump = [s3];
    let seeds: [&[u8]; 4] = [s0.as_slice(), s1.as_slice(), s2.as_slice(), &bump];
    let pid = solana_pubkey::Pubkey::new_from_array(program_id.as_slice().try_into().unwrap());
    match solana_pubkey::Pubkey::create_program_address(&seeds, &pid) {
        Ok(a) => Some(a.to_bytes().to_vec()),
        Err(_) => None,
    }
}

/// The address at which a record of the given seed domain lives, for a
/// group, a proposal id and a bump, under a program identity.
pub open spec fn derived_record_address(
    domain: Seq<u8>,
    group_addr: Seq<u8>,
    proposal_id: u64,
    bump: u8,
    program_id: Seq<u8>,
) -> Option<Seq<u8>> {
    pda_of(
        seq![domain, group_addr, spec_u64_to_le_bytes(proposal_id), seq![bump]],
        program_id,
    )
}

/// Derive the address of a record from its seed components. Returns `None`
/// when no address exists for this bump.
pub fn derive_record_address(
    domain: &Vec<u8>,
    group_addr: &Address,
    proposal_id: u64,
    bump: u8,
    program_id: &Address,
) -> (r: Option<Address>)
    requires
        program_id.wf(),
    ensures
        r is Some <==> derived_record_address(domain@, group_addr@, proposal_id, bump, program_id@) is Some,
        r is Some ==> r.unwrap()@ == derived_record_address(
            domain@,
            group_addr@,
            proposal_id,
            bump,
            program_id@,
        ).unwrap(),
        r is Some ==> r.unwrap().wf(),
{
    let id_bytes = u64_to_le_bytes(proposal_id);
    match create_program_address_raw(domain, &group_addr.bytes, &id_bytes, bump, &program_id.bytes) {
        Some(bytes) => Some(Address { bytes }),
        None => None,
    }
}

/// Whether a claimed address equals the derivation from the given seed
/// components.
pub fn verify_record_address(
    claimed: &Address,
    domain: &Vec<u8>,
    group_addr: &Address,
    proposal_id: u64,
    bump: u8,
    program_id: &Address,
) -> (r: bool)
    requires
        program_id.wf(),
    ensures
        r == (derived_record_address(domain@, group_addr@, proposal_id, bump, program_id@)
            == Some(claimed@)),
{
    match derive_record_address(domain, group_addr, proposal_id, bump, program_id) {
        Some(derived) => addr_eq(&derived, claimed),
        None => false,
    }
}

/// Search downward from the largest bump for one whose derivation
/// succeeds; returns the derived address with the largest bump that
/// produces one, or `None` when no bump at all does.
pub fn find_record_address(
    domain: &Vec<u8>,
    group_addr: &Address,
    proposal_id: u64,
    program_id: &Address,
) -> (r: Option<(Address, u8)>)
    requires
        program_id.wf(),
    ensures
        r is Some ==> {
            let (a, bump) = r.unwrap();
            &&& derived_record_address(domain@, group_addr@, proposal_id, bump, program_id@)
                == Some(a@)
            &&& a.wf()
            &&& forall|b: u8|
                b > bump ==> derived_record_address(
                    domain@,
                    group_addr@,
                    proposal_id,
                    b,
                    program_id@,
                ) is None
        },
        r is None ==> forall|b: u8|
            derived_record_address(domain@, group_addr@, proposal_id, b, program_id@) is None,
{
    let mut bump: u8 = 255;
    loop
        invariant
            program_id.wf(),
            forall|b: u8|
                b > bump ==> derived_record_address(
                    domain@,
                    group_addr@,
                    proposal_id,
                    b,
                    program_id@,
                ) is None,
        decreases bump,
    {
        let derived = derive_record_address(domain, group_addr, proposal_id, bump, program_id);
        if let Some(a) = derived {
            return Some((a, bump));
        }
        if bump == 0 {
            return None;
        }
        bump = bump - 1;
    }
}

/// The seed domain under which proposal records live.
pub open spec fn proposal_domain() -> Seq<u8> {
    seq![112u8, 114u8, 111u8, 112u8, 111u8, 115u8, 97u8, 108u8]
}

/// The bytes of [`proposal_domain`]: the string `proposal`.
pub fn proposal_domain_bytes() -> (r: Vec<u8>)
    ensures
        r@ == proposal_domain(),
{
    let mut v: Vec<u8> = Vec::new();
    v.push(112);
    v.push(114);
    v.push(111);
    v.push(112);
    v.push(111);
    v.push(115);
    v.push(97);
    v.push(108);
    proof {
        assert(v@ =~= proposal_domain());
    }
    v
}

/// The seed domain under which ballot records live.
pub open spec fn ballot_domain() -> Seq<u8> {
    seq![98u8, 97u8, 108u8, 108u8, 111u8, 116u8]
}

/// The bytes of [`ballot_domain`]: the string `ballot`.
pub fn ballot_domain_bytes() -> (r: Vec<u8>)
    ensures
        r@ == ballot_domain(),
{
    let mut v: Vec<u8> = Vec::new();
    v.push(98);
    v.push(97);
    v.push(108);
    v.push(108);
    v.push(111);
    v.push(116);
    proof {
        assert(v@ =~= ballot_domain());
    }
    v
}

} // verus!
