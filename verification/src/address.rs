//! Record addresses and their derivation from identity components.
//!
//! Every record lives at an address computed from a kind tag and the
//! identities the record belongs to. The computation itself is the host
//! platform's program-address search; this module fixes which seeds go into
//! it for each kind of record.
use crate::state::{AgentAccount, FeedbackAccount, RegistryConfig};
use anchor_lang::prelude::Pubkey;
use vstd::prelude::*;
use vstd::slice::slice_to_vec;

verus! {

/// A 32-byte identity: a caller, a program, or the location of a record.
#[derive(Clone, Copy, Debug, PartialEq, Eq, Hash)]
pub struct Address {
    pub bytes: [u8; 32],
}

impl View for Address {
    type V = Seq<u8>;

    open spec fn view(&self) -> Seq<u8> {
        self.bytes@
    }
}

impl Address {
    /// Wraps 32 raw bytes.
    pub fn new(bytes: [u8; 32]) -> (a: Address)
        ensures
            a.bytes == bytes,
            a@ == bytes@,
    {
        Address { bytes }
    }

    /// Byte-wise comparison of two addresses.
    pub fn same_as(&self, other: &Address) -> (same: bool)
        ensures
            same == (self@ == other@),
            same == (*self == *other),
    {
        let mut i: usize = 0;
        while i < 32
            invariant
                i <= 32,
                forall|j: int| 0 <= j < i ==> self.bytes[j] == other.bytes[j],
            decreases 32 - i,
        {
            if self.bytes[i] != other.bytes[i] {
                return false;
            }
            i += 1;
        }
        assert(self.bytes@ =~= other.bytes@);
        assert(self.bytes == other.bytes);
        true
    }
}

/// The address and bump that the platform's program-address search yields
/// for `seeds` under `program_id`, or `None` where the search finds nothing.
pub uninterp spec fn program_address(seeds: Seq<Seq<u8>>, program_id: Seq<u8>) -> Option<
    (Seq<u8>, u8),
>;

/// What [`program_address`] gives, read as a result over [`Address`].
pub open spec fn found(r: Option<(Address, u8)>) -> Option<(Seq<u8>, u8)> {
    match r {
        Some((a, bump)) => Some((a@, bump)),
        None => None,
    }
}

/// A derivation has one outcome: two results that stand for the same
/// outcome are the same result, address and bump.
pub proof fn derivation_has_one_outcome(first: Option<(Address, u8)>, second: Option<(Address, u8)>)
    requires
        found(first) == found(second),
    ensures
        first == second,
{
    if let Some((a, _)) = first {
        if let Some((b, _)) = second {
            assert(a.bytes@ =~= b.bytes@);
            assert(a.bytes == b.bytes);
        }
    }
}

/// Calls `Pubkey::try_find_program_address`. The contract only names the
/// outcome: the search is a fixed function of the seeds and the program id,
/// and nothing further is claimed about which address it picks.
#[verifier::external_body]
fn find_program_address(seeds: &Vec<Vec<u8>>, program_id: &Address) -> (r: Option<(Address, u8)>)
    ensures
        found(r) == program_address(seeds.deep_view(), program_id@),
{
    let parts: Vec<&[u8]> = seeds.iter().map(|s| s.as_slice()).collect();
    match Pubkey::try_find_program_address(&parts, &Pubkey::new_from_array(program_id.bytes)) {
        Some((key, bump)) => Some((Address { bytes: key.to_bytes() }, bump)),
        None => None,
    }
}

/// Seeds of the registry record: its kind tag alone.
pub open spec fn registry_seeds() -> Seq<Seq<u8>> {
    seq![RegistryConfig::SEED@]
}

/// Seeds of an agent record: its kind tag, then the owner.
pub open spec fn agent_seeds(owner: Seq<u8>) -> Seq<Seq<u8>> {
    seq![AgentAccount::SEED@, owner]
}

/// Seeds of a feedback record: its kind tag, the agent record's address,
/// then whoever gives the feedback.
pub open spec fn feedback_seeds(agent: Seq<u8>, reviewer: Seq<u8>) -> Seq<Seq<u8>> {
    seq![FeedbackAccount::SEED@, agent, reviewer]
}

/// Where the registry record of `program_id` lives.
pub open spec fn registry_address(program_id: Seq<u8>) -> Option<(Seq<u8>, u8)> {
    program_address(registry_seeds(), program_id)
}

/// Where the agent record of `owner` lives.
pub open spec fn agent_address(program_id: Seq<u8>, owner: Seq<u8>) -> Option<(Seq<u8>, u8)> {
    program_address(agent_seeds(owner), program_id)
}

/// Where the feedback that one party gives on the agent record at `agent` lives.
pub open spec fn feedback_address(program_id: Seq<u8>, agent: Seq<u8>, reviewer: Seq<u8>) -> Option<
    (Seq<u8>, u8),
> {
    program_address(feedback_seeds(agent, reviewer), program_id)
}

/// Derives the address of the registry record.
pub fn find_registry_address(program_id: &Address) -> (r: Option<(Address, u8)>)
    ensures
        found(r) == registry_address(program_id@),
{
    let mut seeds: Vec<Vec<u8>> = Vec::new();
    seeds.push(slice_to_vec(RegistryConfig::SEED.as_slice()));
    assert(seeds.deep_view() =~~= registry_seeds());
    find_program_address(&seeds, program_id)
}

/// Derives the address of the agent record that belongs to `owner`.
pub fn find_agent_address(program_id: &Address, owner: &Address) -> (r: Option<(Address, u8)>)
    ensures
        found(r) == agent_address(program_id@, owner@),
{
    let mut seeds: Vec<Vec<u8>> = Vec::new();
    seeds.push(slice_to_vec(AgentAccount::SEED.as_slice()));
    seeds.push(slice_to_vec(owner.bytes.as_slice()));
    assert(seeds.deep_view() =~~= agent_seeds(owner@));
    find_program_address(&seeds, program_id)
}

/// Derives the address of the feedback record that one party leaves on the
/// agent record at `agent`.
pub fn find_feedback_address(program_id: &Address, agent: &Address, reviewer: &Address) -> (r:
    Option<(Address, u8)>)
    ensures
        found(r) == feedback_address(program_id@, agent@, reviewer@),
{
    let mut seeds: Vec<Vec<u8>> = Vec::new();
    seeds.push(slice_to_vec(FeedbackAccount::SEED.as_slice()));
    seeds.push(slice_to_vec(agent.bytes.as_slice()));
    seeds.push(slice_to_vec(reviewer.bytes.as_slice()));
    assert(seeds.deep_view() =~~= feedback_seeds(agent@, reviewer@));
    find_program_address(&seeds, program_id)
}

} // verus!
