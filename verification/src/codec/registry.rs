//! Layout of the registry record.
use crate::codec::fields::{
    address_is_prefix, address_round_trip, block_is_prefix, block_round_trip, bool_bytes,
    bool_is_prefix, bool_round_trip, byte_is_prefix, byte_round_trip, parse_address, parse_block,
    parse_bool, parse_byte, parse_u64, u64_is_prefix, u64_round_trip,
};
use crate::codec::reader::{read_address, read_block, read_bool, read_byte, read_u64, same_bytes};
use crate::codec::writer::{write_address, write_bool, write_byte, write_bytes, write_u64};
use crate::state::RegistryConfig;
use vstd::bytes::spec_u64_to_le_bytes;
use vstd::prelude::*;

verus! {

/// The registry record as bytes: tag, authority, count, pause flag, bump.
pub open spec fn registry_bytes(r: RegistryConfig) -> Seq<u8> {
    RegistryConfig::DISCRIMINATOR@ + r.authority@ + spec_u64_to_le_bytes(r.agent_count)
        + bool_bytes(r.paused) + seq![r.bump]
}

/// The registry record that the front of `b` holds, if it holds one.
pub open spec fn parse_registry(b: Seq<u8>) -> Option<RegistryConfig> {
    match parse_block(b, 8) {
        Some(tag) => if tag.value != RegistryConfig::DISCRIMINATOR@ {
            None
        } else {
            match parse_address(tag.rest) {
                Some(authority) => match parse_u64(authority.rest) {
                    Some(agent_count) => match parse_bool(agent_count.rest) {
                        Some(paused) => match parse_byte(paused.rest) {
                            Some(bump) => Some(
                                RegistryConfig {
                                    authority: authority.value,
                                    agent_count: agent_count.value,
                                    paused: paused.value,
                                    bump: bump.value,
                                },
                            ),
                            None => None,
                        },
                        None => None,
                    },
                    None => None,
                },
                None => None,
            }
        },
        None => None,
    }
}

/// Every registry record takes exactly the space reserved for it, and is
/// read back from its bytes whatever follows them.
pub proof fn registry_round_trip(r: RegistryConfig, rest: Seq<u8>)
    ensures
        registry_bytes(r).len() == RegistryConfig::SPACE,
        parse_registry(registry_bytes(r) + rest) == Some(r),
{
    let t4 = seq![r.bump] + rest;
    let t3 = bool_bytes(r.paused) + t4;
    let t2 = spec_u64_to_le_bytes(r.agent_count) + t3;
    let t1 = r.authority@ + t2;
    u64_round_trip(r.agent_count, t3);
    assert(registry_bytes(r) + rest =~= RegistryConfig::DISCRIMINATOR@ + t1);
    block_round_trip(RegistryConfig::DISCRIMINATOR@, t1);
    address_round_trip(r.authority, t2);
    bool_round_trip(r.paused, t4);
    byte_round_trip(r.bump, rest);
}

/// A registry record that was read stands at the front of the bytes.
pub proof fn registry_is_prefix(b: Seq<u8>)
    requires
        parse_registry(b) is Some,
    ensures
        registry_bytes(parse_registry(b)->0).is_prefix_of(b),
{
    let tag = parse_block(b, 8)->0;
    let authority = parse_address(tag.rest)->0;
    let agent_count = parse_u64(authority.rest)->0;
    let paused = parse_bool(agent_count.rest)->0;
    let bump = parse_byte(paused.rest)->0;
    block_is_prefix(b, 8);
    address_is_prefix(tag.rest);
    u64_is_prefix(authority.rest);
    bool_is_prefix(agent_count.rest);
    byte_is_prefix(paused.rest);
    assert(b =~= registry_bytes(parse_registry(b)->0) + bump.rest);
}

/// The registry record in its reserved space.
pub fn encode_registry(r: &RegistryConfig) -> (bytes: Vec<u8>)
    ensures
        bytes@ == registry_bytes(*r),
        bytes.len() == RegistryConfig::SPACE,
{
    let mut out: Vec<u8> = Vec::new();
    write_bytes(&mut out, RegistryConfig::DISCRIMINATOR.as_slice());
    write_address(&mut out, &r.authority);
    write_u64(&mut out, r.agent_count);
    write_bool(&mut out, r.paused);
    write_byte(&mut out, r.bump);
    proof {
        registry_round_trip(*r, Seq::<u8>::empty());
        assert(out@ =~= registry_bytes(*r));
    }
    out
}

/// Reads a registry record from the front of `bytes`. Bytes after the
/// record are not looked at.
pub fn decode_registry(bytes: &[u8]) -> (r: Option<RegistryConfig>)
    ensures
        r == parse_registry(bytes@),
        r is Some ==> registry_bytes(r->0).is_prefix_of(bytes@),
{
    assert(bytes@.skip(0) =~= bytes@);
    let (tag, at) = read_block(bytes, 0, 8)?;
    if !same_bytes(tag, RegistryConfig::DISCRIMINATOR.as_slice()) {
        return None;
    }
    let (authority, at) = read_address(bytes, at)?;
    let (agent_count, at) = read_u64(bytes, at)?;
    let (paused, at) = read_bool(bytes, at)?;
    let (bump, _) = read_byte(bytes, at)?;
    proof {
        registry_is_prefix(bytes@);
    }
    Some(RegistryConfig { authority, agent_count, paused, bump })
}

} // verus!
