//! Layout of an agent record.
use crate::codec::fields::{
    address_is_prefix, address_round_trip, block_is_prefix, block_round_trip, byte_is_prefix,
    byte_round_trip, i64_bytes, i64_is_prefix, i64_round_trip, joined_thrice, lengths_fit,
    list_bytes, list_is_prefix, list_round_trip, parse_address, parse_block, parse_byte, parse_i64,
    parse_list, parse_text, parse_u64, stored, text_bytes, text_bytes_len, text_is_prefix,
    text_round_trip, texts_bytes, texts_bytes_bounds, texts_bytes_of_front,
    texts_bytes_of_short_texts, u64_is_prefix, u64_round_trip, zeros,
};
use crate::codec::reader::{
    read_address, read_block, read_byte, read_i64, read_list, read_text, read_u64, same_bytes,
};
use crate::codec::writer::{
    pad_to, write_address, write_byte, write_bytes, write_i64, write_list, write_text, write_u64,
};
use crate::state::{byte_len, AgentAccount, AgentView};
use crate::validation::text_len;
use vstd::bytes::spec_u64_to_le_bytes;
use vstd::prelude::*;

verus! {

/// An agent record as bytes: tag, owner, name, description, image URI,
/// metadata URI, skills, service URL, count and sum of scores, times of
/// creation and of the last update, bump.
pub open spec fn agent_bytes(a: AgentView) -> Seq<u8> {
    AgentAccount::DISCRIMINATOR@ + a.owner@ + text_bytes(a.name) + text_bytes(a.description)
        + text_bytes(a.image_uri) + text_bytes(a.metadata_uri) + list_bytes(a.skills)
        + text_bytes(a.service_url) + spec_u64_to_le_bytes(a.feedback_count)
        + spec_u64_to_le_bytes(a.total_score) + i64_bytes(a.created_at) + i64_bytes(a.updated_at)
        + seq![a.bump]
}

/// The agent record that the front of `b` holds, if it holds one.
pub open spec fn parse_agent(b: Seq<u8>) -> Option<AgentView> {
    match parse_block(b, 8) {
        Some(tag) => if tag.value != AgentAccount::DISCRIMINATOR@ {
            None
        } else {
            match parse_address(tag.rest) {
                Some(owner) => match parse_text(owner.rest) {
                    Some(name) => match parse_text(name.rest) {
                        Some(description) => match parse_text(description.rest) {
                            Some(image_uri) => match parse_text(image_uri.rest) {
                                Some(metadata_uri) => match parse_list(metadata_uri.rest) {
                                    Some(skills) => match parse_text(skills.rest) {
                                        Some(service_url) => parse_agent_numbers(
                                            AgentView {
                                                owner: owner.value,
                                                name: name.value,
                                                description: description.value,
                                                image_uri: image_uri.value,
                                                metadata_uri: metadata_uri.value,
                                                skills: skills.value,
                                                service_url: service_url.value,
                                                feedback_count: 0,
                                                total_score: 0,
                                                created_at: 0,
                                                updated_at: 0,
                                                bump: 0,
                                            },
                                            service_url.rest,
                                        ),
                                        None => None,
                                    },
                                    None => None,
                                },
                                None => None,
                            },
                            None => None,
                        },
                        None => None,
                    },
                    None => None,
                },
                None => None,
            }
        },
        None => None,
    }
}

/// The second half of [`parse_agent`]: `profile` with the numbers that
/// the front of `b` holds.
pub open spec fn parse_agent_numbers(profile: AgentView, b: Seq<u8>) -> Option<AgentView> {
    match parse_u64(b) {
        Some(feedback_count) => match parse_u64(feedback_count.rest) {
            Some(total_score) => match parse_i64(total_score.rest) {
                Some(created_at) => match parse_i64(created_at.rest) {
                    Some(updated_at) => match parse_byte(updated_at.rest) {
                        Some(bump) => Some(
                            AgentView {
                                feedback_count: feedback_count.value,
                                total_score: total_score.value,
                                created_at: created_at.value,
                                updated_at: updated_at.value,
                                bump: bump.value,
                                ..profile
                            },
                        ),
                        None => None,
                    },
                    None => None,
                },
                None => None,
            },
            None => None,
        },
        None => None,
    }
}

/// Bytes that the texts of an agent record take, without their prefixes.
pub open spec fn agent_text_len(a: AgentView) -> nat {
    byte_len(a.name) + byte_len(a.description) + byte_len(a.image_uri) + byte_len(a.metadata_uri)
        + byte_len(a.service_url)
}

/// An agent record takes 97 bytes, its five texts, and its skills.
pub proof fn agent_bytes_len(a: AgentView)
    ensures
        agent_bytes(a).len() == 97 + agent_text_len(a) + texts_bytes(a.skills).len(),
{
    text_bytes_len(a.name);
    text_bytes_len(a.description);
    text_bytes_len(a.image_uri);
    text_bytes_len(a.metadata_uri);
    text_bytes_len(a.service_url);
    u64_round_trip(a.feedback_count, Seq::<u8>::empty());
    u64_round_trip(a.total_score, Seq::<u8>::empty());
    i64_round_trip(a.created_at, Seq::<u8>::empty());
    i64_round_trip(a.updated_at, Seq::<u8>::empty());
    vstd::bytes::lemma_auto_spec_u32_to_from_le_bytes();
}

/// An agent record within its limits fits the space reserved for it.
pub proof fn agent_fits(a: AgentView)
    requires
        a.within_limits(),
    ensures
        agent_bytes(a).len() <= 1665,
        agent_bytes(a).len() <= AgentAccount::SPACE,
{
    agent_bytes_len(a);
    texts_bytes_of_short_texts(a.skills);
}

/// An agent record is read back from its bytes, whatever follows them.
pub proof fn agent_round_trip(a: AgentView, rest: Seq<u8>)
    requires
        agent_bytes(a).len() <= u32::MAX,
    ensures
        parse_agent(agent_bytes(a) + rest) == Some(a),
{
    agent_bytes_len(a);
    texts_bytes_bounds(a.skills);
    assert(lengths_fit(a.skills));
    let s1 = AgentAccount::DISCRIMINATOR@;
    let s2 = s1 + a.owner@;
    let s3 = s2 + text_bytes(a.name);
    let s4 = s3 + text_bytes(a.description);
    let s5 = s4 + text_bytes(a.image_uri);
    let s6 = s5 + text_bytes(a.metadata_uri);
    let s7 = s6 + list_bytes(a.skills);
    let s8 = s7 + text_bytes(a.service_url);
    let s9 = s8 + spec_u64_to_le_bytes(a.feedback_count);
    let s10 = s9 + spec_u64_to_le_bytes(a.total_score);
    let s11 = s10 + i64_bytes(a.created_at);
    let s12 = s11 + i64_bytes(a.updated_at);
    let t12 = seq![a.bump] + rest;
    let t11 = i64_bytes(a.updated_at) + t12;
    let t10 = i64_bytes(a.created_at) + t11;
    let t9 = spec_u64_to_le_bytes(a.total_score) + t10;
    let t8 = spec_u64_to_le_bytes(a.feedback_count) + t9;
    let t7 = text_bytes(a.service_url) + t8;
    let t6 = list_bytes(a.skills) + t7;
    let t5 = text_bytes(a.metadata_uri) + t6;
    let t4 = text_bytes(a.image_uri) + t5;
    let t3 = text_bytes(a.description) + t4;
    let t2 = text_bytes(a.name) + t3;
    let t1 = a.owner@ + t2;
    assert(agent_bytes(a) + rest == s1 + t1) by {
        joined_thrice(s12, seq![a.bump], rest);
        joined_thrice(s11, i64_bytes(a.updated_at), t12);
        joined_thrice(s10, i64_bytes(a.created_at), t11);
        joined_thrice(s9, spec_u64_to_le_bytes(a.total_score), t10);
        joined_thrice(s8, spec_u64_to_le_bytes(a.feedback_count), t9);
        joined_thrice(s7, text_bytes(a.service_url), t8);
        joined_thrice(s6, list_bytes(a.skills), t7);
        joined_thrice(s5, text_bytes(a.metadata_uri), t6);
        joined_thrice(s4, text_bytes(a.image_uri), t5);
        joined_thrice(s3, text_bytes(a.description), t4);
        joined_thrice(s2, text_bytes(a.name), t3);
        joined_thrice(s1, a.owner@, t2);
    }
    block_round_trip(s1, t1);
    address_round_trip(a.owner, t2);
    text_round_trip(a.name, t3);
    text_round_trip(a.description, t4);
    text_round_trip(a.image_uri, t5);
    text_round_trip(a.metadata_uri, t6);
    list_round_trip(a.skills, t7);
    text_round_trip(a.service_url, t8);
    assert(parse_agent_numbers(a, t8) == Some(a)) by {
        u64_round_trip(a.feedback_count, t9);
        u64_round_trip(a.total_score, t10);
        i64_round_trip(a.created_at, t11);
        i64_round_trip(a.updated_at, t12);
        byte_round_trip(a.bump, rest);
    }
}

/// An agent record that was read stands at the front of the bytes.
pub proof fn agent_is_prefix(b: Seq<u8>)
    requires
        parse_agent(b) is Some,
    ensures
        agent_bytes(parse_agent(b)->0).is_prefix_of(b),
{
    let tag = parse_block(b, 8)->0;
    let owner = parse_address(tag.rest)->0;
    let name = parse_text(owner.rest)->0;
    let description = parse_text(name.rest)->0;
    let image_uri = parse_text(description.rest)->0;
    let metadata_uri = parse_text(image_uri.rest)->0;
    let skills = parse_list(metadata_uri.rest)->0;
    let service_url = parse_text(skills.rest)->0;
    let feedback_count = parse_u64(service_url.rest)->0;
    let total_score = parse_u64(feedback_count.rest)->0;
    let created_at = parse_i64(total_score.rest)->0;
    let updated_at = parse_i64(created_at.rest)->0;
    let bump = parse_byte(updated_at.rest)->0;
    let a = parse_agent(b)->0;
    let s1 = AgentAccount::DISCRIMINATOR@;
    let s2 = s1 + a.owner@;
    let s3 = s2 + text_bytes(a.name);
    let s4 = s3 + text_bytes(a.description);
    let s5 = s4 + text_bytes(a.image_uri);
    let s6 = s5 + text_bytes(a.metadata_uri);
    let s7 = s6 + list_bytes(a.skills);
    let s8 = s7 + text_bytes(a.service_url);
    let s9 = s8 + spec_u64_to_le_bytes(a.feedback_count);
    let s10 = s9 + spec_u64_to_le_bytes(a.total_score);
    let s11 = s10 + i64_bytes(a.created_at);
    let s12 = s11 + i64_bytes(a.updated_at);
    assert(b == s1 + tag.rest) by {
        block_is_prefix(b, 8);
    }
    assert(b == s2 + owner.rest) by {
        address_is_prefix(tag.rest);
        joined_thrice(s1, a.owner@, owner.rest);
    }
    assert(b == s3 + name.rest) by {
        text_is_prefix(owner.rest);
        joined_thrice(s2, text_bytes(a.name), name.rest);
    }
    assert(b == s4 + description.rest) by {
        text_is_prefix(name.rest);
        joined_thrice(s3, text_bytes(a.description), description.rest);
    }
    assert(b == s5 + image_uri.rest) by {
        text_is_prefix(description.rest);
        joined_thrice(s4, text_bytes(a.image_uri), image_uri.rest);
    }
    assert(b == s6 + metadata_uri.rest) by {
        text_is_prefix(image_uri.rest);
        joined_thrice(s5, text_bytes(a.metadata_uri), metadata_uri.rest);
    }
    assert(b == s7 + skills.rest) by {
        list_is_prefix(metadata_uri.rest);
        joined_thrice(s6, list_bytes(a.skills), skills.rest);
    }
    assert(b == s8 + service_url.rest) by {
        text_is_prefix(skills.rest);
        joined_thrice(s7, text_bytes(a.service_url), service_url.rest);
    }
    assert(b == s9 + feedback_count.rest) by {
        u64_is_prefix(service_url.rest);
        joined_thrice(s8, spec_u64_to_le_bytes(a.feedback_count), feedback_count.rest);
    }
    assert(b == s10 + total_score.rest) by {
        u64_is_prefix(feedback_count.rest);
        joined_thrice(s9, spec_u64_to_le_bytes(a.total_score), total_score.rest);
    }
    assert(b == s11 + created_at.rest) by {
        i64_is_prefix(total_score.rest);
        joined_thrice(s10, i64_bytes(a.created_at), created_at.rest);
    }
    assert(b == s12 + updated_at.rest) by {
        i64_is_prefix(created_at.rest);
        joined_thrice(s11, i64_bytes(a.updated_at), updated_at.rest);
    }
    assert(b == agent_bytes(a) + bump.rest) by {
        byte_is_prefix(updated_at.rest);
        joined_thrice(s12, seq![a.bump], bump.rest);
    }
}

/// An agent record that fits its space is read back from that space.
pub proof fn stored_agent_reads_back(a: AgentView)
    requires
        agent_bytes(a).len() <= AgentAccount::SPACE,
    ensures
        stored(agent_bytes(a), AgentAccount::SPACE as nat).len() == AgentAccount::SPACE,
        parse_agent(stored(agent_bytes(a), AgentAccount::SPACE as nat)) == Some(a),
{
    agent_round_trip(a, zeros((AgentAccount::SPACE - agent_bytes(a).len()) as nat));
}

/// `used + more`, if that is within the space of an agent record.
fn within_space(used: usize, more: usize) -> (r: Option<usize>)
    requires
        used <= AgentAccount::SPACE,
    ensures
        r == if used + more <= AgentAccount::SPACE {
            Some((used + more) as usize)
        } else {
            None
        },
{
    if more > AgentAccount::SPACE - used {
        None
    } else {
        Some(used + more)
    }
}

/// Bytes that the record takes in storage, or `None` where that is more
/// than the space reserved for an agent record.
pub fn agent_size(a: &AgentAccount) -> (r: Option<usize>)
    ensures
        r == if agent_bytes(a@).len() <= AgentAccount::SPACE {
            Some(agent_bytes(a@).len() as usize)
        } else {
            None
        },
{
    proof {
        agent_bytes_len(a@);
    }
    let used = within_space(97, text_len(&a.name))?;
    let used = within_space(used, text_len(&a.description))?;
    let used = within_space(used, text_len(&a.image_uri))?;
    let used = within_space(used, text_len(&a.metadata_uri))?;
    let mut used = within_space(used, text_len(&a.service_url))?;
    let ghost all = a.skills.deep_view();
    let ghost texts = agent_text_len(a@);
    let mut i: usize = 0;
    assert(all.take(0) =~= Seq::<Seq<char>>::empty());
    while i < a.skills.len()
        invariant
            i <= a.skills.len(),
            all == a.skills.deep_view(),
            all.len() == a.skills.len(),
            used == 97 + texts + texts_bytes(all.take(i as int)).len(),
            used <= AgentAccount::SPACE,
            agent_bytes(a@).len() == 97 + texts + texts_bytes(all).len(),
        decreases a.skills.len() - i,
    {
        proof {
            texts_bytes_of_front(all, i as int);
            assert(all[i as int] == a.skills[i as int]@);
        }
        let with_prefix = within_space(used, 4)?;
        used = within_space(with_prefix, text_len(&a.skills[i]))?;
        i += 1;
    }
    assert(all.take(a.skills.len() as int) =~= all);
    Some(used)
}

/// The agent record in its reserved space, or `None` where it does not
/// fit.
pub fn encode_agent(a: &AgentAccount) -> (r: Option<Vec<u8>>)
    ensures
        r is Some <==> agent_bytes(a@).len() <= AgentAccount::SPACE,
        r is Some ==> r->0@ == stored(agent_bytes(a@), AgentAccount::SPACE as nat),
        r is Some ==> r->0.len() == AgentAccount::SPACE,
{
    if agent_size(a).is_none() {
        return None;
    }
    proof {
        agent_bytes_len(a@);
        texts_bytes_bounds(a.skills.deep_view());
        assert(lengths_fit(a.skills.deep_view()));
    }
    let mut out: Vec<u8> = Vec::new();
    write_bytes(&mut out, AgentAccount::DISCRIMINATOR.as_slice());
    assert(out@ =~= AgentAccount::DISCRIMINATOR@);
    write_address(&mut out, &a.owner);
    write_text(&mut out, &a.name);
    write_text(&mut out, &a.description);
    write_text(&mut out, &a.image_uri);
    write_text(&mut out, &a.metadata_uri);
    write_list(&mut out, &a.skills);
    write_text(&mut out, &a.service_url);
    write_u64(&mut out, a.feedback_count);
    write_u64(&mut out, a.total_score);
    write_i64(&mut out, a.created_at);
    write_i64(&mut out, a.updated_at);
    write_byte(&mut out, a.bump);
    assert(out@ == agent_bytes(a@));
    pad_to(&mut out, AgentAccount::SPACE);
    Some(out)
}

/// Reads an agent record from the front of `bytes`. Bytes after the record
/// are not looked at.
pub fn decode_agent(bytes: &[u8]) -> (r: Option<AgentAccount>)
    ensures
        match r {
            Some(a) => parse_agent(bytes@) == Some(a@) && agent_bytes(a@).is_prefix_of(bytes@),
            None => parse_agent(bytes@) is None,
        },
{
    assert(bytes@.skip(0) =~= bytes@);
    let (tag, at) = read_block(bytes, 0, 8)?;
    if !same_bytes(tag, AgentAccount::DISCRIMINATOR.as_slice()) {
        return None;
    }
    let (owner, at) = read_address(bytes, at)?;
    let (name, at) = read_text(bytes, at)?;
    let (description, at) = read_text(bytes, at)?;
    let (image_uri, at) = read_text(bytes, at)?;
    let (metadata_uri, at) = read_text(bytes, at)?;
    let (skills, at) = read_list(bytes, at)?;
    let (service_url, at) = read_text(bytes, at)?;
    let (feedback_count, at) = read_u64(bytes, at)?;
    let (total_score, at) = read_u64(bytes, at)?;
    let (created_at, at) = read_i64(bytes, at)?;
    let (updated_at, at) = read_i64(bytes, at)?;
    let (bump, _) = read_byte(bytes, at)?;
    proof {
        agent_is_prefix(bytes@);
    }
    Some(
        AgentAccount {
            owner,
            name,
            description,
            image_uri,
            metadata_uri,
            skills,
            service_url,
            feedback_count,
            total_score,
            created_at,
            updated_at,
            bump,
        },
    )
}

} // verus!
