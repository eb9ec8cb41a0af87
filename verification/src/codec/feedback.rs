//! Layout of a feedback record.
use crate::codec::fields::{
    address_is_prefix, address_round_trip, block_is_prefix, block_round_trip, byte_is_prefix,
    byte_round_trip, i64_bytes, i64_is_prefix, i64_round_trip, parse_address, parse_block,
    parse_byte, parse_i64, parse_text, stored, text_bytes, text_bytes_len, text_is_prefix,
    text_round_trip,
};
use crate::codec::reader::{read_address, read_block, read_byte, read_i64, read_text, same_bytes};
use crate::codec::writer::{pad_to, write_address, write_byte, write_bytes, write_i64, write_text};
use crate::state::{byte_len, FeedbackAccount, FeedbackView};
use crate::validation::text_len;
use vstd::prelude::*;

verus! {

/// A feedback record as bytes: tag, agent, giver, score, comment URI, time
/// of creation, bump.
pub open spec fn feedback_bytes(f: FeedbackView) -> Seq<u8> {
    FeedbackAccount::DISCRIMINATOR@ + f.agent@ + f.reviewer@ + seq![f.score] + text_bytes(
        f.comment_uri,
    ) + i64_bytes(f.created_at) + seq![f.bump]
}

/// The feedback record that the front of `b` holds, if it holds one.
pub open spec fn parse_feedback(b: Seq<u8>) -> Option<FeedbackView> {
    match parse_block(b, 8) {
        Some(tag) => if tag.value != FeedbackAccount::DISCRIMINATOR@ {
            None
        } else {
            match parse_address(tag.rest) {
                Some(agent) => match parse_address(agent.rest) {
                    Some(reviewer) => match parse_byte(reviewer.rest) {
                        Some(score) => match parse_text(score.rest) {
                            Some(comment_uri) => match parse_i64(comment_uri.rest) {
                                Some(created_at) => match parse_byte(created_at.rest) {
                                    Some(bump) => Some(
                                        FeedbackView {
                                            agent: agent.value,
                                            reviewer: reviewer.value,
                                            score: score.value,
                                            comment_uri: comment_uri.value,
                                            created_at: created_at.value,
                                            bump: bump.value,
                                        },
                                    ),
                                    None => None,
                                },
                                None => None,
                            },
                            None => None,
                        },
                        None => None,
                    },
                    None => None,
                },
                None => None,
            }
        },
        None => None,
    }
}

/// A feedback record takes 86 bytes and its comment URI.
pub proof fn feedback_bytes_len(f: FeedbackView)
    ensures
        feedback_bytes(f).len() == 86 + byte_len(f.comment_uri),
{
    text_bytes_len(f.comment_uri);
    i64_round_trip(f.created_at, Seq::<u8>::empty());
}

/// A feedback record within its limits fits the space reserved for it.
pub proof fn feedback_fits(f: FeedbackView)
    requires
        f.well_formed(),
    ensures
        feedback_bytes(f).len() <= FeedbackAccount::SPACE,
{
    feedback_bytes_len(f);
}

/// A feedback record is read back from its bytes, whatever follows them.
pub proof fn feedback_round_trip(f: FeedbackView, rest: Seq<u8>)
    requires
        byte_len(f.comment_uri) <= u32::MAX,
    ensures
        parse_feedback(feedback_bytes(f) + rest) == Some(f),
{
    let t6 = seq![f.bump] + rest;
    let t5 = i64_bytes(f.created_at) + t6;
    let t4 = text_bytes(f.comment_uri) + t5;
    let t3 = seq![f.score] + t4;
    let t2 = f.reviewer@ + t3;
    let t1 = f.agent@ + t2;
    assert(feedback_bytes(f) + rest =~= FeedbackAccount::DISCRIMINATOR@ + t1);
    block_round_trip(FeedbackAccount::DISCRIMINATOR@, t1);
    address_round_trip(f.agent, t2);
    address_round_trip(f.reviewer, t3);
    byte_round_trip(f.score, t4);
    text_round_trip(f.comment_uri, t5);
    i64_round_trip(f.created_at, t6);
    byte_round_trip(f.bump, rest);
}

/// A feedback record that was read stands at the front of the bytes.
pub proof fn feedback_is_prefix(b: Seq<u8>)
    requires
        parse_feedback(b) is Some,
    ensures
        feedback_bytes(parse_feedback(b)->0).is_prefix_of(b),
{
    let tag = parse_block(b, 8)->0;
    let agent = parse_address(tag.rest)->0;
    let reviewer = parse_address(agent.rest)->0;
    let score = parse_byte(reviewer.rest)->0;
    let comment_uri = parse_text(score.rest)->0;
    let created_at = parse_i64(comment_uri.rest)->0;
    let bump = parse_byte(created_at.rest)->0;
    block_is_prefix(b, 8);
    address_is_prefix(tag.rest);
    address_is_prefix(agent.rest);
    byte_is_prefix(reviewer.rest);
    text_is_prefix(score.rest);
    i64_is_prefix(comment_uri.rest);
    byte_is_prefix(created_at.rest);
    assert(b =~= feedback_bytes(parse_feedback(b)->0) + bump.rest);
}

/// A feedback record that fits its space is read back from that space.
pub proof fn stored_feedback_reads_back(f: FeedbackView)
    requires
        feedback_bytes(f).len() <= FeedbackAccount::SPACE,
    ensures
        stored(feedback_bytes(f), FeedbackAccount::SPACE as nat).len() == FeedbackAccount::SPACE,
        parse_feedback(stored(feedback_bytes(f), FeedbackAccount::SPACE as nat)) == Some(f),
{
    feedback_bytes_len(f);
    feedback_round_trip(
        f,
        crate::codec::fields::zeros((FeedbackAccount::SPACE - feedback_bytes(f).len()) as nat),
    );
}

/// The feedback record in its reserved space, or `None` where it does not
/// fit: that is, where the comment URI is longer than 214 bytes.
pub fn encode_feedback(f: &FeedbackAccount) -> (r: Option<Vec<u8>>)
    ensures
        r is Some <==> feedback_bytes(f@).len() <= FeedbackAccount::SPACE,
        r is Some ==> r->0@ == stored(feedback_bytes(f@), FeedbackAccount::SPACE as nat),
        r is Some ==> r->0.len() == FeedbackAccount::SPACE,
{
    proof {
        feedback_bytes_len(f@);
    }
    if text_len(&f.comment_uri) > FeedbackAccount::SPACE - 86 {
        return None;
    }
    let mut out: Vec<u8> = Vec::new();
    write_bytes(&mut out, FeedbackAccount::DISCRIMINATOR.as_slice());
    write_address(&mut out, &f.agent);
    write_address(&mut out, &f.reviewer);
    write_byte(&mut out, f.score);
    write_text(&mut out, &f.comment_uri);
    write_i64(&mut out, f.created_at);
    write_byte(&mut out, f.bump);
    assert(out@ =~= feedback_bytes(f@));
    pad_to(&mut out, FeedbackAccount::SPACE);
    Some(out)
}

/// Reads a feedback record from the front of `bytes`. Bytes after the
/// record are not looked at.
pub fn decode_feedback(bytes: &[u8]) -> (r: Option<FeedbackAccount>)
    ensures
        match r {
            Some(f) => parse_feedback(bytes@) == Some(f@) && feedback_bytes(f@).is_prefix_of(
                bytes@,
            ),
            None => parse_feedback(bytes@) is None,
        },
{
    assert(bytes@.skip(0) =~= bytes@);
    let (tag, at) = read_block(bytes, 0, 8)?;
    if !same_bytes(tag, FeedbackAccount::DISCRIMINATOR.as_slice()) {
        return None;
    }
    let (agent, at) = read_address(bytes, at)?;
    let (reviewer, at) = read_address(bytes, at)?;
    let (score, at) = read_byte(bytes, at)?;
    let (comment_uri, at) = read_text(bytes, at)?;
    let (created_at, at) = read_i64(bytes, at)?;
    let (bump, _) = read_byte(bytes, at)?;
    proof {
        feedback_is_prefix(bytes@);
    }
    Some(FeedbackAccount { agent, reviewer, score, comment_uri, created_at, bump })
}

} // verus!
