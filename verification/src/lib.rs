//! A registry of agents: owners register a profile, update it, and other
//! parties leave one bounded score each, which is summed up on the profile.
//!
//! The crate holds the records, the rules on their fields, the derivation
//! of their addresses, and the four operations as transitions on the
//! storage locations that a request names. Storage itself, the clock and
//! the authentication of callers belong to the surroundings.
pub mod address;
pub mod codec;
pub mod context;
pub mod errors;
pub mod instructions;
pub mod laws;
pub mod state;
pub mod validation;

use crate::context::{Context, Step};
use crate::errors::Failure;
use crate::instructions::feedback::{feedback_step, GiveFeedback};
use crate::instructions::initialize::{initialize_step, Initialize};
use crate::instructions::register::{profile_of, register_step, RegisterAgent};
use crate::instructions::update::{patch_of, update_step, UpdateAgent};
use vstd::prelude::*;

verus! {

/// Creates the registry record, once, with the caller as its authority.
pub fn initialize(ctx: &mut Context<Initialize>) -> (r: Result<(), Failure>)
    ensures
        (Step { result: r, after: final(ctx)@ }) == initialize_step(old(ctx)@),
        r is Err ==> *final(ctx) == *old(ctx),
{
    instructions::initialize::handler(ctx)
}

/// Registers the caller's agent with its name, description, skills and
/// service URL. One agent per owner: the record's address follows from the
/// owner alone.
pub fn register_agent(
    ctx: &mut Context<RegisterAgent>,
    name: String,
    description: String,
    image_uri: String,
    metadata_uri: String,
    skills: Vec<String>,
    service_url: String,
) -> (r: Result<(), Failure>)
    ensures
        (Step { result: r, after: final(ctx)@ }) == register_step(
            old(ctx)@,
            profile_of(name, description, image_uri, metadata_uri, skills, service_url),
        ),
        r is Err ==> *final(ctx) == *old(ctx),
{
    instructions::register::handler(
        ctx,
        name,
        description,
        image_uri,
        metadata_uri,
        skills,
        service_url,
    )
}

/// Changes the caller's agent. A field given as `None` keeps its value.
pub fn update_agent(
    ctx: &mut Context<UpdateAgent>,
    name: Option<String>,
    description: Option<String>,
    skills: Option<Vec<String>>,
    service_url: Option<String>,
) -> (r: Result<(), Failure>)
    ensures
        (Step { result: r, after: final(ctx)@ }) == update_step(
            old(ctx)@,
            patch_of(name, description, skills, service_url),
        ),
        r is Err ==> *final(ctx) == *old(ctx),
{
    instructions::update::handler(ctx, name, description, skills, service_url)
}

/// Records the caller's score for an agent. One score per caller and agent.
pub fn give_feedback(ctx: &mut Context<GiveFeedback>, score: u8, comment_uri: String) -> (r: Result<
    (),
    Failure,
>)
    ensures
        (Step { result: r, after: final(ctx)@ }) == feedback_step(old(ctx)@, score, comment_uri@),
        r is Err ==> *final(ctx) == *old(ctx),
{
    instructions::feedback::handler(ctx, score, comment_uri)
}

} // verus!
