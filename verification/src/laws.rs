//! What holds of the operations taken together.
//!
//! Where a law speaks of derived addresses, it holds whatever the
//! derivation yields: the addresses appear as arguments. The laws that
//! link one operation to the next speak of the operations as they run,
//! with the addresses derived for the program and the caller at hand.
use crate::address::{agent_address, feedback_address, Address};
use crate::codec::agent::{agent_bytes, agent_fits, parse_agent, stored_agent_reads_back};
use crate::codec::feedback::{
    feedback_bytes, feedback_fits, parse_feedback, stored_feedback_reads_back,
};
use crate::codec::fields::stored;
use crate::context::{leads_to, ContextView, SlotView, Step};
use crate::errors::{Failure, RegistryError};
use crate::instructions::feedback::{
    feedback_step, feedback_step_at, new_feedback, GiveFeedbackView,
};
use crate::instructions::initialize::{initialize_step, initialize_step_at, InitializeView};
use crate::instructions::register::{
    new_agent, register_step, register_step_at, Profile, RegisterAgentView,
};
use crate::instructions::update::{
    update_gate, update_step, update_step_at, Patch, UpdateAgentView,
};
use crate::state::{AgentAccount, AgentView, FeedbackAccount, FeedbackView, RegistryConfig};
use crate::validation::{
    description_fault, feedback_fault, name_fault, skills_fit, uri_fault,
};
use vstd::prelude::*;

verus! {

/// The record that a profile makes, with everything else at zero.
pub open spec fn bare_agent(owner: Address, profile: Profile) -> AgentView {
    AgentView {
        owner,
        name: profile.name,
        description: profile.description,
        image_uri: profile.image_uri,
        metadata_uri: profile.metadata_uri,
        skills: profile.skills,
        service_url: profile.service_url,
        feedback_count: 0,
        total_score: 0,
        created_at: 0,
        updated_at: 0,
        bump: 0,
    }
}

/// The inputs of a registration pass their checks exactly when a record
/// made of them is within the limits.
pub proof fn accepted_inputs_are_within_limits(owner: Address, profile: Profile)
    ensures
        profile.fault() is None <==> bare_agent(owner, profile).within_limits(),
{
}

/// Once the registry exists, creating it again is refused and changes
/// nothing; and what the first call left is an empty, open registry under
/// the first caller's authority.
pub proof fn second_initialization_is_refused(
    ctx: ContextView<InitializeView>,
    registry_at: Option<(Seq<u8>, u8)>,
)
    requires
        initialize_step_at(ctx, registry_at).result is Ok,
    ensures
        ({
            let first = initialize_step_at(ctx, registry_at).after;
            &&& first.accounts.registry.record == Some(
                RegistryConfig {
                    authority: ctx.accounts.authority,
                    agent_count: 0,
                    paused: false,
                    bump: first.accounts.registry.record->0.bump,
                },
            )
            &&& initialize_step_at(first, registry_at) == (Step {
                result: Err(Failure::AlreadyExists),
                after: first,
            })
        }),
{
}

/// A successful registration leaves, in the agent's location, a record
/// that holds the inputs as given, belongs to the caller, has no feedback,
/// and is well formed; and the registry counts exactly one agent more.
pub proof fn registration_stores_the_inputs(
    ctx: ContextView<RegisterAgentView>,
    profile: Profile,
    registry_at: Option<(Seq<u8>, u8)>,
    agent_at: Option<(Seq<u8>, u8)>,
)
    requires
        register_step_at(ctx, profile, registry_at, agent_at).result is Ok,
    ensures
        ({
            let after = register_step_at(ctx, profile, registry_at, agent_at).after;
            let agent = after.accounts.agent.record->0;
            &&& after.accounts.agent.record is Some
            &&& agent.owner == ctx.accounts.owner
            &&& agent.name == profile.name
            &&& agent.description == profile.description
            &&& agent.image_uri == profile.image_uri
            &&& agent.metadata_uri == profile.metadata_uri
            &&& agent.skills == profile.skills
            &&& agent.service_url == profile.service_url
            &&& agent.feedback_count == 0
            &&& agent.total_score == 0
            &&& agent.created_at == ctx.now
            &&& agent.updated_at == ctx.now
            &&& agent.well_formed()
            &&& after.accounts.registry.record is Some
            &&& after.accounts.registry.record->0.agent_count
                == ctx.accounts.registry.record->0.agent_count + 1
        }),
{
}

/// What a registration writes fits the space of an agent record, and
/// reading that space gives the record back: the inputs as given, and no
/// feedback.
pub proof fn registered_agent_reads_back(
    ctx: ContextView<RegisterAgentView>,
    profile: Profile,
    registry_at: Option<(Seq<u8>, u8)>,
    agent_at: Option<(Seq<u8>, u8)>,
)
    requires
        register_step_at(ctx, profile, registry_at, agent_at).result is Ok,
    ensures
        ({
            let agent = new_agent(ctx, profile, agent_at);
            &&& agent_bytes(agent).len() <= AgentAccount::SPACE
            &&& parse_agent(stored(agent_bytes(agent), AgentAccount::SPACE as nat)) == Some(agent)
        }),
{
    let agent = new_agent(ctx, profile, agent_at);
    agent_fits(agent);
    stored_agent_reads_back(agent);
}

/// Registering again for the same owner, in the surroundings that a
/// successful registration left, is refused because the record exists,
/// whatever acceptable inputs come with it; and nothing is changed.
pub proof fn second_registration_is_refused(
    ctx: ContextView<RegisterAgentView>,
    first: Profile,
    second: Profile,
    registry_at: Option<(Seq<u8>, u8)>,
    agent_at: Option<(Seq<u8>, u8)>,
)
    requires
        register_step_at(ctx, first, registry_at, agent_at).result is Ok,
        second.fault() is None,
    ensures
        ({
            let left = register_step_at(ctx, first, registry_at, agent_at).after;
            register_step_at(left, second, registry_at, agent_at) == (Step {
                result: Err(Failure::AlreadyExists),
                after: left,
            })
        }),
{
}

/// While the registry is paused, a registration whose inputs pass their
/// checks is refused for that reason, whatever else holds; and nothing is
/// changed.
pub proof fn paused_registry_refuses_registration(
    ctx: ContextView<RegisterAgentView>,
    profile: Profile,
    registry_at: Option<(Seq<u8>, u8)>,
    agent_at: Option<(Seq<u8>, u8)>,
)
    requires
        ctx.accounts.registry.record is Some,
        ctx.accounts.registry.record->0.paused,
        profile.fault() is None,
    ensures
        register_step_at(ctx, profile, registry_at, agent_at) == (Step {
            result: Err(Failure::Rule(RegistryError::Paused)),
            after: ctx,
        }),
{
}

/// Skills are counted before they are measured: with the other inputs in
/// order, more than 10 skills are refused as too many, whatever their
/// lengths; up to 10 skills of which one is longer than 64 bytes are
/// refused because a skill is too long. Either way nothing is changed.
pub proof fn skills_are_counted_before_they_are_measured(
    ctx: ContextView<RegisterAgentView>,
    profile: Profile,
    registry_at: Option<(Seq<u8>, u8)>,
    agent_at: Option<(Seq<u8>, u8)>,
)
    requires
        name_fault(profile.name) is None,
        description_fault(profile.description) is None,
        uri_fault(profile.image_uri) is None,
        uri_fault(profile.metadata_uri) is None,
        uri_fault(profile.service_url) is None,
    ensures
        profile.skills.len() > AgentAccount::MAX_SKILLS ==> register_step_at(
            ctx,
            profile,
            registry_at,
            agent_at,
        ) == (Step { result: Err(Failure::Rule(RegistryError::TooManySkills)), after: ctx }),
        profile.skills.len() <= AgentAccount::MAX_SKILLS && !skills_fit(profile.skills)
            ==> register_step_at(ctx, profile, registry_at, agent_at) == (Step {
            result: Err(Failure::Rule(RegistryError::SkillTooLong)),
            after: ctx,
        }),
{
}

/// An update that provides no field changes the time of the last update
/// and nothing else.
pub proof fn update_without_fields_touches_only_the_timestamp(
    ctx: ContextView<UpdateAgentView>,
    agent_at: Option<(Seq<u8>, u8)>,
)
    requires
        update_gate(ctx, agent_at) is None,
    ensures
        update_step_at(ctx, Patch::nothing(), agent_at) == (Step {
            result: Ok(()),
            after: ContextView {
                accounts: UpdateAgentView {
                    agent: SlotView {
                        record: Some(
                            AgentView { updated_at: ctx.now, ..ctx.accounts.agent.record->0 },
                        ),
                        ..ctx.accounts.agent
                    },
                    ..ctx.accounts
                },
                ..ctx
            },
        }),
{
}

/// An update that provides an empty name fails and changes nothing,
/// whatever the other fields are. Where the caller has authority over the
/// record, the failure is that the name is empty.
pub proof fn update_with_empty_name_is_refused(
    ctx: ContextView<UpdateAgentView>,
    patch: Patch,
    agent_at: Option<(Seq<u8>, u8)>,
)
    requires
        patch.name == Some(Seq::<char>::empty()),
    ensures
        ({
            let step = update_step_at(ctx, patch, agent_at);
            &&& step.result is Err
            &&& step.after == ctx
            &&& update_gate(ctx, agent_at) is None ==> step.result == Err::<(), Failure>(
                Failure::Rule(RegistryError::NameEmpty),
            )
        }),
{
}

/// A successful update keeps the owner, the two URIs that it cannot
/// reach, the feedback totals and the time of creation; and a well-formed
/// record stays well formed.
pub proof fn update_keeps_what_it_does_not_name(
    ctx: ContextView<UpdateAgentView>,
    patch: Patch,
    agent_at: Option<(Seq<u8>, u8)>,
)
    requires
        update_step_at(ctx, patch, agent_at).result is Ok,
    ensures
        ({
            let before = ctx.accounts.agent.record->0;
            let after = update_step_at(ctx, patch, agent_at).after.accounts.agent.record->0;
            &&& after.owner == before.owner
            &&& after.image_uri == before.image_uri
            &&& after.metadata_uri == before.metadata_uri
            &&& after.feedback_count == before.feedback_count
            &&& after.total_score == before.total_score
            &&& after.created_at == before.created_at
            &&& after.bump == before.bump
            &&& before.well_formed() ==> after.well_formed()
        }),
{
}

/// An update of an existing record by a caller who is not its owner is
/// unauthorized and changes nothing.
pub proof fn only_the_owner_may_update(
    ctx: ContextView<UpdateAgentView>,
    patch: Patch,
    agent_at: Option<(Seq<u8>, u8)>,
)
    requires
        ctx.accounts.agent.record is Some,
        ctx.accounts.agent.record->0.owner != ctx.accounts.owner,
    ensures
        update_step_at(ctx, patch, agent_at) == (Step {
            result: Err(Failure::Unauthorized),
            after: ctx,
        }),
{
}

/// A score above 100 is refused as invalid, whatever else holds; no
/// feedback record is created and the agent's totals stay as they are.
pub proof fn score_above_the_limit_is_refused(
    ctx: ContextView<GiveFeedbackView>,
    score: u8,
    comment_uri: Seq<char>,
    agent_at: Option<(Seq<u8>, u8)>,
    feedback_at: Option<(Seq<u8>, u8)>,
)
    requires
        score > FeedbackAccount::MAX_SCORE,
    ensures
        feedback_step_at(ctx, score, comment_uri, agent_at, feedback_at) == (Step {
            result: Err(Failure::Rule(RegistryError::InvalidScore)),
            after: ctx,
        }),
{
}

/// A successful call raises the agent's count by one and its sum by the
/// score, leaves the rest of the agent record alone, and writes a
/// well-formed feedback record that names the agent's address, the caller
/// and the score. A well-formed agent record stays well formed.
pub proof fn feedback_adds_one_score(
    ctx: ContextView<GiveFeedbackView>,
    score: u8,
    comment_uri: Seq<char>,
    agent_at: Option<(Seq<u8>, u8)>,
    feedback_at: Option<(Seq<u8>, u8)>,
)
    requires
        feedback_step_at(ctx, score, comment_uri, agent_at, feedback_at).result is Ok,
    ensures
        ({
            let before = ctx.accounts.agent.record->0;
            let after = feedback_step_at(ctx, score, comment_uri, agent_at, feedback_at).after;
            let agent = after.accounts.agent.record->0;
            let feedback = after.accounts.feedback.record->0;
            &&& agent.feedback_count == before.feedback_count + 1
            &&& agent.total_score == before.total_score + score
            &&& agent == AgentView {
                feedback_count: agent.feedback_count,
                total_score: agent.total_score,
                ..before
            }
            &&& after.accounts.feedback.record is Some
            &&& feedback.agent == ctx.accounts.agent.address
            &&& feedback.reviewer == ctx.accounts.reviewer
            &&& feedback.score == score
            &&& feedback.comment_uri == comment_uri
            &&& feedback.created_at == ctx.now
            &&& feedback.well_formed()
            &&& before.well_formed() ==> agent.well_formed()
        }),
{
}

/// What a successful score writes fits the space of a feedback record and
/// reads back from it.
pub proof fn given_feedback_reads_back(
    ctx: ContextView<GiveFeedbackView>,
    score: u8,
    comment_uri: Seq<char>,
    agent_at: Option<(Seq<u8>, u8)>,
    feedback_at: Option<(Seq<u8>, u8)>,
)
    requires
        feedback_step_at(ctx, score, comment_uri, agent_at, feedback_at).result is Ok,
    ensures
        ({
            let feedback = new_feedback(ctx, score, comment_uri, feedback_at);
            &&& feedback_bytes(feedback).len() <= FeedbackAccount::SPACE
            &&& parse_feedback(stored(feedback_bytes(feedback), FeedbackAccount::SPACE as nat))
                == Some(feedback)
        }),
{
    let feedback = new_feedback(ctx, score, comment_uri, feedback_at);
    feedback_fits(feedback);
    stored_feedback_reads_back(feedback);
}

/// A second score from the same caller for the same agent, in the
/// surroundings that a successful call left, is refused because the
/// feedback record exists; the agent's totals stay at what the first call
/// made them.
pub proof fn second_feedback_is_refused(
    ctx: ContextView<GiveFeedbackView>,
    score: u8,
    comment_uri: Seq<char>,
    score2: u8,
    comment_uri2: Seq<char>,
    agent_at: Option<(Seq<u8>, u8)>,
    feedback_at: Option<(Seq<u8>, u8)>,
)
    requires
        feedback_step_at(ctx, score, comment_uri, agent_at, feedback_at).result is Ok,
        feedback_fault(score2, comment_uri2) is None,
    ensures
        ({
            let left = feedback_step_at(ctx, score, comment_uri, agent_at, feedback_at).after;
            &&& feedback_step_at(left, score2, comment_uri2, agent_at, feedback_at) == (Step {
                result: Err(Failure::AlreadyExists),
                after: left,
            })
            &&& left.accounts.agent.record->0.feedback_count
                == ctx.accounts.agent.record->0.feedback_count + 1
            &&& left.accounts.agent.record->0.total_score
                == ctx.accounts.agent.record->0.total_score + score
        }),
{
}

/// Records are created once: no registration changes an agent record that
/// exists, and no score changes a feedback record that exists. Both calls
/// fail and leave everything as it was.
pub proof fn existing_records_are_not_created_again(
    registration: ContextView<RegisterAgentView>,
    profile: Profile,
    registry_at: Option<(Seq<u8>, u8)>,
    scoring: ContextView<GiveFeedbackView>,
    score: u8,
    comment_uri: Seq<char>,
    agent_at: Option<(Seq<u8>, u8)>,
    feedback_at: Option<(Seq<u8>, u8)>,
)
    ensures
        registration.accounts.agent.record is Some ==> {
            let step = register_step_at(registration, profile, registry_at, agent_at);
            step.result is Err && step.after == registration
        },
        scoring.accounts.feedback.record is Some ==> {
            let step = feedback_step_at(scoring, score, comment_uri, agent_at, feedback_at);
            step.result is Err && step.after == scoring
        },
{
}

/// In the surroundings that creating the registry left, a registration
/// with acceptable inputs succeeds, provided the agent's location is the
/// one derived for the caller and is vacant.
pub proof fn fresh_registry_accepts_registrations(
    ctx: ContextView<InitializeView>,
    owner: Address,
    agent: SlotView<AgentView>,
    now: i64,
    profile: Profile,
)
    requires
        initialize_step(ctx).result is Ok,
        profile.fault() is None,
        leads_to(agent_address(ctx.program_id@, owner@), agent.address),
        agent.record is None,
    ensures
        register_step(
            ContextView {
                program_id: ctx.program_id,
                now,
                accounts: RegisterAgentView {
                    owner,
                    agent,
                    registry: initialize_step(ctx).after.accounts.registry,
                },
            },
            profile,
        ).result is Ok,
{
}

/// The owner has authority over the record that a registration left: an
/// update of that location by that owner, with acceptable fields, succeeds
/// at any later time.
pub proof fn owner_may_update_what_was_registered(
    ctx: ContextView<RegisterAgentView>,
    profile: Profile,
    now: i64,
    patch: Patch,
)
    requires
        register_step(ctx, profile).result is Ok,
        patch.fault() is None,
    ensures
        update_step(
            ContextView {
                program_id: ctx.program_id,
                now,
                accounts: UpdateAgentView {
                    owner: ctx.accounts.owner,
                    agent: register_step(ctx, profile).after.accounts.agent,
                },
            },
            patch,
        ).result is Ok,
{
}

/// The record that a registration left can be scored: a score of at most
/// 100 with a comment URI within its limit is accepted from any caller,
/// provided the feedback location is the one derived for the agent and
/// that caller and is vacant.
pub proof fn registered_agent_can_be_scored(
    ctx: ContextView<RegisterAgentView>,
    profile: Profile,
    giver: Address,
    feedback: SlotView<FeedbackView>,
    now: i64,
    score: u8,
    comment_uri: Seq<char>,
)
    requires
        register_step(ctx, profile).result is Ok,
        feedback_fault(score, comment_uri) is None,
        leads_to(
            feedback_address(ctx.program_id@, ctx.accounts.agent.address@, giver@),
            feedback.address,
        ),
        feedback.record is None,
    ensures
        feedback_step(
            ContextView {
                program_id: ctx.program_id,
                now,
                accounts: GiveFeedbackView {
                    reviewer: giver,
                    agent: register_step(ctx, profile).after.accounts.agent,
                    feedback,
                },
            },
            score,
            comment_uri,
        ).result is Ok,
{
}

/// An agent record within its limits, as every update and every score
/// leaves it, fits its space and reads back from it.
pub proof fn agent_within_limits_reads_back(agent: AgentView)
    requires
        agent.within_limits(),
    ensures
        agent_bytes(agent).len() <= AgentAccount::SPACE,
        parse_agent(stored(agent_bytes(agent), AgentAccount::SPACE as nat)) == Some(agent),
{
    agent_fits(agent);
    stored_agent_reads_back(agent);
}

/// The average score of a well-formed record is at most 100, and is
/// defined exactly when the record has feedback.
pub proof fn average_score_is_a_score(agent: AgentView)
    requires
        agent.well_formed(),
    ensures
        agent.average_score() is Some <==> agent.feedback_count > 0,
        agent.average_score() is Some ==> agent.average_score()->0 <= FeedbackAccount::MAX_SCORE,
{
    if agent.feedback_count > 0 {
        assert(agent.total_score / agent.feedback_count <= 100) by (nonlinear_arith)
            requires
                agent.feedback_count > 0,
                agent.total_score <= 100 * agent.feedback_count,
        ;
    }
}

} // verus!
