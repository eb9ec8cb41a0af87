//! Registering an agent.
use crate::address::{
    agent_address, find_agent_address, find_registry_address, found, registry_address, Address,
};
use crate::context::{
    bump_of, leads_to, leads_to_with, Context, ContextView, Slot, SlotView, Step,
};
use crate::errors::{Failure, RegistryError};
use crate::state::{AgentAccount, AgentView, RegistryConfig};
use crate::validation::{check_registration, registration_fault};
use vstd::prelude::*;

verus! {

/// What a request to register an agent names.
#[derive(Clone, Debug, PartialEq, Eq)]
pub struct RegisterAgent {
    /// The caller, who will own the new record.
    pub owner: Address,
    /// Where the agent record is to be created.
    pub agent: Slot<AgentAccount>,
    /// The registry record.
    pub registry: Slot<RegistryConfig>,
}

/// [`RegisterAgent`] as a mathematical value.
pub struct RegisterAgentView {
    pub owner: Address,
    pub agent: SlotView<AgentView>,
    pub registry: SlotView<RegistryConfig>,
}

impl View for RegisterAgent {
    type V = RegisterAgentView;

    open spec fn view(&self) -> RegisterAgentView {
        RegisterAgentView { owner: self.owner, agent: self.agent@, registry: self.registry@ }
    }
}

/// The texts and the list that a registration brings.
pub struct Profile {
    pub name: Seq<char>,
    pub description: Seq<char>,
    pub image_uri: Seq<char>,
    pub metadata_uri: Seq<char>,
    pub skills: Seq<Seq<char>>,
    pub service_url: Seq<char>,
}

impl Profile {
    /// The first rule that the profile breaks, if any.
    pub open spec fn fault(self) -> Option<RegistryError> {
        registration_fault(
            self.name,
            self.description,
            self.image_uri,
            self.metadata_uri,
            self.skills,
            self.service_url,
        )
    }
}

/// What stands against creating the record once the inputs have passed
/// their checks, if anything, where `registry_at` and `agent_at` are the
/// derived addresses of the registry and of the caller's agent. In order:
/// the registry must exist; it must not be paused; it must live, with its
/// bump, at `registry_at`; the agent's location must be `agent_at`; that
/// location must be vacant; the registry's counter must have room.
pub open spec fn register_gate(
    ctx: ContextView<RegisterAgentView>,
    registry_at: Option<(Seq<u8>, u8)>,
    agent_at: Option<(Seq<u8>, u8)>,
) -> Option<Failure> {
    let registry = ctx.accounts.registry;
    let agent = ctx.accounts.agent;
    if registry.record is None {
        Some(Failure::NotInitialized)
    } else if registry.record->0.paused {
        Some(Failure::Rule(RegistryError::Paused))
    } else if !leads_to_with(registry_at, registry.address, registry.record->0.bump) {
        Some(Failure::AddressMismatch)
    } else if !leads_to(agent_at, agent.address) {
        Some(Failure::AddressMismatch)
    } else if agent.record is Some {
        Some(Failure::AlreadyExists)
    } else if registry.record->0.agent_count == u64::MAX {
        Some(Failure::Overflow)
    } else {
        None
    }
}

/// Why a registration is refused, if it is. The inputs are checked first,
/// then the surroundings.
pub open spec fn register_refusal(
    ctx: ContextView<RegisterAgentView>,
    profile: Profile,
    registry_at: Option<(Seq<u8>, u8)>,
    agent_at: Option<(Seq<u8>, u8)>,
) -> Option<Failure> {
    match profile.fault() {
        Some(e) => Some(Failure::Rule(e)),
        None => register_gate(ctx, registry_at, agent_at),
    }
}

/// The agent record that a successful registration writes: the inputs as
/// given, no feedback yet, both timestamps at the time of the call.
pub open spec fn new_agent(
    ctx: ContextView<RegisterAgentView>,
    profile: Profile,
    agent_at: Option<(Seq<u8>, u8)>,
) -> AgentView {
    AgentView {
        owner: ctx.accounts.owner,
        name: profile.name,
        description: profile.description,
        image_uri: profile.image_uri,
        metadata_uri: profile.metadata_uri,
        skills: profile.skills,
        service_url: profile.service_url,
        feedback_count: 0,
        total_score: 0,
        created_at: ctx.now,
        updated_at: ctx.now,
        bump: bump_of(agent_at),
    }
}

/// The surroundings after a successful registration: the new record in the
/// agent's location, and one more agent counted by the registry.
pub open spec fn registered(
    ctx: ContextView<RegisterAgentView>,
    profile: Profile,
    agent_at: Option<(Seq<u8>, u8)>,
) -> ContextView<RegisterAgentView> {
    let registry = ctx.accounts.registry.record->0;
    ContextView {
        accounts: RegisterAgentView {
            agent: SlotView {
                record: Some(new_agent(ctx, profile, agent_at)),
                ..ctx.accounts.agent
            },
            registry: SlotView {
                record: Some(
                    RegistryConfig { agent_count: (registry.agent_count + 1) as u64, ..registry },
                ),
                ..ctx.accounts.registry
            },
            ..ctx.accounts
        },
        ..ctx
    }
}

/// The whole operation, given the two derived addresses: refused with
/// nothing changed, or carried out.
pub open spec fn register_step_at(
    ctx: ContextView<RegisterAgentView>,
    profile: Profile,
    registry_at: Option<(Seq<u8>, u8)>,
    agent_at: Option<(Seq<u8>, u8)>,
) -> Step<ContextView<RegisterAgentView>> {
    match register_refusal(ctx, profile, registry_at, agent_at) {
        Some(e) => Step { result: Err(e), after: ctx },
        None => Step { result: Ok(()), after: registered(ctx, profile, agent_at) },
    }
}

/// The whole operation, with the addresses derived for the program and
/// the caller at hand.
pub open spec fn register_step(ctx: ContextView<RegisterAgentView>, profile: Profile) -> Step<
    ContextView<RegisterAgentView>,
> {
    register_step_at(
        ctx,
        profile,
        registry_address(ctx.program_id@),
        agent_address(ctx.program_id@, ctx.accounts.owner@),
    )
}

/// The inputs of a registration as a mathematical value.
pub open spec fn profile_of(
    name: String,
    description: String,
    image_uri: String,
    metadata_uri: String,
    skills: Vec<String>,
    service_url: String,
) -> Profile {
    Profile {
        name: name@,
        description: description@,
        image_uri: image_uri@,
        metadata_uri: metadata_uri@,
        skills: skills.deep_view(),
        service_url: service_url@,
    }
}

/// Registers the caller's agent, given the derived addresses of the
/// registry and of the caller's agent. On any failure nothing is changed.
pub fn apply(
    ctx: &mut Context<RegisterAgent>,
    name: String,
    description: String,
    image_uri: String,
    metadata_uri: String,
    skills: Vec<String>,
    service_url: String,
    registry_at: Option<(Address, u8)>,
    agent_at: Option<(Address, u8)>,
) -> (r: Result<(), Failure>)
    ensures
        (Step { result: r, after: final(ctx)@ }) == register_step_at(
            old(ctx)@,
            profile_of(name, description, image_uri, metadata_uri, skills, service_url),
            found(registry_at),
            found(agent_at),
        ),
        r is Err ==> *final(ctx) == *old(ctx),
{
    match check_registration(&name, &description, &image_uri, &metadata_uri, &skills, &service_url)
    {
        Err(e) => {
            return Err(Failure::Rule(e));
        },
        Ok(()) => {},
    }
    let registry = match ctx.accounts.registry.record {
        None => {
            return Err(Failure::NotInitialized);
        },
        Some(registry) => registry,
    };
    if registry.paused {
        return Err(Failure::Rule(RegistryError::Paused));
    }
    match registry_at {
        Some((address, bump)) => {
            if !address.same_as(&ctx.accounts.registry.address) || bump != registry.bump {
                return Err(Failure::AddressMismatch);
            }
        },
        None => {
            return Err(Failure::AddressMismatch);
        },
    }
    let bump = match agent_at {
        Some((address, bump)) => {
            if !address.same_as(&ctx.accounts.agent.address) {
                return Err(Failure::AddressMismatch);
            }
            bump
        },
        None => {
            return Err(Failure::AddressMismatch);
        },
    };
    if ctx.accounts.agent.record.is_some() {
        return Err(Failure::AlreadyExists);
    }
    let agent_count = match registry.agent_count.checked_add(1) {
        None => {
            return Err(Failure::Overflow);
        },
        Some(n) => n,
    };
    ctx.accounts.agent.record = Some(
        AgentAccount {
            owner: ctx.accounts.owner,
            name,
            description,
            image_uri,
            metadata_uri,
            skills,
            service_url,
            feedback_count: 0,
            total_score: 0,
            created_at: ctx.now,
            updated_at: ctx.now,
            bump,
        },
    );
    ctx.accounts.registry.record = Some(
        RegistryConfig {
            authority: registry.authority,
            agent_count,
            paused: registry.paused,
            bump: registry.bump,
        },
    );
    Ok(())
}

/// Registers the caller's agent at the address derived for the caller.
pub fn handler(
    ctx: &mut Context<RegisterAgent>,
    name: String,
    description: String,
    image_uri: String,
    metadata_uri: String,
    skills: Vec<String>,
    service_url: String,
) -> (r: Result<(), Failure>)
    ensures
        (Step { result: r, after: final(ctx)@ }) == register_step(
            old(ctx)@,
            profile_of(name, description, image_uri, metadata_uri, skills, service_url),
        ),
        r is Err ==> *final(ctx) == *old(ctx),
{
    let registry_at = find_registry_address(&ctx.program_id);
    let agent_at = find_agent_address(&ctx.program_id, &ctx.accounts.owner);
    apply(
        ctx,
        name,
        description,
        image_uri,
        metadata_uri,
        skills,
        service_url,
        registry_at,
        agent_at,
    )
}

} // verus!
