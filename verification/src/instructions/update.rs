//! Changing an agent's profile.
use crate::address::{agent_address, find_agent_address, found, Address};
use crate::context::{leads_to_with, Context, ContextView, Slot, SlotView, Step};
use crate::errors::{Failure, RegistryError};
use crate::state::{AgentAccount, AgentView};
use crate::validation::{check_patch, patch_fault, text_of, texts_of};
use vstd::prelude::*;

verus! {

/// What a request to update an agent names.
#[derive(Clone, Debug, PartialEq, Eq)]
pub struct UpdateAgent {
    /// The caller, who must own the record.
    pub owner: Address,
    /// The agent record to change.
    pub agent: Slot<AgentAccount>,
}

/// [`UpdateAgent`] as a mathematical value.
pub struct UpdateAgentView {
    pub owner: Address,
    pub agent: SlotView<AgentView>,
}

impl View for UpdateAgent {
    type V = UpdateAgentView;

    open spec fn view(&self) -> UpdateAgentView {
        UpdateAgentView { owner: self.owner, agent: self.agent@ }
    }
}

/// The fields that an update may replace. `None` leaves a field as it is.
pub struct Patch {
    pub name: Option<Seq<char>>,
    pub description: Option<Seq<char>>,
    pub skills: Option<Seq<Seq<char>>>,
    pub service_url: Option<Seq<char>>,
}

impl Patch {
    /// The first rule that the provided fields break, if any.
    pub open spec fn fault(self) -> Option<RegistryError> {
        patch_fault(self.name, self.description, self.skills, self.service_url)
    }

    /// The patch that provides nothing.
    pub open spec fn nothing() -> Patch {
        Patch { name: None, description: None, skills: None, service_url: None }
    }

    /// The record after the patch: each provided field replaced, every
    /// other field as before, and the time of the change noted.
    pub open spec fn on(self, before: AgentView, now: i64) -> AgentView {
        AgentView {
            name: if self.name is Some { self.name->0 } else { before.name },
            description: if self.description is Some {
                self.description->0
            } else {
                before.description
            },
            skills: if self.skills is Some { self.skills->0 } else { before.skills },
            service_url: if self.service_url is Some {
                self.service_url->0
            } else {
                before.service_url
            },
            updated_at: now,
            ..before
        }
    }
}

/// Whether the caller may change the record that the request names, and if
/// not, why, where `agent_at` is the derived address of the caller's
/// agent. The record must exist, the caller must be its owner, and the
/// record must live, with its bump, at `agent_at`.
pub open spec fn update_gate(
    ctx: ContextView<UpdateAgentView>,
    agent_at: Option<(Seq<u8>, u8)>,
) -> Option<Failure> {
    let agent = ctx.accounts.agent;
    if agent.record is None {
        Some(Failure::NotFound)
    } else if agent.record->0.owner != ctx.accounts.owner {
        Some(Failure::Unauthorized)
    } else if !leads_to_with(agent_at, agent.address, agent.record->0.bump) {
        Some(Failure::AddressMismatch)
    } else {
        None
    }
}

/// Why an update is refused, if it is. Authority comes first, then the
/// rules on the fields that are provided.
pub open spec fn update_refusal(
    ctx: ContextView<UpdateAgentView>,
    patch: Patch,
    agent_at: Option<(Seq<u8>, u8)>,
) -> Option<Failure> {
    match update_gate(ctx, agent_at) {
        Some(e) => Some(e),
        None => match patch.fault() {
            Some(e) => Some(Failure::Rule(e)),
            None => None,
        },
    }
}

/// The surroundings after a successful update.
pub open spec fn updated(ctx: ContextView<UpdateAgentView>, patch: Patch) -> ContextView<
    UpdateAgentView,
> {
    ContextView {
        accounts: UpdateAgentView {
            agent: SlotView {
                record: Some(patch.on(ctx.accounts.agent.record->0, ctx.now)),
                ..ctx.accounts.agent
            },
            ..ctx.accounts
        },
        ..ctx
    }
}

/// The whole operation, given the derived address of the caller's agent:
/// refused with nothing changed, or carried out.
pub open spec fn update_step_at(
    ctx: ContextView<UpdateAgentView>,
    patch: Patch,
    agent_at: Option<(Seq<u8>, u8)>,
) -> Step<ContextView<UpdateAgentView>> {
    match update_refusal(ctx, patch, agent_at) {
        Some(e) => Step { result: Err(e), after: ctx },
        None => Step { result: Ok(()), after: updated(ctx, patch) },
    }
}

/// The whole operation, with the address derived for the program and the
/// caller at hand.
pub open spec fn update_step(ctx: ContextView<UpdateAgentView>, patch: Patch) -> Step<
    ContextView<UpdateAgentView>,
> {
    update_step_at(ctx, patch, agent_address(ctx.program_id@, ctx.accounts.owner@))
}

/// The inputs of an update as a mathematical value.
pub open spec fn patch_of(
    name: Option<String>,
    description: Option<String>,
    skills: Option<Vec<String>>,
    service_url: Option<String>,
) -> Patch {
    Patch {
        name: text_of(name),
        description: text_of(description),
        skills: texts_of(skills),
        service_url: text_of(service_url),
    }
}

/// Changes the caller's agent record, given the derived address of the
/// caller's agent. A field given as `None` stays as it is. The time of the
/// change is noted even where no field is given. On any failure nothing is
/// changed.
pub fn apply(
    ctx: &mut Context<UpdateAgent>,
    name: Option<String>,
    description: Option<String>,
    skills: Option<Vec<String>>,
    service_url: Option<String>,
    agent_at: Option<(Address, u8)>,
) -> (r: Result<(), Failure>)
    ensures
        (Step { result: r, after: final(ctx)@ }) == update_step_at(
            old(ctx)@,
            patch_of(name, description, skills, service_url),
            found(agent_at),
        ),
        r is Err ==> *final(ctx) == *old(ctx),
{
    match &ctx.accounts.agent.record {
        None => {
            return Err(Failure::NotFound);
        },
        Some(agent) => {
            if !agent.owner.same_as(&ctx.accounts.owner) {
                return Err(Failure::Unauthorized);
            }
            match agent_at {
                Some((address, bump)) => {
                    if !address.same_as(&ctx.accounts.agent.address) || bump != agent.bump {
                        return Err(Failure::AddressMismatch);
                    }
                },
                None => {
                    return Err(Failure::AddressMismatch);
                },
            }
        },
    }
    match check_patch(&name, &description, &skills, &service_url) {
        Err(e) => {
            return Err(Failure::Rule(e));
        },
        Ok(()) => {},
    }
    let mut agent = ctx.accounts.agent.record.take().unwrap();
    if let Some(n) = name {
        agent.name = n;
    }
    if let Some(d) = description {
        agent.description = d;
    }
    if let Some(s) = skills {
        agent.skills = s;
    }
    if let Some(url) = service_url {
        agent.service_url = url;
    }
    agent.updated_at = ctx.now;
    ctx.accounts.agent.record = Some(agent);
    Ok(())
}

/// Changes the caller's agent record at the address derived for the
/// caller.
pub fn handler(
    ctx: &mut Context<UpdateAgent>,
    name: Option<String>,
    description: Option<String>,
    skills: Option<Vec<String>>,
    service_url: Option<String>,
) -> (r: Result<(), Failure>)
    ensures
        (Step { result: r, after: final(ctx)@ }) == update_step(
            old(ctx)@,
            patch_of(name, description, skills, service_url),
        ),
        r is Err ==> *final(ctx) == *old(ctx),
{
    let agent_at = find_agent_address(&ctx.program_id, &ctx.accounts.owner);
    apply(ctx, name, description, skills, service_url, agent_at)
}

} // verus!
