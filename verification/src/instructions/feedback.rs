//! Scoring an agent.
use crate::address::{
    agent_address, feedback_address, find_agent_address, find_feedback_address, found, Address,
};
use crate::context::{
    bump_of, leads_to, leads_to_with, Context, ContextView, Slot, SlotView, Step,
};
use crate::errors::Failure;
use crate::state::{AgentAccount, AgentView, FeedbackAccount, FeedbackView};
use crate::validation::{check_feedback, feedback_fault};
use vstd::prelude::*;

verus! {

/// What a request to score an agent names.
#[derive(Clone, Debug, PartialEq, Eq)]
pub struct GiveFeedback {
    /// The caller, who gives the score.
    pub reviewer: Address,
    /// The agent record that is scored.
    pub agent: Slot<AgentAccount>,
    /// Where the feedback record is to be created.
    pub feedback: Slot<FeedbackAccount>,
}

/// [`GiveFeedback`] as a mathematical value.
pub struct GiveFeedbackView {
    pub reviewer: Address,
    pub agent: SlotView<AgentView>,
    pub feedback: SlotView<FeedbackView>,
}

impl View for GiveFeedback {
    type V = GiveFeedbackView;

    open spec fn view(&self) -> GiveFeedbackView {
        GiveFeedbackView { reviewer: self.reviewer, agent: self.agent@, feedback: self.feedback@ }
    }
}

/// What stands against recording a score once the inputs have passed their
/// checks, if anything, where `agent_at` is the address derived for the
/// owner of the agent record and `feedback_at` the one derived for the
/// agent's location and the caller. In order: the agent record must exist;
/// it must live, with its bump, at `agent_at`; the feedback location must
/// be `feedback_at`; that location must be vacant, which is what keeps a
/// caller to one score per agent; and the agent's count and sum must have
/// room.
pub open spec fn feedback_gate(
    ctx: ContextView<GiveFeedbackView>,
    score: u8,
    agent_at: Option<(Seq<u8>, u8)>,
    feedback_at: Option<(Seq<u8>, u8)>,
) -> Option<Failure> {
    let agent = ctx.accounts.agent;
    let feedback = ctx.accounts.feedback;
    if agent.record is None {
        Some(Failure::NotFound)
    } else if !leads_to_with(agent_at, agent.address, agent.record->0.bump) {
        Some(Failure::AddressMismatch)
    } else if !leads_to(feedback_at, feedback.address) {
        Some(Failure::AddressMismatch)
    } else if feedback.record is Some {
        Some(Failure::AlreadyExists)
    } else if agent.record->0.feedback_count == u64::MAX || agent.record->0.total_score + score
        > u64::MAX {
        Some(Failure::Overflow)
    } else {
        None
    }
}

/// Why a score is refused, if it is. The inputs are checked first, then
/// the surroundings.
pub open spec fn feedback_refusal(
    ctx: ContextView<GiveFeedbackView>,
    score: u8,
    comment_uri: Seq<char>,
    agent_at: Option<(Seq<u8>, u8)>,
    feedback_at: Option<(Seq<u8>, u8)>,
) -> Option<Failure> {
    match feedback_fault(score, comment_uri) {
        Some(e) => Some(Failure::Rule(e)),
        None => feedback_gate(ctx, score, agent_at, feedback_at),
    }
}

/// The feedback record that a successful call writes.
pub open spec fn new_feedback(
    ctx: ContextView<GiveFeedbackView>,
    score: u8,
    comment_uri: Seq<char>,
    feedback_at: Option<(Seq<u8>, u8)>,
) -> FeedbackView {
    FeedbackView {
        agent: ctx.accounts.agent.address,
        reviewer: ctx.accounts.reviewer,
        score,
        comment_uri,
        created_at: ctx.now,
        bump: bump_of(feedback_at),
    }
}

/// An agent record after one more score: the count one higher, the sum
/// higher by the score, everything else as before.
pub open spec fn scored(before: AgentView, score: u8) -> AgentView {
    AgentView {
        feedback_count: (before.feedback_count + 1) as u64,
        total_score: (before.total_score + score) as u64,
        ..before
    }
}

/// The surroundings after a successful call.
pub open spec fn feedback_given(
    ctx: ContextView<GiveFeedbackView>,
    score: u8,
    comment_uri: Seq<char>,
    feedback_at: Option<(Seq<u8>, u8)>,
) -> ContextView<GiveFeedbackView> {
    ContextView {
        accounts: GiveFeedbackView {
            agent: SlotView {
                record: Some(scored(ctx.accounts.agent.record->0, score)),
                ..ctx.accounts.agent
            },
            feedback: SlotView {
                record: Some(new_feedback(ctx, score, comment_uri, feedback_at)),
                ..ctx.accounts.feedback
            },
            ..ctx.accounts
        },
        ..ctx
    }
}

/// The whole operation, given the two derived addresses: refused with
/// nothing changed, or carried out.
pub open spec fn feedback_step_at(
    ctx: ContextView<GiveFeedbackView>,
    score: u8,
    comment_uri: Seq<char>,
    agent_at: Option<(Seq<u8>, u8)>,
    feedback_at: Option<(Seq<u8>, u8)>,
) -> Step<ContextView<GiveFeedbackView>> {
    match feedback_refusal(ctx, score, comment_uri, agent_at, feedback_at) {
        Some(e) => Step { result: Err(e), after: ctx },
        None => Step {
            result: Ok(()),
            after: feedback_given(ctx, score, comment_uri, feedback_at),
        },
    }
}

/// The address derived for the owner of the agent record that the request
/// names; `None` where the request names no record.
pub open spec fn scored_agent_address(ctx: ContextView<GiveFeedbackView>) -> Option<
    (Seq<u8>, u8),
> {
    match ctx.accounts.agent.record {
        Some(agent) => agent_address(ctx.program_id@, agent.owner@),
        None => None,
    }
}

/// The whole operation, with the addresses derived for the program, the
/// agent and the caller at hand.
pub open spec fn feedback_step(
    ctx: ContextView<GiveFeedbackView>,
    score: u8,
    comment_uri: Seq<char>,
) -> Step<ContextView<GiveFeedbackView>> {
    feedback_step_at(
        ctx,
        score,
        comment_uri,
        scored_agent_address(ctx),
        feedback_address(ctx.program_id@, ctx.accounts.agent.address@, ctx.accounts.reviewer@),
    )
}

/// Records the caller's score for an agent and adds it to the agent's
/// totals, given the derived addresses of the agent and of the feedback.
/// On any failure nothing is changed.
pub fn apply(
    ctx: &mut Context<GiveFeedback>,
    score: u8,
    comment_uri: String,
    agent_at: Option<(Address, u8)>,
    feedback_at: Option<(Address, u8)>,
) -> (r: Result<(), Failure>)
    ensures
        (Step { result: r, after: final(ctx)@ }) == feedback_step_at(
            old(ctx)@,
            score,
            comment_uri@,
            found(agent_at),
            found(feedback_at),
        ),
        r is Err ==> *final(ctx) == *old(ctx),
{
    match check_feedback(score, &comment_uri) {
        Err(e) => {
            return Err(Failure::Rule(e));
        },
        Ok(()) => {},
    }
    let (feedback_count, total_score, bump) = match &ctx.accounts.agent.record {
        None => {
            return Err(Failure::NotFound);
        },
        Some(agent) => {
            match agent_at {
                Some((address, bump)) => {
                    if !address.same_as(&ctx.accounts.agent.address) || bump != agent.bump {
                        return Err(Failure::AddressMismatch);
                    }
                },
                None => {
                    return Err(Failure::AddressMismatch);
                },
            }
            let bump = match feedback_at {
                Some((address, bump)) => {
                    if !address.same_as(&ctx.accounts.feedback.address) {
                        return Err(Failure::AddressMismatch);
                    }
                    bump
                },
                None => {
                    return Err(Failure::AddressMismatch);
                },
            };
            if ctx.accounts.feedback.record.is_some() {
                return Err(Failure::AlreadyExists);
            }
            let feedback_count = match agent.feedback_count.checked_add(1) {
                None => {
                    return Err(Failure::Overflow);
                },
                Some(n) => n,
            };
            let total_score = match agent.total_score.checked_add(score as u64) {
                None => {
                    return Err(Failure::Overflow);
                },
                Some(n) => n,
            };
            (feedback_count, total_score, bump)
        },
    };
    ctx.accounts.feedback.record = Some(
        FeedbackAccount {
            agent: ctx.accounts.agent.address,
            reviewer: ctx.accounts.reviewer,
            score,
            comment_uri,
            created_at: ctx.now,
            bump,
        },
    );
    let mut agent = ctx.accounts.agent.record.take().unwrap();
    agent.feedback_count = feedback_count;
    agent.total_score = total_score;
    ctx.accounts.agent.record = Some(agent);
    Ok(())
}

/// Records the caller's score for an agent, at the address derived for
/// the agent and the caller.
pub fn handler(ctx: &mut Context<GiveFeedback>, score: u8, comment_uri: String) -> (r: Result<
    (),
    Failure,
>)
    ensures
        (Step { result: r, after: final(ctx)@ }) == feedback_step(old(ctx)@, score, comment_uri@),
        r is Err ==> *final(ctx) == *old(ctx),
{
    let agent_at = match &ctx.accounts.agent.record {
        Some(agent) => find_agent_address(&ctx.program_id, &agent.owner),
        None => None,
    };
    let feedback_at = find_feedback_address(
        &ctx.program_id,
        &ctx.accounts.agent.address,
        &ctx.accounts.reviewer,
    );
    apply(ctx, score, comment_uri, agent_at, feedback_at)
}

} // verus!
