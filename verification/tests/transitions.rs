use agent_registry::address::Address;
use agent_registry::context::{Context, Slot};
use agent_registry::errors::{Failure, RegistryError};
use agent_registry::instructions::feedback::GiveFeedback;
use agent_registry::instructions::initialize::Initialize;
use agent_registry::instructions::register::RegisterAgent;
use agent_registry::instructions::update::UpdateAgent;
use agent_registry::instructions::{feedback, initialize, register, update};
use agent_registry::state::{AgentAccount, FeedbackAccount, RegistryConfig};

fn id(byte: u8) -> Address {
    Address::new([byte; 32])
}

fn text(s: &str) -> String {
    s.to_string()
}

fn open_registry() -> Slot<RegistryConfig> {
    Slot::holding(
        id(100),
        RegistryConfig { authority: id(1), agent_count: 41, paused: false, bump: 250 },
    )
}

fn agent_of(owner: Address, bump: u8) -> AgentAccount {
    AgentAccount {
        owner,
        name: text("alpha"),
        description: text("d"),
        image_uri: text("i"),
        metadata_uri: text("m"),
        skills: vec![text("s")],
        service_url: text("u"),
        feedback_count: 4,
        total_score: 310,
        created_at: 10,
        updated_at: 20,
        bump,
    }
}

fn try_register(
    ctx: &mut Context<RegisterAgent>,
    registry_at: Option<(Address, u8)>,
    agent_at: Option<(Address, u8)>,
) -> Result<(), Failure> {
    register::apply(
        ctx,
        text("alpha"),
        text("d"),
        text("i"),
        text("m"),
        vec![text("s")],
        text("u"),
        registry_at,
        agent_at,
    )
}

#[test]
fn initialize_takes_the_bump_it_is_given() {
    let mut ctx = Context {
        program_id: id(9),
        now: 0,
        accounts: Initialize { authority: id(1), registry: Slot::vacant(id(100)) },
    };
    assert_eq!(initialize::apply(&mut ctx, Some((id(100), 253))), Ok(()));
    assert_eq!(
        ctx.accounts.registry.record,
        Some(RegistryConfig { authority: id(1), agent_count: 0, paused: false, bump: 253 })
    );
}

#[test]
fn initialize_needs_the_derived_address() {
    let mut ctx = Context {
        program_id: id(9),
        now: 0,
        accounts: Initialize { authority: id(1), registry: Slot::vacant(id(100)) },
    };
    let before = ctx.clone();
    assert_eq!(initialize::apply(&mut ctx, Some((id(101), 253))), Err(Failure::AddressMismatch));
    assert_eq!(initialize::apply(&mut ctx, None), Err(Failure::AddressMismatch));
    assert_eq!(ctx, before);
}

#[test]
fn initialize_reports_a_foreign_address_before_an_existing_record() {
    let mut ctx = Context {
        program_id: id(9),
        now: 0,
        accounts: Initialize { authority: id(1), registry: open_registry() },
    };
    assert_eq!(initialize::apply(&mut ctx, Some((id(101), 250))), Err(Failure::AddressMismatch));
    assert_eq!(initialize::apply(&mut ctx, Some((id(100), 250))), Err(Failure::AlreadyExists));
}

#[test]
fn register_writes_the_record_and_counts_it() {
    let mut ctx = Context {
        program_id: id(9),
        now: 77,
        accounts: RegisterAgent {
            owner: id(2),
            agent: Slot::vacant(id(50)),
            registry: open_registry(),
        },
    };
    assert_eq!(try_register(&mut ctx, Some((id(100), 250)), Some((id(50), 249))), Ok(()));
    assert_eq!(
        ctx.accounts.agent.record,
        Some(AgentAccount {
            feedback_count: 0,
            total_score: 0,
            created_at: 77,
            updated_at: 77,
            ..agent_of(id(2), 249)
        })
    );
    assert_eq!(
        ctx.accounts.registry.record,
        Some(RegistryConfig { authority: id(1), agent_count: 42, paused: false, bump: 250 })
    );
}

#[test]
fn register_checks_its_surroundings_in_order() {
    let vacant = RegisterAgent { owner: id(2), agent: Slot::vacant(id(50)), registry: open_registry() };
    let here = Some((id(100), 250));
    let there = Some((id(50), 249));

    let mut ctx = Context { program_id: id(9), now: 1, accounts: vacant.clone() };
    ctx.accounts.registry.record = None;
    ctx.accounts.agent.record = Some(agent_of(id(2), 249));
    assert_eq!(try_register(&mut ctx, None, None), Err(Failure::NotInitialized));

    let mut ctx = Context { program_id: id(9), now: 1, accounts: vacant.clone() };
    ctx.accounts.registry.record =
        Some(RegistryConfig { authority: id(1), agent_count: u64::MAX, paused: true, bump: 250 });
    assert_eq!(try_register(&mut ctx, None, None), Err(Failure::Rule(RegistryError::Paused)));

    let mut ctx = Context { program_id: id(9), now: 1, accounts: vacant.clone() };
    ctx.accounts.agent.record = Some(agent_of(id(2), 249));
    assert_eq!(try_register(&mut ctx, Some((id(100), 251)), there), Err(Failure::AddressMismatch));
    assert_eq!(try_register(&mut ctx, Some((id(99), 250)), there), Err(Failure::AddressMismatch));
    assert_eq!(try_register(&mut ctx, here, Some((id(51), 249))), Err(Failure::AddressMismatch));
    assert_eq!(try_register(&mut ctx, here, None), Err(Failure::AddressMismatch));
    assert_eq!(try_register(&mut ctx, here, there), Err(Failure::AlreadyExists));

    let mut ctx = Context { program_id: id(9), now: 1, accounts: vacant };
    ctx.accounts.registry.record =
        Some(RegistryConfig { authority: id(1), agent_count: u64::MAX, paused: false, bump: 250 });
    let before = ctx.clone();
    assert_eq!(try_register(&mut ctx, here, there), Err(Failure::Overflow));
    assert_eq!(ctx, before);
}

#[test]
fn update_checks_owner_then_address_then_fields() {
    let mut ctx = Context {
        program_id: id(9),
        now: 30,
        accounts: UpdateAgent {
            owner: id(3),
            agent: Slot::holding(id(50), agent_of(id(2), 249)),
        },
    };
    let before = ctx.clone();
    let bad = Some(text(""));
    assert_eq!(
        update::apply(&mut ctx, bad.clone(), None, None, None, None),
        Err(Failure::Unauthorized)
    );
    ctx.accounts.owner = id(2);
    assert_eq!(
        update::apply(&mut ctx, bad.clone(), None, None, None, Some((id(50), 248))),
        Err(Failure::AddressMismatch)
    );
    assert_eq!(
        update::apply(&mut ctx, bad.clone(), None, None, None, Some((id(51), 249))),
        Err(Failure::AddressMismatch)
    );
    assert_eq!(
        update::apply(&mut ctx, bad, None, None, None, Some((id(50), 249))),
        Err(Failure::Rule(RegistryError::NameEmpty))
    );
    assert_eq!(ctx.accounts.agent, before.accounts.agent);
    assert_eq!(
        update::apply(&mut ctx, None, Some(text("new")), None, None, Some((id(50), 249))),
        Ok(())
    );
    assert_eq!(
        ctx.accounts.agent.record,
        Some(AgentAccount { description: text("new"), updated_at: 30, ..agent_of(id(2), 249) })
    );
}

#[test]
fn feedback_adds_to_the_totals_it_finds() {
    let mut ctx = Context {
        program_id: id(9),
        now: 40,
        accounts: GiveFeedback {
            reviewer: id(3),
            agent: Slot::holding(id(50), agent_of(id(2), 249)),
            feedback: Slot::vacant(id(60)),
        },
    };
    assert_eq!(
        feedback::apply(&mut ctx, 90, text("c"), Some((id(50), 249)), Some((id(60), 247))),
        Ok(())
    );
    assert_eq!(
        ctx.accounts.agent.record,
        Some(AgentAccount { feedback_count: 5, total_score: 400, ..agent_of(id(2), 249) })
    );
    assert_eq!(
        ctx.accounts.feedback.record,
        Some(FeedbackAccount {
            agent: id(50),
            reviewer: id(3),
            score: 90,
            comment_uri: text("c"),
            created_at: 40,
            bump: 247,
        })
    );
    assert_eq!(ctx.accounts.agent.record.unwrap().average_score(), Some(80));
}

#[test]
fn feedback_checks_its_surroundings_in_order() {
    let accounts = GiveFeedback {
        reviewer: id(3),
        agent: Slot::holding(id(50), agent_of(id(2), 249)),
        feedback: Slot::holding(
            id(60),
            FeedbackAccount {
                agent: id(50),
                reviewer: id(3),
                score: 1,
                comment_uri: text(""),
                created_at: 0,
                bump: 247,
            },
        ),
    };
    let agent_at = Some((id(50), 249));
    let feedback_at = Some((id(60), 247));
    let mut ctx = Context { program_id: id(9), now: 40, accounts };
    let before = ctx.clone();
    assert_eq!(
        feedback::apply(&mut ctx, 101, text(""), None, None),
        Err(Failure::Rule(RegistryError::InvalidScore))
    );
    assert_eq!(feedback::apply(&mut ctx, 5, text(""), None, None), Err(Failure::AddressMismatch));
    assert_eq!(
        feedback::apply(&mut ctx, 5, text(""), Some((id(50), 1)), feedback_at),
        Err(Failure::AddressMismatch)
    );
    assert_eq!(
        feedback::apply(&mut ctx, 5, text(""), agent_at, Some((id(61), 247))),
        Err(Failure::AddressMismatch)
    );
    assert_eq!(
        feedback::apply(&mut ctx, 5, text(""), agent_at, feedback_at),
        Err(Failure::AlreadyExists)
    );
    assert_eq!(ctx, before);
    ctx.accounts.agent.record = None;
    assert_eq!(
        feedback::apply(&mut ctx, 5, text(""), agent_at, feedback_at),
        Err(Failure::NotFound)
    );
}
