use agent_registry::address::{
    find_agent_address, find_feedback_address, find_registry_address, Address,
};
use agent_registry::context::{Context, Slot};
use agent_registry::errors::{Failure, RegistryError};
use agent_registry::instructions::feedback::GiveFeedback;
use agent_registry::instructions::initialize::Initialize;
use agent_registry::instructions::register::RegisterAgent;
use agent_registry::instructions::update::UpdateAgent;
use agent_registry::state::{AgentAccount, FeedbackAccount, RegistryConfig};
use agent_registry::{give_feedback, initialize, register_agent, update_agent};
use std::collections::HashMap;

/// Storage as the operations see it: records found by address.
struct World {
    program: Address,
    registry: Slot<RegistryConfig>,
    agents: HashMap<Address, AgentAccount>,
    feedback: HashMap<Address, FeedbackAccount>,
}

fn id(byte: u8) -> Address {
    Address::new([byte; 32])
}

fn text(s: &str) -> String {
    s.to_string()
}

impl World {
    fn new() -> World {
        let program = id(200);
        let address = find_registry_address(&program).unwrap().0;
        World {
            program,
            registry: Slot::vacant(address),
            agents: HashMap::new(),
            feedback: HashMap::new(),
        }
    }

    fn ready() -> World {
        let mut world = World::new();
        assert_eq!(world.initialize(id(1)), Ok(()));
        world
    }

    fn agent_address(&self, owner: Address) -> Address {
        find_agent_address(&self.program, &owner).unwrap().0
    }

    fn initialize(&mut self, authority: Address) -> Result<(), Failure> {
        let mut ctx = Context {
            program_id: self.program,
            now: 1_000,
            accounts: Initialize { authority, registry: self.registry.clone() },
        };
        let result = initialize(&mut ctx);
        self.registry = ctx.accounts.registry;
        result
    }

    fn register(
        &mut self,
        owner: Address,
        now: i64,
        name: &str,
        skills: Vec<String>,
    ) -> Result<(), Failure> {
        let address = self.agent_address(owner);
        let mut ctx = Context {
            program_id: self.program,
            now,
            accounts: RegisterAgent {
                owner,
                agent: Slot { address, record: self.agents.get(&address).cloned() },
                registry: self.registry.clone(),
            },
        };
        let result = register_agent(
            &mut ctx,
            text(name),
            text("does things"),
            text("https://img.example/a.png"),
            text("https://meta.example/a.json"),
            skills,
            text("https://agent.example"),
        );
        self.registry = ctx.accounts.registry;
        if let Some(agent) = ctx.accounts.agent.record {
            self.agents.insert(address, agent);
        }
        result
    }

    fn update(
        &mut self,
        caller: Address,
        agent: Address,
        now: i64,
        name: Option<String>,
        description: Option<String>,
        skills: Option<Vec<String>>,
        service_url: Option<String>,
    ) -> Result<(), Failure> {
        let mut ctx = Context {
            program_id: self.program,
            now,
            accounts: UpdateAgent {
                owner: caller,
                agent: Slot { address: agent, record: self.agents.get(&agent).cloned() },
            },
        };
        let result = update_agent(&mut ctx, name, description, skills, service_url);
        if let Some(record) = ctx.accounts.agent.record {
            self.agents.insert(agent, record);
        }
        result
    }

    fn score(
        &mut self,
        reviewer: Address,
        agent: Address,
        now: i64,
        score: u8,
        comment_uri: &str,
    ) -> Result<(), Failure> {
        let address = find_feedback_address(&self.program, &agent, &reviewer).unwrap().0;
        let mut ctx = Context {
            program_id: self.program,
            now,
            accounts: GiveFeedback {
                reviewer,
                agent: Slot { address: agent, record: self.agents.get(&agent).cloned() },
                feedback: Slot { address, record: self.feedback.get(&address).cloned() },
            },
        };
        let result = give_feedback(&mut ctx, score, text(comment_uri));
        if let Some(record) = ctx.accounts.agent.record {
            self.agents.insert(agent, record);
        }
        if let Some(record) = ctx.accounts.feedback.record {
            self.feedback.insert(address, record);
        }
        result
    }
}

#[test]
fn initialize_creates_an_empty_open_registry() {
    let mut world = World::new();
    assert_eq!(world.initialize(id(1)), Ok(()));
    let bump = find_registry_address(&world.program).unwrap().1;
    assert_eq!(
        world.registry.record,
        Some(RegistryConfig { authority: id(1), agent_count: 0, paused: false, bump })
    );
}

#[test]
fn initialize_twice_fails_and_keeps_the_first_authority() {
    let mut world = World::ready();
    let before = world.registry.clone();
    assert_eq!(world.initialize(id(2)), Err(Failure::AlreadyExists));
    assert_eq!(world.registry, before);
    assert_eq!(world.registry.record.unwrap().authority, id(1));
}

#[test]
fn initialize_at_a_foreign_address_fails() {
    let mut world = World::new();
    world.registry = Slot::vacant(id(77));
    assert_eq!(world.initialize(id(1)), Err(Failure::AddressMismatch));
    assert_eq!(world.registry.record, None);
}

#[test]
fn register_then_read_gives_back_the_inputs() {
    let mut world = World::ready();
    let owner = id(10);
    let skills = vec![text("search"), text("summarise")];
    assert_eq!(world.register(owner, 1_234, "alpha", skills.clone()), Ok(()));
    let address = world.agent_address(owner);
    let bump = find_agent_address(&world.program, &owner).unwrap().1;
    assert_eq!(
        world.agents.get(&address),
        Some(&AgentAccount {
            owner,
            name: text("alpha"),
            description: text("does things"),
            image_uri: text("https://img.example/a.png"),
            metadata_uri: text("https://meta.example/a.json"),
            skills,
            service_url: text("https://agent.example"),
            feedback_count: 0,
            total_score: 0,
            created_at: 1_234,
            updated_at: 1_234,
            bump,
        })
    );
    assert_eq!(world.registry.record.unwrap().agent_count, 1);
}

#[test]
fn register_twice_for_one_owner_fails_and_keeps_the_first_record() {
    let mut world = World::ready();
    let owner = id(10);
    assert_eq!(world.register(owner, 5, "alpha", vec![]), Ok(()));
    let address = world.agent_address(owner);
    let first = world.agents.get(&address).cloned();
    let registry = world.registry.clone();
    assert_eq!(world.register(owner, 9, "beta", vec![text("x")]), Err(Failure::AlreadyExists));
    assert_eq!(world.agents.get(&address).cloned(), first);
    assert_eq!(world.registry, registry);
    assert_eq!(world.registry.record.unwrap().agent_count, 1);
}

#[test]
fn two_owners_get_two_records_and_are_both_counted() {
    let mut world = World::ready();
    assert_eq!(world.register(id(10), 5, "alpha", vec![]), Ok(()));
    assert_eq!(world.register(id(11), 6, "beta", vec![]), Ok(()));
    assert_eq!(world.agents.len(), 2);
    assert_eq!(world.registry.record.unwrap().agent_count, 2);
}

#[test]
fn register_before_initialize_fails() {
    let mut world = World::new();
    assert_eq!(world.register(id(10), 5, "alpha", vec![]), Err(Failure::NotInitialized));
    assert!(world.agents.is_empty());
}

#[test]
fn register_while_paused_fails_with_paused() {
    let mut world = World::ready();
    let mut registry = world.registry.record.unwrap();
    registry.paused = true;
    world.registry.record = Some(registry);
    let before = world.registry.clone();
    assert_eq!(
        world.register(id(10), 5, "alpha", vec![text("ok")]),
        Err(Failure::Rule(RegistryError::Paused))
    );
    assert!(world.agents.is_empty());
    assert_eq!(world.registry, before);
}

#[test]
fn invalid_input_is_reported_before_the_pause() {
    let mut world = World::ready();
    let mut registry = world.registry.record.unwrap();
    registry.paused = true;
    world.registry.record = Some(registry);
    assert_eq!(
        world.register(id(10), 5, "", vec![]),
        Err(Failure::Rule(RegistryError::NameEmpty))
    );
}

#[test]
fn register_at_an_address_of_another_owner_fails() {
    let world = World::ready();
    let mut ctx = Context {
        program_id: world.program,
        now: 5,
        accounts: RegisterAgent {
            owner: id(10),
            agent: Slot::vacant(world.agent_address(id(11))),
            registry: world.registry.clone(),
        },
    };
    let before = ctx.clone();
    let result = register_agent(
        &mut ctx,
        text("alpha"),
        text(""),
        text(""),
        text(""),
        vec![],
        text(""),
    );
    assert_eq!(result, Err(Failure::AddressMismatch));
    assert_eq!(ctx, before);
}

#[test]
fn register_with_a_full_counter_fails_with_overflow() {
    let mut world = World::ready();
    let mut registry = world.registry.record.unwrap();
    registry.agent_count = u64::MAX;
    world.registry.record = Some(registry);
    assert_eq!(world.register(id(10), 5, "alpha", vec![]), Err(Failure::Overflow));
    assert!(world.agents.is_empty());
    assert_eq!(world.registry.record.unwrap().agent_count, u64::MAX);
}

#[test]
fn eleven_skills_are_too_many() {
    let mut world = World::ready();
    let skills: Vec<String> = (0..11).map(|i| format!("skill-{}", i)).collect();
    assert_eq!(
        world.register(id(10), 5, "alpha", skills),
        Err(Failure::Rule(RegistryError::TooManySkills))
    );
}

#[test]
fn ten_skills_with_one_of_65_bytes_has_a_skill_too_long() {
    let mut world = World::ready();
    let mut skills: Vec<String> = (0..10).map(|i| format!("skill-{}", i)).collect();
    skills[7] = "s".repeat(65);
    assert_eq!(
        world.register(id(10), 5, "alpha", skills),
        Err(Failure::Rule(RegistryError::SkillTooLong))
    );
}

#[test]
fn ten_skills_of_64_bytes_are_accepted() {
    let mut world = World::ready();
    let skills: Vec<String> = (0..10).map(|_| "s".repeat(64)).collect();
    assert_eq!(world.register(id(10), 5, "alpha", skills.clone()), Ok(()));
    let address = world.agent_address(id(10));
    assert_eq!(world.agents.get(&address).unwrap().skills, skills);
}

#[test]
fn update_without_fields_changes_only_updated_at() {
    let mut world = World::ready();
    let owner = id(10);
    assert_eq!(world.register(owner, 5, "alpha", vec![text("a")]), Ok(()));
    let address = world.agent_address(owner);
    let before = world.agents.get(&address).cloned().unwrap();
    assert_eq!(world.update(owner, address, 99, None, None, None, None), Ok(()));
    let after = world.agents.get(&address).cloned().unwrap();
    assert_eq!(after, AgentAccount { updated_at: 99, ..before });
    assert_eq!(after.created_at, 5);
}

#[test]
fn update_replaces_exactly_the_given_fields() {
    let mut world = World::ready();
    let owner = id(10);
    assert_eq!(world.register(owner, 5, "alpha", vec![text("a")]), Ok(()));
    let address = world.agent_address(owner);
    let before = world.agents.get(&address).cloned().unwrap();
    assert_eq!(
        world.update(
            owner,
            address,
            42,
            Some(text("beta")),
            None,
            Some(vec![text("x"), text("y")]),
            None
        ),
        Ok(())
    );
    let after = world.agents.get(&address).cloned().unwrap();
    assert_eq!(
        after,
        AgentAccount {
            name: text("beta"),
            skills: vec![text("x"), text("y")],
            updated_at: 42,
            ..before.clone()
        }
    );
    assert_eq!(
        world.update(
            owner,
            address,
            43,
            None,
            Some(text("new words")),
            None,
            Some(text("https://new.example"))
        ),
        Ok(())
    );
    assert_eq!(
        world.agents.get(&address).cloned().unwrap(),
        AgentAccount {
            description: text("new words"),
            service_url: text("https://new.example"),
            updated_at: 43,
            ..after
        }
    );
}

#[test]
fn update_with_an_empty_name_fails_and_changes_nothing() {
    let mut world = World::ready();
    let owner = id(10);
    assert_eq!(world.register(owner, 5, "alpha", vec![]), Ok(()));
    let address = world.agent_address(owner);
    let before = world.agents.get(&address).cloned();
    assert_eq!(
        world.update(owner, address, 99, Some(text("")), Some(text("fine")), None, None),
        Err(Failure::Rule(RegistryError::NameEmpty))
    );
    assert_eq!(world.agents.get(&address).cloned(), before);
}

#[test]
fn update_checks_its_fields_in_order() {
    let mut world = World::ready();
    let owner = id(10);
    assert_eq!(world.register(owner, 5, "alpha", vec![]), Ok(()));
    let address = world.agent_address(owner);
    let long_description = Some("d".repeat(257));
    let many: Option<Vec<String>> = Some((0..11).map(|_| text("s")).collect());
    let long_url = Some("u".repeat(201));
    assert_eq!(
        world.update(
            owner,
            address,
            9,
            Some("n".repeat(33)),
            long_description.clone(),
            many.clone(),
            long_url.clone()
        ),
        Err(Failure::Rule(RegistryError::NameTooLong))
    );
    assert_eq!(
        world.update(owner, address, 9, None, long_description, many.clone(), long_url.clone()),
        Err(Failure::Rule(RegistryError::DescriptionTooLong))
    );
    assert_eq!(
        world.update(owner, address, 9, None, None, many, long_url.clone()),
        Err(Failure::Rule(RegistryError::TooManySkills))
    );
    assert_eq!(
        world.update(owner, address, 9, None, None, Some(vec!["s".repeat(65)]), long_url.clone()),
        Err(Failure::Rule(RegistryError::SkillTooLong))
    );
    assert_eq!(
        world.update(owner, address, 9, None, None, None, long_url),
        Err(Failure::Rule(RegistryError::UriTooLong))
    );
    assert_eq!(world.agents.get(&address).unwrap().updated_at, 5);
}

#[test]
fn update_by_someone_else_is_unauthorized() {
    let mut world = World::ready();
    let owner = id(10);
    assert_eq!(world.register(owner, 5, "alpha", vec![]), Ok(()));
    let address = world.agent_address(owner);
    let before = world.agents.get(&address).cloned();
    assert_eq!(
        world.update(id(11), address, 9, Some(text("mine now")), None, None, None),
        Err(Failure::Unauthorized)
    );
    assert_eq!(world.agents.get(&address).cloned(), before);
}

#[test]
fn update_of_a_missing_record_is_not_found() {
    let mut world = World::ready();
    let address = world.agent_address(id(10));
    assert_eq!(
        world.update(id(10), address, 9, None, None, None, None),
        Err(Failure::NotFound)
    );
}

#[test]
fn update_of_a_record_at_a_foreign_address_fails() {
    let mut world = World::ready();
    let owner = id(10);
    assert_eq!(world.register(owner, 5, "alpha", vec![]), Ok(()));
    let record = world.agents.get(&world.agent_address(owner)).cloned().unwrap();
    let elsewhere = id(99);
    world.agents.insert(elsewhere, record);
    assert_eq!(
        world.update(owner, elsewhere, 9, None, None, None, None),
        Err(Failure::AddressMismatch)
    );
}

#[test]
fn score_of_101_is_invalid_and_changes_nothing() {
    let mut world = World::ready();
    let owner = id(10);
    assert_eq!(world.register(owner, 5, "alpha", vec![]), Ok(()));
    let address = world.agent_address(owner);
    let before = world.agents.get(&address).cloned();
    assert_eq!(
        world.score(id(20), address, 6, 101, "https://c.example"),
        Err(Failure::Rule(RegistryError::InvalidScore))
    );
    assert!(world.feedback.is_empty());
    assert_eq!(world.agents.get(&address).cloned(), before);
}

#[test]
fn score_of_100_and_of_0_are_accepted() {
    let mut world = World::ready();
    let owner = id(10);
    assert_eq!(world.register(owner, 5, "alpha", vec![]), Ok(()));
    let address = world.agent_address(owner);
    assert_eq!(world.score(id(20), address, 6, 100, ""), Ok(()));
    assert_eq!(world.score(id(21), address, 7, 0, ""), Ok(()));
    let agent = world.agents.get(&address).unwrap();
    assert_eq!(agent.feedback_count, 2);
    assert_eq!(agent.total_score, 100);
}

#[test]
fn comment_uri_of_201_bytes_is_too_long() {
    let mut world = World::ready();
    let owner = id(10);
    assert_eq!(world.register(owner, 5, "alpha", vec![]), Ok(()));
    let address = world.agent_address(owner);
    assert_eq!(
        world.score(id(20), address, 6, 50, &"u".repeat(201)),
        Err(Failure::Rule(RegistryError::UriTooLong))
    );
    assert_eq!(world.score(id(20), address, 6, 50, &"u".repeat(200)), Ok(()));
}

#[test]
fn feedback_record_holds_what_was_given() {
    let mut world = World::ready();
    let owner = id(10);
    let reviewer = id(20);
    assert_eq!(world.register(owner, 5, "alpha", vec![]), Ok(()));
    let agent = world.agent_address(owner);
    assert_eq!(world.score(reviewer, agent, 77, 80, "https://c.example/1"), Ok(()));
    let (address, bump) = find_feedback_address(&world.program, &agent, &reviewer).unwrap();
    assert_eq!(
        world.feedback.get(&address),
        Some(&FeedbackAccount {
            agent,
            reviewer,
            score: 80,
            comment_uri: text("https://c.example/1"),
            created_at: 77,
            bump,
        })
    );
}

#[test]
fn second_score_from_one_caller_fails_and_totals_stay() {
    let mut world = World::ready();
    let owner = id(10);
    assert_eq!(world.register(owner, 5, "alpha", vec![]), Ok(()));
    let address = world.agent_address(owner);
    assert_eq!(world.score(id(20), address, 6, 80, "first"), Ok(()));
    let feedback = world.feedback.clone();
    assert_eq!(world.score(id(20), address, 7, 60, "second"), Err(Failure::AlreadyExists));
    let agent = world.agents.get(&address).unwrap();
    assert_eq!(agent.feedback_count, 1);
    assert_eq!(agent.total_score, 80);
    assert_eq!(world.feedback, feedback);
}

#[test]
fn scores_of_two_callers_are_summed() {
    let mut world = World::ready();
    let owner = id(10);
    assert_eq!(world.register(owner, 5, "A", vec![]), Ok(()));
    let address = world.agent_address(owner);
    assert_eq!(world.score(id(20), address, 6, 80, ""), Ok(()));
    assert_eq!(world.score(id(21), address, 7, 60, ""), Ok(()));
    let agent = world.agents.get(&address).unwrap();
    assert_eq!(agent.feedback_count, 2);
    assert_eq!(agent.total_score, 140);
    assert_eq!(agent.total_score / agent.feedback_count, 70);
    assert_eq!(world.feedback.len(), 2);
}

#[test]
fn feedback_does_not_touch_the_profile() {
    let mut world = World::ready();
    let owner = id(10);
    assert_eq!(world.register(owner, 5, "alpha", vec![text("a")]), Ok(()));
    let address = world.agent_address(owner);
    let before = world.agents.get(&address).cloned().unwrap();
    assert_eq!(world.score(id(20), address, 6, 33, ""), Ok(()));
    assert_eq!(
        world.agents.get(&address).cloned().unwrap(),
        AgentAccount { feedback_count: 1, total_score: 33, ..before }
    );
}

#[test]
fn feedback_for_a_missing_agent_is_not_found() {
    let mut world = World::ready();
    let address = world.agent_address(id(10));
    assert_eq!(world.score(id(20), address, 6, 50, ""), Err(Failure::NotFound));
    assert!(world.feedback.is_empty());
}

#[test]
fn feedback_at_a_foreign_address_fails() {
    let mut world = World::ready();
    let owner = id(10);
    assert_eq!(world.register(owner, 5, "alpha", vec![]), Ok(()));
    let agent = world.agent_address(owner);
    let mut ctx = Context {
        program_id: world.program,
        now: 6,
        accounts: GiveFeedback {
            reviewer: id(20),
            agent: Slot { address: agent, record: world.agents.get(&agent).cloned() },
            feedback: Slot::vacant(
                find_feedback_address(&world.program, &agent, &id(21)).unwrap().0,
            ),
        },
    };
    let before = ctx.clone();
    assert_eq!(give_feedback(&mut ctx, 50, text("")), Err(Failure::AddressMismatch));
    assert_eq!(ctx, before);
}

#[test]
fn feedback_with_a_full_count_or_sum_fails_with_overflow() {
    let mut world = World::ready();
    let owner = id(10);
    assert_eq!(world.register(owner, 5, "alpha", vec![]), Ok(()));
    let address = world.agent_address(owner);
    world.agents.get_mut(&address).unwrap().feedback_count = u64::MAX;
    assert_eq!(world.score(id(20), address, 6, 1, ""), Err(Failure::Overflow));
    world.agents.get_mut(&address).unwrap().feedback_count = 3;
    world.agents.get_mut(&address).unwrap().total_score = u64::MAX - 9;
    assert_eq!(world.score(id(20), address, 6, 10, ""), Err(Failure::Overflow));
    assert!(world.feedback.is_empty());
    assert_eq!(world.score(id(20), address, 6, 9, ""), Ok(()));
    let agent = world.agents.get(&address).unwrap();
    assert_eq!(agent.total_score, u64::MAX);
    assert_eq!(agent.feedback_count, 4);
}

#[test]
fn owner_can_update_after_feedback_and_totals_stay() {
    let mut world = World::ready();
    let owner = id(10);
    assert_eq!(world.register(owner, 5, "alpha", vec![]), Ok(()));
    let address = world.agent_address(owner);
    assert_eq!(world.score(id(20), address, 6, 80, ""), Ok(()));
    assert_eq!(world.update(owner, address, 7, Some(text("beta")), None, None, None), Ok(()));
    let agent = world.agents.get(&address).unwrap();
    assert_eq!(agent.name, "beta");
    assert_eq!(agent.feedback_count, 1);
    assert_eq!(agent.total_score, 80);
    assert_eq!(agent.owner, owner);
}
