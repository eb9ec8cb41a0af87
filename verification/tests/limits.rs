use agent_registry::errors::RegistryError;
use agent_registry::state::{AgentAccount, FeedbackAccount, RegistryConfig};
use agent_registry::validation::{
    check_description, check_feedback, check_name, check_patch, check_registration, check_skills,
    check_uri, text_len,
};

fn text(s: &str) -> String {
    s.to_string()
}

fn check_with(
    name: &str,
    description: &str,
    image_uri: &str,
    metadata_uri: &str,
    skills: Vec<String>,
    service_url: &str,
) -> Result<(), RegistryError> {
    check_registration(
        &text(name),
        &text(description),
        &text(image_uri),
        &text(metadata_uri),
        &skills,
        &text(service_url),
    )
}

#[test]
fn limits_have_their_values() {
    assert_eq!(AgentAccount::MAX_NAME_LEN, 32);
    assert_eq!(AgentAccount::MAX_DESC_LEN, 256);
    assert_eq!(AgentAccount::MAX_URI_LEN, 200);
    assert_eq!(AgentAccount::MAX_SKILL_LEN, 64);
    assert_eq!(AgentAccount::MAX_SKILLS, 10);
    assert_eq!(AgentAccount::SPACE, 2048);
    assert_eq!(FeedbackAccount::SPACE, 300);
    assert_eq!(FeedbackAccount::MAX_SCORE, 100);
    assert_eq!(RegistryConfig::SPACE, 50);
}

#[test]
fn seeds_spell_the_kinds() {
    assert_eq!(&RegistryConfig::SEED, b"registry");
    assert_eq!(&AgentAccount::SEED, b"agent");
    assert_eq!(&FeedbackAccount::SEED, b"feedback");
}

#[test]
fn text_len_counts_bytes() {
    assert_eq!(text_len(&text("")), 0);
    assert_eq!(text_len(&text("abc")), 3);
    assert_eq!(text_len(&text("é")), 2);
    assert_eq!(text_len(&text("日本語")), 9);
    assert_eq!(text_len(&text("🦀")), 4);
}

#[test]
fn name_must_not_be_empty() {
    assert_eq!(check_name(&text("")), Err(RegistryError::NameEmpty));
    assert_eq!(check_name(&text("a")), Ok(()));
}

#[test]
fn name_of_32_bytes_fits_and_33_does_not() {
    assert_eq!(check_name(&"n".repeat(32)), Ok(()));
    assert_eq!(check_name(&"n".repeat(33)), Err(RegistryError::NameTooLong));
}

#[test]
fn name_is_measured_in_bytes_not_characters() {
    assert_eq!(check_name(&"é".repeat(16)), Ok(()));
    assert_eq!(check_name(&"é".repeat(17)), Err(RegistryError::NameTooLong));
    assert_eq!(check_name(&"日".repeat(11)), Err(RegistryError::NameTooLong));
}

#[test]
fn description_of_256_bytes_fits_and_257_does_not() {
    assert_eq!(check_description(&text("")), Ok(()));
    assert_eq!(check_description(&"d".repeat(256)), Ok(()));
    assert_eq!(check_description(&"d".repeat(257)), Err(RegistryError::DescriptionTooLong));
}

#[test]
fn uri_of_200_bytes_fits_and_201_does_not() {
    assert_eq!(check_uri(&text("")), Ok(()));
    assert_eq!(check_uri(&"u".repeat(200)), Ok(()));
    assert_eq!(check_uri(&"u".repeat(201)), Err(RegistryError::UriTooLong));
}

#[test]
fn skills_count_is_checked_before_their_lengths() {
    let mut skills: Vec<String> = (0..11).map(|_| text("s")).collect();
    skills[0] = "s".repeat(65);
    assert_eq!(check_skills(&skills), Err(RegistryError::TooManySkills));
    skills.pop();
    assert_eq!(check_skills(&skills), Err(RegistryError::SkillTooLong));
    skills[0] = "s".repeat(64);
    assert_eq!(check_skills(&skills), Ok(()));
    assert_eq!(check_skills(&vec![]), Ok(()));
}

#[test]
fn last_skill_is_checked_too() {
    let mut skills: Vec<String> = (0..10).map(|_| text("s")).collect();
    skills[9] = "s".repeat(65);
    assert_eq!(check_skills(&skills), Err(RegistryError::SkillTooLong));
}

#[test]
fn registration_reports_the_first_broken_rule() {
    let long_name = "n".repeat(33);
    let long_description = "d".repeat(257);
    let long_uri = "u".repeat(201);
    let many: Vec<String> = (0..11).map(|_| text("s")).collect();
    assert_eq!(
        check_with("", &long_description, &long_uri, &long_uri, many.clone(), &long_uri),
        Err(RegistryError::NameEmpty)
    );
    assert_eq!(
        check_with(&long_name, &long_description, &long_uri, &long_uri, many.clone(), &long_uri),
        Err(RegistryError::NameTooLong)
    );
    assert_eq!(
        check_with("a", &long_description, &long_uri, &long_uri, many.clone(), &long_uri),
        Err(RegistryError::DescriptionTooLong)
    );
    assert_eq!(
        check_with("a", "", &long_uri, "", many.clone(), ""),
        Err(RegistryError::UriTooLong)
    );
    assert_eq!(
        check_with("a", "", "", &long_uri, many.clone(), ""),
        Err(RegistryError::UriTooLong)
    );
    assert_eq!(
        check_with("a", "", "", "", many.clone(), &long_uri),
        Err(RegistryError::UriTooLong)
    );
    assert_eq!(check_with("a", "", "", "", many, ""), Err(RegistryError::TooManySkills));
    assert_eq!(
        check_with("a", "", "", "", vec!["s".repeat(65)], ""),
        Err(RegistryError::SkillTooLong)
    );
    assert_eq!(check_with("a", "", "", "", vec![], ""), Ok(()));
}

#[test]
fn absent_fields_of_an_update_pass() {
    assert_eq!(check_patch(&None, &None, &None, &None), Ok(()));
    assert_eq!(
        check_patch(&Some(text("")), &None, &None, &None),
        Err(RegistryError::NameEmpty)
    );
    assert_eq!(
        check_patch(&None, &None, &None, &Some("u".repeat(201))),
        Err(RegistryError::UriTooLong)
    );
    assert_eq!(
        check_patch(&Some(text("a")), &Some(text("")), &Some(vec![]), &Some(text(""))),
        Ok(())
    );
}

#[test]
fn score_is_checked_before_the_comment() {
    assert_eq!(check_feedback(101, &"u".repeat(201)), Err(RegistryError::InvalidScore));
    assert_eq!(check_feedback(255, &text("")), Err(RegistryError::InvalidScore));
    assert_eq!(check_feedback(100, &"u".repeat(201)), Err(RegistryError::UriTooLong));
    assert_eq!(check_feedback(100, &"u".repeat(200)), Ok(()));
    assert_eq!(check_feedback(0, &text("")), Ok(()));
}

#[test]
fn every_rule_has_its_message() {
    assert_eq!(RegistryError::Paused.message(), "Registry is paused");
    assert_eq!(RegistryError::NameTooLong.message(), "Name too long (max 32 bytes)");
    assert_eq!(
        RegistryError::DescriptionTooLong.message(),
        "Description too long (max 256 bytes)"
    );
    assert_eq!(RegistryError::UriTooLong.message(), "URI too long (max 200 bytes)");
    assert_eq!(RegistryError::TooManySkills.message(), "Too many skills (max 10)");
    assert_eq!(RegistryError::SkillTooLong.message(), "Skill name too long (max 64 bytes)");
    assert_eq!(RegistryError::InvalidScore.message(), "Score must be 0-100");
    assert_eq!(RegistryError::NameEmpty.message(), "Name cannot be empty");
}

#[test]
fn average_score_is_rounded_down_and_absent_without_feedback() {
    let mut agent = AgentAccount {
        owner: agent_registry::address::Address::new([1; 32]),
        name: text("a"),
        description: text(""),
        image_uri: text(""),
        metadata_uri: text(""),
        skills: vec![],
        service_url: text(""),
        feedback_count: 0,
        total_score: 0,
        created_at: 0,
        updated_at: 0,
        bump: 0,
    };
    assert_eq!(agent.average_score(), None);
    agent.feedback_count = 2;
    agent.total_score = 140;
    assert_eq!(agent.average_score(), Some(70));
    agent.feedback_count = 3;
    agent.total_score = 200;
    assert_eq!(agent.average_score(), Some(66));
    agent.total_score = 0;
    assert_eq!(agent.average_score(), Some(0));
}
