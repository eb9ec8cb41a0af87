//! The limits on what callers may store, and the order in which they are
//! checked: the first limit that is broken decides the error.
use crate::errors::RegistryError;
use crate::state::{byte_len, AgentAccount, FeedbackAccount};
use vstd::prelude::*;

verus! {

/// The rule that `name` breaks, if any: it must not be empty and must fit
/// in 32 bytes.
pub open spec fn name_fault(name: Seq<char>) -> Option<RegistryError> {
    if name.len() == 0 {
        Some(RegistryError::NameEmpty)
    } else if byte_len(name) > AgentAccount::MAX_NAME_LEN {
        Some(RegistryError::NameTooLong)
    } else {
        None
    }
}

/// The rule that `description` breaks, if any: it must fit in 256 bytes.
pub open spec fn description_fault(description: Seq<char>) -> Option<RegistryError> {
    if byte_len(description) > AgentAccount::MAX_DESC_LEN {
        Some(RegistryError::DescriptionTooLong)
    } else {
        None
    }
}

/// The rule that `uri` breaks, if any: it must fit in 200 bytes.
pub open spec fn uri_fault(uri: Seq<char>) -> Option<RegistryError> {
    if byte_len(uri) > AgentAccount::MAX_URI_LEN {
        Some(RegistryError::UriTooLong)
    } else {
        None
    }
}

/// Every skill fits in 64 bytes.
pub open spec fn skills_fit(skills: Seq<Seq<char>>) -> bool {
    forall|i: int|
        0 <= i < skills.len() ==> byte_len(#[trigger] skills[i]) <= AgentAccount::MAX_SKILL_LEN
}

/// The rule that `skills` breaks, if any: at most 10 entries, each within
/// 64 bytes. The count is checked before any entry.
pub open spec fn skills_fault(skills: Seq<Seq<char>>) -> Option<RegistryError> {
    if skills.len() > AgentAccount::MAX_SKILLS {
        Some(RegistryError::TooManySkills)
    } else if !skills_fit(skills) {
        Some(RegistryError::SkillTooLong)
    } else {
        None
    }
}

/// The first of two findings, in checking order.
pub open spec fn first_fault(a: Option<RegistryError>, b: Option<RegistryError>) -> Option<
    RegistryError,
> {
    if a is Some {
        a
    } else {
        b
    }
}

/// The first rule that a registration breaks, if any. The order is: name,
/// description, image URI, metadata URI, service URL, skills.
pub open spec fn registration_fault(
    name: Seq<char>,
    description: Seq<char>,
    image_uri: Seq<char>,
    metadata_uri: Seq<char>,
    skills: Seq<Seq<char>>,
    service_url: Seq<char>,
) -> Option<RegistryError> {
    first_fault(
        name_fault(name),
        first_fault(
            description_fault(description),
            first_fault(
                uri_fault(image_uri),
                first_fault(
                    uri_fault(metadata_uri),
                    first_fault(uri_fault(service_url), skills_fault(skills)),
                ),
            ),
        ),
    )
}

/// The first rule that an update breaks, if any. Only the fields that are
/// given are looked at, in the order name, description, skills, service URL.
pub open spec fn patch_fault(
    name: Option<Seq<char>>,
    description: Option<Seq<char>>,
    skills: Option<Seq<Seq<char>>>,
    service_url: Option<Seq<char>>,
) -> Option<RegistryError> {
    first_fault(
        if name is Some { name_fault(name->0) } else { None },
        first_fault(
            if description is Some { description_fault(description->0) } else { None },
            first_fault(
                if skills is Some { skills_fault(skills->0) } else { None },
                if service_url is Some { uri_fault(service_url->0) } else { None },
            ),
        ),
    )
}

/// The first rule that a feedback submission breaks, if any: the score is
/// at most 100, and the comment URI fits in 200 bytes.
pub open spec fn feedback_fault(score: u8, comment_uri: Seq<char>) -> Option<RegistryError> {
    if score > FeedbackAccount::MAX_SCORE {
        Some(RegistryError::InvalidScore)
    } else {
        uri_fault(comment_uri)
    }
}

/// A finding as the result of a check.
pub open spec fn verdict(fault: Option<RegistryError>) -> Result<(), RegistryError> {
    match fault {
        Some(e) => Err(e),
        None => Ok(()),
    }
}

/// Length of `text` in bytes.
pub fn text_len(text: &String) -> (n: usize)
    ensures
        n == byte_len(text@),
{
    text.as_str().as_bytes().len()
}

/// Checks a name against its rules.
pub fn check_name(name: &String) -> (r: Result<(), RegistryError>)
    ensures
        r == verdict(name_fault(name@)),
{
    if name.as_str().is_empty() {
        Err(RegistryError::NameEmpty)
    } else if text_len(name) > AgentAccount::MAX_NAME_LEN {
        Err(RegistryError::NameTooLong)
    } else {
        Ok(())
    }
}

/// Checks a description against its limit.
pub fn check_description(description: &String) -> (r: Result<(), RegistryError>)
    ensures
        r == verdict(description_fault(description@)),
{
    if text_len(description) > AgentAccount::MAX_DESC_LEN {
        Err(RegistryError::DescriptionTooLong)
    } else {
        Ok(())
    }
}

/// Checks a URI against its limit.
pub fn check_uri(uri: &String) -> (r: Result<(), RegistryError>)
    ensures
        r == verdict(uri_fault(uri@)),
{
    if text_len(uri) > AgentAccount::MAX_URI_LEN {
        Err(RegistryError::UriTooLong)
    } else {
        Ok(())
    }
}

/// Checks a list of skills: first how many there are, then each in turn.
pub fn check_skills(skills: &Vec<String>) -> (r: Result<(), RegistryError>)
    ensures
        r == verdict(skills_fault(skills.deep_view())),
{
    if skills.len() > AgentAccount::MAX_SKILLS {
        return Err(RegistryError::TooManySkills);
    }
    let mut i: usize = 0;
    while i < skills.len()
        invariant
            i <= skills.len() <= AgentAccount::MAX_SKILLS,
            skills.deep_view().len() == skills.len(),
            forall|j: int|
                0 <= j < i ==> byte_len(#[trigger] skills.deep_view()[j])
                    <= AgentAccount::MAX_SKILL_LEN,
        decreases skills.len() - i,
    {
        assert(skills.deep_view()[i as int] == skills[i as int]@);
        if text_len(&skills[i]) > AgentAccount::MAX_SKILL_LEN {
            return Err(RegistryError::SkillTooLong);
        }
        i += 1;
    }
    Ok(())
}

/// Checks the inputs of a registration; the first broken rule is reported.
pub fn check_registration(
    name: &String,
    description: &String,
    image_uri: &String,
    metadata_uri: &String,
    skills: &Vec<String>,
    service_url: &String,
) -> (r: Result<(), RegistryError>)
    ensures
        r == verdict(
            registration_fault(
                name@,
                description@,
                image_uri@,
                metadata_uri@,
                skills.deep_view(),
                service_url@,
            ),
        ),
{
    check_name(name)?;
    check_description(description)?;
    check_uri(image_uri)?;
    check_uri(metadata_uri)?;
    check_uri(service_url)?;
    check_skills(skills)
}

/// A text that may be absent, as a mathematical value.
pub open spec fn text_of(text: Option<String>) -> Option<Seq<char>> {
    match text {
        Some(t) => Some(t@),
        None => None,
    }
}

/// A list of texts that may be absent, as a mathematical value.
pub open spec fn texts_of(texts: Option<Vec<String>>) -> Option<Seq<Seq<char>>> {
    match texts {
        Some(t) => Some(t.deep_view()),
        None => None,
    }
}

/// Checks the fields that an update provides; absent fields pass. The
/// first broken rule is reported.
pub fn check_patch(
    name: &Option<String>,
    description: &Option<String>,
    skills: &Option<Vec<String>>,
    service_url: &Option<String>,
) -> (r: Result<(), RegistryError>)
    ensures
        r == verdict(
            patch_fault(
                text_of(*name),
                text_of(*description),
                texts_of(*skills),
                text_of(*service_url),
            ),
        ),
{
    if let Some(n) = name {
        check_name(n)?;
    }
    if let Some(d) = description {
        check_description(d)?;
    }
    if let Some(s) = skills {
        check_skills(s)?;
    }
    if let Some(url) = service_url {
        check_uri(url)?;
    }
    Ok(())
}

/// Checks a score and the URI of its comment.
pub fn check_feedback(score: u8, comment_uri: &String) -> (r: Result<(), RegistryError>)
    ensures
        r == verdict(feedback_fault(score, comment_uri@)),
{
    if score > FeedbackAccount::MAX_SCORE {
        Err(RegistryError::InvalidScore)
    } else {
        check_uri(comment_uri)
    }
}

} // verus!
