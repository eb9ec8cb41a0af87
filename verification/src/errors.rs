//! Reasons for which an operation is refused.
use vstd::prelude::*;

verus! {

/// Violations of the registry's own rules. Each limit has a reason of its
/// own, so that a caller can tell them apart.
#[derive(Clone, Copy, Debug, PartialEq, Eq, Structural)]
pub enum RegistryError {
    /// The registry does not take new registrations at the moment.
    Paused,
    /// The name is longer than 32 bytes.
    NameTooLong,
    /// The description is longer than 256 bytes.
    DescriptionTooLong,
    /// A URI is longer than 200 bytes.
    UriTooLong,
    /// More than 10 skills were given.
    TooManySkills,
    /// A skill is longer than 64 bytes.
    SkillTooLong,
    /// The score is above 100.
    InvalidScore,
    /// The name is empty.
    NameEmpty,
}

/// Everything that can stop an operation: a broken rule, a condition of the
/// storage the operation runs against, a caller without authority, or a
/// counter that has no room left.
#[derive(Clone, Copy, Debug, PartialEq, Eq, Structural)]
pub enum Failure {
    /// One of the registry's rules was violated.
    Rule(RegistryError),
    /// The registry record has not been created yet.
    NotInitialized,
    /// A record already lives at the address where one was to be created.
    AlreadyExists,
    /// No record lives at the address that the operation names.
    NotFound,
    /// The caller is not the owner of the record.
    Unauthorized,
    /// The address named does not follow from the identities it belongs to.
    AddressMismatch,
    /// A counter or a sum would leave its integer range.
    Overflow,
}

impl RegistryError {
    /// The text that [`RegistryError::message`] returns.
    pub open spec fn text(self) -> Seq<char> {
        match self {
            RegistryError::Paused => "Registry is paused"@,
            RegistryError::NameTooLong => "Name too long (max 32 bytes)"@,
            RegistryError::DescriptionTooLong => "Description too long (max 256 bytes)"@,
            RegistryError::UriTooLong => "URI too long (max 200 bytes)"@,
            RegistryError::TooManySkills => "Too many skills (max 10)"@,
            RegistryError::SkillTooLong => "Skill name too long (max 64 bytes)"@,
            RegistryError::InvalidScore => "Score must be 0-100"@,
            RegistryError::NameEmpty => "Name cannot be empty"@,
        }
    }

    /// A one-line description for people.
    pub fn message(&self) -> (s: String)
        ensures
            s@ == self.text(),
    {
        match self {
            RegistryError::Paused => "Registry is paused".to_owned(),
            RegistryError::NameTooLong => "Name too long (max 32 bytes)".to_owned(),
            RegistryError::DescriptionTooLong => "Description too long (max 256 bytes)".to_owned(),
            RegistryError::UriTooLong => "URI too long (max 200 bytes)".to_owned(),
            RegistryError::TooManySkills => "Too many skills (max 10)".to_owned(),
            RegistryError::SkillTooLong => "Skill name too long (max 64 bytes)".to_owned(),
            RegistryError::InvalidScore => "Score must be 0-100".to_owned(),
            RegistryError::NameEmpty => "Name cannot be empty".to_owned(),
        }
    }
}

} // verus!
