//! The three kinds of record and the limits on their fields.
use crate::address::Address;
use vstd::prelude::*;
use vstd::utf8::encode_utf8;

verus! {

/// Length of `text` in bytes, as stored.
pub open spec fn byte_len(text: Seq<char>) -> nat {
    encode_utf8(text).len()
}

/// The registry's single configuration record.
#[derive(Clone, Copy, Debug, PartialEq, Eq)]
pub struct RegistryConfig {
    /// Identity of whoever created the registry.
    pub authority: Address,
    /// Number of registrations accepted so far.
    pub agent_count: u64,
    /// While set, no new registration is accepted.
    pub paused: bool,
    /// Bump that belongs to the record's address.
    pub bump: u8,
}

impl RegistryConfig {
    /// Kind tag that goes into the record's address.
    pub const SEED: [u8; 8] = [114, 101, 103, 105, 115, 116, 114, 121];

    /// Kind tag that opens the stored record.
    pub const DISCRIMINATOR: [u8; 8] = [23, 118, 10, 246, 173, 231, 243, 156];

    /// Bytes reserved for the record in storage.
    pub const SPACE: usize = 8 + 32 + 8 + 1 + 1;
}

/// The profile of one agent, with the feedback it has gathered.
#[derive(Clone, Debug, PartialEq, Eq)]
pub struct AgentAccount {
    pub owner: Address,
    pub name: String,
    pub description: String,
    pub image_uri: String,
    pub metadata_uri: String,
    pub skills: Vec<String>,
    pub service_url: String,
    /// Number of feedback records accepted for this agent.
    pub feedback_count: u64,
    /// Sum of the scores of those records.
    pub total_score: u64,
    pub created_at: i64,
    pub updated_at: i64,
    /// Bump that belongs to the record's address.
    pub bump: u8,
}

impl AgentAccount {
    /// The average of the scores received, rounded down; `None` while there
    /// are none.
    pub fn average_score(&self) -> (average: Option<u64>)
        ensures
            average == self@.average_score(),
    {
        if self.feedback_count == 0 {
            None
        } else {
            Some(self.total_score / self.feedback_count)
        }
    }

    /// Kind tag that goes into the record's address.
    pub const SEED: [u8; 5] = [97, 103, 101, 110, 116];

    /// Kind tag that opens the stored record.
    pub const DISCRIMINATOR: [u8; 8] = [241, 119, 69, 140, 233, 9, 112, 50];

    pub const MAX_NAME_LEN: usize = 32;

    pub const MAX_DESC_LEN: usize = 256;

    pub const MAX_URI_LEN: usize = 200;

    pub const MAX_SKILL_LEN: usize = 64;

    pub const MAX_SKILLS: usize = 10;

    /// Bytes reserved for the record in storage.
    pub const SPACE: usize = 2048;
}

/// The score that one party gave to one agent.
#[derive(Clone, Debug, PartialEq, Eq)]
pub struct FeedbackAccount {
    /// Address of the agent record that was scored.
    pub agent: Address,
    pub reviewer: Address,
    pub score: u8,
    pub comment_uri: String,
    pub created_at: i64,
    /// Bump that belongs to the record's address.
    pub bump: u8,
}

impl FeedbackAccount {
    /// Kind tag that goes into the record's address.
    pub const SEED: [u8; 8] = [102, 101, 101, 100, 98, 97, 99, 107];

    /// Kind tag that opens the stored record.
    pub const DISCRIMINATOR: [u8; 8] = [152, 72, 187, 86, 92, 83, 63, 83];

    /// Largest score that is accepted.
    pub const MAX_SCORE: u8 = 100;

    /// Bytes reserved for the record in storage.
    pub const SPACE: usize = 300;
}

impl View for RegistryConfig {
    type V = RegistryConfig;

    open spec fn view(&self) -> RegistryConfig {
        *self
    }
}

/// An agent record as a mathematical value: texts are sequences of
/// characters.
pub struct AgentView {
    pub owner: Address,
    pub name: Seq<char>,
    pub description: Seq<char>,
    pub image_uri: Seq<char>,
    pub metadata_uri: Seq<char>,
    pub skills: Seq<Seq<char>>,
    pub service_url: Seq<char>,
    pub feedback_count: u64,
    pub total_score: u64,
    pub created_at: i64,
    pub updated_at: i64,
    pub bump: u8,
}

impl View for AgentAccount {
    type V = AgentView;

    open spec fn view(&self) -> AgentView {
        AgentView {
            owner: self.owner,
            name: self.name@,
            description: self.description@,
            image_uri: self.image_uri@,
            metadata_uri: self.metadata_uri@,
            skills: self.skills.deep_view(),
            service_url: self.service_url@,
            feedback_count: self.feedback_count,
            total_score: self.total_score,
            created_at: self.created_at,
            updated_at: self.updated_at,
            bump: self.bump,
        }
    }
}

/// A feedback record as a mathematical value.
pub struct FeedbackView {
    pub agent: Address,
    pub reviewer: Address,
    pub score: u8,
    pub comment_uri: Seq<char>,
    pub created_at: i64,
    pub bump: u8,
}

impl View for FeedbackAccount {
    type V = FeedbackView;

    open spec fn view(&self) -> FeedbackView {
        FeedbackView {
            agent: self.agent,
            reviewer: self.reviewer,
            score: self.score,
            comment_uri: self.comment_uri@,
            created_at: self.created_at,
            bump: self.bump,
        }
    }
}

impl AgentView {
    /// Every text and the list of skills is within its limit, and the name
    /// is not empty.
    pub open spec fn within_limits(self) -> bool {
        &&& self.name.len() > 0
        &&& byte_len(self.name) <= AgentAccount::MAX_NAME_LEN
        &&& byte_len(self.description) <= AgentAccount::MAX_DESC_LEN
        &&& byte_len(self.image_uri) <= AgentAccount::MAX_URI_LEN
        &&& byte_len(self.metadata_uri) <= AgentAccount::MAX_URI_LEN
        &&& byte_len(self.service_url) <= AgentAccount::MAX_URI_LEN
        &&& self.skills.len() <= AgentAccount::MAX_SKILLS
        &&& forall|i: int|
            0 <= i < self.skills.len() ==> byte_len(#[trigger] self.skills[i])
                <= AgentAccount::MAX_SKILL_LEN
    }

    /// The sum of scores is what that many scores of at most 100 can reach.
    pub open spec fn totals_consistent(self) -> bool {
        self.total_score <= FeedbackAccount::MAX_SCORE * self.feedback_count
    }

    /// The record is one that the operations can have produced.
    pub open spec fn well_formed(self) -> bool {
        self.within_limits() && self.totals_consistent()
    }

    /// The average of the scores received, rounded down; undefined, hence
    /// `None`, while there are none.
    pub open spec fn average_score(self) -> Option<u64> {
        if self.feedback_count == 0 {
            None
        } else {
            Some(self.total_score / self.feedback_count)
        }
    }
}

impl FeedbackView {
    /// The score and the comment URI are within their limits.
    pub open spec fn well_formed(self) -> bool {
        &&& self.score <= FeedbackAccount::MAX_SCORE
        &&& byte_len(self.comment_uri) <= AgentAccount::MAX_URI_LEN
    }
}

} // verus!
