//! The two record types the engine operates on, the caller identity, the
//! error kinds, and the mathematical image of a poll record.

use vstd::prelude::*;

verus! {

/// Longest title, in characters, that a poll record accepts.
pub const MAX_TITLE_LEN: usize = 200;

/// Longest description, in characters, that a poll record accepts.
pub const MAX_DESCRIPTION_LEN: usize = 500;

/// An opaque, unforgeable caller reference (for instance a 256-bit public
/// key), supplied by the execution environment. Only equality of identities
/// matters to the engine.
#[derive(Clone, Copy, PartialEq, Eq, Structural, Debug)]
pub struct Identity {
    pub hi: u128,
    pub lo: u128,
}

/// One poll: a question with a bounded voting window and two tally counters.
pub struct Poll {
    pub poll_id: u64,
    pub creator: Identity,
    pub title: String,
    pub description: String,
    pub yes_votes: u32,
    pub no_votes: u32,
    pub created_at: i64,
    pub start_time: i64,
    pub end_time: i64,
}

/// One voter's single-use gate for one poll: `has_voted` starts false, is
/// set true by the first successful vote, and is never reset.
#[derive(Clone, Copy, PartialEq, Eq, Structural, Debug)]
pub struct Voter {
    pub poll_id: u64,
    pub has_voted: bool,
}

/// The reasons the engine itself rejects an operation.
#[derive(Clone, Copy, PartialEq, Eq, Structural, Debug)]
pub enum VotingError {
    AlreadyVoted,
    Unauthorized,
    InvalidPollTime,
    PollMismatch,
    VotingNotActive,
    PollNotStarted,
    PollEnded,
    PollAlreadyStarted,
}

/// A store-level operation outcome: either the keyed store fails to find or
/// to create a record, or the engine rejects the operation.
#[derive(Clone, Copy, PartialEq, Eq, Structural, Debug)]
pub enum StoreError {
    NotFound,
    KeyExists,
    Voting(VotingError),
}

/// The mathematical image of a [`Poll`] record.
#[verifier::ext_equal]
pub ghost struct PollData {
    pub poll_id: u64,
    pub creator: Identity,
    pub title: Seq<char>,
    pub description: Seq<char>,
    pub yes_votes: u32,
    pub no_votes: u32,
    pub created_at: i64,
    pub start_time: i64,
    pub end_time: i64,
}

impl View for Poll {
    type V = PollData;

    open spec fn view(&self) -> PollData {
        PollData {
            poll_id: self.poll_id,
            creator: self.creator,
            title: self.title@,
            description: self.description@,
            yes_votes: self.yes_votes,
            no_votes: self.no_votes,
            created_at: self.created_at,
            start_time: self.start_time,
            end_time: self.end_time,
        }
    }
}

/// Well-formedness of a poll record: bounded text, a properly ordered
/// window, and a creation instant strictly before the window opens.
pub open spec fn valid_poll(p: PollData) -> bool {
    &&& p.title.len() <= MAX_TITLE_LEN
    &&& p.description.len() <= MAX_DESCRIPTION_LEN
    &&& p.start_time < p.end_time
    &&& p.created_at < p.start_time
}

} // verus!
