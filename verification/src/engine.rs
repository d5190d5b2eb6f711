//! The pure state transitions of the poll engine, one per operation,
//! together with the specification functions their contracts and the
//! store-level contracts are stated over.
//!
//! Each executable function here works on the records of one operation:
//! the environment (or the [`crate::store`] module) resolves the keyed
//! records, and hands in the current time and the caller identity as plain
//! trusted inputs.

use vstd::prelude::*;

use crate::records::{
    Identity, Poll, PollData, Voter, VotingError, MAX_DESCRIPTION_LEN, MAX_TITLE_LEN,
};

verus! {

/// The creation-time checks: the window must be properly ordered and must
/// lie strictly in the future.
pub open spec fn create_allowed(start_time: i64, end_time: i64, now: i64) -> bool {
    start_time < end_time && now < start_time
}

/// The poll record a successful creation writes: both counters zero,
/// `created_at` the current time, every other field copied from the input.
pub open spec fn fresh_poll(
    poll_id: u64,
    creator: Identity,
    title: Seq<char>,
    description: Seq<char>,
    start_time: i64,
    end_time: i64,
    now: i64,
) -> PollData {
    PollData {
        poll_id,
        creator,
        title,
        description,
        yes_votes: 0,
        no_votes: 0,
        created_at: now,
        start_time,
        end_time,
    }
}

/// Validates the creation inputs and builds the new poll record.
///
/// Succeeds exactly when `start_time < end_time` and `now < start_time`;
/// the first violated check wins, and either violation is reported as
/// `InvalidPollTime`. Nothing is read: creation is a function of its
/// inputs alone.
pub fn create_poll(
    poll_id: u64,
    title: String,
    description: String,
    start_time: i64,
    end_time: i64,
    creator: Identity,
    now: i64,
) -> (r: Result<Poll, VotingError>)
    requires
        title@.len() <= MAX_TITLE_LEN,
        description@.len() <= MAX_DESCRIPTION_LEN,
    ensures
        r is Ok <==> create_allowed(start_time, end_time, now),
        r matches Ok(p) ==> p@ == fresh_poll(
            poll_id,
            creator,
            title@,
            description@,
            start_time,
            end_time,
            now,
        ),
        r matches Err(e) ==> e == VotingError::InvalidPollTime,
{
    if !(start_time < end_time) {
        return Err(VotingError::InvalidPollTime);
    }
    if !(now < start_time) {
        return Err(VotingError::InvalidPollTime);
    }
    Ok(Poll {
        poll_id,
        creator,
        title,
        description,
        yes_votes: 0,
        no_votes: 0,
        created_at: now,
        start_time,
        end_time,
    })
}

/// The vote admission checks, in the order the engine applies them: record
/// desynchronization first, then the window bounds, then the single-use
/// receipt. Returns the error of the first violated check, or `None` when the
/// vote is admitted.
pub open spec fn vote_check(
    poll: PollData,
    has_voted: bool,
    poll_id: u64,
    now: i64,
) -> Option<VotingError> {
    if poll.poll_id != poll_id {
        Some(VotingError::PollMismatch)
    } else if now < poll.start_time {
        Some(VotingError::PollNotStarted)
    } else if now > poll.end_time {
        Some(VotingError::PollEnded)
    } else if has_voted {
        Some(VotingError::AlreadyVoted)
    } else {
        None
    }
}

/// The poll record after one admitted vote: exactly one counter one
/// higher, every other field unchanged.
pub open spec fn poll_after_vote(p: PollData, vote_type: bool) -> PollData {
    if vote_type {
        PollData { yes_votes: (p.yes_votes + 1) as u32, ..p }
    } else {
        PollData { no_votes: (p.no_votes + 1) as u32, ..p }
    }
}

/// Whether the counter this vote would bump still has room. Vote counts
/// are bounded by realistic participation; running a counter past
/// `u32::MAX` is a fatal internal error, so callers keep such inputs out.
pub open spec fn vote_room(p: PollData, vote_type: bool) -> bool {
    if vote_type {
        p.yes_votes < u32::MAX
    } else {
        p.no_votes < u32::MAX
    }
}

/// Casts one vote on `poll` through the single-use receipt `voter`.
///
/// The checks run in the order of [`vote_check`], and the first violation
/// is returned with both records left untouched. An admitted vote bumps
/// exactly one counter by one and spends the receipt; seen from the caller
/// the checks and both mutations are one atomic operation.
pub fn vote(
    poll: &mut Poll,
    voter: &mut Voter,
    poll_id: u64,
    vote_type: bool,
    now: i64,
) -> (r: Result<(), VotingError>)
    requires
        vote_check(old(poll)@, old(voter).has_voted, poll_id, now) is None ==> vote_room(
            old(poll)@,
            vote_type,
        ),
    ensures
        match vote_check(old(poll)@, old(voter).has_voted, poll_id, now) {
            Some(e) => {
                &&& r == Err::<(), VotingError>(e)
                &&& final(poll)@ == old(poll)@
                &&& *final(voter) == *old(voter)
            },
            None => {
                &&& r == Ok::<(), VotingError>(())
                &&& final(poll)@ == poll_after_vote(old(poll)@, vote_type)
                &&& *final(voter) == (Voter { poll_id, has_voted: true })
            },
        },
{
    if poll.poll_id != poll_id {
        return Err(VotingError::PollMismatch);
    }
    if now < poll.start_time {
        return Err(VotingError::PollNotStarted);
    }
    if now > poll.end_time {
        return Err(VotingError::PollEnded);
    }
    if voter.has_voted {
        return Err(VotingError::AlreadyVoted);
    }
    if vote_type {
        poll.yes_votes = poll.yes_votes + 1;
    } else {
        poll.no_votes = poll.no_votes + 1;
    }
    voter.has_voted = true;
    voter.poll_id = poll_id;
    Ok(())
}

/// The closure checks, in order: only the creator may close, and only
/// before the poll has opened. Returns the error of the first violated
/// check, or `None` when the closure is allowed.
pub open spec fn close_check(p: PollData, signer: Identity, now: i64) -> Option<VotingError> {
    if signer != p.creator {
        Some(VotingError::Unauthorized)
    } else if now >= p.start_time {
        Some(VotingError::PollAlreadyStarted)
    } else {
        None
    }
}

/// Decides whether `signer` may close `poll` at time `now`.
///
/// `Ok` means the poll qualifies for deletion; the store owning the record
/// performs the deletion itself. A non-creator is turned away with
/// `Unauthorized`; the creator is turned away with `PollAlreadyStarted`
/// once the window has opened, since an open or past poll can never be
/// closed through this path.
pub fn close_poll(poll: &Poll, signer: Identity, now: i64) -> (r: Result<(), VotingError>)
    ensures
        r == (match close_check(poll@, signer, now) {
            Some(e) => Err::<(), VotingError>(e),
            None => Ok::<(), VotingError>(()),
        }),
{
    let is_creator = signer == poll.creator;
    if is_creator {
        if !(now < poll.start_time) {
            return Err(VotingError::PollAlreadyStarted);
        }
        return Ok(());
    }
    Err(VotingError::Unauthorized)
}

} // verus!
