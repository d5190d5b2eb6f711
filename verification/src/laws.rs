//! The guarantees of the poll engine, stated over the store-level
//! transition functions and proved once and for all. Each law quantifies
//! over every store view, so it covers every state a [`crate::store::VotingState`]
//! can reach.

use vstd::prelude::*;

use crate::engine::{create_allowed, vote_room};
use crate::records::{Identity, StoreError, VotingError};
use crate::store::{
    cast_vote_spec, close_poll_spec, create_poll_spec, spent, view_wf, StoreView,
};

verus! {

/// A creation with a properly ordered, strictly future window and a fresh
/// identifier succeeds, and the poll it writes starts with both counters
/// at zero; no other record changes.
pub proof fn lemma_create_poll_valid(
    s: StoreView,
    poll_id: u64,
    creator: Identity,
    title: Seq<char>,
    description: Seq<char>,
    start_time: i64,
    end_time: i64,
    now: i64,
)
    requires
        start_time < end_time,
        now < start_time,
        !s.polls.contains_key(poll_id),
    ensures
        create_poll_spec(s, poll_id, creator, title, description, start_time, end_time, now).1
            == Ok::<(), StoreError>(()),
        ({
            let s1 = create_poll_spec(
                s,
                poll_id,
                creator,
                title,
                description,
                start_time,
                end_time,
                now,
            ).0;
            &&& s1.polls.contains_key(poll_id)
            &&& s1.polls[poll_id].yes_votes == 0
            &&& s1.polls[poll_id].no_votes == 0
            &&& s1.polls[poll_id].poll_id == poll_id
            &&& s1.polls[poll_id].creator == creator
            &&& s1.polls[poll_id].title == title
            &&& s1.polls[poll_id].description == description
            &&& s1.polls[poll_id].created_at == now
            &&& s1.polls[poll_id].start_time == start_time
            &&& s1.polls[poll_id].end_time == end_time
            &&& s1.receipts == s.receipts
            &&& forall|id: u64|
                id != poll_id ==> s1.polls.contains_key(id) == s.polls.contains_key(id) && (
                s.polls.contains_key(id) ==> #[trigger] s1.polls[id] == s.polls[id])
        }),
{
}

/// A creation whose inputs violate either time ordering fails with
/// `InvalidPollTime`, and no record is written.
pub proof fn lemma_create_poll_invalid(
    s: StoreView,
    poll_id: u64,
    creator: Identity,
    title: Seq<char>,
    description: Seq<char>,
    start_time: i64,
    end_time: i64,
    now: i64,
)
    requires
        !create_allowed(start_time, end_time, now),
    ensures
        create_poll_spec(s, poll_id, creator, title, description, start_time, end_time, now) == (
            s,
            Err::<(), StoreError>(StoreError::Voting(VotingError::InvalidPollTime)),
        ),
{
}

/// The first vote within the window succeeds: it bumps exactly the chosen
/// counter by exactly one, leaves every other field and every other
/// record unchanged, and spends the voter's receipt.
pub proof fn lemma_first_vote_succeeds(
    s: StoreView,
    poll_id: u64,
    vote_type: bool,
    voter: Identity,
    now: i64,
)
    requires
        view_wf(s),
        s.polls.contains_key(poll_id),
        s.polls[poll_id].start_time <= now <= s.polls[poll_id].end_time,
        !spent(s, poll_id, voter),
        vote_room(s.polls[poll_id], vote_type),
    ensures
        cast_vote_spec(s, poll_id, vote_type, voter, now).1 == Ok::<(), StoreError>(()),
        ({
            let s1 = cast_vote_spec(s, poll_id, vote_type, voter, now).0;
            &&& if vote_type {
                s1.polls[poll_id].yes_votes == s.polls[poll_id].yes_votes + 1
                    && s1.polls[poll_id].no_votes == s.polls[poll_id].no_votes
            } else {
                s1.polls[poll_id].no_votes == s.polls[poll_id].no_votes + 1
                    && s1.polls[poll_id].yes_votes == s.polls[poll_id].yes_votes
            }
            &&& s1.polls[poll_id].poll_id == s.polls[poll_id].poll_id
            &&& s1.polls[poll_id].creator == s.polls[poll_id].creator
            &&& s1.polls[poll_id].title == s.polls[poll_id].title
            &&& s1.polls[poll_id].description == s.polls[poll_id].description
            &&& s1.polls[poll_id].created_at == s.polls[poll_id].created_at
            &&& s1.polls[poll_id].start_time == s.polls[poll_id].start_time
            &&& s1.polls[poll_id].end_time == s.polls[poll_id].end_time
            &&& spent(s1, poll_id, voter)
            &&& forall|id: u64|
                id != poll_id ==> s1.polls.contains_key(id) == s.polls.contains_key(id) && (
                s.polls.contains_key(id) ==> #[trigger] s1.polls[id] == s.polls[id])
            &&& forall|k: (u64, Identity)|
                k != (poll_id, voter) ==> s1.receipts.contains_key(k) == s.receipts.contains_key(
                    k,
                ) && (s.receipts.contains_key(k) ==> #[trigger] s1.receipts[k] == s.receipts[k])
        }),
{
}

/// After a successful vote, every further vote by the same voter on the
/// same poll within the window fails with `AlreadyVoted` and changes
/// nothing. (Outside the window the time checks come first, so such a
/// repeat fails with the window error instead.)
pub proof fn lemma_revote_fails(
    s: StoreView,
    poll_id: u64,
    vote_type: bool,
    voter: Identity,
    now: i64,
    vote_type2: bool,
    now2: i64,
)
    requires
        view_wf(s),
        cast_vote_spec(s, poll_id, vote_type, voter, now).1 == Ok::<(), StoreError>(()),
        s.polls.contains_key(poll_id),
        s.polls[poll_id].start_time <= now2 <= s.polls[poll_id].end_time,
    ensures
        ({
            let s1 = cast_vote_spec(s, poll_id, vote_type, voter, now).0;
            cast_vote_spec(s1, poll_id, vote_type2, voter, now2) == (
                s1,
                Err::<(), StoreError>(StoreError::Voting(VotingError::AlreadyVoted)),
            )
        }),
{
    let s1 = cast_vote_spec(s, poll_id, vote_type, voter, now).0;
    assert(s1.polls[poll_id].start_time == s.polls[poll_id].start_time);
    assert(s1.receipts[(poll_id, voter)].has_voted);
}

/// A vote before the window opens fails with `PollNotStarted`; a vote
/// after it closes fails with `PollEnded`; in both cases nothing changes.
pub proof fn lemma_vote_outside_window(
    s: StoreView,
    poll_id: u64,
    vote_type: bool,
    voter: Identity,
    now: i64,
)
    requires
        view_wf(s),
        s.polls.contains_key(poll_id),
        now < s.polls[poll_id].start_time || now > s.polls[poll_id].end_time,
    ensures
        now < s.polls[poll_id].start_time ==> cast_vote_spec(s, poll_id, vote_type, voter, now)
            == (s, Err::<(), StoreError>(StoreError::Voting(VotingError::PollNotStarted))),
        now > s.polls[poll_id].end_time ==> cast_vote_spec(s, poll_id, vote_type, voter, now) == (
            s,
            Err::<(), StoreError>(StoreError::Voting(VotingError::PollEnded)),
        ),
{
    assert(s.polls[poll_id].start_time < s.polls[poll_id].end_time);
}

/// Closure by anyone but the creator fails with `Unauthorized`; closure by
/// the creator once the window has opened fails with `PollAlreadyStarted`;
/// in both cases nothing changes.
pub proof fn lemma_close_poll_refused(s: StoreView, poll_id: u64, caller: Identity, now: i64)
    requires
        s.polls.contains_key(poll_id),
    ensures
        caller != s.polls[poll_id].creator ==> close_poll_spec(s, poll_id, caller, now) == (
            s,
            Err::<(), StoreError>(StoreError::Voting(VotingError::Unauthorized)),
        ),
        caller == s.polls[poll_id].creator && now >= s.polls[poll_id].start_time
            ==> close_poll_spec(s, poll_id, caller, now) == (
            s,
            Err::<(), StoreError>(StoreError::Voting(VotingError::PollAlreadyStarted)),
        ),
{
}

/// Closure by the creator before the window opens succeeds, and the poll
/// record is gone afterward; receipts and every other poll stay.
pub proof fn lemma_close_poll_succeeds(s: StoreView, poll_id: u64, caller: Identity, now: i64)
    requires
        s.polls.contains_key(poll_id),
        caller == s.polls[poll_id].creator,
        now < s.polls[poll_id].start_time,
    ensures
        close_poll_spec(s, poll_id, caller, now).1 == Ok::<(), StoreError>(()),
        ({
            let s1 = close_poll_spec(s, poll_id, caller, now).0;
            &&& !s1.polls.contains_key(poll_id)
            &&& s1.receipts == s.receipts
            &&& forall|id: u64|
                id != poll_id ==> s1.polls.contains_key(id) == s.polls.contains_key(id) && (
                s.polls.contains_key(id) ==> #[trigger] s1.polls[id] == s.polls[id])
        }),
{
}

/// A failed creation changes nothing, so repeating it with identical
/// inputs yields the identical error again.
pub proof fn lemma_create_poll_failure_idempotent(
    s: StoreView,
    poll_id: u64,
    creator: Identity,
    title: Seq<char>,
    description: Seq<char>,
    start_time: i64,
    end_time: i64,
    now: i64,
)
    requires
        create_poll_spec(s, poll_id, creator, title, description, start_time, end_time, now).1
            is Err,
    ensures
        create_poll_spec(s, poll_id, creator, title, description, start_time, end_time, now).0
            == s,
        create_poll_spec(
            create_poll_spec(s, poll_id, creator, title, description, start_time, end_time, now).0,
            poll_id,
            creator,
            title,
            description,
            start_time,
            end_time,
            now,
        ) == create_poll_spec(s, poll_id, creator, title, description, start_time, end_time, now),
{
}

/// A failed vote changes nothing, so repeating it with identical inputs
/// yields the identical error again.
pub proof fn lemma_cast_vote_failure_idempotent(
    s: StoreView,
    poll_id: u64,
    vote_type: bool,
    voter: Identity,
    now: i64,
)
    requires
        cast_vote_spec(s, poll_id, vote_type, voter, now).1 is Err,
    ensures
        cast_vote_spec(s, poll_id, vote_type, voter, now).0 == s,
        cast_vote_spec(
            cast_vote_spec(s, poll_id, vote_type, voter, now).0,
            poll_id,
            vote_type,
            voter,
            now,
        ) == cast_vote_spec(s, poll_id, vote_type, voter, now),
{
}

/// A failed closure changes nothing, so repeating it with identical
/// inputs yields the identical error again.
pub proof fn lemma_close_poll_failure_idempotent(
    s: StoreView,
    poll_id: u64,
    caller: Identity,
    now: i64,
)
    requires
        close_poll_spec(s, poll_id, caller, now).1 is Err,
    ensures
        close_poll_spec(s, poll_id, caller, now).0 == s,
        close_poll_spec(close_poll_spec(s, poll_id, caller, now).0, poll_id, caller, now)
            == close_poll_spec(s, poll_id, caller, now),
{
}

} // verus!
