use voting::engine;
use voting::records::{Identity, Poll, StoreError, Voter, VotingError};
use voting::store::VotingState;

fn id(n: u128) -> Identity {
    Identity { hi: 0, lo: n }
}

fn sample_poll(poll_id: u64, creator: Identity) -> Poll {
    Poll {
        poll_id,
        creator,
        title: String::from("Question"),
        description: String::from("Details"),
        yes_votes: 0,
        no_votes: 0,
        created_at: 0,
        start_time: 10,
        end_time: 100,
    }
}

#[test]
fn create_poll_valid_starts_at_zero() {
    let mut st = VotingState::new();
    let creator = id(1);
    let r = st.create_poll(
        7,
        String::from("Cake?"),
        String::from("Yes or no"),
        10,
        100,
        creator,
        0,
    );
    assert_eq!(r, Ok(()));
    let p = st.get_poll(7).expect("poll must exist");
    assert_eq!(p.poll_id, 7);
    assert_eq!(p.creator, creator);
    assert_eq!(p.title, "Cake?");
    assert_eq!(p.description, "Yes or no");
    assert_eq!(p.yes_votes, 0);
    assert_eq!(p.no_votes, 0);
    assert_eq!(p.created_at, 0);
    assert_eq!(p.start_time, 10);
    assert_eq!(p.end_time, 100);
}

#[test]
fn create_poll_window_not_ordered() {
    let mut st = VotingState::new();
    let r = st.create_poll(
        1,
        String::from("t"),
        String::from("d"),
        100,
        100,
        id(1),
        0,
    );
    assert_eq!(r, Err(StoreError::Voting(VotingError::InvalidPollTime)));
    assert!(st.get_poll(1).is_none());
    // repeating the failed operation yields the identical error again
    let r2 = st.create_poll(
        1,
        String::from("t"),
        String::from("d"),
        100,
        100,
        id(1),
        0,
    );
    assert_eq!(r2, Err(StoreError::Voting(VotingError::InvalidPollTime)));
    assert!(st.get_poll(1).is_none());
}

#[test]
fn create_poll_window_already_open() {
    let mut st = VotingState::new();
    let r = st.create_poll(1, String::from("t"), String::from("d"), 10, 100, id(1), 10);
    assert_eq!(r, Err(StoreError::Voting(VotingError::InvalidPollTime)));
    assert!(st.get_poll(1).is_none());
}

#[test]
fn create_poll_duplicate_key() {
    let mut st = VotingState::new();
    assert_eq!(
        st.create_poll(1, String::from("first"), String::from("d"), 10, 100, id(1), 0),
        Ok(())
    );
    let r = st.create_poll(1, String::from("second"), String::from("d"), 20, 200, id(2), 0);
    assert_eq!(r, Err(StoreError::KeyExists));
    let p = st.get_poll(1).expect("original poll must remain");
    assert_eq!(p.title, "first");
    assert_eq!(p.start_time, 10);
}

#[test]
fn first_vote_counts_once() {
    let mut st = VotingState::new();
    assert_eq!(
        st.create_poll(1, String::from("t"), String::from("d"), 10, 100, id(1), 0),
        Ok(())
    );
    assert!(!st.has_voted(1, id(2)));
    assert_eq!(st.cast_vote(1, true, id(2), 20), Ok(()));
    assert!(st.has_voted(1, id(2)));
    let p = st.get_poll(1).unwrap();
    assert_eq!((p.yes_votes, p.no_votes), (1, 0));
    assert_eq!(st.cast_vote(1, false, id(3), 40), Ok(()));
    let p = st.get_poll(1).unwrap();
    assert_eq!((p.yes_votes, p.no_votes), (1, 1));
}

#[test]
fn second_vote_same_voter_rejected() {
    let mut st = VotingState::new();
    assert_eq!(
        st.create_poll(1, String::from("t"), String::from("d"), 10, 100, id(1), 0),
        Ok(())
    );
    assert_eq!(st.cast_vote(1, true, id(2), 20), Ok(()));
    let r = st.cast_vote(1, false, id(2), 30);
    assert_eq!(r, Err(StoreError::Voting(VotingError::AlreadyVoted)));
    let p = st.get_poll(1).unwrap();
    assert_eq!((p.yes_votes, p.no_votes), (1, 0));
    // repeating the failed operation yields the identical error again
    let r2 = st.cast_vote(1, false, id(2), 30);
    assert_eq!(r2, Err(StoreError::Voting(VotingError::AlreadyVoted)));
    let p = st.get_poll(1).unwrap();
    assert_eq!((p.yes_votes, p.no_votes), (1, 0));
}

#[test]
fn vote_before_window_opens() {
    let mut st = VotingState::new();
    assert_eq!(
        st.create_poll(1, String::from("t"), String::from("d"), 10, 100, id(1), 0),
        Ok(())
    );
    let r = st.cast_vote(1, true, id(2), 9);
    assert_eq!(r, Err(StoreError::Voting(VotingError::PollNotStarted)));
    let p = st.get_poll(1).unwrap();
    assert_eq!((p.yes_votes, p.no_votes), (0, 0));
    assert!(!st.has_voted(1, id(2)));
}

#[test]
fn vote_after_window_closes() {
    let mut st = VotingState::new();
    assert_eq!(
        st.create_poll(1, String::from("t"), String::from("d"), 10, 100, id(1), 0),
        Ok(())
    );
    let r = st.cast_vote(1, true, id(2), 101);
    assert_eq!(r, Err(StoreError::Voting(VotingError::PollEnded)));
    let p = st.get_poll(1).unwrap();
    assert_eq!((p.yes_votes, p.no_votes), (0, 0));
    assert!(!st.has_voted(1, id(2)));
}

#[test]
fn vote_boundary_instants_count() {
    let mut st = VotingState::new();
    assert_eq!(
        st.create_poll(1, String::from("t"), String::from("d"), 10, 100, id(1), 0),
        Ok(())
    );
    assert_eq!(st.cast_vote(1, true, id(2), 10), Ok(()));
    assert_eq!(st.cast_vote(1, false, id(3), 100), Ok(()));
    let p = st.get_poll(1).unwrap();
    assert_eq!((p.yes_votes, p.no_votes), (1, 1));
}

#[test]
fn vote_on_missing_poll() {
    let mut st = VotingState::new();
    assert_eq!(st.cast_vote(1, true, id(2), 20), Err(StoreError::NotFound));
}

#[test]
fn close_by_non_creator() {
    let mut st = VotingState::new();
    assert_eq!(
        st.create_poll(1, String::from("t"), String::from("d"), 10, 100, id(1), 0),
        Ok(())
    );
    let r = st.close_poll(1, id(9), 5);
    assert_eq!(r, Err(StoreError::Voting(VotingError::Unauthorized)));
    assert!(st.get_poll(1).is_some());
    // repeating the failed operation yields the identical error again
    assert_eq!(
        st.close_poll(1, id(9), 5),
        Err(StoreError::Voting(VotingError::Unauthorized))
    );
}

#[test]
fn close_after_window_opened() {
    let mut st = VotingState::new();
    assert_eq!(
        st.create_poll(1, String::from("t"), String::from("d"), 10, 100, id(1), 0),
        Ok(())
    );
    let r = st.close_poll(1, id(1), 10);
    assert_eq!(r, Err(StoreError::Voting(VotingError::PollAlreadyStarted)));
    assert!(st.get_poll(1).is_some());
}

#[test]
fn close_before_start_deletes_poll() {
    let mut st = VotingState::new();
    assert_eq!(
        st.create_poll(1, String::from("t"), String::from("d"), 10, 100, id(1), 0),
        Ok(())
    );
    assert_eq!(st.close_poll(1, id(1), 5), Ok(()));
    assert!(st.get_poll(1).is_none());
    assert_eq!(st.cast_vote(1, true, id(2), 20), Err(StoreError::NotFound));
}

#[test]
fn close_missing_poll() {
    let mut st = VotingState::new();
    assert_eq!(st.close_poll(1, id(1), 5), Err(StoreError::NotFound));
}

#[test]
fn receipts_survive_poll_deletion() {
    // the caller supplies the clock, so a closure can still qualify after a
    // vote was admitted; the vote's receipt then outlives the poll record
    let mut st = VotingState::new();
    assert_eq!(
        st.create_poll(1, String::from("t"), String::from("d"), 10, 100, id(1), 0),
        Ok(())
    );
    assert_eq!(st.cast_vote(1, true, id(2), 20), Ok(()));
    assert_eq!(st.close_poll(1, id(1), 5), Ok(()));
    assert!(st.get_poll(1).is_none());
    assert!(st.has_voted(1, id(2)));
}

#[test]
fn receipts_are_scoped_per_poll() {
    let mut st = VotingState::new();
    assert_eq!(
        st.create_poll(1, String::from("a"), String::from("d"), 10, 100, id(1), 0),
        Ok(())
    );
    assert_eq!(
        st.create_poll(2, String::from("b"), String::from("d"), 10, 100, id(1), 0),
        Ok(())
    );
    assert_eq!(st.cast_vote(1, true, id(2), 20), Ok(()));
    assert!(st.has_voted(1, id(2)));
    assert!(!st.has_voted(2, id(2)));
    assert_eq!(st.cast_vote(2, false, id(2), 20), Ok(()));
    assert!(st.has_voted(2, id(2)));
    let p1 = st.get_poll(1).unwrap();
    assert_eq!((p1.yes_votes, p1.no_votes), (1, 0));
    let p2 = st.get_poll(2).unwrap();
    assert_eq!((p2.yes_votes, p2.no_votes), (0, 1));
}

#[test]
fn lifecycle_scenario() {
    let t: i64 = 1000;
    let creator = id(1);
    let alice = id(2);
    let bob = id(3);
    let mut st = VotingState::new();
    let r = st.create_poll(
        1,
        String::from("Scenario"),
        String::from("d"),
        t + 10,
        t + 100,
        creator,
        t,
    );
    assert_eq!(r, Ok(()));
    let p = st.get_poll(1).unwrap();
    assert_eq!((p.yes_votes, p.no_votes), (0, 0));

    assert_eq!(st.cast_vote(1, true, alice, t + 20), Ok(()));
    let p = st.get_poll(1).unwrap();
    assert_eq!((p.yes_votes, p.no_votes), (1, 0));

    assert_eq!(
        st.cast_vote(1, false, alice, t + 30),
        Err(StoreError::Voting(VotingError::AlreadyVoted))
    );
    let p = st.get_poll(1).unwrap();
    assert_eq!((p.yes_votes, p.no_votes), (1, 0));

    assert_eq!(st.cast_vote(1, false, bob, t + 40), Ok(()));
    let p = st.get_poll(1).unwrap();
    assert_eq!((p.yes_votes, p.no_votes), (1, 1));

    assert_eq!(
        st.close_poll(1, creator, t + 50),
        Err(StoreError::Voting(VotingError::PollAlreadyStarted))
    );
    assert!(st.get_poll(1).is_some());
}

#[test]
fn engine_create_poll_builds_record() {
    let creator = id(4);
    let p = engine::create_poll(
        9,
        String::from("t"),
        String::from("d"),
        10,
        100,
        creator,
        3,
    )
    .expect("valid window must be accepted");
    assert_eq!(p.poll_id, 9);
    assert_eq!(p.creator, creator);
    assert_eq!((p.yes_votes, p.no_votes), (0, 0));
    assert_eq!(p.created_at, 3);
    assert_eq!(p.start_time, 10);
    assert_eq!(p.end_time, 100);
}

#[test]
fn engine_create_poll_rejects_bad_windows() {
    let r = engine::create_poll(9, String::from("t"), String::from("d"), 100, 10, id(1), 0);
    assert_eq!(r.err(), Some(VotingError::InvalidPollTime));
    let r = engine::create_poll(9, String::from("t"), String::from("d"), 10, 100, id(1), 50);
    assert_eq!(r.err(), Some(VotingError::InvalidPollTime));
}

#[test]
fn engine_vote_detects_mismatched_record() {
    let creator = id(1);
    let mut poll = sample_poll(2, creator);
    let mut voter = Voter { poll_id: 3, has_voted: false };
    // the mismatch check comes before every other check, even outside the window
    let r = engine::vote(&mut poll, &mut voter, 3, true, 999);
    assert_eq!(r, Err(VotingError::PollMismatch));
    assert_eq!((poll.yes_votes, poll.no_votes), (0, 0));
    assert!(!voter.has_voted);
}

#[test]
fn engine_vote_window_precedes_gate() {
    let creator = id(1);
    let mut poll = sample_poll(2, creator);
    let mut voter = Voter { poll_id: 2, has_voted: true };
    // a spent gate is only reported once the window checks pass
    let r = engine::vote(&mut poll, &mut voter, 2, true, 5);
    assert_eq!(r, Err(VotingError::PollNotStarted));
    let r = engine::vote(&mut poll, &mut voter, 2, true, 101);
    assert_eq!(r, Err(VotingError::PollEnded));
    let r = engine::vote(&mut poll, &mut voter, 2, true, 50);
    assert_eq!(r, Err(VotingError::AlreadyVoted));
    assert_eq!((poll.yes_votes, poll.no_votes), (0, 0));
}

#[test]
fn engine_vote_marks_receipt() {
    let creator = id(1);
    let mut poll = sample_poll(2, creator);
    let mut voter = Voter { poll_id: 0, has_voted: false };
    assert_eq!(engine::vote(&mut poll, &mut voter, 2, false, 50), Ok(()));
    assert_eq!((poll.yes_votes, poll.no_votes), (0, 1));
    assert!(voter.has_voted);
    assert_eq!(voter.poll_id, 2);
}

#[test]
fn engine_close_poll_authorization_comes_first() {
    let creator = id(1);
    let poll = sample_poll(2, creator);
    // a stranger is turned away even after the window opened
    assert_eq!(
        engine::close_poll(&poll, id(9), 50),
        Err(VotingError::Unauthorized)
    );
    assert_eq!(
        engine::close_poll(&poll, creator, 10),
        Err(VotingError::PollAlreadyStarted)
    );
    assert_eq!(engine::close_poll(&poll, creator, 9), Ok(()));
}
