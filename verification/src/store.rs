//! An in-memory keyed record store holding the engine's records, and the
//! three operations run against it.
//!
//! A [`VotingState`] owns one record per poll identifier and one voter
//! receipt per `(poll identifier, voter identity)` pair. Its abstract value
//! is a [`StoreView`]: two maps, keyed the way the store is addressed. Each
//! operation either applies all of its writes or fails and changes nothing;
//! the specification functions [`create_poll_spec`], [`cast_vote_spec`] and
//! [`close_poll_spec`] say exactly which, and the methods' contracts tie
//! every call to them.

use vstd::prelude::*;

use crate::engine::{
    close_check, create_allowed, fresh_poll, poll_after_vote, vote_check, vote_room,
};
use crate::records::{
    valid_poll, Identity, Poll, PollData, StoreError, Voter, VotingError, MAX_DESCRIPTION_LEN,
    MAX_TITLE_LEN,
};

verus! {

/// The abstract value of a [`VotingState`]: the poll records keyed by poll
/// identifier, and the voter receipts keyed by `(poll identifier, voter)`.
#[verifier::ext_equal]
pub ghost struct StoreView {
    pub polls: Map<u64, PollData>,
    pub receipts: Map<(u64, Identity), Voter>,
}

/// The store holding no records at all.
pub open spec fn empty_store() -> StoreView {
    StoreView { polls: Map::empty(), receipts: Map::empty() }
}

/// What any reachable store view satisfies: every poll record is keyed by
/// its own identifier and well formed, and every receipt is keyed by the
/// poll it is scoped to and already spent (receipts are written only by a
/// successful vote).
pub open spec fn view_wf(s: StoreView) -> bool {
    &&& forall|id: u64| s.polls.contains_key(id) ==> (#[trigger] s.polls[id]).poll_id == id
        && valid_poll(s.polls[id])
    &&& forall|k: (u64, Identity)| s.receipts.contains_key(k) ==> (
    #[trigger] s.receipts[k]).poll_id == k.0 && s.receipts[k].has_voted
}

/// Whether the receipt for `(poll_id, voter)` exists and is spent.
pub open spec fn spent(s: StoreView, poll_id: u64, voter: Identity) -> bool {
    s.receipts.contains_key((poll_id, voter)) && s.receipts[(poll_id, voter)].has_voted
}

/// The outcome of a creation: the window checks first (either violation is
/// `InvalidPollTime`), then the store's create-if-absent (a collision is
/// `KeyExists`), then the new record is written. Failure changes nothing.
pub open spec fn create_poll_spec(
    s: StoreView,
    poll_id: u64,
    creator: Identity,
    title: Seq<char>,
    description: Seq<char>,
    start_time: i64,
    end_time: i64,
    now: i64,
) -> (StoreView, Result<(), StoreError>) {
    if !create_allowed(start_time, end_time, now) {
        (s, Err(StoreError::Voting(VotingError::InvalidPollTime)))
    } else if s.polls.contains_key(poll_id) {
        (s, Err(StoreError::KeyExists))
    } else {
        (
            StoreView {
                polls: s.polls.insert(
                    poll_id,
                    fresh_poll(poll_id, creator, title, description, start_time, end_time, now),
                ),
                ..s
            },
            Ok(()),
        )
    }
}

/// The outcome of a vote: the poll must exist, the admission checks of
/// [`vote_check`] run in order, and an admitted vote bumps exactly one
/// counter and writes the spent receipt. Failure changes nothing.
pub open spec fn cast_vote_spec(
    s: StoreView,
    poll_id: u64,
    vote_type: bool,
    voter: Identity,
    now: i64,
) -> (StoreView, Result<(), StoreError>) {
    if !s.polls.contains_key(poll_id) {
        (s, Err(StoreError::NotFound))
    } else {
        match vote_check(s.polls[poll_id], spent(s, poll_id, voter), poll_id, now) {
            Some(e) => (s, Err(StoreError::Voting(e))),
            None => (
                StoreView {
                    polls: s.polls.insert(
                        poll_id,
                        poll_after_vote(s.polls[poll_id], vote_type),
                    ),
                    receipts: s.receipts.insert(
                        (poll_id, voter),
                        (Voter { poll_id, has_voted: true }),
                    ),
                },
                Ok(()),
            ),
        }
    }
}

/// The outcome of a closure: the poll must exist, the authorization checks
/// of [`close_check`] run in order, and an allowed closure deletes the
/// poll record. Receipts are never deleted. Failure changes nothing.
pub open spec fn close_poll_spec(
    s: StoreView,
    poll_id: u64,
    caller: Identity,
    now: i64,
) -> (StoreView, Result<(), StoreError>) {
    if !s.polls.contains_key(poll_id) {
        (s, Err(StoreError::NotFound))
    } else {
        match close_check(s.polls[poll_id], caller, now) {
            Some(e) => (s, Err(StoreError::Voting(e))),
            None => ((StoreView { polls: s.polls.remove(poll_id), ..s }), Ok(())),
        }
    }
}

/// One stored voter receipt: the single-use record together with the voter
/// identity that scopes it.
pub struct ReceiptEntry {
    pub voter: Identity,
    pub record: Voter,
}

/// The key a stored receipt is addressed by.
pub open spec fn receipt_key(e: ReceiptEntry) -> (u64, Identity) {
    (e.record.poll_id, e.voter)
}

/// No two stored polls share an identifier.
pub open spec fn distinct_poll_ids(s: Seq<Poll>) -> bool {
    forall|i: int, j: int| 0 <= i < j < s.len() ==> s[i].poll_id != s[j].poll_id
}

/// No two stored receipts share a key.
pub open spec fn distinct_receipt_keys(s: Seq<ReceiptEntry>) -> bool {
    forall|i: int, j: int| 0 <= i < j < s.len() ==> receipt_key(s[i]) != receipt_key(s[j])
}

/// Whether some stored poll carries `poll_id`.
pub open spec fn seq_has_poll(s: Seq<Poll>, poll_id: u64) -> bool {
    exists|i: int| 0 <= i < s.len() && s[i].poll_id == poll_id
}

/// The position of the stored poll carrying `poll_id`.
pub open spec fn seq_poll_index(s: Seq<Poll>, poll_id: u64) -> int {
    choose|i: int| 0 <= i < s.len() && s[i].poll_id == poll_id
}

/// Whether some stored receipt carries `key`.
pub open spec fn seq_has_receipt(s: Seq<ReceiptEntry>, key: (u64, Identity)) -> bool {
    exists|i: int| 0 <= i < s.len() && receipt_key(s[i]) == key
}

/// The position of the stored receipt carrying `key`.
pub open spec fn seq_receipt_index(s: Seq<ReceiptEntry>, key: (u64, Identity)) -> int {
    choose|i: int| 0 <= i < s.len() && receipt_key(s[i]) == key
}

/// The keyed reading of a sequence of poll records.
pub open spec fn polls_view(s: Seq<Poll>) -> Map<u64, PollData> {
    Map::new(|id: u64| seq_has_poll(s, id), |id: u64| s[seq_poll_index(s, id)]@)
}

/// The keyed reading of a sequence of receipts.
pub open spec fn receipts_view(s: Seq<ReceiptEntry>) -> Map<(u64, Identity), Voter> {
    Map::new(
        |key: (u64, Identity)| seq_has_receipt(s, key),
        |key: (u64, Identity)| s[seq_receipt_index(s, key)].record,
    )
}

proof fn lemma_poll_index(s: Seq<Poll>, i: int)
    requires
        distinct_poll_ids(s),
        0 <= i < s.len(),
    ensures
        seq_has_poll(s, s[i].poll_id),
        seq_poll_index(s, s[i].poll_id) == i,
        polls_view(s).contains_key(s[i].poll_id),
        polls_view(s)[s[i].poll_id] == s[i]@,
{
    assert(seq_has_poll(s, s[i].poll_id));
    let j = seq_poll_index(s, s[i].poll_id);
    assert(0 <= j < s.len() && s[j].poll_id == s[i].poll_id);
    if i < j {
        assert(s[i].poll_id != s[j].poll_id);
    }
    if j < i {
        assert(s[j].poll_id != s[i].poll_id);
    }
}

proof fn lemma_receipt_index(s: Seq<ReceiptEntry>, i: int)
    requires
        distinct_receipt_keys(s),
        0 <= i < s.len(),
    ensures
        seq_has_receipt(s, receipt_key(s[i])),
        seq_receipt_index(s, receipt_key(s[i])) == i,
        receipts_view(s).contains_key(receipt_key(s[i])),
        receipts_view(s)[receipt_key(s[i])] == s[i].record,
{
    assert(seq_has_receipt(s, receipt_key(s[i])));
    let j = seq_receipt_index(s, receipt_key(s[i]));
    assert(0 <= j < s.len() && receipt_key(s[j]) == receipt_key(s[i]));
    if i < j {
        assert(receipt_key(s[i]) != receipt_key(s[j]));
    }
    if j < i {
        assert(receipt_key(s[j]) != receipt_key(s[i]));
    }
}

proof fn lemma_polls_view_push(s: Seq<Poll>, p: Poll)
    requires
        distinct_poll_ids(s),
        !seq_has_poll(s, p.poll_id),
    ensures
        distinct_poll_ids(s.push(p)),
        polls_view(s.push(p)) == polls_view(s).insert(p.poll_id, p@),
{
    let t = s.push(p);
    assert forall|i: int, j: int| 0 <= i < j < t.len() implies t[i].poll_id != t[j].poll_id by {
        if j == s.len() {
            if t[i].poll_id == p.poll_id {
                assert(s[i].poll_id == p.poll_id);
                assert(seq_has_poll(s, p.poll_id));
            }
        }
    }
    let m1 = polls_view(t);
    let m2 = polls_view(s).insert(p.poll_id, p@);
    assert forall|id: u64| m1.contains_key(id) implies m2.contains_key(id) && m1[id] == m2[id] by {
        let i = seq_poll_index(t, id);
        assert(0 <= i < t.len() && t[i].poll_id == id);
        lemma_poll_index(t, i);
        if i < s.len() {
            lemma_poll_index(s, i);
            assert(seq_has_poll(s, id));
            assert(id != p.poll_id);
        } else {
            assert(t[i] == p);
        }
    }
    assert forall|id: u64| m2.contains_key(id) implies m1.contains_key(id) by {
        if id == p.poll_id {
            assert(t[s.len() as int].poll_id == id);
            assert(seq_has_poll(t, id));
        } else {
            let i = seq_poll_index(s, id);
            assert(0 <= i < s.len() && s[i].poll_id == id);
            assert(t[i].poll_id == id);
            assert(seq_has_poll(t, id));
        }
    }
    assert(m1 =~= m2);
}

proof fn lemma_polls_view_update(s: Seq<Poll>, i: int, p: Poll)
    requires
        distinct_poll_ids(s),
        0 <= i < s.len(),
        p.poll_id == s[i].poll_id,
    ensures
        distinct_poll_ids(s.update(i, p)),
        polls_view(s.update(i, p)) == polls_view(s).insert(p.poll_id, p@),
{
    let t = s.update(i, p);
    assert forall|a: int, b: int| 0 <= a < b < t.len() implies t[a].poll_id != t[b].poll_id by {
        assert(s[a].poll_id != s[b].poll_id);
        assert(t[a].poll_id == s[a].poll_id && t[b].poll_id == s[b].poll_id);
    }
    let m1 = polls_view(t);
    let m2 = polls_view(s).insert(p.poll_id, p@);
    assert forall|id: u64| m1.contains_key(id) implies m2.contains_key(id) && m1[id] == m2[id] by {
        let k = seq_poll_index(t, id);
        assert(0 <= k < t.len() && t[k].poll_id == id);
        lemma_poll_index(t, k);
        lemma_poll_index(s, k);
        if k == i {
            assert(t[k] == p);
            assert(id == p.poll_id);
        } else {
            assert(t[k] == s[k]);
            assert(id != p.poll_id);
        }
    }
    assert forall|id: u64| m2.contains_key(id) implies m1.contains_key(id) by {
        if id == p.poll_id {
            assert(t[i].poll_id == id);
            assert(seq_has_poll(t, id));
        } else {
            let k = seq_poll_index(s, id);
            assert(0 <= k < s.len() && s[k].poll_id == id);
            assert(k != i);
            assert(t[k].poll_id == id);
            assert(seq_has_poll(t, id));
        }
    }
    assert(m1 =~= m2);
}

proof fn lemma_polls_view_remove(s: Seq<Poll>, i: int)
    requires
        distinct_poll_ids(s),
        0 <= i < s.len(),
    ensures
        distinct_poll_ids(s.remove(i)),
        polls_view(s.remove(i)) == polls_view(s).remove(s[i].poll_id),
{
    let t = s.remove(i);
    assert(t.len() == s.len() - 1);
    assert forall|k: int| 0 <= k < t.len() implies t[k] == (if k < i {
        s[k]
    } else {
        s[k + 1]
    }) by {}
    assert forall|a: int, b: int| 0 <= a < b < t.len() implies t[a].poll_id != t[b].poll_id by {
        let a0 = if a < i { a } else { a + 1 };
        let b0 = if b < i { b } else { b + 1 };
        assert(s[a0].poll_id != s[b0].poll_id);
    }
    let m1 = polls_view(t);
    let m2 = polls_view(s).remove(s[i].poll_id);
    assert forall|id: u64| m1.contains_key(id) implies m2.contains_key(id) && m1[id] == m2[id] by {
        let k = seq_poll_index(t, id);
        assert(0 <= k < t.len() && t[k].poll_id == id);
        lemma_poll_index(t, k);
        let k0 = if k < i { k } else { k + 1 };
        assert(s[k0].poll_id == id);
        lemma_poll_index(s, k0);
        assert(k0 != i);
        lemma_poll_index(s, i);
        assert(id != s[i].poll_id);
    }
    assert forall|id: u64| m2.contains_key(id) implies m1.contains_key(id) by {
        let k0 = seq_poll_index(s, id);
        assert(0 <= k0 < s.len() && s[k0].poll_id == id);
        lemma_poll_index(s, k0);
        lemma_poll_index(s, i);
        assert(k0 != i);
        let k = if k0 < i { k0 } else { k0 - 1 };
        assert(t[k].poll_id == id);
        assert(seq_has_poll(t, id));
    }
    assert(m1 =~= m2);
}

proof fn lemma_receipts_view_push(s: Seq<ReceiptEntry>, e: ReceiptEntry)
    requires
        distinct_receipt_keys(s),
        !seq_has_receipt(s, receipt_key(e)),
    ensures
        distinct_receipt_keys(s.push(e)),
        receipts_view(s.push(e)) == receipts_view(s).insert(receipt_key(e), e.record),
{
    let t = s.push(e);
    assert forall|i: int, j: int| 0 <= i < j < t.len() implies receipt_key(t[i]) != receipt_key(
        t[j],
    ) by {
        if j == s.len() {
            if receipt_key(t[i]) == receipt_key(e) {
                assert(receipt_key(s[i]) == receipt_key(e));
                assert(seq_has_receipt(s, receipt_key(e)));
            }
        }
    }
    let m1 = receipts_view(t);
    let m2 = receipts_view(s).insert(receipt_key(e), e.record);
    assert forall|key: (u64, Identity)| m1.contains_key(key) implies m2.contains_key(key)
        && m1[key] == m2[key] by {
        let i = seq_receipt_index(t, key);
        assert(0 <= i < t.len() && receipt_key(t[i]) == key);
        lemma_receipt_index(t, i);
        if i < s.len() {
            lemma_receipt_index(s, i);
            assert(seq_has_receipt(s, key));
            assert(key != receipt_key(e));
        } else {
            assert(t[i] == e);
        }
    }
    assert forall|key: (u64, Identity)| m2.contains_key(key) implies m1.contains_key(key) by {
        if key == receipt_key(e) {
            assert(receipt_key(t[s.len() as int]) == key);
            assert(seq_has_receipt(t, key));
        } else {
            let i = seq_receipt_index(s, key);
            assert(0 <= i < s.len() && receipt_key(s[i]) == key);
            assert(receipt_key(t[i]) == key);
            assert(seq_has_receipt(t, key));
        }
    }
    assert(m1 =~= m2);
}

fn find_poll(polls: &Vec<Poll>, poll_id: u64) -> (r: Option<usize>)
    ensures
        match r {
            Some(i) => i < polls@.len() && polls@[i as int].poll_id == poll_id,
            None => !seq_has_poll(polls@, poll_id),
        },
{
    let mut i: usize = 0;
    while i < polls.len()
        invariant
            i <= polls@.len(),
            forall|k: int| 0 <= k < i ==> polls@[k].poll_id != poll_id,
        decreases polls@.len() - i,
    {
        if polls[i].poll_id == poll_id {
            return Some(i);
        }
        i = i + 1;
    }
    None
}

fn find_receipt(receipts: &Vec<ReceiptEntry>, poll_id: u64, voter: Identity) -> (r: Option<usize>)
    ensures
        match r {
            Some(i) => i < receipts@.len() && receipt_key(receipts@[i as int]) == (poll_id, voter),
            None => !seq_has_receipt(receipts@, (poll_id, voter)),
        },
{
    let mut i: usize = 0;
    while i < receipts.len()
        invariant
            i <= receipts@.len(),
            forall|k: int| 0 <= k < i ==> receipt_key(receipts@[k]) != (poll_id, voter),
        decreases receipts@.len() - i,
    {
        if receipts[i].record.poll_id == poll_id && receipts[i].voter == voter {
            return Some(i);
        }
        i = i + 1;
    }
    None
}

/// The in-memory keyed record store: one poll record per identifier, one
/// spent receipt per `(poll identifier, voter)` pair.
pub struct VotingState {
    polls: Vec<Poll>,
    receipts: Vec<ReceiptEntry>,
}

impl View for VotingState {
    type V = StoreView;

    closed spec fn view(&self) -> StoreView {
        StoreView { polls: polls_view(self.polls@), receipts: receipts_view(self.receipts@) }
    }
}

impl VotingState {
    /// The store's representation invariant: record keys are unique, every
    /// poll record is well formed, and every stored receipt is spent.
    pub closed spec fn wf(self) -> bool {
        &&& distinct_poll_ids(self.polls@)
        &&& distinct_receipt_keys(self.receipts@)
        &&& forall|i: int| 0 <= i < self.polls@.len() ==> valid_poll(#[trigger] self.polls@[i]@)
        &&& forall|i: int|
            0 <= i < self.receipts@.len() ==> (#[trigger] self.receipts@[i]).record.has_voted
    }

    /// An empty store.
    pub fn new() -> (s: VotingState)
        ensures
            s.wf(),
            s@ == empty_store(),
    {
        let s = VotingState { polls: Vec::new(), receipts: Vec::new() };
        proof {
            assert(s@.polls =~= Map::<u64, PollData>::empty());
            assert(s@.receipts =~= Map::<(u64, Identity), Voter>::empty());
            assert(s@ =~= empty_store());
        }
        s
    }

    /// Creates a new poll record keyed by `poll_id`: exactly the outcome
    /// [`create_poll_spec`] gives, checks in that order, and no partial
    /// write on failure.
    pub fn create_poll(
        &mut self,
        poll_id: u64,
        title: String,
        description: String,
        start_time: i64,
        end_time: i64,
        creator: Identity,
        now: i64,
    ) -> (r: Result<(), StoreError>)
        requires
            old(self).wf(),
            title@.len() <= MAX_TITLE_LEN,
            description@.len() <= MAX_DESCRIPTION_LEN,
        ensures
            final(self).wf(),
            (final(self)@, r) == create_poll_spec(
                old(self)@,
                poll_id,
                creator,
                title@,
                description@,
                start_time,
                end_time,
                now,
            ),
    {
        let ghost s0 = self@;
        let ghost title_view = title@;
        let ghost description_view = description@;
        match crate::engine::create_poll(
            poll_id,
            title,
            description,
            start_time,
            end_time,
            creator,
            now,
        ) {
            Err(e) => Err(StoreError::Voting(e)),
            Ok(p) => {
                match find_poll(&self.polls, poll_id) {
                    Some(i) => {
                        proof {
                            lemma_poll_index(self.polls@, i as int);
                        }
                        Err(StoreError::KeyExists)
                    },
                    None => {
                        let ghost ps0 = self.polls@;
                        proof {
                            lemma_polls_view_push(ps0, p);
                        }
                        self.polls.push(p);
                        proof {
                            assert(self@.polls == s0.polls.insert(
                                poll_id,
                                fresh_poll(
                                    poll_id,
                                    creator,
                                    title_view,
                                    description_view,
                                    start_time,
                                    end_time,
                                    now,
                                ),
                            ));
                            assert(self@ =~= create_poll_spec(
                                s0,
                                poll_id,
                                creator,
                                title_view,
                                description_view,
                                start_time,
                                end_time,
                                now,
                            ).0);
                            assert forall|k: int|
                                0 <= k < self.polls@.len() implies valid_poll(
                                #[trigger] self.polls@[k]@,
                            ) by {
                                if k < ps0.len() {
                                    assert(valid_poll(ps0[k]@));
                                }
                            }
                        }
                        Ok(())
                    },
                }
            },
        }
    }

    /// Casts one vote: exactly the outcome [`cast_vote_spec`] gives,
    /// checks in that order, and no partial write on failure. Inputs that
    /// would run a counter past `u32::MAX` are kept out by the caller.
    pub fn cast_vote(
        &mut self,
        poll_id: u64,
        vote_type: bool,
        voter: Identity,
        now: i64,
    ) -> (r: Result<(), StoreError>)
        requires
            old(self).wf(),
            cast_vote_spec(old(self)@, poll_id, vote_type, voter, now).1 is Ok ==> vote_room(
                old(self)@.polls[poll_id],
                vote_type,
            ),
        ensures
            final(self).wf(),
            (final(self)@, r) == cast_vote_spec(old(self)@, poll_id, vote_type, voter, now),
    {
        let ghost s0 = self@;
        match find_poll(&self.polls, poll_id) {
            None => Err(StoreError::NotFound),
            Some(i) => {
                proof {
                    lemma_poll_index(self.polls@, i as int);
                }
                let start = self.polls[i].start_time;
                let end = self.polls[i].end_time;
                if now < start {
                    Err(StoreError::Voting(VotingError::PollNotStarted))
                } else if now > end {
                    Err(StoreError::Voting(VotingError::PollEnded))
                } else {
                    match find_receipt(&self.receipts, poll_id, voter) {
                        Some(j) => {
                            proof {
                                lemma_receipt_index(self.receipts@, j as int);
                            }
                            Err(StoreError::Voting(VotingError::AlreadyVoted))
                        },
                        None => {
                            proof {
                                assert(!spent(s0, poll_id, voter));
                                assert(cast_vote_spec(s0, poll_id, vote_type, voter, now).1 is Ok);
                            }
                            let ghost ps0 = self.polls@;
                            let ghost rs0 = self.receipts@;
                            let mut p = self.polls.remove(i);
                            if vote_type {
                                p.yes_votes = p.yes_votes + 1;
                            } else {
                                p.no_votes = p.no_votes + 1;
                            }
                            proof {
                                assert(ps0.remove(i as int).insert(i as int, p) =~= ps0.update(
                                    i as int,
                                    p,
                                ));
                                lemma_polls_view_update(ps0, i as int, p);
                            }
                            self.polls.insert(i, p);
                            let entry = ReceiptEntry {
                                voter,
                                record: Voter { poll_id, has_voted: true },
                            };
                            proof {
                                lemma_receipts_view_push(rs0, entry);
                            }
                            self.receipts.push(entry);
                            proof {
                                assert(self@ =~= cast_vote_spec(
                                    s0,
                                    poll_id,
                                    vote_type,
                                    voter,
                                    now,
                                ).0);
                                assert forall|k: int|
                                    0 <= k < self.polls@.len() implies valid_poll(
                                    #[trigger] self.polls@[k]@,
                                ) by {
                                    assert(self.polls@ == ps0.update(i as int, p));
                                    if k != i {
                                        assert(self.polls@[k] == ps0[k]);
                                        assert(valid_poll(ps0[k]@));
                                    } else {
                                        assert(valid_poll(ps0[k]@));
                                    }
                                }
                                assert forall|k: int|
                                    0 <= k < self.receipts@.len() implies (
                                #[trigger] self.receipts@[k]).record.has_voted by {
                                    if k < rs0.len() {
                                        assert(rs0[k].record.has_voted);
                                    }
                                }
                            }
                            Ok(())
                        },
                    }
                }
            },
        }
    }

    /// Closes a poll: exactly the outcome [`close_poll_spec`] gives. Only
    /// the creator, and only before the window opens, may delete the
    /// record; the poll's receipts are left behind.
    pub fn close_poll(&mut self, poll_id: u64, caller: Identity, now: i64) -> (r: Result<
        (),
        StoreError,
    >)
        requires
            old(self).wf(),
        ensures
            final(self).wf(),
            (final(self)@, r) == close_poll_spec(old(self)@, poll_id, caller, now),
    {
        let ghost s0 = self@;
        match find_poll(&self.polls, poll_id) {
            None => Err(StoreError::NotFound),
            Some(i) => {
                proof {
                    lemma_poll_index(self.polls@, i as int);
                }
                let decision = crate::engine::close_poll(&self.polls[i], caller, now);
                match decision {
                    Err(e) => Err(StoreError::Voting(e)),
                    Ok(_) => {
                        let ghost ps0 = self.polls@;
                        proof {
                            lemma_polls_view_remove(ps0, i as int);
                        }
                        let _removed = self.polls.remove(i);
                        proof {
                            assert(self@ =~= close_poll_spec(s0, poll_id, caller, now).0);
                            assert forall|k: int|
                                0 <= k < self.polls@.len() implies valid_poll(
                                #[trigger] self.polls@[k]@,
                            ) by {
                                let k0 = if k < i as int {
                                    k
                                } else {
                                    k + 1
                                };
                                assert(self.polls@[k] == ps0[k0]);
                                assert(valid_poll(ps0[k0]@));
                            }
                        }
                        Ok(())
                    },
                }
            },
        }
    }

    /// Every state a well-formed store presents satisfies [`view_wf`], so
    /// the laws stated over store views apply to it.
    pub proof fn lemma_wf_view(self)
        requires
            self.wf(),
        ensures
            view_wf(self@),
    {
        assert forall|id: u64| self@.polls.contains_key(id) implies (
        #[trigger] self@.polls[id]).poll_id == id && valid_poll(self@.polls[id]) by {
            let i = seq_poll_index(self.polls@, id);
            assert(0 <= i < self.polls@.len() && self.polls@[i].poll_id == id);
            assert(valid_poll(self.polls@[i]@));
        }
        assert forall|k: (u64, Identity)| self@.receipts.contains_key(k) implies (
        #[trigger] self@.receipts[k]).poll_id == k.0 && self@.receipts[k].has_voted by {
            let i = seq_receipt_index(self.receipts@, k);
            assert(0 <= i < self.receipts@.len() && receipt_key(self.receipts@[i]) == k);
            assert(self.receipts@[i].record.has_voted);
        }
    }

    /// Reads the poll record keyed by `poll_id`, if it exists.
    pub fn get_poll(&self, poll_id: u64) -> (r: Option<&Poll>)
        requires
            self.wf(),
        ensures
            match r {
                Some(p) => self@.polls.contains_key(poll_id) && p@ == self@.polls[poll_id],
                None => !self@.polls.contains_key(poll_id),
            },
    {
        match find_poll(&self.polls, poll_id) {
            Some(i) => {
                proof {
                    lemma_poll_index(self.polls@, i as int);
                }
                Some(&self.polls[i])
            },
            None => None,
        }
    }

    /// Whether `voter` has already voted on `poll_id`.
    pub fn has_voted(&self, poll_id: u64, voter: Identity) -> (r: bool)
        requires
            self.wf(),
        ensures
            r == spent(self@, poll_id, voter),
    {
        match find_receipt(&self.receipts, poll_id, voter) {
            Some(i) => {
                proof {
                    lemma_receipt_index(self.receipts@, i as int);
                }
                self.receipts[i].record.has_voted
            },
            None => false,
        }
    }
}

} // verus!
