use crate::error::ContestError;
use crate::identity::Identity;
use crate::rules::{
    check_art_submission, check_literature_submission, check_result, check_vote,
    grapheme_count_of, result_verdict, submission_verdict, vote_verdict, Category, ContestRules,
    MAX_VOTES_PER_VOTER,
};
use crate::tally::{is_ranked, rank_by_votes, TallyRow};
use vstd::prelude::*;

verus! {

/// A submitted entry. `text` is the text of a literature entry or the
/// description of an art entry; `data` is the image of an art entry.
#[derive(Debug)]
pub struct Entry {
    pub id: i32,
    pub author: Identity,
    pub title: String,
    pub text: String,
    pub data: Vec<u8>,
    pub is_nsfw: bool,
}

/// What an author hands in.
#[derive(Debug)]
pub struct NewEntry {
    pub title: String,
    pub text: String,
    pub data: Vec<u8>,
    pub is_nsfw: bool,
}

/// A vote of one voter for one entry.
#[derive(Debug)]
pub struct Vote {
    pub id: i32,
    pub voter: Identity,
    pub entry_id: i32,
}

/// What a voter may learn about their own votes.
#[derive(Debug, Clone, Copy, PartialEq, Eq, Structural)]
pub struct VoteStatus {
    pub voted: bool,
    pub vote_count: u64,
}

/// The entries and votes of one category.
#[derive(Debug)]
pub struct Board {
    pub category: Category,
    pub entries: Vec<Entry>,
    pub votes: Vec<Vote>,
    pub next_entry_id: i32,
    pub next_vote_id: i32,
}

/// Some entry in `entries` is by `who`.
pub open spec fn authored_by(entries: Seq<Entry>, who: (Seq<char>, Seq<char>)) -> bool {
    exists|i: int| 0 <= i < entries.len() && (#[trigger] entries[i]).author@ == who
}

/// Some entry in `entries` has the id `id`.
pub open spec fn entry_exists(entries: Seq<Entry>, id: i32) -> bool {
    exists|i: int| 0 <= i < entries.len() && (#[trigger] entries[i]).id == id
}

/// `who` voted for the entry `id`.
pub open spec fn voted_for(votes: Seq<Vote>, who: (Seq<char>, Seq<char>), id: i32) -> bool {
    exists|i: int|
        0 <= i < votes.len() && (#[trigger] votes[i]).voter@ == who && votes[i].entry_id == id
}

/// The number of votes cast by `who`.
pub open spec fn votes_by(votes: Seq<Vote>, who: (Seq<char>, Seq<char>)) -> nat
    decreases votes.len(),
{
    if votes.len() == 0 {
        0
    } else {
        votes_by(votes.drop_last(), who) + if votes.last().voter@ == who {
            1nat
        } else {
            0nat
        }
    }
}

/// The number of votes for the entry `id`.
pub open spec fn votes_for(votes: Seq<Vote>, id: i32) -> nat
    decreases votes.len(),
{
    if votes.len() == 0 {
        0
    } else {
        votes_for(votes.drop_last(), id) + if votes.last().entry_id == id {
            1nat
        } else {
            0nat
        }
    }
}

proof fn lemma_votes_by_bounded(votes: Seq<Vote>, who: (Seq<char>, Seq<char>))
    ensures
        votes_by(votes, who) <= votes.len(),
    decreases votes.len(),
{
    if votes.len() > 0 {
        lemma_votes_by_bounded(votes.drop_last(), who);
    }
}

proof fn lemma_votes_for_bounded(votes: Seq<Vote>, id: i32)
    ensures
        votes_for(votes, id) <= votes.len(),
    decreases votes.len(),
{
    if votes.len() > 0 {
        lemma_votes_for_bounded(votes.drop_last(), id);
    }
}

/// One row per entry, in the order of the entries, with its vote count.
pub open spec fn tally_rows(entries: Seq<Entry>, votes: Seq<Vote>) -> Seq<TallyRow> {
    entries.map_values(|e: Entry| TallyRow { id: e.id, vote_count: votes_for(votes, e.id) as u64 })
}

impl Board {
    /// The invariants of the store: ids increase with insertion, each author
    /// has at most one entry, each vote names an existing entry, no voter
    /// votes twice for one entry, and no voter has more than the allowed
    /// number of votes.
    pub open spec fn wf(&self) -> bool {
        &&& 1 <= self.next_entry_id
        &&& 1 <= self.next_vote_id
        &&& forall|i: int, j: int|
            0 <= i < j < self.entries@.len() ==> (#[trigger] self.entries@[i]).id
                < (#[trigger] self.entries@[j]).id
        &&& forall|i: int|
            0 <= i < self.entries@.len() ==> 1 <= (#[trigger] self.entries@[i]).id
                < self.next_entry_id
        &&& forall|i: int, j: int|
            0 <= i < j < self.entries@.len() ==> (#[trigger] self.entries@[i]).author@
                != (#[trigger] self.entries@[j]).author@
        &&& forall|i: int|
            0 <= i < self.votes@.len() ==> entry_exists(
                self.entries@,
                (#[trigger] self.votes@[i]).entry_id,
            )
        &&& forall|i: int|
            0 <= i < self.votes@.len() ==> 1 <= (#[trigger] self.votes@[i]).id < self.next_vote_id
        &&& forall|i: int, j: int|
            0 <= i < j < self.votes@.len() ==> !((#[trigger] self.votes@[i]).voter@
                == (#[trigger] self.votes@[j]).voter@ && self.votes@[i].entry_id
                == self.votes@[j].entry_id)
        &&& forall|who: (Seq<char>, Seq<char>)| #[trigger]
            votes_by(self.votes@, who) <= MAX_VOTES_PER_VOTER
    }

    /// An empty board for a category.
    pub fn new(category: Category) -> (r: Board)
        ensures
            r.wf(),
            r.category == category,
            r.entries@.len() == 0,
            r.votes@.len() == 0,
    {
        Board {
            category,
            entries: Vec::new(),
            votes: Vec::new(),
            next_entry_id: 1,
            next_vote_id: 1,
        }
    }

    /// Whether `who` has an entry on this board.
    pub fn has_entry_by(&self, who: &Identity) -> (r: bool)
        ensures
            r == authored_by(self.entries@, who@),
    {
        let mut i: usize = 0;
        while i < self.entries.len()
            invariant
                i <= self.entries@.len(),
                forall|k: int| 0 <= k < i ==> (#[trigger] self.entries@[k]).author@ != who@,
            decreases self.entries@.len() - i,
        {
            if self.entries[i].author.same_as(who) {
                return true;
            }
            i = i + 1;
        }
        false
    }

    /// Whether an entry with this id exists.
    pub fn has_entry(&self, id: i32) -> (r: bool)
        ensures
            r == entry_exists(self.entries@, id),
    {
        let mut i: usize = 0;
        while i < self.entries.len()
            invariant
                i <= self.entries@.len(),
                forall|k: int| 0 <= k < i ==> (#[trigger] self.entries@[k]).id != id,
            decreases self.entries@.len() - i,
        {
            if self.entries[i].id == id {
                return true;
            }
            i = i + 1;
        }
        false
    }

    /// Whether `who` voted for the entry `id`.
    pub fn has_voted(&self, who: &Identity, id: i32) -> (r: bool)
        ensures
            r == voted_for(self.votes@, who@, id),
    {
        let mut i: usize = 0;
        while i < self.votes.len()
            invariant
                i <= self.votes@.len(),
                forall|k: int|
                    0 <= k < i ==> !((#[trigger] self.votes@[k]).voter@ == who@
                        && self.votes@[k].entry_id == id),
            decreases self.votes@.len() - i,
        {
            if self.votes[i].entry_id == id && self.votes[i].voter.same_as(who) {
                return true;
            }
            i = i + 1;
        }
        false
    }

    /// The number of votes cast by `who`.
    pub fn count_votes_by(&self, who: &Identity) -> (r: u64)
        ensures
            r == votes_by(self.votes@, who@),
    {
        let mut i: usize = 0;
        let mut count: u64 = 0;
        while i < self.votes.len()
            invariant
                i <= self.votes@.len(),
                count == votes_by(self.votes@.subrange(0, i as int), who@),
            decreases self.votes@.len() - i,
        {
            proof {
                lemma_votes_by_bounded(self.votes@.subrange(0, i as int), who@);
                assert(self.votes@.subrange(0, i + 1).drop_last() =~= self.votes@.subrange(
                    0,
                    i as int,
                ));
            }
            if self.votes[i].voter.same_as(who) {
                count = count + 1;
            }
            i = i + 1;
        }
        assert(self.votes@.subrange(0, i as int) =~= self.votes@);
        count
    }

    /// The number of votes for the entry `id`.
    pub fn count_votes_for(&self, id: i32) -> (r: u64)
        ensures
            r == votes_for(self.votes@, id),
    {
        let mut i: usize = 0;
        let mut count: u64 = 0;
        while i < self.votes.len()
            invariant
                i <= self.votes@.len(),
                count == votes_for(self.votes@.subrange(0, i as int), id),
            decreases self.votes@.len() - i,
        {
            proof {
                lemma_votes_for_bounded(self.votes@.subrange(0, i as int), id);
                assert(self.votes@.subrange(0, i + 1).drop_last() =~= self.votes@.subrange(
                    0,
                    i as int,
                ));
            }
            if self.votes[i].entry_id == id {
                count = count + 1;
            }
            i = i + 1;
        }
        assert(self.votes@.subrange(0, i as int) =~= self.votes@);
        count
    }
}


proof fn lemma_votes_by_push(votes: Seq<Vote>, v: Vote, who: (Seq<char>, Seq<char>))
    ensures
        votes_by(votes.push(v), who) == votes_by(votes, who) + if v.voter@ == who {
            1nat
        } else {
            0nat
        },
{
    assert(votes.push(v).drop_last() =~= votes);
}

proof fn lemma_votes_for_push(votes: Seq<Vote>, v: Vote, id: i32)
    ensures
        votes_for(votes.push(v), id) == votes_for(votes, id) + if v.entry_id == id {
            1nat
        } else {
            0nat
        },
{
    assert(votes.push(v).drop_last() =~= votes);
}

/// What a submission of `entry` by `who` to board `b` gets from the rules.
pub open spec fn submit_verdict(
    b: Board,
    rules: ContestRules,
    now: i64,
    who: (Seq<char>, Seq<char>),
    entry: NewEntry,
) -> Result<(), ContestError> {
    submission_verdict(
        rules,
        b.category,
        now,
        grapheme_count_of(entry.title@) as int,
        grapheme_count_of(entry.text@) as int,
        entry.data@.len() as int,
        authored_by(b.entries@, who),
    )
}

/// `new` is `old` with one more entry, by `who`, holding `entry`, under `id`.
pub open spec fn added_entry(
    old: Board,
    new: Board,
    id: i32,
    who: (Seq<char>, Seq<char>),
    entry: NewEntry,
) -> bool {
    &&& id == old.next_entry_id
    &&& new.category == old.category
    &&& new.votes@ == old.votes@
    &&& new.next_vote_id == old.next_vote_id
    &&& new.next_entry_id == old.next_entry_id + 1
    &&& new.entries@.len() == old.entries@.len() + 1
    &&& new.entries@.subrange(0, old.entries@.len() as int) == old.entries@
    &&& new.entries@.last().id == id
    &&& new.entries@.last().author@ == who
    &&& new.entries@.last().title@ == entry.title@
    &&& new.entries@.last().text@ == entry.text@
    &&& new.entries@.last().data@ == entry.data@
    &&& new.entries@.last().is_nsfw == entry.is_nsfw
}

/// The outcome of `submit`: a refused submission leaves the board as it was;
/// an accepted one adds the entry under the next id, unless ids have run out.
pub open spec fn submit_post(
    old: Board,
    new: Board,
    rules: ContestRules,
    now: i64,
    who: (Seq<char>, Seq<char>),
    entry: NewEntry,
    r: Result<i32, ContestError>,
) -> bool {
    match submit_verdict(old, rules, now, who, entry) {
        Err(e) => r == Err::<i32, ContestError>(e) && new == old,
        Ok(_) => if old.next_entry_id == i32::MAX {
            r == Err::<i32, ContestError>(ContestError::StorageFull) && new == old
        } else {
            r == Ok::<i32, ContestError>(old.next_entry_id) && added_entry(
                old,
                new,
                old.next_entry_id,
                who,
                entry,
            )
        },
    }
}

/// What a vote by `who` for entry `id` on board `b` gets from the rules.
pub open spec fn cast_verdict(
    b: Board,
    rules: ContestRules,
    now: i64,
    who: (Seq<char>, Seq<char>),
    id: i32,
) -> Result<(), ContestError> {
    vote_verdict(
        rules,
        b.category,
        now,
        entry_exists(b.entries@, id),
        voted_for(b.votes@, who, id),
        votes_by(b.votes@, who) as int,
    )
}

/// `new` is `old` with one more vote, by `who` for entry `id`.
pub open spec fn added_vote(old: Board, new: Board, who: (Seq<char>, Seq<char>), id: i32) -> bool {
    &&& new.category == old.category
    &&& new.entries@ == old.entries@
    &&& new.next_entry_id == old.next_entry_id
    &&& new.next_vote_id == old.next_vote_id + 1
    &&& new.votes@.len() == old.votes@.len() + 1
    &&& new.votes@.subrange(0, old.votes@.len() as int) == old.votes@
    &&& new.votes@.last().id == old.next_vote_id
    &&& new.votes@.last().voter@ == who
    &&& new.votes@.last().entry_id == id
}

/// The outcome of `cast_vote`: a refused vote leaves the board as it was; an
/// accepted one adds the vote, unless ids have run out.
pub open spec fn cast_post(
    old: Board,
    new: Board,
    rules: ContestRules,
    now: i64,
    who: (Seq<char>, Seq<char>),
    id: i32,
    r: Result<(), ContestError>,
) -> bool {
    match cast_verdict(old, rules, now, who, id) {
        Err(e) => r == Err::<(), ContestError>(e) && new == old,
        Ok(_) => if old.next_vote_id == i32::MAX {
            r == Err::<(), ContestError>(ContestError::StorageFull) && new == old
        } else {
            r == Ok::<(), ContestError>(()) && added_vote(old, new, who, id)
        },
    }
}

impl Board {
    /// Submits `entry` by `author`. The checks run in the order of
    /// `submission_verdict`; the store keeps at most one entry per author.
    pub fn submit(
        &mut self,
        rules: &ContestRules,
        now: i64,
        author: &Identity,
        entry: NewEntry,
    ) -> (r: Result<i32, ContestError>)
        requires
            old(self).wf(),
        ensures
            final(self).wf(),
            submit_post(*old(self), *final(self), *rules, now, author@, entry, r),
    {
        let existing: u64 = if self.has_entry_by(author) {
            1
        } else {
            0
        };
        let verdict = match self.category {
            Category::Literature => check_literature_submission(
                rules,
                now,
                entry.title.as_str(),
                entry.text.as_str(),
                existing,
            ),
            Category::Art => check_art_submission(
                rules,
                now,
                entry.title.as_str(),
                entry.text.as_str(),
                entry.data.len(),
                existing,
            ),
        };
        if let Err(e) = verdict {
            return Err(e);
        }
        if self.next_entry_id == i32::MAX {
            return Err(ContestError::StorageFull);
        }
        let ghost old_entries = self.entries@;
        let id = self.next_entry_id;
        let NewEntry { title, text, data, is_nsfw } = entry;
        self.entries.push(Entry { id, author: author.duplicate(), title, text, data, is_nsfw });
        self.next_entry_id = id + 1;
        proof {
            assert(self.entries@.subrange(0, old_entries.len() as int) =~= old_entries);
            assert forall|i: int|
                0 <= i < self.votes@.len() implies entry_exists(
                self.entries@,
                (#[trigger] self.votes@[i]).entry_id,
            ) by {
                let k = choose|k: int|
                    0 <= k < old_entries.len() && (#[trigger] old_entries[k]).id
                        == self.votes@[i].entry_id;
                assert(self.entries@[k] == old_entries[k]);
            }
            assert forall|i: int, j: int|
                0 <= i < j < self.entries@.len() implies (#[trigger] self.entries@[i]).author@
                != (#[trigger] self.entries@[j]).author@ by {
                if j == old_entries.len() {
                    assert(self.entries@[i] == old_entries[i]);
                }
            }
        }
        Ok(id)
    }

    /// Casts a vote by `voter` for entry `id`. The checks run in the order of
    /// `vote_verdict`; the store keeps at most one vote per voter and entry,
    /// and at most the allowed number of votes per voter.
    pub fn cast_vote(&mut self, rules: &ContestRules, now: i64, voter: &Identity, id: i32) -> (r:
        Result<(), ContestError>)
        requires
            old(self).wf(),
        ensures
            final(self).wf(),
            cast_post(*old(self), *final(self), *rules, now, voter@, id, r),
    {
        let exists = self.has_entry(id);
        let voted = self.has_voted(voter, id);
        let cast = self.count_votes_by(voter);
        if let Err(e) = check_vote(rules, self.category, now, exists, voted, cast) {
            return Err(e);
        }
        if self.next_vote_id == i32::MAX {
            return Err(ContestError::StorageFull);
        }
        let ghost old_votes = self.votes@;
        let vote = Vote { id: self.next_vote_id, voter: voter.duplicate(), entry_id: id };
        self.votes.push(vote);
        self.next_vote_id = self.next_vote_id + 1;
        proof {
            assert(self.votes@ == old_votes.push(self.votes@.last()));
            assert(self.votes@.subrange(0, old_votes.len() as int) =~= old_votes);
            assert forall|who: (Seq<char>, Seq<char>)| #[trigger]
                votes_by(self.votes@, who) <= MAX_VOTES_PER_VOTER by {
                lemma_votes_by_push(old_votes, self.votes@.last(), who);
            }
            assert forall|i: int, j: int|
                0 <= i < j < self.votes@.len() implies !((#[trigger] self.votes@[i]).voter@
                == (#[trigger] self.votes@[j]).voter@ && self.votes@[i].entry_id
                == self.votes@[j].entry_id) by {
                if j == old_votes.len() {
                    assert(self.votes@[i] == old_votes[i]);
                }
            }
        }
        Ok(())
    }

    /// Whether `voter` voted for entry `id`, and how many votes they cast.
    pub fn vote_status(&self, voter: &Identity, id: i32) -> (r: VoteStatus)
        ensures
            r.voted == voted_for(self.votes@, voter@, id),
            r.vote_count == votes_by(self.votes@, voter@),
    {
        VoteStatus { voted: self.has_voted(voter, id), vote_count: self.count_votes_by(voter) }
    }

    /// One row per entry with its vote count, in the order of the entries.
    pub fn vote_counts(&self) -> (r: Vec<TallyRow>)
        ensures
            r@ == tally_rows(self.entries@, self.votes@),
    {
        let mut rows: Vec<TallyRow> = Vec::new();
        let mut i: usize = 0;
        while i < self.entries.len()
            invariant
                i <= self.entries@.len(),
                rows@.len() == i,
                forall|k: int|
                    0 <= k < i ==> #[trigger] rows@[k] == (TallyRow {
                        id: self.entries@[k].id,
                        vote_count: votes_for(self.votes@, self.entries@[k].id) as u64,
                    }),
            decreases self.entries@.len() - i,
        {
            let id = self.entries[i].id;
            let vote_count = self.count_votes_for(id);
            rows.push(TallyRow { id, vote_count });
            i = i + 1;
        }
        assert(rows@ =~= tally_rows(self.entries@, self.votes@));
        rows
    }

    /// The ranked results: refused until voting has ended, then every entry
    /// with its vote count, by descending count, ties by ascending id.
    pub fn tally(&self, rules: &ContestRules, now: i64) -> (r: Result<Vec<TallyRow>, ContestError>)
        ensures
            match result_verdict(*rules, self.category, now) {
                Err(e) => r == Err::<Vec<TallyRow>, ContestError>(e),
                Ok(_) => r is Ok && r->Ok_0@.to_multiset() == tally_rows(
                    self.entries@,
                    self.votes@,
                ).to_multiset() && is_ranked(r->Ok_0@),
            },
    {
        if let Err(e) = check_result(rules, self.category, now) {
            return Err(e);
        }
        Ok(rank_by_votes(self.vote_counts()))
    }
}


/// Once a submission by an author is accepted, a later submission by the same
/// author to the same board is never accepted; when the checks that come
/// before the uniqueness check pass, it is refused as already submitted.
pub proof fn lemma_second_submission_refused(
    b0: Board,
    b1: Board,
    b2: Board,
    rules1: ContestRules,
    rules2: ContestRules,
    now1: i64,
    now2: i64,
    who: (Seq<char>, Seq<char>),
    e1: NewEntry,
    e2: NewEntry,
    r1: Result<i32, ContestError>,
    r2: Result<i32, ContestError>,
)
    requires
        submit_post(b0, b1, rules1, now1, who, e1, r1),
        r1 is Ok,
        submit_post(b1, b2, rules2, now2, who, e2, r2),
    ensures
        r2 is Err,
        b2 == b1,
        submission_verdict(
            rules2,
            b1.category,
            now2,
            grapheme_count_of(e2.title@) as int,
            grapheme_count_of(e2.text@) as int,
            e2.data@.len() as int,
            false,
        ) is Ok ==> r2 == Err::<i32, ContestError>(ContestError::AlreadySubmitted),
{
    let last = b1.entries@.len() - 1;
    assert(b1.entries@[last].author@ == who);
    assert(authored_by(b1.entries@, who));
}

/// A voter who has cast the allowed number of votes can cast no more; when
/// the checks that come before the cap pass, the vote is refused as one too
/// many.
pub proof fn lemma_vote_cap_reached(
    b0: Board,
    b1: Board,
    rules: ContestRules,
    now: i64,
    who: (Seq<char>, Seq<char>),
    id: i32,
    r: Result<(), ContestError>,
)
    requires
        votes_by(b0.votes@, who) == MAX_VOTES_PER_VOTER,
        cast_post(b0, b1, rules, now, who, id, r),
    ensures
        r is Err,
        b1 == b0,
        rules.spec_enabled(b0.category) && rules.voting.contains(now) && entry_exists(
            b0.entries@,
            id,
        ) && !voted_for(b0.votes@, who, id) ==> r == Err::<(), ContestError>(
            ContestError::TooManyVotes,
        ),
{
}

/// An accepted vote adds exactly one to the voter's count and to the entry's
/// count, and changes no other voter's count.
pub proof fn lemma_vote_counted_once(
    b0: Board,
    b1: Board,
    rules: ContestRules,
    now: i64,
    who: (Seq<char>, Seq<char>),
    id: i32,
    r: Result<(), ContestError>,
)
    requires
        cast_post(b0, b1, rules, now, who, id, r),
        r is Ok,
    ensures
        votes_by(b1.votes@, who) == votes_by(b0.votes@, who) + 1,
        forall|other: (Seq<char>, Seq<char>)|
            other != who ==> #[trigger] votes_by(b1.votes@, other) == votes_by(b0.votes@, other),
        votes_for(b1.votes@, id) == votes_for(b0.votes@, id) + 1,
{
    assert(b1.votes@ =~= b0.votes@.push(b1.votes@.last()));
    lemma_votes_by_push(b0.votes@, b1.votes@.last(), who);
    lemma_votes_for_push(b0.votes@, b1.votes@.last(), id);
    assert forall|other: (Seq<char>, Seq<char>)| other != who implies #[trigger] votes_by(
        b1.votes@,
        other,
    ) == votes_by(b0.votes@, other) by {
        lemma_votes_by_push(b0.votes@, b1.votes@.last(), other);
    }
}

/// A second vote by the same voter for the same entry is never accepted, so
/// the entry's count grows by one over both calls; when the category is on
/// and voting is open, the second vote is refused as already voted.
pub proof fn lemma_double_vote_refused(
    b0: Board,
    b1: Board,
    b2: Board,
    rules1: ContestRules,
    rules2: ContestRules,
    now1: i64,
    now2: i64,
    who: (Seq<char>, Seq<char>),
    id: i32,
    r1: Result<(), ContestError>,
    r2: Result<(), ContestError>,
)
    requires
        cast_post(b0, b1, rules1, now1, who, id, r1),
        r1 is Ok,
        cast_post(b1, b2, rules2, now2, who, id, r2),
    ensures
        r2 is Err,
        votes_for(b2.votes@, id) == votes_for(b0.votes@, id) + 1,
        rules2.spec_enabled(b1.category) && rules2.voting.contains(now2) ==> r2 == Err::<
            (),
            ContestError,
        >(ContestError::AlreadyVoted),
{
    lemma_vote_counted_once(b0, b1, rules1, now1, who, id, r1);
    let last = b1.votes@.len() - 1;
    assert(b1.votes@[last].voter@ == who && b1.votes@[last].entry_id == id);
    assert(voted_for(b1.votes@, who, id));
}

} // verus!
