use crate::error::ContestError;
use crate::window::Window;
use unicode_segmentation::UnicodeSegmentation;
use vstd::prelude::*;

verus! {

/// Longest title, in extended grapheme clusters.
pub const MAX_TITLE_GRAPHEMES: usize = 100;

/// Longest text of a literature entry, in extended grapheme clusters.
pub const MAX_TEXT_GRAPHEMES: usize = 7000;

/// Longest description of an art entry, in extended grapheme clusters.
pub const MAX_DESCRIPTION_GRAPHEMES: usize = 2000;

/// Largest image of an art entry, in bytes.
pub const MAX_IMAGE_BYTES: usize = 10 * 1024 * 1024;

/// Votes that one voter may cast in one category.
pub const MAX_VOTES_PER_VOTER: u64 = 5;

/// The two kinds of entry.
#[derive(Debug, Clone, Copy, PartialEq, Eq, Structural)]
pub enum Category {
    Literature,
    Art,
}

/// Longest body in the category: the text of literature, the description of art.
pub open spec fn body_limit(category: Category) -> int {
    match category {
        Category::Literature => MAX_TEXT_GRAPHEMES as int,
        Category::Art => MAX_DESCRIPTION_GRAPHEMES as int,
    }
}

/// The configured switches and windows of a contest.
#[derive(Debug, Clone, Copy, PartialEq, Eq, Structural)]
pub struct ContestRules {
    pub literature_enabled: bool,
    pub art_enabled: bool,
    pub submission: Window,
    pub voting: Window,
}

impl ContestRules {
    pub open spec fn spec_enabled(self, category: Category) -> bool {
        match category {
            Category::Literature => self.literature_enabled,
            Category::Art => self.art_enabled,
        }
    }

    /// Whether the category is switched on.
    pub fn enabled(&self, category: Category) -> (r: bool)
        ensures
            r == self.spec_enabled(category),
    {
        match category {
            Category::Literature => self.literature_enabled,
            Category::Art => self.art_enabled,
        }
    }
}

/// What a submission gets, checked in this order, the first failure winning:
/// category enabled, text lengths, image size, window open, no earlier entry.
pub open spec fn submission_verdict(
    rules: ContestRules,
    category: Category,
    now: i64,
    title_len: int,
    body_len: int,
    data_len: int,
    already_submitted: bool,
) -> Result<(), ContestError> {
    if !rules.spec_enabled(category) {
        Err(ContestError::NotEnabled)
    } else if title_len > MAX_TITLE_GRAPHEMES || body_len > body_limit(category) {
        Err(ContestError::TooLongText)
    } else if category == Category::Art && data_len > MAX_IMAGE_BYTES {
        Err(ContestError::TooLargeImage)
    } else if !rules.submission.contains(now) {
        Err(ContestError::SubmissionNotAvailable)
    } else if already_submitted {
        Err(ContestError::AlreadySubmitted)
    } else {
        Ok(())
    }
}

/// What a vote gets, checked in this order, the first failure winning:
/// category enabled, window open, target exists, no earlier vote on the
/// target, votes left.
pub open spec fn vote_verdict(
    rules: ContestRules,
    category: Category,
    now: i64,
    target_exists: bool,
    already_voted: bool,
    votes_cast: int,
) -> Result<(), ContestError> {
    if !rules.spec_enabled(category) {
        Err(ContestError::NotEnabled)
    } else if !rules.voting.contains(now) {
        Err(ContestError::VotingNotAvailable)
    } else if !target_exists {
        Err(ContestError::EntryNotFound)
    } else if already_voted {
        Err(ContestError::AlreadyVoted)
    } else if votes_cast >= MAX_VOTES_PER_VOTER {
        Err(ContestError::TooManyVotes)
    } else {
        Ok(())
    }
}

/// Results of an enabled category may be read once voting has ended.
pub open spec fn result_verdict(rules: ContestRules, category: Category, now: i64) -> Result<
    (),
    ContestError,
> {
    if !rules.spec_enabled(category) {
        Err(ContestError::NotEnabled)
    } else if !rules.voting.has_ended(now) {
        Err(ContestError::VotingNotEnded)
    } else {
        Ok(())
    }
}

/// Decides a submission from the measured sizes of its parts and the number
/// of entries that the author already has in the category.
pub fn check_submission(
    rules: &ContestRules,
    category: Category,
    now: i64,
    title_len: usize,
    body_len: usize,
    data_len: usize,
    existing: u64,
) -> (r: Result<(), ContestError>)
    ensures
        r == submission_verdict(
            *rules,
            category,
            now,
            title_len as int,
            body_len as int,
            data_len as int,
            existing > 0,
        ),
{
    if !rules.enabled(category) {
        return Err(ContestError::NotEnabled);
    }
    let body_max = match category {
        Category::Literature => MAX_TEXT_GRAPHEMES,
        Category::Art => MAX_DESCRIPTION_GRAPHEMES,
    };
    if title_len > MAX_TITLE_GRAPHEMES || body_len > body_max {
        return Err(ContestError::TooLongText);
    }
    if category == Category::Art && data_len > MAX_IMAGE_BYTES {
        return Err(ContestError::TooLargeImage);
    }
    if !rules.submission.is_open(now) {
        return Err(ContestError::SubmissionNotAvailable);
    }
    if existing > 0 {
        return Err(ContestError::AlreadySubmitted);
    }
    Ok(())
}

/// Decides a vote from what the store holds: whether the target exists,
/// whether this voter voted for it, and how many votes the voter has cast.
pub fn check_vote(
    rules: &ContestRules,
    category: Category,
    now: i64,
    target_exists: bool,
    already_voted: bool,
    votes_cast: u64,
) -> (r: Result<(), ContestError>)
    ensures
        r == vote_verdict(*rules, category, now, target_exists, already_voted, votes_cast as int),
{
    if !rules.enabled(category) {
        return Err(ContestError::NotEnabled);
    }
    if !rules.voting.is_open(now) {
        return Err(ContestError::VotingNotAvailable);
    }
    if !target_exists {
        return Err(ContestError::EntryNotFound);
    }
    if already_voted {
        return Err(ContestError::AlreadyVoted);
    }
    if votes_cast >= MAX_VOTES_PER_VOTER {
        return Err(ContestError::TooManyVotes);
    }
    Ok(())
}

/// Decides whether the results of a category may be read now.
pub fn check_result(rules: &ContestRules, category: Category, now: i64) -> (r: Result<
    (),
    ContestError,
>)
    ensures
        r == result_verdict(*rules, category, now),
{
    if !rules.enabled(category) {
        return Err(ContestError::NotEnabled);
    }
    if !rules.voting.is_ended(now) {
        return Err(ContestError::VotingNotEnded);
    }
    Ok(())
}

/// The number of extended grapheme clusters in a text.
pub uninterp spec fn grapheme_count_of(s: Seq<char>) -> nat;

/// Relies on `UnicodeSegmentation::graphemes(s, true)` and `Iterator::count`:
/// the number of extended grapheme clusters, which depends on the text alone.
#[verifier::external_body]
fn grapheme_count(s: &str) -> (r: usize)
    ensures
        r as nat == grapheme_count_of(s@),
{
    s.graphemes(true).count()
}

/// Decides a literature submission from its title and text, counting each
/// in grapheme clusters.
pub fn check_literature_submission(
    rules: &ContestRules,
    now: i64,
    title: &str,
    text: &str,
    existing: u64,
) -> (r: Result<(), ContestError>)
    ensures
        r == submission_verdict(
            *rules,
            Category::Literature,
            now,
            grapheme_count_of(title@) as int,
            grapheme_count_of(text@) as int,
            0,
            existing > 0,
        ),
{
    let title_len = grapheme_count(title);
    let text_len = grapheme_count(text);
    check_submission(rules, Category::Literature, now, title_len, text_len, 0, existing)
}

/// Decides an art submission from its title, description and image size,
/// counting the texts in grapheme clusters.
pub fn check_art_submission(
    rules: &ContestRules,
    now: i64,
    title: &str,
    description: &str,
    data_len: usize,
    existing: u64,
) -> (r: Result<(), ContestError>)
    ensures
        r == submission_verdict(
            *rules,
            Category::Art,
            now,
            grapheme_count_of(title@) as int,
            grapheme_count_of(description@) as int,
            data_len as int,
            existing > 0,
        ),
{
    let title_len = grapheme_count(title);
    let description_len = grapheme_count(description);
    check_submission(rules, Category::Art, now, title_len, description_len, data_len, existing)
}

/// A submission outside its window is refused with the same error however
/// far outside the moment lies, provided that the checks before the window
/// pass.
pub proof fn lemma_outside_window_same_error(
    rules: ContestRules,
    category: Category,
    t1: i64,
    t2: i64,
    title_len: int,
    body_len: int,
    data_len: int,
    already_submitted: bool,
)
    requires
        !rules.submission.contains(t1),
        !rules.submission.contains(t2),
    ensures
        submission_verdict(rules, category, t1, title_len, body_len, data_len, already_submitted)
            == submission_verdict(
            rules,
            category,
            t2,
            title_len,
            body_len,
            data_len,
            already_submitted,
        ),
        rules.spec_enabled(category) && title_len <= MAX_TITLE_GRAPHEMES && body_len <= body_limit(
            category,
        ) && (category == Category::Art ==> data_len <= MAX_IMAGE_BYTES) ==> submission_verdict(
            rules,
            category,
            t1,
            title_len,
            body_len,
            data_len,
            already_submitted,
        ) == Err::<(), ContestError>(ContestError::SubmissionNotAvailable),
{
}

} // verus!
