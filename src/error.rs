use vstd::prelude::*;

verus! {

/// Every way a contest or login operation can be refused.
#[derive(Debug, Clone, Copy, PartialEq, Eq, Structural)]
pub enum ContestError {
    /// The category is switched off.
    NotEnabled,
    /// A title, body or description is longer than its limit.
    TooLongText,
    /// An image is larger than its limit.
    TooLargeImage,
    /// The submission window is not open.
    SubmissionNotAvailable,
    /// The author already has an entry in this category.
    AlreadySubmitted,
    /// The voting window is not open.
    VotingNotAvailable,
    /// The target entry does not exist.
    EntryNotFound,
    /// The voter already voted for this entry.
    AlreadyVoted,
    /// The voter has used up all votes of this category.
    TooManyVotes,
    /// Results are asked for before voting has ended.
    VotingNotEnded,
    /// The store cannot take another row.
    StorageFull,
}

impl ContestError {
    /// True of the errors that report a clash with what is already stored.
    pub open spec fn spec_is_conflict(self) -> bool {
        self is AlreadySubmitted || self is AlreadyVoted || self is TooManyVotes
    }

    /// HTTP status code that reports this error.
    pub fn status(&self) -> (r: u16)
        ensures
            self.spec_is_conflict() ==> r == 409,
            self is EntryNotFound ==> r == 404,
            self is StorageFull ==> r == 500,
            !self.spec_is_conflict() && !(self is EntryNotFound) && !(self is StorageFull) ==> r
                == 400,
    {
        match self {
            ContestError::AlreadySubmitted | ContestError::AlreadyVoted
            | ContestError::TooManyVotes => 409,
            ContestError::EntryNotFound => 404,
            ContestError::StorageFull => 500,
            _ => 400,
        }
    }

    /// True of the errors that report a clash with what is already stored.
    pub fn is_conflict(&self) -> (r: bool)
        ensures
            r == self.spec_is_conflict(),
    {
        match self {
            ContestError::AlreadySubmitted | ContestError::AlreadyVoted
            | ContestError::TooManyVotes => true,
            _ => false,
        }
    }

    /// Short message for the client.
    pub fn message(&self) -> &'static str {
        match self {
            ContestError::NotEnabled => "category not enabled",
            ContestError::TooLongText => "too long text",
            ContestError::TooLargeImage => "too large image",
            ContestError::SubmissionNotAvailable => "submission not available",
            ContestError::AlreadySubmitted => "already submitted user",
            ContestError::VotingNotAvailable => "voting not available",
            ContestError::EntryNotFound => "entry not found",
            ContestError::AlreadyVoted => "already voted",
            ContestError::TooManyVotes => "too many vote",
            ContestError::VotingNotEnded => "voting not ended",
            ContestError::StorageFull => "storage is full",
        }
    }
}

} // verus!
