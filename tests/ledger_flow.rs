use contcont::error::ContestError;
use contcont::identity::Identity;
use contcont::ledger::{Board, NewEntry};
use contcont::rules::{Category, ContestRules};
use contcont::tally::{rank_by_votes, TallyRow};
use contcont::window::Window;

fn rules() -> ContestRules {
    ContestRules {
        literature_enabled: true,
        art_enabled: true,
        submission: Window::new(100, 200),
        voting: Window::new(300, 400),
    }
}

fn who(handle: &str, instance: &str) -> Identity {
    Identity::new(handle.to_string(), instance.to_string())
}

fn entry(title: &str) -> NewEntry {
    NewEntry {
        title: title.to_string(),
        text: "body".to_string(),
        data: vec![1, 2, 3],
        is_nsfw: false,
    }
}

/// A board with one entry per author `author0`, `author1`, ...
fn board_with_entries(category: Category, n: usize) -> Board {
    let r = rules();
    let mut b = Board::new(category);
    for i in 0..n {
        let id = b
            .submit(&r, 150, &who(&format!("author{}", i), "example.com"), entry("t"))
            .unwrap();
        assert_eq!(id, i as i32 + 1);
    }
    b
}

#[test]
fn second_submission_is_conflict() {
    let r = rules();
    let mut b = Board::new(Category::Literature);
    let alice = who("alice", "example.com");
    assert_eq!(b.submit(&r, 150, &alice, entry("first")), Ok(1));
    let second = b.submit(&r, 160, &alice, entry("second"));
    assert_eq!(second, Err(ContestError::AlreadySubmitted));
    assert_eq!(second.unwrap_err().status(), 409);
    assert_eq!(b.entries.len(), 1);
    assert_eq!(b.entries[0].title, "first");
    // same handle on another server is another identity
    assert_eq!(b.submit(&r, 160, &who("alice", "other.org"), entry("x")), Ok(2));
    // handles compare case-sensitively
    assert_eq!(b.submit(&r, 160, &who("Alice", "example.com"), entry("y")), Ok(3));
}

#[test]
fn repeated_submissions_only_one_succeeds() {
    let r = rules();
    let mut b = Board::new(Category::Art);
    let bob = who("bob", "example.com");
    let mut ok = 0;
    for _ in 0..8 {
        if b.submit(&r, 150, &bob, entry("t")).is_ok() {
            ok += 1;
        }
    }
    assert_eq!(ok, 1);
    assert_eq!(b.entries.len(), 1);
}

#[test]
fn refused_submission_changes_nothing() {
    let r = rules();
    let mut b = Board::new(Category::Art);
    let carol = who("carol", "example.com");
    assert_eq!(
        b.submit(&r, 201, &carol, entry("late")),
        Err(ContestError::SubmissionNotAvailable)
    );
    let mut big = entry("big");
    big.data = vec![0u8; 10 * 1024 * 1024 + 1];
    assert_eq!(b.submit(&r, 150, &carol, big), Err(ContestError::TooLargeImage));
    assert_eq!(b.entries.len(), 0);
    assert_eq!(b.next_entry_id, 1);
}

#[test]
fn sixth_vote_is_conflict() {
    let r = rules();
    let mut b = board_with_entries(Category::Literature, 6);
    let voter = who("voter", "example.com");
    for id in 1..=5 {
        assert_eq!(b.cast_vote(&r, 350, &voter, id), Ok(()));
    }
    assert_eq!(b.vote_status(&voter, 1).vote_count, 5);
    assert!(b.vote_status(&voter, 1).voted);
    assert!(!b.vote_status(&voter, 6).voted);
    let sixth = b.cast_vote(&r, 350, &voter, 6);
    assert_eq!(sixth, Err(ContestError::TooManyVotes));
    assert!(sixth.unwrap_err().is_conflict());
    assert_eq!(b.vote_status(&voter, 6).vote_count, 5);
    assert_eq!(b.count_votes_for(6), 0);
}

#[test]
fn double_vote_counts_once() {
    let r = rules();
    let mut b = board_with_entries(Category::Art, 2);
    let voter = who("voter", "example.com");
    assert_eq!(b.count_votes_for(2), 0);
    assert_eq!(b.cast_vote(&r, 300, &voter, 2), Ok(()));
    assert_eq!(b.cast_vote(&r, 301, &voter, 2), Err(ContestError::AlreadyVoted));
    assert_eq!(b.count_votes_for(2), 1);
    assert_eq!(b.vote_status(&voter, 2).vote_count, 1);
}

#[test]
fn vote_refusals() {
    let r = rules();
    let mut b = board_with_entries(Category::Art, 1);
    let voter = who("voter", "example.com");
    assert_eq!(b.cast_vote(&r, 299, &voter, 1), Err(ContestError::VotingNotAvailable));
    assert_eq!(b.cast_vote(&r, 401, &voter, 1), Err(ContestError::VotingNotAvailable));
    assert_eq!(b.cast_vote(&r, 350, &voter, 42), Err(ContestError::EntryNotFound));
    let mut off = r;
    off.art_enabled = false;
    assert_eq!(b.cast_vote(&off, 350, &voter, 1), Err(ContestError::NotEnabled));
    assert_eq!(b.votes.len(), 0);
}

#[test]
fn tally_before_close_is_refused() {
    let r = rules();
    let b = board_with_entries(Category::Literature, 3);
    assert_eq!(b.tally(&r, 400).unwrap_err(), ContestError::VotingNotEnded);
    assert_eq!(b.tally(&r, 300).unwrap_err(), ContestError::VotingNotEnded);
    assert!(b.tally(&r, 401).is_ok());
}

#[test]
fn tally_orders_by_votes_then_id() {
    let r = rules();
    // A has id 1, B id 2, C id 3
    let mut b = board_with_entries(Category::Literature, 3);
    for v in 0..5 {
        let voter = who(&format!("v{}", v), "example.com");
        assert_eq!(b.cast_vote(&r, 350, &voter, 3), Ok(()));
        if v < 3 {
            assert_eq!(b.cast_vote(&r, 350, &voter, 1), Ok(()));
            assert_eq!(b.cast_vote(&r, 350, &voter, 2), Ok(()));
        }
    }
    let rows = b.tally(&r, 401).unwrap();
    assert_eq!(
        rows,
        vec![
            TallyRow { id: 3, vote_count: 5 },
            TallyRow { id: 1, vote_count: 3 },
            TallyRow { id: 2, vote_count: 3 },
        ]
    );
}

#[test]
fn rank_by_votes_example() {
    let rows = vec![
        TallyRow { id: 1, vote_count: 3 },
        TallyRow { id: 2, vote_count: 3 },
        TallyRow { id: 3, vote_count: 5 },
        TallyRow { id: 4, vote_count: 0 },
    ];
    assert_eq!(
        rank_by_votes(rows),
        vec![
            TallyRow { id: 3, vote_count: 5 },
            TallyRow { id: 1, vote_count: 3 },
            TallyRow { id: 2, vote_count: 3 },
            TallyRow { id: 4, vote_count: 0 },
        ]
    );
    assert_eq!(rank_by_votes(Vec::new()), Vec::<TallyRow>::new());
}

#[test]
fn entries_without_votes_appear_in_tally() {
    let r = rules();
    let b = board_with_entries(Category::Art, 2);
    assert_eq!(
        b.tally(&r, 401).unwrap(),
        vec![TallyRow { id: 1, vote_count: 0 }, TallyRow { id: 2, vote_count: 0 }]
    );
}
