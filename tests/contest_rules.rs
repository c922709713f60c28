use contcont::config::{
    default_art_enabled, default_database_database, default_database_host,
    default_database_password, default_database_port, default_database_user,
    default_listen_addr, default_literature_enabled, default_static_files_directory_path,
};
use contcont::error::ContestError;
use contcont::rules::{
    check_art_submission, check_literature_submission, check_result, check_submission, check_vote,
    Category, ContestRules, MAX_IMAGE_BYTES,
};
use contcont::window::{phase_status, result_status, Window};

const DAY: i64 = 86400;
const YEAR: i64 = 365 * DAY;

fn rules() -> ContestRules {
    ContestRules {
        literature_enabled: true,
        art_enabled: true,
        submission: Window::new(1_000_000, 2_000_000),
        voting: Window::new(3_000_000, 4_000_000),
    }
}

#[test]
fn phase_status_includes_both_ends() {
    let w = Window::new(100, 200);
    assert!(!phase_status(99, w).opened);
    assert!(phase_status(100, w).opened);
    assert!(phase_status(150, w).opened);
    assert!(phase_status(200, w).opened);
    assert!(!phase_status(201, w).opened);
    let s = phase_status(150, w);
    assert_eq!(s.open_at, 100);
    assert_eq!(s.close_at, 200);
}

#[test]
fn results_open_only_after_voting_closes() {
    let w = Window::new(100, 200);
    assert!(!result_status(200, w).opened);
    assert!(result_status(201, w).opened);
    assert_eq!(result_status(201, w).open_at, 200);
}

#[test]
fn submission_outside_window_same_error_however_far() {
    let r = rules();
    let open = r.submission.open_at;
    let close = r.submission.close_at;
    for now in [open - 1, open - YEAR, close + 1, close + YEAR] {
        assert_eq!(
            check_literature_submission(&r, now, "title", "text", 0),
            Err(ContestError::SubmissionNotAvailable)
        );
        assert_eq!(
            check_art_submission(&r, now, "title", "desc", 10, 0),
            Err(ContestError::SubmissionNotAvailable)
        );
    }
    assert_eq!(check_literature_submission(&r, open, "title", "text", 0), Ok(()));
    assert_eq!(check_literature_submission(&r, close, "title", "text", 0), Ok(()));
}

#[test]
fn submission_checks_run_in_order() {
    let mut r = rules();
    let now = r.submission.open_at + 10;
    let long_title = "a".repeat(101);
    // text length is checked before the window and the uniqueness
    assert_eq!(
        check_literature_submission(&r, r.submission.close_at + 1, &long_title, "x", 1),
        Err(ContestError::TooLongText)
    );
    assert_eq!(
        check_literature_submission(&r, now, "t", "x", 1),
        Err(ContestError::AlreadySubmitted)
    );
    r.literature_enabled = false;
    assert_eq!(
        check_literature_submission(&r, now, &long_title, "x", 1),
        Err(ContestError::NotEnabled)
    );
    assert_eq!(
        check_submission(&r, Category::Art, now, 1, 1, MAX_IMAGE_BYTES + 1, 0),
        Err(ContestError::TooLargeImage)
    );
    assert_eq!(check_submission(&r, Category::Art, now, 1, 1, MAX_IMAGE_BYTES, 0), Ok(()));
}

#[test]
fn text_limits_count_grapheme_clusters() {
    let r = rules();
    let now = r.submission.open_at;
    // one hundred clusters of two characters each: within the limit
    let clusters = "e\u{301}".repeat(100);
    assert_eq!(clusters.chars().count(), 200);
    assert_eq!(check_literature_submission(&r, now, &clusters, "x", 0), Ok(()));
    let too_long = "e\u{301}".repeat(101);
    assert_eq!(
        check_literature_submission(&r, now, &too_long, "x", 0),
        Err(ContestError::TooLongText)
    );
    assert_eq!(check_literature_submission(&r, now, "t", &"가".repeat(7000), 0), Ok(()));
    assert_eq!(
        check_literature_submission(&r, now, "t", &"가".repeat(7001), 0),
        Err(ContestError::TooLongText)
    );
    assert_eq!(check_art_submission(&r, now, "t", &"d".repeat(2000), 1, 0), Ok(()));
    assert_eq!(
        check_art_submission(&r, now, "t", &"d".repeat(2001), 1, 0),
        Err(ContestError::TooLongText)
    );
}

#[test]
fn vote_checks_run_in_order() {
    let r = rules();
    let now = r.voting.open_at;
    assert_eq!(check_vote(&r, Category::Art, now, true, false, 4), Ok(()));
    assert_eq!(
        check_vote(&r, Category::Art, now, true, false, 5),
        Err(ContestError::TooManyVotes)
    );
    assert_eq!(
        check_vote(&r, Category::Art, now, true, true, 5),
        Err(ContestError::AlreadyVoted)
    );
    assert_eq!(
        check_vote(&r, Category::Art, now, false, true, 5),
        Err(ContestError::EntryNotFound)
    );
    assert_eq!(
        check_vote(&r, Category::Art, r.voting.close_at + 1, false, true, 5),
        Err(ContestError::VotingNotAvailable)
    );
    let mut off = r;
    off.art_enabled = false;
    assert_eq!(
        check_vote(&off, Category::Art, now, true, false, 0),
        Err(ContestError::NotEnabled)
    );
}

#[test]
fn results_wait_for_voting_to_end() {
    let r = rules();
    assert_eq!(
        check_result(&r, Category::Literature, r.voting.close_at),
        Err(ContestError::VotingNotEnded)
    );
    assert_eq!(check_result(&r, Category::Literature, r.voting.close_at + 1), Ok(()));
}

#[test]
fn error_status_codes() {
    assert_eq!(ContestError::AlreadySubmitted.status(), 409);
    assert_eq!(ContestError::AlreadyVoted.status(), 409);
    assert_eq!(ContestError::TooManyVotes.status(), 409);
    assert_eq!(ContestError::EntryNotFound.status(), 404);
    assert_eq!(ContestError::TooLongText.status(), 400);
    assert_eq!(ContestError::StorageFull.status(), 500);
    assert!(ContestError::TooManyVotes.is_conflict());
    assert!(!ContestError::VotingNotEnded.is_conflict());
    assert_eq!(ContestError::TooManyVotes.message(), "too many vote");
}

#[test]
fn config_defaults() {
    assert_eq!(default_listen_addr(), "0.0.0.0:3000");
    assert_eq!(default_database_host(), "localhost");
    assert_eq!(default_database_port(), 5432);
    assert_eq!(default_database_user(), "postgres");
    assert_eq!(default_database_password(), "contcont");
    assert_eq!(default_database_database(), "postgres");
    assert_eq!(default_static_files_directory_path(), "../frontend/dist");
    assert!(default_literature_enabled());
    assert!(default_art_enabled());
}
