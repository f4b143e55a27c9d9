use candfans::download::{
    complete, conclude, covers, download_all, failed_references, plan_all, plan_download,
    Completion, Outcome, OutcomeKind, Plan, Transfer,
};
use candfans::error::Error;

fn wanted_mp4() -> Vec<String> {
    vec!["mp4".to_string()]
}

#[test]
fn wanted_reference_is_fetched_from_the_media_host() {
    let plan = plan_download("/user/1/movie.mp4", &wanted_mp4());
    assert_eq!(
        plan,
        Plan::Fetch {
            url: "https://video.candfans.jp/user/1/movie.mp4".to_string(),
            file_name: "_user_1_movie.mp4".to_string(),
        }
    );
}

#[test]
fn unwanted_extension_is_skipped() {
    assert_eq!(plan_download("/user/1/photo.jpg", &wanted_mp4()), Plan::Skip);
}

#[test]
fn longer_extension_is_skipped_not_saved() {
    assert_eq!(plan_download("/dir/foo.mp4x", &wanted_mp4()), Plan::Skip);
    let plan = plan_download("foo.mp4x", &wanted_mp4());
    assert!(!matches!(plan, Plan::Fetch { .. }));
}

#[test]
fn extension_filter_is_case_sensitive() {
    assert_eq!(plan_download("/dir/foo.MP4", &wanted_mp4()), Plan::Skip);
    assert_eq!(plan_download("/dir/foo.Mp4", &wanted_mp4()), Plan::Skip);
}

#[test]
fn suffix_of_the_name_without_a_dot_is_no_extension() {
    assert_eq!(plan_download("/dir/foomp4", &wanted_mp4()), Plan::Malformed);
    assert_eq!(plan_download("/dir.mp4/foo", &wanted_mp4()), Plan::Malformed);
}

#[test]
fn malformed_references_fail_without_a_transfer() {
    for reference in ["", "noslash", "no.ext/here"] {
        let plan = plan_download(reference, &wanted_mp4());
        assert_eq!(plan, Plan::Malformed);
        assert_eq!(plan.settled(), Some(Outcome::Failed(Error::MalformedReference)));
        assert_eq!(conclude(&plan, None), Outcome::Failed(Error::MalformedReference));
    }
}

#[test]
fn nothing_is_wanted_with_no_extensions() {
    assert_eq!(plan_download("/user/1/movie.mp4", &[]), Plan::Skip);
}

#[test]
fn any_of_several_extensions_is_wanted() {
    let wanted = vec!["jpg".to_string(), "mp4".to_string()];
    assert!(matches!(plan_download("/a/b.mp4", &wanted), Plan::Fetch { .. }));
    assert!(matches!(plan_download("/a/b.jpg", &wanted), Plan::Fetch { .. }));
    assert_eq!(plan_download("/a/b.png", &wanted), Plan::Skip);
}

#[test]
fn settled_plans_need_no_transfer() {
    assert_eq!(Plan::Skip.settled(), Some(Outcome::Skipped));
    let fetch = Plan::Fetch { url: "u".to_string(), file_name: "f".to_string() };
    assert_eq!(fetch.settled(), None);
}

#[test]
fn transfer_outcomes_carry_the_cause() {
    assert_eq!(Transfer::Stored.outcome(), Outcome::Saved);
    assert_eq!(
        Transfer::TransportFailed("timed out".to_string()).outcome(),
        Outcome::Failed(Error::Transport("timed out".to_string()))
    );
    assert_eq!(
        Transfer::WriteFailed("disk full".to_string()).outcome(),
        Outcome::Failed(Error::Io("disk full".to_string()))
    );
}

#[test]
fn conclude_joins_plan_and_transfer() {
    let fetch = plan_download("/a/b.mp4", &wanted_mp4());
    assert_eq!(conclude(&fetch, Some(Transfer::Stored)), Outcome::Saved);
    assert_eq!(
        conclude(&fetch, Some(Transfer::WriteFailed("denied".to_string()))),
        Outcome::Failed(Error::Io("denied".to_string()))
    );
    assert_eq!(conclude(&Plan::Skip, None), Outcome::Skipped);
    assert_eq!(conclude(&Plan::Skip, Some(Transfer::Stored)), Outcome::Skipped);
}

#[test]
fn download_all_of_nothing_is_empty() {
    let references: Vec<&str> = Vec::new();
    assert!(plan_all(&references, &wanted_mp4()).is_empty());
    assert!(covers(&references, &wanted_mp4(), &Vec::new()));
    assert!(download_all(&references, &wanted_mp4(), Vec::new()).is_empty());
}

#[test]
fn download_all_gives_one_outcome_per_reference() {
    let references = vec!["/a/1.mp4", "/a/2.jpg", "bad", "/a/1.mp4", "/a/3.mp4"];
    let transfers = vec![
        Some(Transfer::Stored),
        None,
        None,
        Some(Transfer::TransportFailed("refused".to_string())),
        Some(Transfer::WriteFailed("full".to_string())),
    ];
    assert!(covers(&references, &wanted_mp4(), &transfers));
    let outcomes = download_all(&references, &wanted_mp4(), transfers);
    assert_eq!(
        outcomes,
        vec![
            Outcome::Saved,
            Outcome::Skipped,
            Outcome::Failed(Error::MalformedReference),
            Outcome::Failed(Error::Transport("refused".to_string())),
            Outcome::Failed(Error::Io("full".to_string())),
        ]
    );
}

#[test]
fn one_failure_leaves_the_other_outcomes_as_they_are() {
    let references = vec!["/a/1.mp4", "/a/2.mp4", "/a/3.jpg"];
    let clean = vec![Some(Transfer::Stored), Some(Transfer::Stored), None];
    let broken = vec![
        Some(Transfer::Stored),
        Some(Transfer::TransportFailed("reset".to_string())),
        None,
    ];
    let first = download_all(&references, &wanted_mp4(), clean);
    let second = download_all(&references, &wanted_mp4(), broken);
    assert_eq!(first[0], second[0]);
    assert_eq!(first[2], second[2]);
    assert_eq!(second[0], Outcome::Saved);
    assert_eq!(second[1], Outcome::Failed(Error::Transport("reset".to_string())));
    assert_eq!(second[2], Outcome::Skipped);
}

#[test]
fn covers_asks_for_a_transfer_where_one_is_planned() {
    let references = vec!["/a/1.mp4", "/a/2.jpg"];
    assert!(covers(&references, &wanted_mp4(), &vec![Some(Transfer::Stored), None]));
    assert!(!covers(&references, &wanted_mp4(), &vec![None, None]));
    assert!(!covers(&references, &wanted_mp4(), &vec![Some(Transfer::Stored)]));
    assert!(covers(
        &references,
        &wanted_mp4(),
        &vec![Some(Transfer::Stored), Some(Transfer::Stored)]
    ));
}

#[test]
fn plan_all_plans_every_reference_in_order() {
    let references = vec!["/a/1.mp4", "x", "/a/2.jpg"];
    let plans = plan_all(&references, &wanted_mp4());
    assert_eq!(plans.len(), 3);
    assert_eq!(plans[0], plan_download("/a/1.mp4", &wanted_mp4()));
    assert_eq!(plans[1], Plan::Malformed);
    assert_eq!(plans[2], Plan::Skip);
}

#[test]
fn failed_references_are_listed_in_order_and_as_often_as_they_failed() {
    let references = vec!["/a/1.mp4", "bad", "/a/2.jpg", "bad", "/a/3.mp4"];
    let outcomes = vec![
        Outcome::Saved,
        Outcome::Failed(Error::MalformedReference),
        Outcome::Skipped,
        Outcome::Failed(Error::MalformedReference),
        Outcome::Failed(Error::Io("full".to_string())),
    ];
    assert_eq!(failed_references(&references, &outcomes), vec!["bad", "bad", "/a/3.mp4"]);
}

#[test]
fn failed_references_of_a_clean_batch_are_none() {
    let references = vec!["/a/1.mp4", "/a/2.jpg"];
    let outcomes = vec![Outcome::Saved, Outcome::Skipped];
    assert!(failed_references(&references, &outcomes).is_empty());
    assert!(failed_references(&Vec::new(), &Vec::new()).is_empty());
}

#[test]
fn outcome_kinds_drop_the_cause() {
    assert_eq!(Outcome::Saved.kind(), OutcomeKind::Saved);
    assert_eq!(Outcome::Skipped.kind(), OutcomeKind::Skipped);
    assert_eq!(Outcome::Failed(Error::MalformedReference).kind(), OutcomeKind::Failed);
    assert_eq!(Outcome::Failed(Error::Io("x".to_string())).kind(), OutcomeKind::Failed);
}

#[test]
fn completion_counts_itself() {
    let done = complete("/a/1.mp4", &Outcome::Saved, 0, 8);
    assert_eq!(
        done,
        Completion { kind: OutcomeKind::Saved, position: 1, total: 8, reference: "/a/1.mp4" }
    );
    let last = complete("/a/8.mp4", &Outcome::Skipped, 7, 8);
    assert_eq!(last.position, 8);
    assert_eq!(last.kind, OutcomeKind::Skipped);
}

#[test]
fn completion_reports_a_failed_reference_as_an_error() {
    let failed = complete("bad", &Outcome::Failed(Error::MalformedReference), 2, 5);
    assert_eq!(failed.position, 3);
    assert_eq!(failed.result(), Err("bad"));
    assert_eq!(complete("/a/1.mp4", &Outcome::Saved, 0, 5).result(), Ok(()));
    assert_eq!(complete("/a/1.jpg", &Outcome::Skipped, 1, 5).result(), Ok(()));
}
