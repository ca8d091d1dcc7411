use crates_mirror::extract::{extract_dir, ExtractDecision, ExtractRun};
use crates_mirror::fetch::{fetch_action, fetch_target, plan_fetch, select_versions, FetchAction};
use crates_mirror::index::{check_index, Package};
use crates_mirror::latest::{latest_link, plan_latest_links};
use crates_mirror::naming::{
    artifact_file_name, artifact_path, identifier, remote_url, strip_archive_suffix,
};
use crates_mirror::pool::{Pool, DEFAULT_MAX_PAR};
use crates_mirror::reconcile::{
    contains_id, orphaned_artifacts, orphaned_sources, plan_reconcile, trash_move,
    valid_identifiers,
};
use crates_mirror::report::{ItemOutcome, StageReport};
use crates_mirror::Error;

fn strings(v: &[&str]) -> Vec<String> {
    v.iter().map(|s| s.to_string()).collect()
}

fn package(name: &str, versions: &[&str], highest: &str) -> Package {
    Package::new(name.to_string(), strings(versions), highest.to_string())
}

#[test]
fn names_are_built_from_name_and_version() {
    assert_eq!(identifier("serde", "1.0.0"), "serde-1.0.0");
    assert_eq!(artifact_file_name("serde", "1.0.0"), "serde-1.0.0.crate");
    assert_eq!(artifact_path("serde", "1.0.0"), "crates/serde-1.0.0.crate");
    assert_eq!(
        remote_url("serde", "1.0.0"),
        "https://static.crates.io/crates/serde/serde-1.0.0.crate"
    );
}

#[test]
fn names_are_deterministic() {
    assert_eq!(remote_url("pkg-a", "2.0.0"), remote_url("pkg-a", "2.0.0"));
    assert_eq!(artifact_path("pkg-a", "2.0.0"), artifact_path("pkg-a", "2.0.0"));
    assert_ne!(artifact_path("pkg-a", "2.0.0"), artifact_path("pkg-a", "1.0.0"));
}

#[test]
fn strip_removes_only_the_trailing_extension() {
    assert_eq!(strip_archive_suffix("pkg-a-2.0.0.crate"), "pkg-a-2.0.0");
    assert_eq!(strip_archive_suffix("notes.txt"), "notes.txt");
    assert_eq!(strip_archive_suffix("a.crate-1.crate"), "a.crate-1");
    assert_eq!(strip_archive_suffix(".crate"), "");
    assert_eq!(strip_archive_suffix("crate"), "crate");
    assert_eq!(strip_archive_suffix(""), "");
}

#[test]
fn extracted_directory_is_the_archive_name_without_extension() {
    let file = artifact_file_name("pkg-a", "2.0.0");
    assert_eq!(strip_archive_suffix(&file), identifier("pkg-a", "2.0.0"));
    assert_eq!(extract_dir("pkg-a-2.0.0.crate"), "sources/pkg-a-2.0.0");
}

#[test]
fn only_most_recent_fetches_the_highest_version() {
    let index = vec![package("pkg-a", &["1.0.0", "2.0.0"], "2.0.0")];
    let jobs = plan_fetch(&index, true);
    assert_eq!(jobs.len(), 1);
    assert_eq!(jobs[0].name, "pkg-a");
    assert_eq!(jobs[0].versions, strings(&["2.0.0"]));
    let target = fetch_target(&jobs[0].name, &jobs[0].versions[0]);
    assert_eq!(target.path, "crates/pkg-a-2.0.0.crate");
    assert_eq!(target.url, "https://static.crates.io/crates/pkg-a/pkg-a-2.0.0.crate");
}

#[test]
fn every_version_is_fetched_in_index_order() {
    let index = vec![
        package("pkg-a", &["1.0.0", "2.0.0"], "2.0.0"),
        package("pkg-b", &["0.3.0", "0.1.0"], "0.3.0"),
    ];
    let jobs = plan_fetch(&index, false);
    assert_eq!(jobs.len(), 2);
    assert_eq!(jobs[0].versions, strings(&["1.0.0", "2.0.0"]));
    assert_eq!(jobs[1].name, "pkg-b");
    assert_eq!(jobs[1].versions, strings(&["0.3.0", "0.1.0"]));
    assert_eq!(select_versions(&index[1], true), strings(&["0.3.0"]));
}

#[test]
fn fetch_action_by_mode() {
    assert_eq!(fetch_action(false, true), FetchAction::Download);
    assert_eq!(fetch_action(false, false), FetchAction::Download);
    assert_eq!(fetch_action(true, true), FetchAction::Skip);
    assert_eq!(fetch_action(true, false), FetchAction::Replace);
}

#[test]
fn update_only_rerun_requests_nothing_present() {
    // After a first run the archive is on disk; a second update-only run skips it.
    let first = fetch_action(false, true);
    assert_eq!(first, FetchAction::Download);
    let second = fetch_action(true, true);
    assert_eq!(second, FetchAction::Skip);
}

#[test]
fn pool_never_exceeds_its_permits() {
    let mut pool = Pool::new(DEFAULT_MAX_PAR);
    assert_eq!(pool.max(), 10);
    for _ in 0..10 {
        assert!(pool.try_acquire());
    }
    assert!(!pool.try_acquire());
    assert_eq!(pool.in_flight(), 10);
    assert!(pool.release());
    assert!(pool.try_acquire());
    assert_eq!(pool.in_flight(), 10);
    for _ in 0..10 {
        assert!(pool.release());
    }
    assert!(pool.is_idle());
    assert!(!pool.release());
    assert_eq!(pool.in_flight(), 0);
}

#[test]
fn update_only_extract_skips_existing_source() {
    let mut run = ExtractRun::new(None, true);
    assert_eq!(run.decide(true), ExtractDecision::Skip);
    assert_eq!(run.scheduled(), 0);
    assert_eq!(run.decide(false), ExtractDecision::Extract);
    assert_eq!(run.scheduled(), 1);
}

#[test]
fn refresh_extract_unpacks_existing_source() {
    let mut run = ExtractRun::new(None, false);
    assert_eq!(run.decide(true), ExtractDecision::Extract);
}

#[test]
fn extract_limit_stops_scheduling() {
    let mut run = ExtractRun::new(Some(2), false);
    assert_eq!(run.decide(false), ExtractDecision::Extract);
    assert_eq!(run.decide(true), ExtractDecision::Extract);
    assert_eq!(run.decide(false), ExtractDecision::Stop);
    assert_eq!(run.scheduled(), 2);
    let mut none = ExtractRun::new(Some(0), true);
    assert_eq!(none.decide(false), ExtractDecision::Stop);
}

#[test]
fn skipped_archives_do_not_count_toward_the_limit() {
    let mut run = ExtractRun::new(Some(1), true);
    assert_eq!(run.decide(true), ExtractDecision::Skip);
    assert_eq!(run.decide(false), ExtractDecision::Extract);
    assert_eq!(run.decide(false), ExtractDecision::Stop);
}

#[test]
fn valid_identifiers_cover_every_version() {
    let index = vec![
        package("pkg-a", &["1.0.0", "2.0.0"], "2.0.0"),
        package("pkg-b", &["0.1.0"], "0.1.0"),
    ];
    assert_eq!(
        valid_identifiers(&index),
        strings(&["pkg-a-1.0.0", "pkg-a-2.0.0", "pkg-b-0.1.0"])
    );
    let valid = valid_identifiers(&index);
    assert!(contains_id(&valid, &"pkg-b-0.1.0".to_string()));
    assert!(!contains_id(&valid, &"pkg-b-0.2.0".to_string()));
}

#[test]
fn yank_moves_orphaned_archive_to_trash() {
    let index = vec![package("pkg-a", &["1.0.0", "2.0.0"], "2.0.0")];
    let files = strings(&["old-0.1.0.crate", "pkg-a-2.0.0.crate"]);
    let plan = plan_reconcile(&index, &files, &Vec::new());
    assert_eq!(plan.to_trash, strings(&["old-0.1.0.crate"]));
    assert!(plan.to_delete.is_empty());
    let mv = trash_move(&plan.to_trash[0]);
    assert_eq!(mv.from, "crates/old-0.1.0.crate");
    assert_eq!(mv.to, "trash/old-0.1.0.crate");
}

#[test]
fn yank_deletes_orphaned_sources_only() {
    let index = vec![package("pkg-a", &["1.0.0", "2.0.0"], "2.0.0")];
    let dirs = strings(&["pkg-a-1.0.0", "old-0.1.0", "pkg-a-3.0.0"]);
    let files = strings(&["pkg-a-1.0.0.crate"]);
    let plan = plan_reconcile(&index, &files, &dirs);
    assert!(plan.to_trash.is_empty());
    assert_eq!(plan.to_delete, strings(&["old-0.1.0", "pkg-a-3.0.0"]));
}

#[test]
fn orphan_lists_against_explicit_identifiers() {
    let valid = strings(&["x-1"]);
    let files = strings(&["x-1.crate", "x-1", "x-2.crate", "y"]);
    assert_eq!(orphaned_artifacts(&files, &valid), strings(&["x-2.crate", "y"]));
    let dirs = strings(&["x-1", "x-1.crate"]);
    assert_eq!(orphaned_sources(&dirs, &valid), strings(&["x-1.crate"]));
}

#[test]
fn latest_links_one_per_package() {
    let index = vec![
        package("pkg-a", &["1.0.0", "2.0.0"], "2.0.0"),
        package("pkg-b", &["0.1.0", "0.2.0"], "0.2.0"),
    ];
    let links = plan_latest_links(&index);
    assert_eq!(links.len(), 2);
    assert_eq!(links[0].link, "latest/pkg-a-2.0.0");
    assert_eq!(links[0].target, "sources/pkg-a-2.0.0");
    assert_eq!(links[1].link, "latest/pkg-b-0.2.0");
    assert_eq!(latest_link(&index[1]).target, "sources/pkg-b-0.2.0");
}

#[test]
fn empty_index_is_refused() {
    assert!(matches!(check_index(&Vec::new()), Err(Error::EmptyIndex)));
    let index = vec![package("pkg-a", &["1.0.0"], "1.0.0")];
    assert!(check_index(&index).is_ok());
}

#[test]
fn report_counts_each_outcome() {
    let mut report = StageReport::new();
    report.record(ItemOutcome::Succeeded);
    report.record(ItemOutcome::Succeeded);
    report.record(ItemOutcome::Failed);
    report.record(ItemOutcome::Skipped);
    assert_eq!(report.succeeded, 2);
    assert_eq!(report.failed, 1);
    assert_eq!(report.skipped, 1);
}
