use gbhwdb::inventory::{LocalInventory, RemoteInventory};
use gbhwdb::local::LocalFile;
use gbhwdb::plan::{DeploymentPlan, RETENTION_SECONDS};
use gbhwdb::remote::RemoteFile;
use gbhwdb::strutil::{str_ends_with, str_eq, str_starts_with};

const H1: u128 = 0x11111111111111111111111111111111;
const H2: u128 = 0x22222222222222222222222222222222;
const H3: u128 = 0x33333333333333333333333333333333;
const H9: u128 = 0x99999999999999999999999999999999;
const NOW: i64 = 1_700_000_000;
const DAY: i64 = 86_400;

fn lf(key: &str, md5: u128) -> LocalFile {
    LocalFile {
        key: key.to_string(),
        absolute_path: format!("/build/{}", key),
        len: 4,
        md5,
    }
}

fn rf(key: &str, last_modified: Option<i64>, e_tag: Option<u128>) -> RemoteFile {
    RemoteFile {
        key: key.to_string(),
        len: 4,
        last_modified,
        e_tag,
    }
}

fn local_inv(entries: Vec<LocalFile>) -> LocalInventory {
    LocalInventory::from_entries(entries).expect("unique local keys")
}

fn remote_inv(entries: Vec<RemoteFile>) -> RemoteInventory {
    RemoteInventory::from_entries(entries).expect("unique remote keys")
}

fn upload_keys(plan: &DeploymentPlan) -> Vec<String> {
    plan.uploads.iter().map(|f| f.key.clone()).collect()
}

fn deletion_keys(plan: &DeploymentPlan) -> Vec<String> {
    plan.deletions.iter().map(|f| f.key.clone()).collect()
}

#[test]
fn scenario_upload_and_retention() {
    let local = local_inv(vec![lf("a.txt", H1), lf("b.png", H2)]);
    let remote = remote_inv(vec![
        rf("a.txt", Some(NOW - 10 * DAY), Some(H1)),
        rf("c.old", Some(NOW - 40 * DAY), Some(H3)),
    ]);
    let plan = DeploymentPlan::build(&local, &remote, NOW);
    assert_eq!(upload_keys(&plan), vec!["b.png".to_string()]);
    assert_eq!(deletion_keys(&plan), vec!["c.old".to_string()]);
}

#[test]
fn scenario_hash_mismatch_uploads() {
    let local = local_inv(vec![lf("x", H1)]);
    let remote = remote_inv(vec![rf("x", Some(NOW - 40 * DAY), Some(H9))]);
    let plan = DeploymentPlan::build(&local, &remote, NOW);
    assert_eq!(upload_keys(&plan), vec!["x".to_string()]);
    assert_eq!(deletion_keys(&plan), Vec::<String>::new());
}

#[test]
fn scenario_unknown_age_never_deleted() {
    let local = local_inv(vec![]);
    let remote = remote_inv(vec![rf("y", None, Some(H1))]);
    let plan = DeploymentPlan::build(&local, &remote, NOW);
    assert_eq!(upload_keys(&plan), Vec::<String>::new());
    assert_eq!(deletion_keys(&plan), Vec::<String>::new());
}

#[test]
fn hash_equality_skips_key() {
    let local = local_inv(vec![lf("same", H1)]);
    let remote = remote_inv(vec![rf("same", Some(NOW - 100 * DAY), Some(H1))]);
    let plan = DeploymentPlan::build(&local, &remote, NOW);
    assert!(plan.uploads.is_empty());
    assert!(plan.deletions.is_empty());
}

#[test]
fn missing_remote_hash_forces_upload() {
    let local = local_inv(vec![lf("same-size", H1)]);
    let remote = remote_inv(vec![rf("same-size", Some(NOW), None)]);
    let plan = DeploymentPlan::build(&local, &remote, NOW);
    assert_eq!(upload_keys(&plan), vec!["same-size".to_string()]);
}

#[test]
fn retention_window_boundary() {
    let window = RETENTION_SECONDS as i64;
    let local = local_inv(vec![]);
    let remote = remote_inv(vec![
        rf("exactly-at", Some(NOW - window), Some(H1)),
        rf("one-second-older", Some(NOW - window - 1), Some(H2)),
        rf("fresh", Some(NOW - 1), Some(H3)),
    ]);
    let plan = DeploymentPlan::build(&local, &remote, NOW);
    assert_eq!(deletion_keys(&plan), vec!["one-second-older".to_string()]);
}

#[test]
fn planner_is_idempotent_on_same_inputs() {
    let local = local_inv(vec![lf("a", H1), lf("b", H2)]);
    let remote = remote_inv(vec![
        rf("a", Some(NOW - 50 * DAY), Some(H9)),
        rf("gone", Some(NOW - 50 * DAY), Some(H3)),
    ]);
    let p1 = DeploymentPlan::build(&local, &remote, NOW);
    let p2 = DeploymentPlan::build(&local, &remote, NOW);
    assert_eq!(p1.uploads, p2.uploads);
    assert_eq!(p1.deletions, p2.deletions);
}

#[test]
fn replanning_after_a_run_is_empty() {
    let local = local_inv(vec![lf("a", H1), lf("b", H2)]);
    // The remote state a completed run leaves behind: every local key stored
    // with its own hash, no orphans.
    let remote = remote_inv(vec![
        rf("a", Some(NOW), Some(H1)),
        rf("b", Some(NOW), Some(H2)),
    ]);
    let plan = DeploymentPlan::build(&local, &remote, NOW);
    assert!(plan.uploads.is_empty());
    assert!(plan.deletions.is_empty());
}

#[test]
fn duplicate_keys_are_rejected() {
    assert!(LocalInventory::from_entries(vec![lf("k", H1), lf("k", H2)]).is_none());
    assert!(RemoteInventory::from_entries(vec![rf("k", None, None), rf("k", None, None)]).is_none());
    assert!(LocalInventory::from_entries(vec![lf("k", H1), lf("j", H2)]).is_some());
}

#[test]
fn inventory_lookup() {
    let local = local_inv(vec![lf("a", H1), lf("b", H2)]);
    assert_eq!(local.get("b").map(|f| f.md5), Some(H2));
    assert!(local.get("c").is_none());
    assert!(local.contains_key("a"));
    assert!(!local.contains_key("z"));
    let remote = remote_inv(vec![rf("r", Some(5), Some(H3))]);
    assert_eq!(remote.get("r").map(|f| f.e_tag), Some(Some(H3)));
    assert!(!remote.contains_key("a"));
}

#[test]
fn string_helpers() {
    assert!(str_eq("abc", "abc"));
    assert!(!str_eq("abc", "abd"));
    assert!(!str_eq("abc", "ab"));
    assert!(str_starts_with("static/logo.jpg", "static/"));
    assert!(!str_starts_with("sta", "static/"));
    assert!(str_ends_with("static/logo.jpg", ".jpg"));
    assert!(!str_ends_with("logo.jpeg", ".jpg"));
}
