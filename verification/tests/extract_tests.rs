use xp_cli::download::ArtifactProbe;
use xp_cli::extract::extraction_allowed;
use xp_cli::extract::extraction_plan;
use xp_cli::extract::is_excluded;
use xp_cli::extract::tar_arguments;
use xp_cli::fetch::fetch_artifacts;
use xp_cli::request::SnapshotRequest;

#[test]
fn excluded_prefixes_are_recognized() {
    assert!(is_excluded(".idea"));
    assert!(is_excluded(".idea/workspace.xml"));
    assert!(is_excluded("pub/media/catalog/product/a/b.jpg"));
    assert!(is_excluded("media/catalog/product/x.png"));
    assert!(is_excluded("var/log/system.log"));
    assert!(is_excluded("var/report/1234"));
    assert!(is_excluded("var/cache/mage--0"));
    assert!(is_excluded("var/page_cache/tags"));
}

#[test]
fn included_paths_are_not_excluded() {
    assert!(!is_excluded("app/code/Vendor/Module/etc/module.xml"));
    assert!(!is_excluded("pub/index.php"));
    assert!(!is_excluded("var/view_preprocessed/css/styles.css"));
    assert!(!is_excluded("media-notes.txt"));
}

#[test]
fn plan_unpacks_only_included_absent_files() {
    // an archive holding one file under an excluded prefix and one under an
    // included prefix: only the included one reaches disk
    let entries = vec!["var/cache/entry".to_string(), "app/etc/env.php".to_string()];
    let present = vec![false, false];
    let plan = extraction_plan(&entries, &present);
    assert_eq!(plan, vec![false, true]);
}

#[test]
fn plan_never_overwrites_existing_files() {
    let entries = vec!["app/etc/env.php".to_string(), "composer.json".to_string()];
    let present = vec![true, false];
    let plan = extraction_plan(&entries, &present);
    assert_eq!(plan, vec![false, true]);
}

#[test]
fn tar_arguments_match_fixed_invocation() {
    let args = tar_arguments();
    assert_eq!(
        args,
        vec![
            "--gunzip",
            "--extract",
            "--skip-old-files",
            "-f",
            "files.tar.gz",
            "--exclude=.idea",
            "--exclude=pub/media/catalog/product/*",
            "--exclude=media/catalog/product/*",
            "--exclude=var/log/*",
            "--exclude=var/report/*",
            "--exclude=var/cache/*",
            "--exclude=var/page_cache/*",
        ]
    );
}

fn request() -> SnapshotRequest {
    SnapshotRequest::new(
        "108987".to_string(),
        "/tmp/proj".to_string(),
        vec![
            "files.tar.gz".to_string(),
            "structure.sql".to_string(),
            "data.sql".to_string(),
        ],
    )
    .unwrap()
}

fn probe(local_exists: bool, remote_status: u16, transfer_ok: bool) -> ArtifactProbe {
    ArtifactProbe { local_exists, remote_status, transfer_ok }
}

#[test]
fn extraction_runs_when_primary_archive_arrived() {
    let q = request();
    let probes = vec![probe(false, 200, true), probe(false, 200, true), probe(false, 200, true)];
    let s = fetch_artifacts(&q, "tok", &probes);
    assert!(extraction_allowed(&s));
}

#[test]
fn extraction_is_refused_when_primary_archive_failed() {
    let q = request();
    let probes = vec![probe(false, 404, false), probe(false, 200, true), probe(false, 200, true)];
    let s = fetch_artifacts(&q, "tok", &probes);
    assert!(!extraction_allowed(&s));
}

#[test]
fn skipped_primary_archive_still_allows_extraction() {
    let q = request();
    let probes = vec![probe(true, 0, false), probe(false, 200, true), probe(false, 200, true)];
    let s = fetch_artifacts(&q, "tok", &probes);
    assert!(extraction_allowed(&s));
}
