use std::path::PathBuf;

use modsupdater::api::models::{FileHashes, Version, VersionFile, VersionStatus, VersionType};
use modsupdater::error::CoreError;
use modsupdater::time::Timestamp;
use modsupdater::updater::{
    build_mod_infos, collect_sha512, dry_run_report, failed_result, installed_result,
    json_report_file_name, mods_with_updates, planned_result, project_name_from_filename,
    select_download, verify_download, UpdateRun, DRY_RUN_NOTE,
};
use modsupdater::{hash_bytes_sha512, LocalMod, ModInfo, UpdateReport, UpdateResult};

fn local(name: &str, hash: &str) -> LocalMod {
    LocalMod {
        path: PathBuf::from(format!("/mods/{}", name)),
        filename: name.to_string(),
        sha512: hash.to_string(),
        sha1: "s".into(),
        size: 1,
    }
}

fn file(name: &str, primary: bool, sha512: &str) -> VersionFile {
    VersionFile {
        hashes: FileHashes { sha512: sha512.into(), sha1: String::new() },
        url: format!("https://cdn.example/{}", name),
        filename: name.into(),
        primary,
        size: 3,
        file_type: None,
    }
}

fn version(number: &str, files: Vec<VersionFile>) -> Version {
    Version {
        id: format!("v-{}", number),
        project_id: "p".into(),
        author_id: "a".into(),
        name: Some(format!("Version {}", number)),
        version_number: Some(number.into()),
        changelog: None,
        changelog_url: None,
        date_published: Timestamp::from_unix(1_700_000_000, 0).unwrap(),
        downloads: 10,
        version_type: VersionType::Release,
        status: VersionStatus::Listed,
        requested_status: None,
        featured: false,
        game_versions: vec!["1.21.1".into()],
        loaders: vec!["fabric".into()],
        files,
        dependencies: vec![],
    }
}

fn info(name: &str, current: Option<&str>, update: Option<&str>) -> ModInfo {
    ModInfo {
        local: local(name, name),
        current_version: current.map(|n| version(n, vec![])),
        update_version: update.map(|n| version(n, vec![file(&format!("{}-new.jar", n), true, "x")])),
    }
}

fn split_project_name(filename: &str) -> String {
    filename.rsplitn(2, '-').last().unwrap_or(filename).trim_end_matches(".jar").to_string()
}

#[test]
fn project_names_from_file_names() {
    for name in ["sodium-fabric-0.5.8.jar", "plain.jar", "a.jar.jar", "-x.jar", "no-dash", "", "x-", "lith-ium.jar-1", "mod.jar-2.jar"] {
        assert_eq!(project_name_from_filename(name), split_project_name(name), "name {:?}", name);
    }
    assert_eq!(project_name_from_filename("sodium-fabric-0.5.8.jar"), "sodium-fabric");
}

#[test]
fn mods_are_paired_with_versions() {
    let locals = vec![local("a.jar", "h1"), local("b.jar", "h2"), local("c.jar", "h1")];
    assert_eq!(collect_sha512(&locals), vec!["h1", "h2", "h1"]);
    let current = vec![("h1".to_string(), version("1.0", vec![])), ("h9".to_string(), version("9", vec![]))];
    let updates = vec![("h2".to_string(), version("2.0", vec![]))];
    let infos = build_mod_infos(&locals, &current, &updates);
    assert_eq!(infos.len(), 3);
    assert_eq!(infos[0].local.filename, "a.jar");
    assert_eq!(infos[0].current_version.as_ref().unwrap().version_number.as_deref(), Some("1.0"));
    assert!(infos[0].update_version.is_none());
    assert!(infos[1].current_version.is_none());
    assert_eq!(infos[1].update_version.as_ref().unwrap().version_number.as_deref(), Some("2.0"));
    assert_eq!(infos[2].current_version.as_ref().unwrap().id, "v-1.0");
    assert_eq!(mods_with_updates(&infos), vec![1]);
}

#[test]
fn download_file_is_chosen() {
    let mut m = info("m-1.jar", Some("1"), None);
    match select_download(&m) {
        Err(CoreError::Update(msg)) => assert_eq!(msg, "No update version available"),
        other => panic!("unexpected {:?}", other),
    }
    m.update_version = Some(version("2", vec![]));
    match select_download(&m) {
        Err(CoreError::Update(msg)) => assert_eq!(msg, "No downloadable file found for update of m-1.jar"),
        other => panic!("unexpected {:?}", other),
    }
    m.update_version = Some(version("2", vec![file("a", false, ""), file("b", true, ""), file("c", true, "")]));
    assert_eq!(select_download(&m).unwrap().filename, "b");
    m.update_version = Some(version("2", vec![file("a", false, ""), file("b", false, "")]));
    assert_eq!(select_download(&m).unwrap().filename, "a");
}

#[test]
fn downloads_are_verified() {
    let data = b"jar bytes";
    let good = file("ok.jar", true, &hash_bytes_sha512(data));
    assert!(verify_download(&good, data).is_ok());
    let bad = file("bad.jar", true, "0000");
    match verify_download(&bad, data) {
        Err(CoreError::HashMismatch { filename, expected, actual }) => {
            assert_eq!(filename, "bad.jar");
            assert_eq!(expected, "0000");
            assert_eq!(actual, hash_bytes_sha512(data));
        }
        other => panic!("unexpected {:?}", other),
    }
}

#[test]
fn results_of_one_mod() {
    let m = info("sodium-0.5.jar", Some("0.5"), Some("0.6"));
    let r = installed_result(&m, PathBuf::from("out/new.jar"));
    assert!(r.success && r.error.is_none());
    assert_eq!(r.project_name.as_deref(), Some("sodium"));
    assert_eq!(r.old_version.as_deref(), Some("0.5"));
    assert_eq!(r.new_version_number.as_deref(), Some("0.6"));
    assert_eq!(r.new_version_name.as_deref(), Some("Version 0.6"));
    assert_eq!(r.new_path, Some(PathBuf::from("out/new.jar")));
    assert_eq!(r.old_path, PathBuf::from("/mods/sodium-0.5.jar"));

    let unknown = info("x-1.jar", None, Some("2"));
    assert!(installed_result(&unknown, PathBuf::from("n")).project_name.is_none());

    let p = planned_result(&unknown);
    assert!(!p.success);
    assert_eq!(p.project_name.as_deref(), Some("x"));
    assert_eq!(p.error.as_deref(), Some(DRY_RUN_NOTE));
    assert_eq!(DRY_RUN_NOTE, "Dry run — not downloaded");

    let f = failed_result(&m, "boom".into());
    assert!(!f.success && f.project_name.is_none() && f.new_path.is_none());
    assert_eq!(f.error.as_deref(), Some("boom"));
}

fn check_tallies(r: &UpdateReport) {
    assert_eq!(r.total_up_to_date + r.total_updates_available, r.total_scanned);
    assert_eq!(r.total_updated + r.total_failed, r.total_updates_available);
    assert_eq!(r.results.len(), r.total_updates_available);
    assert_eq!(r.total_updated, r.results.iter().filter(|x| x.success).count());
}

#[test]
fn a_run_tallies_every_update_once() {
    let infos = vec![
        info("a-1.jar", Some("1"), Some("2")),
        info("b-1.jar", Some("1"), None),
        info("c-1.jar", None, Some("3")),
        info("d-1.jar", Some("1"), Some("4")),
    ];
    let ts = Timestamp::from_unix(0, 0).unwrap();
    let mut run = UpdateRun::start(&infos, &["fabric".into(), "quilt".into()], &["1.21.1".into()], ts);
    let mut seen = vec![];
    while let Some(i) = run.next_index() {
        seen.push(i);
        let outcome: Result<PathBuf, String> = match i {
            0 => Ok(PathBuf::from("n0")),
            _ => Err(format!("Update error: no file {}", i)),
        };
        run.record(&infos, outcome);
    }
    assert_eq!(seen, vec![0, 2, 3]);
    let report = run.finish();
    check_tallies(&report);
    assert_eq!(report.total_scanned, 4);
    assert_eq!(report.total_updates_available, 3);
    assert_eq!(report.total_updated, 1);
    assert_eq!(report.total_failed, 2);
    assert_eq!(report.total_up_to_date, 1);
    assert_eq!(report.loader, "fabric, quilt");
    assert_eq!(report.game_version, "1.21.1");
    assert_eq!(report.results[0].filename, "a-1.jar");
    assert_eq!(report.results[0].new_path, Some(PathBuf::from("n0")));
    assert!(report.results[0].success && report.results[0].error.is_none());
    assert_eq!(report.results[0].new_version_number.as_deref(), Some("2"));
    assert_eq!(report.results[1].filename, "c-1.jar");
    assert_eq!(report.results[1].error.as_deref(), Some("Update error: no file 2"));
    assert_eq!(report.results[2].error.as_deref(), Some("Update error: no file 3"));
    assert_eq!(report.timestamp.unix_secs(), 0);
    assert!(report.results[1].project_name.is_none());
    assert_eq!(report.results[1].new_version_number.as_deref(), Some("3"));
}

#[test]
fn a_dry_run_downloads_nothing() {
    let infos = vec![info("a-1.jar", Some("1"), Some("2")), info("b-1.jar", Some("1"), None)];
    let ts = Timestamp::from_unix(0, 0).unwrap();
    let report = dry_run_report(&infos, &["fabric".into()], &["1.20.1".into(), "1.21.1".into()], ts);
    check_tallies(&report);
    assert_eq!(report.total_updated, 0);
    assert_eq!(report.total_failed, 1);
    assert_eq!(report.total_up_to_date, 1);
    assert_eq!(report.game_version, "1.20.1, 1.21.1");
    assert_eq!(report.results[0].error.as_deref(), Some(DRY_RUN_NOTE));
    assert_eq!(report.results[0].project_name.as_deref(), Some("a"));
    assert!(report.results[0].new_path.is_none());
}

#[test]
fn empty_run() {
    let ts = Timestamp::from_unix(0, 0).unwrap();
    let run = UpdateRun::start(&[], &[], &[], ts);
    assert!(run.next_index().is_none());
    let report = run.finish();
    check_tallies(&report);
    assert_eq!(report.total_scanned, 0);
    assert_eq!(report.loader, "");
}

fn result(name: &str, project: Option<&str>, old: Option<&str>, new: Option<&str>, success: bool, error: Option<&str>) -> UpdateResult {
    UpdateResult {
        filename: name.into(),
        old_path: PathBuf::from(name),
        new_path: None,
        project_name: project.map(Into::into),
        old_version: old.map(Into::into),
        new_version_name: None,
        new_version_number: new.map(Into::into),
        success,
        error: error.map(Into::into),
    }
}

#[test]
fn markdown_report() {
    let report = UpdateReport {
        total_scanned: 5,
        total_updates_available: 3,
        total_updated: 1,
        total_failed: 2,
        total_up_to_date: 2,
        results: vec![
            result("sodium-1.jar", Some("sodium"), Some("1"), Some("2"), true, None),
            result("iris-1.jar", None, None, None, false, Some("Hash verification failed")),
            result("x.jar", Some("x"), None, None, false, None),
        ],
        loader: "fabric".into(),
        game_version: "1.21.1".into(),
        timestamp: Timestamp::from_unix(947_638_923, 0).unwrap(),
    };
    let expected = "# Modrinth Update Report\n\n\
**Generated:** 2000-01-12 01:02:03 UTC\n\n\
**Loader:** fabric &nbsp;|&nbsp; **Game Version:** 1.21.1\n\n\
## Summary\n\n\
| Category | Count |\n\
|----------|-------|\n\
| Mods scanned | 5 |\n\
| Updates available | 3 |\n\
| Successfully updated | 1 |\n\
| Failed | 2 |\n\
| Already up-to-date | 2 |\n\
\n\
## Updated Mods\n\n\
| Mod | Old Version | New Version |\n\
|-----|-------------|-------------|\n\
| sodium | 1 | 2 |\n\
\n\
## Failed Updates\n\n\
| Mod | Error |\n\
|-----|-------|\n\
| iris-1.jar | Hash verification failed |\n\
| x | Unknown error |\n\
\n";
    assert_eq!(report.to_markdown(), expected);
    assert_eq!(json_report_file_name(&report), "report-20000112-010203.json");
}

#[test]
fn markdown_report_without_results() {
    let report = UpdateReport {
        total_scanned: 0,
        total_updates_available: 0,
        total_updated: 0,
        total_failed: 0,
        total_up_to_date: 0,
        results: vec![],
        loader: String::new(),
        game_version: String::new(),
        timestamp: Timestamp::from_unix(0, 0).unwrap(),
    };
    let md = report.to_markdown();
    assert!(md.starts_with("# Modrinth Update Report\n\n**Generated:** 1970-01-01 00:00:00 UTC\n\n"));
    assert!(md.ends_with("| Already up-to-date | 0 |\n\n"));
    assert!(!md.contains("## Updated Mods") && !md.contains("## Failed Updates"));
}
