use std::path::PathBuf;

use modsupdater::api::models::{GameVersion, Loader, Version, VersionStatus, VersionType};
use modsupdater::error::CoreError;
use modsupdater::gui::{
    after_check, after_scan, batch_label, current_label, game_version_choices, icon_rgba, installable, kind_label,
    latest_label, loader_choices, percent_label, sort_descending, str_less, AppEvent, AppState,
    Command, DownloadBatch, ModUpdaterApp, READY_STATUS,
};
use modsupdater::time::Timestamp;
use modsupdater::{LocalMod, ModInfo, UpdateReport};

fn version(number: Option<&str>, kind: VersionType) -> Version {
    Version {
        id: "v".into(),
        project_id: "p".into(),
        author_id: "a".into(),
        name: None,
        version_number: number.map(|n| n.to_string()),
        changelog: None,
        changelog_url: None,
        date_published: Timestamp::from_unix(0, 0).unwrap(),
        downloads: 0,
        version_type: kind,
        status: VersionStatus::Listed,
        requested_status: None,
        featured: false,
        game_versions: vec![],
        loaders: vec![],
        files: vec![],
        dependencies: vec![],
    }
}

fn info(name: &str, current: Option<&str>, update: Option<&str>) -> ModInfo {
    ModInfo {
        local: LocalMod {
            path: PathBuf::from(format!("/mods/{}", name)),
            filename: name.to_string(),
            sha512: "h".into(),
            sha1: "s".into(),
            size: 1,
        },
        current_version: current.map(|n| version(Some(n), VersionType::Release)),
        update_version: update.map(|n| version(Some(n), VersionType::Beta)),
    }
}

fn game_version(v: &str, major: bool) -> GameVersion {
    GameVersion { version: v.into(), version_type: "release".into(), date: String::new(), major }
}

fn report(updated: usize, failed: usize) -> UpdateReport {
    UpdateReport {
        total_scanned: 3,
        total_updates_available: updated + failed,
        total_updated: updated,
        total_failed: failed,
        total_up_to_date: 3 - updated - failed,
        results: vec![],
        loader: String::new(),
        game_version: String::new(),
        timestamp: Timestamp::from_unix(0, 0).unwrap(),
    }
}

#[test]
fn string_order_matches_std() {
    let words = ["", "a", "b", "ab", "aa", "1.20", "1.21.1", "1.9", "é", "z", "Z", "1.21"];
    for a in words {
        for b in words {
            assert_eq!(str_less(a, b), a < b, "{:?} < {:?}", a, b);
        }
    }
}

#[test]
fn sorting_matches_sort_by_reverse() {
    let names: Vec<String> = ["1.20.1", "1.21.1", "1.9", "1.21", "1.20.1", "1.16.5"].iter().map(|s| s.to_string()).collect();
    let mut expected = names.clone();
    expected.sort_by(|a, b| b.cmp(a));
    assert_eq!(sort_descending(&names), expected);
    assert_eq!(sort_descending(&[]), Vec::<String>::new());
}

#[test]
fn loader_choices_fall_back() {
    let listed = vec![
        Loader { icon: String::new(), name: "forge".into(), supported_project_types: vec![] },
        Loader { icon: String::new(), name: "quilt".into(), supported_project_types: vec![] },
    ];
    assert_eq!(loader_choices(Ok(listed)), vec!["forge", "quilt"]);
    assert_eq!(loader_choices(Err(CoreError::Scan("offline".into()))), vec!["fabric"]);
}

#[test]
fn game_version_choices_sorted_with_default() {
    let listed = vec![
        game_version("1.20.1", true),
        game_version("24w14a", false),
        game_version("1.21", true),
        game_version("1.19.4", true),
    ];
    assert_eq!(game_version_choices(Ok(listed)), vec!["1.21", "1.20.1", "1.19.4", "1.21.1"]);
    let with_default = vec![game_version("1.21.1", true), game_version("1.21.2", true)];
    assert_eq!(game_version_choices(Ok(with_default)), vec!["1.21.2", "1.21.1"]);
    assert_eq!(game_version_choices(Ok(vec![])), vec!["1.21.1"]);
    assert_eq!(game_version_choices(Err(CoreError::Scan("offline".into()))), vec!["1.21.1"]);
}

#[test]
fn new_window_is_idle() {
    let app = ModUpdaterApp::new();
    assert_eq!(app.mods_dir, "");
    assert_eq!(app.loader, "fabric");
    assert_eq!(app.game_version, "1.21.1");
    assert_eq!(app.loaders, vec!["fabric"]);
    assert_eq!(app.game_versions, vec!["1.21.1"]);
    assert!(matches!(app.state, AppState::Idle));
    assert_eq!(app.status, READY_STATUS);
    assert!(!app.can_check());
}

#[test]
fn tags_keep_or_replace_the_choice() {
    let mut app = ModUpdaterApp::new();
    app.process_event(AppEvent::TagsLoaded {
        loaders: vec!["forge".into(), "fabric".into()],
        game_versions: vec!["1.21".into(), "1.20".into()],
    });
    assert_eq!(app.loader, "fabric");
    assert_eq!(app.game_version, "1.21");
    assert_eq!(app.loaders, vec!["forge", "fabric"]);
    assert_eq!(app.game_versions, vec!["1.21", "1.20"]);
}

#[test]
fn a_check_goes_through_its_states() {
    let mut app = ModUpdaterApp::new();
    assert!(app.request_check().is_none());
    app.mods_dir = "/mods".into();
    assert!(app.can_check());
    match app.request_check() {
        Some(Command::ScanAndCheck { dir, loader, game_version }) => {
            assert_eq!(dir, "/mods");
            assert_eq!(loader, "fabric");
            assert_eq!(game_version, "1.21.1");
        }
        other => panic!("unexpected {:?}", other),
    }
    assert!(matches!(app.state, AppState::Scanning));
    assert!(app.is_busy() && app.needs_repaint() && !app.can_check());
    app.process_event(AppEvent::ScanStarted);
    assert_eq!(app.status, "Scanning...");
    app.process_event(AppEvent::ScanComplete { count: 3 });
    assert_eq!(app.status, "Found 3 mod(s), checking API...");
    app.process_event(AppEvent::CheckStarted);
    assert!(matches!(app.state, AppState::Checking));
    app.process_event(AppEvent::CheckComplete {
        mod_infos: vec![info("a.jar", Some("1"), Some("2")), info("b.jar", Some("1"), None), info("c.jar", None, Some("5"))],
    });
    assert_eq!(app.status, "3 mod(s) scanned, 2 update(s) available.");
    match &app.state {
        AppState::Results { mod_infos, selected } => {
            assert_eq!(mod_infos.len(), 3);
            assert_eq!(selected, &vec![true, true, true]);
        }
        other => panic!("unexpected {:?}", other),
    }
    assert!(!app.is_busy() && !app.needs_repaint());
    assert_eq!(app.selected_updates(), vec![0, 2]);
    assert!(app.any_update());
    app.set_selected(0, false);
    assert_eq!(app.selected_updates(), vec![2]);
    app.deselect_all();
    assert_eq!(app.selected_updates(), Vec::<usize>::new());
    assert!(app.request_download().is_none());
    app.select_all();
    assert_eq!(app.selected_updates(), vec![0, 2]);
    match app.request_download() {
        Some(Command::DownloadSelected { indices, output_dir }) => {
            assert_eq!(indices, vec![0, 2]);
            assert_eq!(output_dir, "./mods_update");
        }
        other => panic!("unexpected {:?}", other),
    }
    app.process_event(AppEvent::DownloadProgress { index: 0, filename: "a.jar".into(), percent: 50 });
    app.process_event(AppEvent::DownloadProgress { index: 2, filename: "c.jar".into(), percent: 50 });
    app.process_event(AppEvent::DownloadProgress { index: 0, filename: "a.jar".into(), percent: 100 });
    app.process_event(AppEvent::DownloadComplete { success: true, error: None });
    app.process_event(AppEvent::DownloadComplete { success: false, error: Some("boom".into()) });
    match &app.state {
        AppState::Downloading { mod_infos, progress, completed, failed, errors } => {
            assert_eq!(mod_infos.len(), 3);
            assert_eq!(progress, &vec![(0, "a.jar".to_string(), 100), (2, "c.jar".to_string(), 50)]);
            assert_eq!((*completed, *failed), (1, 1));
            assert_eq!(errors, &vec!["boom".to_string()]);
        }
        other => panic!("unexpected {:?}", other),
    }
    app.process_event(AppEvent::AllDownloadsComplete { report: report(1, 1) });
    assert_eq!(app.status, "Done: 1 updated, 1 failed. Files in ./mods_update/");
    assert!(matches!(app.state, AppState::Done { .. }));
    app.process_event(AppEvent::Error("network down".into()));
    assert_eq!(app.status, "Error: network down");
    assert!(matches!(app.state, AppState::Done { .. }));
    app.check_again();
    assert!(matches!(app.state, AppState::Idle));
    assert_eq!(app.mods_dir, "/mods");
}

#[test]
fn select_all_needs_an_update() {
    let mut app = ModUpdaterApp::new();
    app.process_event(AppEvent::CheckComplete { mod_infos: vec![info("b.jar", Some("1"), None)] });
    assert_eq!(app.status, "1 mod(s) scanned, 0 update(s) available.");
    app.deselect_all();
    assert!(!app.any_update());
    app.select_all();
    match &app.state {
        AppState::Results { selected, .. } => assert_eq!(selected, &vec![false]),
        other => panic!("unexpected {:?}", other),
    }
}

#[test]
fn reports_outside_a_batch_change_nothing() {
    let mut app = ModUpdaterApp::new();
    app.process_event(AppEvent::DownloadProgress { index: 0, filename: "a.jar".into(), percent: 50 });
    app.process_event(AppEvent::DownloadComplete { success: true, error: Some("x".into()) });
    assert!(matches!(app.state, AppState::Idle));
    assert_eq!(app.status, READY_STATUS);
    app.check_again();
    assert!(matches!(app.state, AppState::Idle));
}

#[test]
fn row_labels() {
    let with_update = info("a.jar", Some("1.0"), Some("2.0"));
    assert_eq!(current_label(&with_update), "1.0");
    assert_eq!(latest_label(&with_update), "2.0");
    assert_eq!(kind_label(&with_update), "Beta");
    let without = info("b.jar", None, None);
    assert_eq!(current_label(&without), "?");
    assert_eq!(latest_label(&without), "—");
    assert_eq!(kind_label(&without), "");
    let mut unnumbered = info("c.jar", None, Some("3"));
    unnumbered.update_version.as_mut().unwrap().version_number = None;
    assert_eq!(latest_label(&unnumbered), "?");
    assert_eq!(batch_label(2, 5, 1), "2 / 5 completed, 1 failed");
    assert_eq!(percent_label(50), "50%");
    assert_eq!(percent_label(100), "100%");
}

#[test]
fn batch_tally() {
    let stored = vec![info("a.jar", None, Some("2")), info("b.jar", None, None)];
    assert!(installable(&stored, 0));
    assert!(!installable(&stored, 1));
    assert!(!installable(&stored, 7));
    let mut batch = DownloadBatch::new(vec![0, 1, 7]);
    let mut seen = vec![];
    while let Some(idx) = batch.next_index() {
        seen.push(idx);
        let ok = installable(&stored, idx);
        batch.record(ok);
    }
    assert_eq!(seen, vec![0, 1, 7]);
    let at = Timestamp::from_unix(5, 0).unwrap();
    let r = batch.finish(stored.len(), at);
    assert_eq!(r.total_scanned, 2);
    assert_eq!(r.total_updates_available, 3);
    assert_eq!(r.total_updated, 1);
    assert_eq!(r.total_failed, 2);
    assert_eq!(r.total_up_to_date, 0);
    assert!(r.results.is_empty() && r.loader.is_empty() && r.game_version.is_empty());
    assert_eq!(r.timestamp.unix_secs(), 5);
    let r2 = DownloadBatch::new(vec![]).finish(4, at);
    assert_eq!((r2.total_updates_available, r2.total_up_to_date), (0, 4));
}

fn drawn_icon() -> Vec<u8> {
    let w = 32u32;
    let h = 32u32;
    let mut rgba = vec![0u8; (w * h * 4) as usize];
    let cx = w as i32 / 2;
    let cy = h as i32 / 2;
    for y in 0..h {
        for x in 0..w {
            let idx = ((y * w + x) * 4) as usize;
            let dx = x as i32 - cx;
            let dy = y as i32 - cy;
            let dist = (dx * dx + dy * dy) as f32;
            if dist < (cx * cx) as f32 {
                rgba[idx] = 26;
                rgba[idx + 1] = 26;
                rgba[idx + 2] = 46;
            } else {
                rgba[idx + 3] = 0;
            }
            let mid = dx;
            let in_tri = dy < 8 && dy > -8 && dy > mid.abs() * 2 - 8 && dy < (8 - mid.abs() * 2 + 2);
            if in_tri {
                rgba[idx] = 74;
                rgba[idx + 1] = 222;
                rgba[idx + 2] = 128;
            }
            rgba[idx + 3] = 255;
        }
    }
    rgba
}

#[test]
fn icon_matches_drawing() {
    let icon = icon_rgba();
    assert_eq!(icon.len(), 32 * 32 * 4);
    assert_eq!(icon, drawn_icon());
    assert_eq!(&icon[(16 * 32 + 16) * 4..(16 * 32 + 16) * 4 + 4], &[74, 222, 128, 255]);
    assert_eq!(&icon[0..4], &[0, 0, 0, 255]);
}

#[test]
fn scan_and_check_reports_in_order() {
    let mut stored = vec![info("old.jar", None, Some("1"))];
    let (events, go_on) = after_scan(Err("no such directory".into()), &mut stored);
    assert!(!go_on);
    assert_eq!(events.len(), 1);
    assert!(matches!(&events[0], AppEvent::Error(m) if m == "no such directory"));
    assert_eq!(stored.len(), 1);

    let (events, go_on) = after_scan(Ok(2), &mut stored);
    assert!(go_on);
    assert!(matches!(events[0], AppEvent::ScanComplete { count: 2 }));
    assert!(matches!(events[1], AppEvent::CheckStarted));
    assert_eq!(stored.len(), 1);

    let event = after_check(Err("offline".into()), &mut stored);
    assert!(matches!(&event, AppEvent::Error(m) if m == "offline"));
    assert_eq!(stored[0].local.filename, "old.jar");

    let event = after_check(Ok(vec![info("a.jar", None, Some("2")), info("b.jar", None, None)]), &mut stored);
    match event {
        AppEvent::CheckComplete { mod_infos } => assert_eq!(mod_infos.len(), 2),
        other => panic!("unexpected {:?}", other),
    }
    assert_eq!(stored.iter().map(|m| m.local.filename.clone()).collect::<Vec<_>>(), vec!["a.jar", "b.jar"]);

    let (events, go_on) = after_scan(Ok(0), &mut stored);
    assert!(!go_on);
    assert!(matches!(events[0], AppEvent::ScanComplete { count: 0 }));
    assert!(matches!(&events[1], AppEvent::CheckComplete { mod_infos } if mod_infos.is_empty()));
    assert!(stored.is_empty());
}
