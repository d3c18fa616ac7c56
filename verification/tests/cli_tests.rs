use modsupdater::cli::{
    check_counts, decide_update, is_confirmation, setting_or_not_set, table_header, table_row, truncate_str, L10n,
    UpdateDecision,
};
use modsupdater::time::Timestamp;

fn char_truncate(s: &str, max_len: usize) -> String {
    if s.chars().count() > max_len {
        let truncated: String = s.chars().take(max_len - 1).collect();
        format!("{}…", truncated)
    } else {
        s.to_string()
    }
}

#[test]
fn truncation() {
    for (s, n) in [("", 0), ("abc", 3), ("abcdef", 4), ("日本語テキスト", 3), ("x", 1), ("xy", 1)] {
        assert_eq!(truncate_str(s, n), char_truncate(s, n), "{:?} {}", s, n);
    }
    assert_eq!(truncate_str("abcdef", 4), "abc…");
}

#[test]
fn bilingual_messages() {
    let en = L10n { zh: false };
    let zh = L10n { zh: true };
    assert_eq!(en.t("Cancelled.", "已取消。"), "Cancelled.");
    assert_eq!(zh.t("Cancelled.", "已取消。"), "Cancelled.\n已取消。");
    assert!(L10n::from_locale("zh_CN.UTF-8", "").zh);
    assert!(L10n::from_locale("", "ZH_TW").zh);
    assert!(!L10n::from_locale("en_US.UTF-8", "C").zh);
    assert!(!L10n::from_locale("", "").zh);
    assert!(!L10n::from_locale("z", "h").zh);
}

#[test]
fn table_lines_match_format() {
    let row = table_row(3, "sodium-fabric-0.5.8+mc1.21.1.jar", "0.5.8", "0.6.0-beta.2", "Beta");
    let expected = format!(
        "│ {:2} │ {:44} │ {:18} │ {:>6} ({}) │",
        3,
        char_truncate("sodium-fabric-0.5.8+mc1.21.1.jar", 44),
        char_truncate("0.5.8", 18),
        char_truncate("0.6.0-beta.2", 11),
        "Beta"
    );
    assert_eq!(row, expected);
    let long = "a-very-long-mod-file-name-that-goes-on-and-on-forever.jar";
    let row = table_row(12, long, "?", "1", "Release");
    let expected = format!("│ {:2} │ {:44} │ {:18} │ {:>6} ({}) │", 12, char_truncate(long, 44), "?", "1", "Release");
    assert_eq!(row, expected);
    assert_eq!(
        table_header("Mod", "Current Version", "Latest Version"),
        format!("│ #  │ {:44} │ {:18} │ {:18} │", "Mod", "Current Version", "Latest Version")
    );
}

#[test]
fn confirmations() {
    assert!(is_confirmation("y\n"));
    assert!(is_confirmation("  Y \r\n"));
    assert!(!is_confirmation("yes\n"));
    assert!(!is_confirmation("\n"));
    assert!(!is_confirmation("n"));
}

#[test]
fn settings_display() {
    assert_eq!(setting_or_not_set(&None), "(not set)");
    assert_eq!(setting_or_not_set(&Some("fabric".into())), "fabric");
}

#[test]
fn counts_of_a_check() {
    assert_eq!(check_counts(&[]), (0, 0, 0));
    let _ = Timestamp::from_unix(0, 0);
}

#[test]
fn markdown_file_names() {
    let t = Timestamp::from_unix(1_725_029_869, 0).unwrap();
    assert_eq!(modsupdater::cli::markdown_report_file_name(&t), "report-20240830-145749.md");
}

#[test]
fn update_goes_on_only_when_confirmed() {
    assert_eq!(decide_update(true, false, None), UpdateDecision::DryRun);
    assert_eq!(decide_update(true, true, Some("y")), UpdateDecision::DryRun);
    assert_eq!(decide_update(false, true, None), UpdateDecision::Apply);
    assert_eq!(decide_update(false, false, None), UpdateDecision::Ask);
    assert_eq!(decide_update(false, false, Some(" Y\n")), UpdateDecision::Apply);
    assert_eq!(decide_update(false, false, Some("yes\n")), UpdateDecision::Cancelled);
    assert_eq!(decide_update(false, false, Some("\n")), UpdateDecision::Cancelled);
}
