use std::path::Path;

use modsupdater::parse_mod_names;
use modsupdater::scanner::{classify_entry, has_jar_extension, EntryAction};

#[test]
fn jar_extension_matches_path_extension() {
    for name in [
        "sodium-1.20.1.jar", "a.jar", ".jar", "jar", "x.JAR", "x.jar.bak", "x.tar.jar", "..jar",
        "..", "a.", "", "mod.jarx", "j.ar", "x..jar",
    ] {
        let expected = Path::new(name).extension().map_or(false, |e| e == "jar");
        assert_eq!(has_jar_extension(name), expected, "name {:?}", name);
    }
}

#[test]
fn entries_are_classified() {
    assert_eq!(classify_entry(true, false, true, Some("sub")), EntryAction::Descend);
    assert_eq!(classify_entry(true, false, false, Some("sub.jar")), EntryAction::Skip);
    assert_eq!(classify_entry(false, true, false, Some("a.jar")), EntryAction::HashMod);
    assert_eq!(classify_entry(false, true, true, Some("a.zip")), EntryAction::Skip);
    assert_eq!(classify_entry(false, true, true, None), EntryAction::Skip);
    assert_eq!(classify_entry(false, false, true, Some("a.jar")), EntryAction::Skip);
}

fn line_parse(content: &str) -> Vec<String> {
    content
        .lines()
        .map(|line| line.trim().to_string())
        .filter(|line| !line.is_empty() && !line.starts_with('#'))
        .collect()
}

#[test]
fn mod_name_lists() {
    let content = "# my mods\nsodium\n\n  iris  \r\n#lithium\nfabric-api\n   \n# end";
    assert_eq!(parse_mod_names(content), vec!["sodium", "iris", "fabric-api"]);
    for content in ["", "\n", "a", "a\n", "a\r\nb\r\n", " # not a comment after trim\n", "x\n\n\ny", "\u{3000}z\u{3000}"] {
        assert_eq!(parse_mod_names(content), line_parse(content), "content {:?}", content);
    }
}
