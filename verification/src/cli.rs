//! The decisions and text of the command-line front end: language, table rows,
//! confirmation, and how a command changes the settings.
use vstd::prelude::*;
use vstd::string::*;
use crate::text::{
    starts_with, decimal, lowercase, pad_left, pad_right, push_decimal, push_padded_left, push_padded_right,
    push_str, str_chars, string_from_chars, to_lowercase, trim, trim_chars,
};
use crate::time::{report_file_name, report_file_name_spec, Timestamp};
use crate::updater::{lemma_updatable_indices, mods_with_updates, updatable_indices, ModInfo};

verus! {

/// Where downloaded updates and reports are written.
pub const DEFAULT_OUTPUT_DIR: &'static str = "./mods_update";

/// The loader checked when none is given.
pub const DEFAULT_LOADER: &'static str = "fabric";

/// The game version checked when none is given.
pub const DEFAULT_GAME_VERSION: &'static str = "1.21.1";

/// Shown for a setting that has no value.
pub const NOT_SET: &'static str = "(not set)";

/// Bilingual messages: English, followed by Chinese on the next line when the
/// locale is Chinese.
#[derive(Debug, Clone, Copy)]
pub struct L10n {
    pub zh: bool,
}

fn starts_with_zh(s: &String) -> (res: bool)
    ensures
        res == starts_with(s@, "zh"@),
{
    proof {
        reveal_strlit("zh");
    }
    let chars = str_chars(s.as_str());
    let res = chars.len() >= 2 && chars[0] == 'z' && chars[1] == 'h';
    proof {
        if starts_with(s@, "zh"@) {
            assert(s@.subrange(0, 2)[0] == s@[0]);
            assert(s@.subrange(0, 2)[1] == s@[1]);
        }
        if res {
            assert(s@.subrange(0, 2) =~= "zh"@);
        }
    }
    res
}

impl L10n {
    /// Chooses the language from the `LANG` and `LC_ALL` variables (empty when
    /// unset): Chinese when either starts with `zh`, ignoring case.
    pub fn from_locale(lang: &str, lc_all: &str) -> (res: L10n)
        ensures
            res.zh == (starts_with(lowercase(lang@), "zh"@) || starts_with(lowercase(lc_all@), "zh"@)),
    {
        let lang = to_lowercase(lang);
        let lc_all = to_lowercase(lc_all);
        L10n { zh: starts_with_zh(&lang) || starts_with_zh(&lc_all) }
    }

    /// The English text, or the English and Chinese texts on two lines.
    pub fn t(&self, en: &str, zh: &str) -> (res: String)
        ensures
            res@ == if self.zh { en@ + "\n"@ + zh@ } else { en@ },
    {
        let mut s = String::new();
        push_str(&mut s, en);
        if self.zh {
            push_str(&mut s, "\n");
            push_str(&mut s, zh);
        }
        assert(s@ =~= if self.zh { en@ + "\n"@ + zh@ } else { en@ });
        s
    }
}

/// `s` cut to at most `max_len` characters: a longer string keeps its first
/// `max_len - 1` characters and ends with `…`.
pub open spec fn truncate_spec(s: Seq<char>, max_len: int) -> Seq<char> {
    if s.len() > max_len {
        s.take(max_len - 1).push('…')
    } else {
        s
    }
}

/// Cuts `s` to at most `max_len` characters, marking a cut with `…`.
pub fn truncate_str(s: &str, max_len: usize) -> (res: String)
    requires
        max_len > 0 || s@.len() == 0,
    ensures
        res@ == truncate_spec(s@, max_len as int),
{
    let chars = str_chars(s);
    if chars.len() > max_len {
        let mut kept = chars;
        kept.truncate(max_len - 1);
        kept.push('…');
        assert(kept@ =~= s@.take(max_len - 1).push('…'));
        string_from_chars(kept.as_slice())
    } else {
        String::from_str(s)
    }
}

/// Truncation keeps the result within `max_len` characters, and leaves a string
/// that fits unchanged.
pub proof fn lemma_truncate_fits(s: Seq<char>, max_len: int)
    requires
        max_len > 0,
    ensures
        truncate_spec(s, max_len).len() <= max_len,
        s.len() <= max_len ==> truncate_spec(s, max_len) == s,
        s.len() > max_len ==> truncate_spec(s, max_len).len() == max_len,
{
}

// ── The table of `check` ────────────────────────────────────────────

/// The header line of the table of available updates.
pub open spec fn table_header_spec(mod_label: Seq<char>, current_label: Seq<char>, latest_label: Seq<char>) -> Seq<char> {
    "│ #  │ "@ + pad_right(mod_label, 44) + " │ "@ + pad_right(current_label, 18) + " │ "@
        + pad_right(latest_label, 18) + " │"@
}

/// Builds the header line of the table of available updates.
pub fn table_header(mod_label: &str, current_label: &str, latest_label: &str) -> (res: String)
    ensures
        res@ == table_header_spec(mod_label@, current_label@, latest_label@),
{
    let mut s = String::new();
    push_str(&mut s, "│ #  │ ");
    push_padded_right(&mut s, mod_label, 44);
    push_str(&mut s, " │ ");
    push_padded_right(&mut s, current_label, 18);
    push_str(&mut s, " │ ");
    push_padded_right(&mut s, latest_label, 18);
    push_str(&mut s, " │");
    assert(s@ =~= table_header_spec(mod_label@, current_label@, latest_label@));
    s
}

/// A row of the table of available updates: position, file name, current
/// version, newest version and its release channel.
pub open spec fn table_row_spec(position: nat, filename: Seq<char>, current: Seq<char>, latest: Seq<char>, kind: Seq<char>) -> Seq<char> {
    "│ "@ + pad_left(decimal(position), 2) + " │ "@ + pad_right(truncate_spec(filename, 44), 44) + " │ "@
        + pad_right(truncate_spec(current, 18), 18) + " │ "@ + pad_left(truncate_spec(latest, 11), 6)
        + " ("@ + kind + ") │"@
}

/// Builds a row of the table of available updates.
pub fn table_row(position: usize, filename: &str, current: &str, latest: &str, kind: &str) -> (res: String)
    ensures
        res@ == table_row_spec(position as nat, filename@, current@, latest@, kind@),
{
    let mut s = String::new();
    push_str(&mut s, "│ ");
    let number = crate::text::decimal_string(position as u64);
    push_padded_left(&mut s, number.as_str(), 2);
    push_str(&mut s, " │ ");
    let name = truncate_str(filename, 44);
    push_padded_right(&mut s, name.as_str(), 44);
    push_str(&mut s, " │ ");
    let cur = truncate_str(current, 18);
    push_padded_right(&mut s, cur.as_str(), 18);
    push_str(&mut s, " │ ");
    let lat = truncate_str(latest, 11);
    push_padded_left(&mut s, lat.as_str(), 6);
    push_str(&mut s, " (");
    push_str(&mut s, kind);
    push_str(&mut s, ") │");
    assert(s@ =~= table_row_spec(position as nat, filename@, current@, latest@, kind@));
    s
}

/// The version number of an optional version, or `?`.
pub open spec fn number_or_unknown(v: Option<crate::api::models::Version>) -> Seq<char> {
    match v {
        Some(x) => match x.version_number {
            Some(n) => n@,
            None => "?"@,
        },
        None => "?"@,
    }
}

pub(crate) fn number_or_unknown_of(v: &Option<crate::api::models::Version>) -> (res: &str)
    ensures
        res@ == number_or_unknown(*v),
{
    match v {
        Some(x) => match &x.version_number {
            Some(n) => n.as_str(),
            None => "?",
        },
        None => "?",
    }
}

/// The row of the table for the `position`-th mod with an update.
pub fn mod_table_row(position: usize, m: &ModInfo) -> (res: String)
    ensures
        res@ == table_row_spec(
            position as nat,
            m.local.filename@,
            number_or_unknown(m.current_version),
            number_or_unknown(m.update_version),
            match m.update_version {
                Some(u) => u.version_type.name_spec(),
                None => Seq::empty(),
            },
        ),
{
    let current = number_or_unknown_of(&m.current_version);
    let latest = number_or_unknown_of(&m.update_version);
    let kind = match &m.update_version {
        Some(u) => u.version_type.name(),
        None => "",
    };
    proof {
        reveal_strlit("");
    }
    table_row(position, m.local.filename.as_str(), current, latest, kind)
}

/// How many mods were scanned, how many have an update, and how many are up to
/// date.
pub fn check_counts(mod_infos: &[ModInfo]) -> (res: (usize, usize, usize))
    ensures
        res.0 == mod_infos@.len(),
        res.1 == updatable_indices(mod_infos@).len(),
        res.2 + res.1 == res.0,
{
    let updates = mods_with_updates(mod_infos);
    let scanned = mod_infos.len();
    proof {
        lemma_updatable_indices(mod_infos@);
    }
    (scanned, updates.len(), scanned - updates.len())
}

// ── Confirmation and settings ───────────────────────────────────────

/// Whether an answer to `[y/N]` confirms: `y` or `Y`, around whitespace.
pub fn is_confirmation(input: &str) -> (res: bool)
    ensures
        res == (trim(input@) == seq!['y'] || trim(input@) == seq!['Y']),
{
    let chars = str_chars(input);
    let t = trim_chars(chars.as_slice());
    let res = t.len() == 1 && (t[0] == 'y' || t[0] == 'Y');
    proof {
        if res {
            assert(t@ =~= seq![t@[0]]);
        }
    }
    res
}

/// How `update` goes on once the available updates are listed.
#[derive(Debug, Clone, Copy, PartialEq, Eq, Structural)]
pub enum UpdateDecision {
    /// A dry run: stop after the list.
    DryRun,
    /// Ask the user to confirm, then decide again with the answer.
    Ask,
    /// The user declined: stop.
    Cancelled,
    /// Install the updates.
    Apply,
}

/// Decides whether `update` installs the listed updates: a dry run stops; `--yes`
/// installs without asking; otherwise the user is asked (`answer` is `None` until
/// then) and the updates are installed only when the answer confirms.
pub fn decide_update(dry_run: bool, yes: bool, answer: Option<&str>) -> (res: UpdateDecision)
    ensures
        res == if dry_run {
            UpdateDecision::DryRun
        } else if yes {
            UpdateDecision::Apply
        } else {
            match answer {
                None => UpdateDecision::Ask,
                Some(a) => if trim(a@) == seq!['y'] || trim(a@) == seq!['Y'] {
                    UpdateDecision::Apply
                } else {
                    UpdateDecision::Cancelled
                },
            }
        },
{
    if dry_run {
        UpdateDecision::DryRun
    } else if yes {
        UpdateDecision::Apply
    } else {
        match answer {
            None => UpdateDecision::Ask,
            Some(a) => if is_confirmation(a) {
                UpdateDecision::Apply
            } else {
                UpdateDecision::Cancelled
            },
        }
    }
}

/// A setting as shown: its value, or `(not set)`.
pub fn setting_or_not_set(value: &Option<String>) -> (res: &str)
    ensures
        res@ == match value {
            Some(v) => v@,
            None => NOT_SET@,
        },
{
    match value {
        Some(v) => v.as_str(),
        None => NOT_SET,
    }
}

/// The name of the Markdown report written at `at`.
pub fn markdown_report_file_name(at: &Timestamp) -> (res: String)
    ensures
        res@ == report_file_name_spec(at@, ".md"@),
{
    report_file_name(at, ".md")
}

} // verus!
