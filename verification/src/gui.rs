//! The decisions of the graphical front end: which tags the pickers offer, how
//! the window's state follows the worker's reports and the user's clicks, the
//! tally of a batch of downloads, and the pixels of the window icon.
//!
//! Drawing the window and running the worker are left to the caller, which
//! hands every report and click to `ModUpdaterApp` and carries out the
//! `Command`s it returns.
use vstd::prelude::*;
use vstd::string::*;
use vstd::seq_lib::group_to_multiset_ensures;
use crate::api::models::{GameVersion, Loader};
use crate::cli::{number_or_unknown, number_or_unknown_of, DEFAULT_GAME_VERSION, DEFAULT_LOADER, DEFAULT_OUTPUT_DIR};
use crate::error::CoreError;
use crate::text::{decimal, push_decimal, push_str, str_chars, views};
use crate::time::Timestamp;
use crate::updater::{mods_with_updates, updatable_indices, ModInfo, UpdateReport};

verus! {

// ── String order ────────────────────────────────────────────────────

/// Whether `a` comes strictly before `b` in the lexicographic order of their
/// characters. This is the order of `String`'s `<`: UTF-8 byte strings compare as
/// the sequences of code points they encode.
pub open spec fn lex_less(a: Seq<char>, b: Seq<char>) -> bool
    decreases a.len(),
{
    if a.len() == 0 {
        b.len() > 0
    } else if b.len() == 0 {
        false
    } else if a[0] != b[0] {
        a[0] < b[0]
    } else {
        lex_less(a.drop_first(), b.drop_first())
    }
}

/// No string comes before itself.
pub proof fn lemma_lex_less_irreflexive(a: Seq<char>)
    ensures
        !lex_less(a, a),
    decreases a.len(),
{
    if a.len() > 0 {
        lemma_lex_less_irreflexive(a.drop_first());
    }
}

/// The order is transitive.
pub proof fn lemma_lex_less_transitive(a: Seq<char>, b: Seq<char>, c: Seq<char>)
    requires
        lex_less(a, b),
        lex_less(b, c),
    ensures
        lex_less(a, c),
    decreases a.len(),
{
    if a.len() > 0 && b.len() > 0 && c.len() > 0 && a[0] == b[0] && b[0] == c[0] {
        lemma_lex_less_transitive(a.drop_first(), b.drop_first(), c.drop_first());
    }
}

/// Of two different strings, one comes before the other.
pub proof fn lemma_lex_less_total(a: Seq<char>, b: Seq<char>)
    ensures
        a == b || lex_less(a, b) || lex_less(b, a),
    decreases a.len(),
{
    if a.len() == 0 && b.len() == 0 {
        assert(a =~= b);
    } else if a.len() > 0 && b.len() > 0 && a[0] == b[0] {
        lemma_lex_less_total(a.drop_first(), b.drop_first());
        if a.drop_first() == b.drop_first() {
            assert(a.drop_first().len() == a.len() - 1);
            assert(b.drop_first().len() == b.len() - 1);
            assert(a.len() == b.len());
            assert forall|i: int| 0 <= i < a.len() implies a[i] == b[i] by {
                if i > 0 {
                    assert(a[i] == a.drop_first()[i - 1]);
                    assert(b[i] == b.drop_first()[i - 1]);
                    assert(a.drop_first()[i - 1] == b.drop_first()[i - 1]);
                }
            }
            assert(a =~= b);
        }
    }
}

/// Whether `a` sorts strictly before `b`, as `String`'s `<` says.
pub fn str_less(a: &str, b: &str) -> (res: bool)
    ensures
        res == lex_less(a@, b@),
{
    let x = str_chars(a);
    let y = str_chars(b);
    let mut i: usize = 0;
    assert(a@.skip(0) =~= a@);
    assert(b@.skip(0) =~= b@);
    while i < x.len() && i < y.len()
        invariant
            x@ == a@,
            y@ == b@,
            i <= x@.len(),
            i <= y@.len(),
            lex_less(a@, b@) == lex_less(a@.skip(i as int), b@.skip(i as int)),
        decreases x@.len() - i,
    {
        let c = x[i];
        let d = y[i];
        assert(a@.skip(i as int)[0] == c);
        assert(b@.skip(i as int)[0] == d);
        if c != d {
            return c < d;
        }
        assert(a@.skip(i as int).drop_first() =~= a@.skip(i + 1));
        assert(b@.skip(i as int).drop_first() =~= b@.skip(i + 1));
        i = i + 1;
    }
    i < y.len()
}

// ── Sorting ─────────────────────────────────────────────────────────

/// Whether `s` runs from last to first in string order: no entry comes before
/// an entry that follows it.
pub open spec fn sorted_desc(s: Seq<Seq<char>>) -> bool {
    forall|i: int, j: int| 0 <= i < j < s.len() ==> !lex_less(#[trigger] s[i], #[trigger] s[j])
}

/// Two descending sequences with the same entries are equal: sorting has only
/// one possible outcome.
pub proof fn lemma_sorted_desc_unique(a: Seq<Seq<char>>, b: Seq<Seq<char>>)
    requires
        sorted_desc(a),
        sorted_desc(b),
        a.to_multiset() == b.to_multiset(),
    ensures
        a == b,
    decreases a.len(),
{
    broadcast use group_to_multiset_ensures;

    assert(a.len() == b.len()) by {
        vstd::seq_lib::to_multiset_len(a);
        vstd::seq_lib::to_multiset_len(b);
    }
    if a.len() == 0 {
        assert(a =~= b);
    } else {
        let x = a[0];
        let y = b[0];
        vstd::seq_lib::to_multiset_contains(a, y);
        vstd::seq_lib::to_multiset_contains(b, x);
        assert(b.to_multiset().count(y) > 0) by {
            assert(b.contains(y)) by {
                assert(b[0] == y);
            }
        }
        assert(a.to_multiset().count(x) > 0) by {
            assert(a.contains(x)) by {
                assert(a[0] == x);
            }
        }
        let i = choose|i: int| 0 <= i < a.len() && a[i] == y;
        let j = choose|j: int| 0 <= j < b.len() && b[j] == x;
        if i > 0 {
            assert(!lex_less(a[0], a[i]));
        } else {
            lemma_lex_less_irreflexive(x);
        }
        if j > 0 {
            assert(!lex_less(b[0], b[j]));
        } else {
            lemma_lex_less_irreflexive(y);
        }
        lemma_lex_less_total(x, y);
        assert(x == y);
        vstd::seq_lib::to_multiset_remove(a, 0);
        vstd::seq_lib::to_multiset_remove(b, 0);
        assert(a.remove(0) =~= a.drop_first());
        assert(b.remove(0) =~= b.drop_first());
        lemma_sorted_desc_unique(a.drop_first(), b.drop_first());
        assert(a =~= b) by {
            assert forall|k: int| 0 <= k < a.len() implies a[k] == b[k] by {
                if k > 0 {
                    assert(a[k] == a.drop_first()[k - 1]);
                    assert(b[k] == b.drop_first()[k - 1]);
                }
            }
        }
    }
}

/// Inserting `x` in front of the first entry that comes before it keeps a
/// descending sequence descending.
proof fn lemma_insert_keeps_sorted(s: Seq<Seq<char>>, x: Seq<char>, p: int)
    requires
        sorted_desc(s),
        0 <= p <= s.len(),
        forall|k: int| 0 <= k < p ==> !lex_less(#[trigger] s[k], x),
        p < s.len() ==> lex_less(s[p], x),
    ensures
        sorted_desc(s.insert(p, x)),
{
    let t = s.insert(p, x);
    assert forall|i: int, j: int| 0 <= i < j < t.len() implies !lex_less(#[trigger] t[i], #[trigger] t[j]) by {
        if j < p {
            assert(t[i] == s[i] && t[j] == s[j]);
        } else if j == p {
            assert(t[i] == s[i] && t[j] == x);
        } else if i < p {
            assert(t[i] == s[i] && t[j] == s[j - 1]);
        } else if i == p {
            assert(t[i] == x && t[j] == s[j - 1]);
            if lex_less(x, s[j - 1]) {
                lemma_lex_less_transitive(s[p], x, s[j - 1]);
                if p < j - 1 {
                    assert(!lex_less(s[p], s[j - 1]));
                } else {
                    lemma_lex_less_irreflexive(s[p]);
                }
            }
        } else {
            assert(t[i] == s[i - 1] && t[j] == s[j - 1]);
        }
    }
}

/// `names` sorted from last to first in string order, as a sort by the reversed
/// order of `String` leaves them. No other sequence has both properties
/// (`lemma_sorted_desc_unique`).
pub fn sort_descending(names: &[String]) -> (res: Vec<String>)
    ensures
        sorted_desc(views(res@)),
        views(res@).to_multiset() == views(names@).to_multiset(),
{
    broadcast use group_to_multiset_ensures;

    let mut res: Vec<String> = Vec::new();
    let n = names.len();
    let mut i: usize = 0;
    while i < n
        invariant
            n == names@.len(),
            i <= n,
            sorted_desc(views(res@)),
            views(res@).to_multiset() == views(names@.take(i as int)).to_multiset(),
        decreases n - i,
    {
        let x = names[i].clone();
        let mut p: usize = 0;
        while p < res.len() && !str_less(res[p].as_str(), x.as_str())
            invariant
                p <= res@.len(),
                forall|k: int| 0 <= k < p ==> !lex_less(#[trigger] views(res@)[k], x@),
            decreases res@.len() - p,
        {
            p = p + 1;
        }
        let ghost before = views(res@);
        proof {
            lemma_insert_keeps_sorted(before, x@, p as int);
        }
        res.insert(p, x);
        proof {
            assert(views(res@) =~= before.insert(p as int, x@));
            vstd::seq_lib::to_multiset_insert(before, p as int, x@);
            let prev = views(names@.take(i as int));
            assert(views(names@.take(i + 1)) =~= prev.push(x@));
            vstd::seq_lib::to_multiset_build(prev, x@);
        }
        i = i + 1;
    }
    assert(names@.take(n as int) =~= names@);
    res
}

// ── Tags ────────────────────────────────────────────────────────────

/// The names of the listed loaders, in order.
pub open spec fn loader_names(loaders: Seq<Loader>) -> Seq<Seq<char>> {
    loaders.map_values(|l: Loader| l.name@)
}

/// The versions of the listed game versions that are major releases, in order.
pub open spec fn major_names(versions: Seq<GameVersion>) -> Seq<Seq<char>>
    decreases versions.len(),
{
    if versions.len() == 0 {
        Seq::empty()
    } else {
        let rest = major_names(versions.drop_last());
        if versions.last().major {
            rest.push(versions.last().version@)
        } else {
            rest
        }
    }
}

/// `names`, with the default game version added at the end when it is missing.
pub open spec fn with_default_version(names: Seq<Seq<char>>) -> Seq<Seq<char>> {
    if names.contains(DEFAULT_GAME_VERSION@) {
        names
    } else {
        names.push(DEFAULT_GAME_VERSION@)
    }
}

/// Whether one of `items` is `s`.
fn contains_string(items: &[String], s: &str) -> (res: bool)
    ensures
        res == views(items@).contains(s@),
{
    let target = String::from_str(s);
    let n = items.len();
    let mut i: usize = 0;
    while i < n
        invariant
            n == items@.len(),
            i <= n,
            target@ == s@,
            forall|k: int| 0 <= k < i ==> (#[trigger] views(items@)[k]) != s@,
        decreases n - i,
    {
        if items[i] == target {
            assert(views(items@)[i as int] == s@);
            return true;
        }
        i = i + 1;
    }
    false
}

/// The loaders the loader picker offers: the names the API listed, or the default
/// loader alone when the list could not be fetched.
pub fn loader_choices(listed: Result<Vec<Loader>, CoreError>) -> (res: Vec<String>)
    ensures
        views(res@) == match listed {
            Ok(loaders) => loader_names(loaders@),
            Err(_) => seq![DEFAULT_LOADER@],
        },
{
    match listed {
        Ok(loaders) => {
            let mut res: Vec<String> = Vec::new();
            let n = loaders.len();
            let mut i: usize = 0;
            while i < n
                invariant
                    n == loaders@.len(),
                    i <= n,
                    views(res@) == loader_names(loaders@.take(i as int)),
                decreases n - i,
            {
                res.push(loaders[i].name.clone());
                assert(loader_names(loaders@.take(i + 1)) =~= loader_names(loaders@.take(i as int)).push(loaders@[i as int].name@));
                assert(views(res@) =~= loader_names(loaders@.take(i + 1)));
                i = i + 1;
            }
            assert(loaders@.take(n as int) =~= loaders@);
            res
        },
        Err(_) => {
            let mut res: Vec<String> = Vec::new();
            res.push(String::from_str(DEFAULT_LOADER));
            assert(views(res@) =~= seq![DEFAULT_LOADER@]);
            res
        },
    }
}

/// The game versions the version picker offers: the major versions the API
/// listed, from last to first in string order, or the default version alone when
/// the list could not be fetched; the default version is added at the end when it
/// is not among them.
pub fn game_version_choices(listed: Result<Vec<GameVersion>, CoreError>) -> (res: Vec<String>)
    ensures
        match listed {
            Ok(versions) => {
                let names = views(res@);
                let sorted = if major_names(versions@).contains(DEFAULT_GAME_VERSION@) {
                    names
                } else {
                    names.drop_last()
                };
                &&& sorted_desc(sorted)
                &&& sorted.to_multiset() == major_names(versions@).to_multiset()
                &&& names == with_default_version(sorted)
            },
            Err(_) => views(res@) == seq![DEFAULT_GAME_VERSION@],
        },
        views(res@).contains(DEFAULT_GAME_VERSION@),
{
    broadcast use group_to_multiset_ensures;

    let mut res = match listed {
        Ok(versions) => {
            let mut majors: Vec<String> = Vec::new();
            let n = versions.len();
            let mut i: usize = 0;
            while i < n
                invariant
                    n == versions@.len(),
                    i <= n,
                    views(majors@) == major_names(versions@.take(i as int)),
                decreases n - i,
            {
                assert(versions@.take(i + 1).drop_last() =~= versions@.take(i as int));
                if versions[i].major {
                    majors.push(versions[i].version.clone());
                    assert(views(majors@) =~= major_names(versions@.take(i + 1)));
                }
                i = i + 1;
            }
            assert(versions@.take(n as int) =~= versions@);
            sort_descending(&majors)
        },
        Err(_) => {
            let mut res: Vec<String> = Vec::new();
            res.push(String::from_str(DEFAULT_GAME_VERSION));
            res
        },
    };
    let ghost sorted = views(res@);
    proof {
        if listed is Ok {
            let m = major_names(listed->Ok_0@);
            assert(sorted.contains(DEFAULT_GAME_VERSION@) <==> m.contains(DEFAULT_GAME_VERSION@)) by {
                assert(sorted.to_multiset().count(DEFAULT_GAME_VERSION@) == m.to_multiset().count(DEFAULT_GAME_VERSION@));
            }
        } else {
            assert(sorted =~= seq![DEFAULT_GAME_VERSION@]);
            assert(sorted[0] == DEFAULT_GAME_VERSION@);
        }
    }
    if !contains_string(&res, DEFAULT_GAME_VERSION) {
        res.push(String::from_str(DEFAULT_GAME_VERSION));
        assert(views(res@).drop_last() =~= sorted);
        assert(views(res@) =~= sorted.push(DEFAULT_GAME_VERSION@));
        assert(views(res@)[sorted.len() as int] == DEFAULT_GAME_VERSION@);
    }
    res
}

// ── Window state ────────────────────────────────────────────────────

/// A request from the window to the background worker.
#[derive(Debug)]
pub enum Command {
    /// Fetch the loaders and game versions the pickers offer.
    FetchTags,
    /// Scan `dir` and ask which of its mods have updates for the loader and game
    /// version.
    ScanAndCheck { dir: String, loader: String, game_version: String },
    /// Install the updates of the mods at `indices` of the last check into
    /// `output_dir`.
    DownloadSelected { indices: Vec<usize>, output_dir: String },
}

/// A report from the background worker to the window.
#[derive(Debug)]
pub enum AppEvent {
    TagsLoaded { loaders: Vec<String>, game_versions: Vec<String> },
    ScanStarted,
    ScanComplete { count: usize },
    CheckStarted,
    CheckComplete { mod_infos: Vec<ModInfo> },
    /// How far the download of the mod at `index` has come, in percent.
    DownloadProgress { index: usize, filename: String, percent: u32 },
    DownloadComplete { success: bool, error: Option<String> },
    AllDownloadsComplete { report: UpdateReport },
    Error(String),
}

/// What the window shows.
#[derive(Debug)]
pub enum AppState {
    Idle,
    Scanning,
    Checking,
    /// The mods of the last check, and which of them are ticked.
    Results { mod_infos: Vec<ModInfo>, selected: Vec<bool> },
    /// A batch of downloads: the progress of each mod (index, file name, percent),
    /// how many finished and failed, and the error messages.
    Downloading {
        mod_infos: Vec<ModInfo>,
        progress: Vec<(usize, String, u32)>,
        completed: usize,
        failed: usize,
        errors: Vec<String>,
    },
    Done { report: UpdateReport },
}

/// The state of the window: the directory, loader and game version typed in, the
/// choices the pickers offer, what is shown, and the status line.
#[derive(Debug)]
pub struct ModUpdaterApp {
    pub mods_dir: String,
    pub loader: String,
    pub game_version: String,
    pub loaders: Vec<String>,
    pub game_versions: Vec<String>,
    pub state: AppState,
    pub status: String,
}

/// The status line of a window that has done nothing yet.
pub const READY_STATUS: &'static str = "Ready. Select a mods directory and click 'Check Updates'.";

/// The status line while a directory is scanned.
pub const SCANNING_STATUS: &'static str = "Scanning...";

/// The status line once `count` mods were found.
pub open spec fn found_status(count: nat) -> Seq<char> {
    "Found "@ + decimal(count) + " mod(s), checking API..."@
}

/// The status line once `scanned` mods were checked and `updates` have an update.
pub open spec fn checked_status(scanned: nat, updates: nat) -> Seq<char> {
    decimal(scanned) + " mod(s) scanned, "@ + decimal(updates) + " update(s) available."@
}

/// The status line after a check starts with the number of mods scanned, then
/// the number of updates available.
pub proof fn lemma_checked_status_counts(scanned: nat, updates: nat)
    ensures
        ({
            let lead = decimal(scanned) + " mod(s) scanned, "@ + decimal(updates) + " update(s)"@;
            lead.len() <= checked_status(scanned, updates).len()
                && checked_status(scanned, updates).take(lead.len() as int) == lead
        }),
{
    reveal_strlit(" update(s)");
    reveal_strlit(" update(s) available.");
    let lead = decimal(scanned) + " mod(s) scanned, "@ + decimal(updates) + " update(s)"@;
    assert(checked_status(scanned, updates).take(lead.len() as int) =~= lead);
}

/// The status line at the end of a batch of downloads.
pub open spec fn done_status(updated: nat, failed: nat) -> Seq<char> {
    "Done: "@ + decimal(updated) + " updated, "@ + decimal(failed) + " failed. Files in ./mods_update/"@
}

/// The status line at the end of a batch starts by saying how many updates were
/// installed, then how many failed: the installed count before "updated", the
/// failed count before "failed".
pub proof fn lemma_done_status_counts(updated: nat, failed: nat)
    ensures
        ({
            let lead = "Done: "@ + decimal(updated) + " updated, "@ + decimal(failed) + " failed"@;
            lead.len() <= done_status(updated, failed).len()
                && done_status(updated, failed).take(lead.len() as int) == lead
        }),
{
    reveal_strlit(" failed");
    reveal_strlit(" failed. Files in ./mods_update/");
    let lead = "Done: "@ + decimal(updated) + " updated, "@ + decimal(failed) + " failed"@;
    assert(done_status(updated, failed).take(lead.len() as int) =~= lead);
}

/// The status line after an error.
pub open spec fn error_status(message: Seq<char>) -> Seq<char> {
    "Error: "@ + message
}

/// The position of the first progress entry of the mod at `index`, if any.
pub open spec fn entry_position(progress: Seq<(usize, String, u32)>, index: usize) -> Option<int>
    decreases progress.len(),
{
    if progress.len() == 0 {
        None
    } else if progress[0].0 == index {
        Some(0)
    } else {
        match entry_position(progress.drop_first(), index) {
            Some(k) => Some(k + 1),
            None => None,
        }
    }
}

/// The progress list after a report on the mod at `index`: its first entry takes
/// the new file name and percentage, or a new entry is added at the end.
pub open spec fn progress_after(
    progress: Seq<(usize, String, u32)>,
    index: usize,
    filename: String,
    percent: u32,
) -> Seq<(usize, String, u32)> {
    match entry_position(progress, index) {
        Some(k) => progress.update(k, (index, filename, percent)),
        None => progress.push((index, filename, percent)),
    }
}

proof fn lemma_entry_position_found(progress: Seq<(usize, String, u32)>, index: usize, i: int)
    requires
        0 <= i < progress.len(),
        progress[i].0 == index,
        forall|j: int| 0 <= j < i ==> (#[trigger] progress[j]).0 != index,
    ensures
        entry_position(progress, index) == Some(i),
    decreases i,
{
    if i > 0 {
        let rest = progress.drop_first();
        assert forall|j: int| 0 <= j < i - 1 implies (#[trigger] rest[j]).0 != index by {
            assert(rest[j] == progress[j + 1]);
        }
        assert(progress[0].0 != index);
        lemma_entry_position_found(rest, index, i - 1);
    }
}

proof fn lemma_entry_position_missing(progress: Seq<(usize, String, u32)>, index: usize)
    requires
        forall|j: int| 0 <= j < progress.len() ==> (#[trigger] progress[j]).0 != index,
    ensures
        entry_position(progress, index) is None,
    decreases progress.len(),
{
    if progress.len() > 0 {
        let rest = progress.drop_first();
        assert forall|j: int| 0 <= j < rest.len() implies (#[trigger] rest[j]).0 != index by {
            assert(rest[j] == progress[j + 1]);
        }
        assert(progress[0].0 != index);
        lemma_entry_position_missing(rest, index);
    }
}

/// Records a progress report in the list.
fn update_progress(progress: &mut Vec<(usize, String, u32)>, index: usize, filename: String, percent: u32)
    ensures
        final(progress)@ == progress_after(old(progress)@, index, filename, percent),
{
    let n = progress.len();
    let mut i: usize = 0;
    while i < n
        invariant
            n == progress@.len(),
            i <= n,
            progress@ == old(progress)@,
            forall|j: int| 0 <= j < i ==> (#[trigger] progress@[j]).0 != index,
        decreases n - i,
    {
        if progress[i].0 == index {
            proof {
                lemma_entry_position_found(progress@, index, i as int);
            }
            progress.set(i, (index, filename, percent));
            return;
        }
        i = i + 1;
    }
    proof {
        lemma_entry_position_missing(progress@, index);
    }
    progress.push((index, filename, percent));
}

/// The indices, in order, of the mods that are ticked and have an update.
pub open spec fn selected_updates_spec(infos: Seq<ModInfo>, selected: Seq<bool>) -> Seq<usize>
    decreases infos.len(),
{
    if infos.len() == 0 {
        Seq::empty()
    } else {
        let rest = selected_updates_spec(infos.drop_last(), selected);
        let i = infos.len() - 1;
        if selected[i] && infos.last().update_version is Some {
            rest.push(i as usize)
        } else {
            rest
        }
    }
}

impl ModUpdaterApp {
    /// The selection has one mark per listed mod.
    pub open spec fn wf(&self) -> bool {
        self.state matches AppState::Results { mod_infos, selected } ==> selected@.len() == mod_infos@.len()
    }

    /// The reports the window can take in its present state: a list of tags must
    /// not be empty, and the counters of a batch must not run over.
    pub open spec fn accepts(&self, e: AppEvent) -> bool {
        match e {
            AppEvent::TagsLoaded { loaders, game_versions } => loaders@.len() > 0 && game_versions@.len() > 0,
            AppEvent::DownloadComplete { success, .. } => match self.state {
                AppState::Downloading { completed, failed, .. } => if success {
                    completed < usize::MAX
                } else {
                    failed < usize::MAX
                },
                _ => true,
            },
            _ => true,
        }
    }

    /// The directory, loader, game version and their choices are those of `other`.
    pub open spec fn same_inputs(&self, other: ModUpdaterApp) -> bool {
        &&& self.mods_dir == other.mods_dir
        &&& self.loader == other.loader
        &&& self.game_version == other.game_version
        &&& self.loaders == other.loaders
        &&& self.game_versions == other.game_versions
    }

    /// A window with an empty directory, the default loader and game version as
    /// the only choices, showing nothing yet.
    pub fn new() -> (res: ModUpdaterApp)
        ensures
            res.wf(),
            res.mods_dir@ == Seq::<char>::empty(),
            res.loader@ == DEFAULT_LOADER@,
            res.game_version@ == DEFAULT_GAME_VERSION@,
            views(res.loaders@) == seq![DEFAULT_LOADER@],
            views(res.game_versions@) == seq![DEFAULT_GAME_VERSION@],
            res.state is Idle,
            res.status@ == READY_STATUS@,
    {
        let mut loaders: Vec<String> = Vec::new();
        loaders.push(String::from_str(DEFAULT_LOADER));
        let mut game_versions: Vec<String> = Vec::new();
        game_versions.push(String::from_str(DEFAULT_GAME_VERSION));
        assert(views(loaders@) =~= seq![DEFAULT_LOADER@]);
        assert(views(game_versions@) =~= seq![DEFAULT_GAME_VERSION@]);
        ModUpdaterApp {
            mods_dir: String::new(),
            loader: String::from_str(DEFAULT_LOADER),
            game_version: String::from_str(DEFAULT_GAME_VERSION),
            loaders,
            game_versions,
            state: AppState::Idle,
            status: String::from_str(READY_STATUS),
        }
    }

    /// Takes in one report of the worker.
    pub fn process_event(&mut self, e: AppEvent)
        requires
            old(self).wf(),
            old(self).accepts(e),
        ensures
            final(self).wf(),
            final(self).mods_dir == old(self).mods_dir,
            match e {
                AppEvent::TagsLoaded { loaders, game_versions } => {
                    &&& final(self).loader@ == if views(loaders@).contains(old(self).loader@) {
                        old(self).loader@
                    } else {
                        loaders@[0]@
                    }
                    &&& final(self).game_version@ == if views(game_versions@).contains(old(self).game_version@) {
                        old(self).game_version@
                    } else {
                        game_versions@[0]@
                    }
                    &&& final(self).loaders == loaders
                    &&& final(self).game_versions == game_versions
                    &&& final(self).state == old(self).state
                    &&& final(self).status == old(self).status
                },
                AppEvent::ScanStarted => {
                    &&& final(self).same_inputs(*old(self))
                    &&& final(self).state is Scanning
                    &&& final(self).status@ == SCANNING_STATUS@
                },
                AppEvent::ScanComplete { count } => {
                    &&& final(self).same_inputs(*old(self))
                    &&& final(self).state == old(self).state
                    &&& final(self).status@ == found_status(count as nat)
                },
                AppEvent::CheckStarted => {
                    &&& final(self).same_inputs(*old(self))
                    &&& final(self).state is Checking
                    &&& final(self).status == old(self).status
                },
                AppEvent::CheckComplete { mod_infos } => {
                    &&& final(self).same_inputs(*old(self))
                    &&& final(self).status@ == checked_status(
                        mod_infos@.len(),
                        updatable_indices(mod_infos@).len(),
                    )
                    &&& final(self).state matches AppState::Results { mod_infos: m, selected }
                        && m == mod_infos && selected@ == Seq::new(mod_infos@.len(), |i: int| true)
                },
                AppEvent::DownloadProgress { index, filename, percent } => {
                    &&& final(self).same_inputs(*old(self))
                    &&& final(self).status == old(self).status
                    &&& match old(self).state {
                        AppState::Downloading { mod_infos, progress, completed, failed, errors } =>
                            final(self).state matches AppState::Downloading {
                                mod_infos: m2, progress: p2, completed: c2, failed: f2, errors: e2 }
                            && m2 == mod_infos && c2 == completed && f2 == failed && e2 == errors
                            && p2@ == progress_after(progress@, index, filename, percent),
                        _ => final(self).state == old(self).state,
                    }
                },
                AppEvent::DownloadComplete { success, error } => {
                    &&& final(self).same_inputs(*old(self))
                    &&& final(self).status == old(self).status
                    &&& match old(self).state {
                        AppState::Downloading { mod_infos, progress, completed, failed, errors } =>
                            final(self).state matches AppState::Downloading {
                                mod_infos: m2, progress: p2, completed: c2, failed: f2, errors: e2 }
                            && m2 == mod_infos && p2 == progress
                            && c2 == (if success { completed + 1 } else { completed as int })
                            && f2 == (if success { failed as int } else { failed + 1 })
                            && e2@ == match error {
                                Some(m) => errors@.push(m),
                                None => errors@,
                            },
                        _ => final(self).state == old(self).state,
                    }
                },
                AppEvent::AllDownloadsComplete { report } => {
                    &&& final(self).same_inputs(*old(self))
                    &&& final(self).status@ == done_status(report.total_updated as nat, report.total_failed as nat)
                    &&& ({
                        let lead = "Done: "@ + decimal(report.total_updated as nat) + " updated, "@
                            + decimal(report.total_failed as nat) + " failed"@;
                        lead.len() <= final(self).status@.len() && final(self).status@.take(lead.len() as int) == lead
                    })
                    &&& final(self).state == (AppState::Done { report })
                },
                AppEvent::Error(message) => {
                    &&& final(self).same_inputs(*old(self))
                    &&& final(self).state == old(self).state
                    &&& final(self).status@ == error_status(message@)
                },
            },
    {
        match e {
            AppEvent::TagsLoaded { loaders, game_versions } => {
                if !contains_string(&loaders, self.loader.as_str()) {
                    self.loader = loaders[0].clone();
                }
                if !contains_string(&game_versions, self.game_version.as_str()) {
                    self.game_version = game_versions[0].clone();
                }
                self.loaders = loaders;
                self.game_versions = game_versions;
            },
            AppEvent::ScanStarted => {
                self.state = AppState::Scanning;
                self.status = String::from_str(SCANNING_STATUS);
            },
            AppEvent::ScanComplete { count } => {
                let mut s = String::from_str("Found ");
                push_decimal(&mut s, count as u64);
                push_str(&mut s, " mod(s), checking API...");
                self.status = s;
            },
            AppEvent::CheckStarted => {
                self.state = AppState::Checking;
            },
            AppEvent::CheckComplete { mod_infos } => {
                let n = mod_infos.len();
                let u = mods_with_updates(&mod_infos).len();
                let mut s = String::new();
                push_decimal(&mut s, n as u64);
                push_str(&mut s, " mod(s) scanned, ");
                push_decimal(&mut s, u as u64);
                push_str(&mut s, " update(s) available.");
                self.status = s;
                let mut selected: Vec<bool> = Vec::new();
                let mut i: usize = 0;
                while i < n
                    invariant
                        i <= n,
                        selected@ == Seq::new(i as nat, |k: int| true),
                    decreases n - i,
                {
                    selected.push(true);
                    i = i + 1;
                }
                self.state = AppState::Results { mod_infos, selected };
            },
            AppEvent::DownloadProgress { index, filename, percent } => {
                let mut st = AppState::Idle;
                std::mem::swap(&mut st, &mut self.state);
                self.state = match st {
                    AppState::Downloading { mod_infos, mut progress, completed, failed, errors } => {
                        update_progress(&mut progress, index, filename, percent);
                        AppState::Downloading { mod_infos, progress, completed, failed, errors }
                    },
                    other => other,
                };
            },
            AppEvent::DownloadComplete { success, error } => {
                let mut st = AppState::Idle;
                std::mem::swap(&mut st, &mut self.state);
                self.state = match st {
                    AppState::Downloading { mod_infos, progress, completed, failed, mut errors } => {
                        let (c2, f2) = if success { (completed + 1, failed) } else { (completed, failed + 1) };
                        match error {
                            Some(m) => errors.push(m),
                            None => {},
                        }
                        AppState::Downloading { mod_infos, progress, completed: c2, failed: f2, errors }
                    },
                    other => other,
                };
            },
            AppEvent::AllDownloadsComplete { report } => {
                let mut s = String::from_str("Done: ");
                push_decimal(&mut s, report.total_updated as u64);
                push_str(&mut s, " updated, ");
                push_decimal(&mut s, report.total_failed as u64);
                push_str(&mut s, " failed. Files in ./mods_update/");
                proof {
                    lemma_done_status_counts(report.total_updated as nat, report.total_failed as nat);
                }
                self.status = s;
                self.state = AppState::Done { report };
            },
            AppEvent::Error(message) => {
                let mut s = String::from_str("Error: ");
                push_str(&mut s, message.as_str());
                self.status = s;
            },
        }
    }
}

/// Whether one of the mods has an update.
pub open spec fn some_update(infos: Seq<ModInfo>) -> bool {
    exists|i: int| 0 <= i < infos.len() && (#[trigger] infos[i]).update_version is Some
}

impl ModUpdaterApp {
    /// Whether a scan or a check is under way.
    pub open spec fn busy_spec(&self) -> bool {
        self.state is Scanning || self.state is Checking
    }

    /// Whether a scan or a check is under way.
    pub fn is_busy(&self) -> (res: bool)
        ensures
            res == self.busy_spec(),
    {
        match self.state {
            AppState::Scanning | AppState::Checking => true,
            _ => false,
        }
    }

    /// Whether the window has to be drawn again without waiting for input: while
    /// the worker scans, checks or downloads.
    pub fn needs_repaint(&self) -> (res: bool)
        ensures
            res == (self.state is Scanning || self.state is Checking || self.state is Downloading),
    {
        match self.state {
            AppState::Scanning | AppState::Checking | AppState::Downloading { .. } => true,
            _ => false,
        }
    }

    /// Whether "Check Updates" can be clicked: a directory is given and the
    /// window is not busy.
    pub fn can_check(&self) -> (res: bool)
        ensures
            res == (self.mods_dir@.len() > 0 && !self.busy_spec()),
    {
        !self.mods_dir.as_str().is_empty() && !self.is_busy()
    }

    /// A click on "Check Updates": when it can be clicked, the window shows a scan
    /// and the worker is asked to scan the directory and check it for the loader
    /// and game version typed in; otherwise nothing happens.
    pub fn request_check(&mut self) -> (res: Option<Command>)
        requires
            old(self).wf(),
        ensures
            final(self).wf(),
            final(self).same_inputs(*old(self)),
            final(self).status == old(self).status,
            old(self).mods_dir@.len() > 0 && !old(self).busy_spec() ==> {
                &&& res matches Some(Command::ScanAndCheck { dir, loader, game_version })
                    && dir@ == old(self).mods_dir@ && loader@ == old(self).loader@
                    && game_version@ == old(self).game_version@
                &&& final(self).state is Scanning
            },
            !(old(self).mods_dir@.len() > 0 && !old(self).busy_spec()) ==> {
                &&& res is None
                &&& final(self).state == old(self).state
            },
    {
        if self.can_check() {
            let cmd = Command::ScanAndCheck {
                dir: self.mods_dir.clone(),
                loader: self.loader.clone(),
                game_version: self.game_version.clone(),
            };
            self.state = AppState::Scanning;
            Some(cmd)
        } else {
            None
        }
    }

    /// The indices, in order, of the listed mods that are ticked and have an
    /// update; none outside the results.
    pub fn selected_updates(&self) -> (res: Vec<usize>)
        requires
            self.wf(),
        ensures
            res@ == match self.state {
                AppState::Results { mod_infos, selected } => selected_updates_spec(mod_infos@, selected@),
                _ => Seq::empty(),
            },
    {
        match &self.state {
            AppState::Results { mod_infos, selected } => {
                let mut res: Vec<usize> = Vec::new();
                let n = mod_infos.len();
                let mut i: usize = 0;
                while i < n
                    invariant
                        n == mod_infos@.len(),
                        n == selected@.len(),
                        i <= n,
                        res@ == selected_updates_spec(mod_infos@.take(i as int), selected@),
                    decreases n - i,
                {
                    assert(mod_infos@.take(i + 1).drop_last() =~= mod_infos@.take(i as int));
                    if selected[i] && mod_infos[i].update_version.is_some() {
                        res.push(i);
                    }
                    i = i + 1;
                }
                assert(mod_infos@.take(n as int) =~= mod_infos@);
                res
            },
            _ => Vec::new(),
        }
    }

    /// Whether some listed mod has an update.
    pub fn any_update(&self) -> (res: bool)
        ensures
            res == match self.state {
                AppState::Results { mod_infos, .. } => some_update(mod_infos@),
                _ => false,
            },
    {
        match &self.state {
            AppState::Results { mod_infos, .. } => {
                let n = mod_infos.len();
                let mut i: usize = 0;
                while i < n
                    invariant
                        n == mod_infos@.len(),
                        i <= n,
                        self.state matches AppState::Results { mod_infos: m, .. } && m == *mod_infos,
                        forall|k: int| 0 <= k < i ==> (#[trigger] mod_infos@[k]).update_version is None,
                    decreases n - i,
                {
                    if mod_infos[i].update_version.is_some() {
                        assert(mod_infos@[i as int].update_version is Some);
                        return true;
                    }
                    i = i + 1;
                }
                false
            },
            _ => false,
        }
    }

    /// Ticks or clears the mark of the listed mod at `index`; nothing happens
    /// outside the results or past the list.
    pub fn set_selected(&mut self, index: usize, value: bool)
        requires
            old(self).wf(),
        ensures
            final(self).wf(),
            final(self).same_inputs(*old(self)),
            final(self).status == old(self).status,
            match old(self).state {
                AppState::Results { mod_infos, selected } => final(self).state matches AppState::Results {
                    mod_infos: m2, selected: s2 } && m2 == mod_infos
                    && s2@ == if index < selected@.len() { selected@.update(index as int, value) } else { selected@ },
                _ => final(self).state == old(self).state,
            },
    {
        match &mut self.state {
            AppState::Results { selected, .. } => {
                if index < selected.len() {
                    selected.set(index, value);
                }
            },
            _ => {},
        }
    }

    /// Sets every mark of the results to `value`.
    fn mark_all(&mut self, value: bool)
        requires
            old(self).wf(),
        ensures
            final(self).wf(),
            final(self).same_inputs(*old(self)),
            final(self).status == old(self).status,
            match old(self).state {
                AppState::Results { mod_infos, selected } => final(self).state matches AppState::Results {
                    mod_infos: m2, selected: s2 } && m2 == mod_infos
                    && s2@ == Seq::new(selected@.len(), |i: int| value),
                _ => final(self).state == old(self).state,
            },
    {
        match &mut self.state {
            AppState::Results { selected, .. } => {
                let n = selected.len();
                let mut i: usize = 0;
                while i < n
                    invariant
                        n == selected@.len(),
                        i <= n,
                        forall|k: int| 0 <= k < i ==> selected@[k] == value,
                    decreases n - i,
                {
                    selected.set(i, value);
                    i = i + 1;
                }
                assert(selected@ =~= Seq::new(n as nat, |k: int| value));
            },
            _ => {},
        }
    }

    /// A click on "Select All", which can be clicked when some listed mod has an
    /// update: every mark is ticked.
    pub fn select_all(&mut self)
        requires
            old(self).wf(),
        ensures
            final(self).wf(),
            final(self).same_inputs(*old(self)),
            final(self).status == old(self).status,
            match old(self).state {
                AppState::Results { mod_infos, selected } => if some_update(mod_infos@) {
                    final(self).state matches AppState::Results { mod_infos: m2, selected: s2 }
                        && m2 == mod_infos && s2@ == Seq::new(selected@.len(), |i: int| true)
                } else {
                    final(self).state == old(self).state
                },
                _ => final(self).state == old(self).state,
            },
    {
        if self.any_update() {
            self.mark_all(true);
        }
    }

    /// A click on "Deselect All": every mark is cleared.
    pub fn deselect_all(&mut self)
        requires
            old(self).wf(),
        ensures
            final(self).wf(),
            final(self).same_inputs(*old(self)),
            final(self).status == old(self).status,
            match old(self).state {
                AppState::Results { mod_infos, selected } => final(self).state matches AppState::Results {
                    mod_infos: m2, selected: s2 } && m2 == mod_infos
                    && s2@ == Seq::new(selected@.len(), |i: int| false),
                _ => final(self).state == old(self).state,
            },
    {
        self.mark_all(false);
    }

    /// A click on "Update Selected", which can be clicked when some ticked mod has
    /// an update: the worker is asked to install those updates into the output
    /// directory, and the window shows a batch with nothing done yet.
    pub fn request_download(&mut self) -> (res: Option<Command>)
        requires
            old(self).wf(),
        ensures
            final(self).wf(),
            final(self).same_inputs(*old(self)),
            final(self).status == old(self).status,
            match old(self).state {
                AppState::Results { mod_infos, selected } => if selected_updates_spec(mod_infos@, selected@).len() > 0 {
                    &&& res matches Some(Command::DownloadSelected { indices, output_dir })
                        && indices@ == selected_updates_spec(mod_infos@, selected@)
                        && output_dir@ == DEFAULT_OUTPUT_DIR@
                    &&& final(self).state matches AppState::Downloading { mod_infos: m2, progress, completed, failed, errors }
                        && m2 == mod_infos && progress@.len() == 0 && completed == 0 && failed == 0
                        && errors@.len() == 0
                } else {
                    res is None && final(self).state == old(self).state
                },
                _ => res is None && final(self).state == old(self).state,
            },
    {
        let indices = self.selected_updates();
        if indices.len() == 0 {
            return None;
        }
        let mut st = AppState::Idle;
        std::mem::swap(&mut st, &mut self.state);
        match st {
            AppState::Results { mod_infos, .. } => {
                self.state = AppState::Downloading {
                    mod_infos,
                    progress: Vec::new(),
                    completed: 0,
                    failed: 0,
                    errors: Vec::new(),
                };
                Some(Command::DownloadSelected { indices, output_dir: String::from_str(DEFAULT_OUTPUT_DIR) })
            },
            other => {
                self.state = other;
                None
            },
        }
    }

    /// A click on "Check Again" after a batch: the window starts over.
    pub fn check_again(&mut self)
        requires
            old(self).wf(),
        ensures
            final(self).wf(),
            final(self).same_inputs(*old(self)),
            final(self).status == old(self).status,
            old(self).state is Done ==> final(self).state is Idle,
            !(old(self).state is Done) ==> final(self).state == old(self).state,
    {
        if let AppState::Done { .. } = self.state {
            self.state = AppState::Idle;
        }
    }
}

// ── The worker's scan and check ─────────────────────────────────────

/// What the worker reports once a directory has been scanned (it reported
/// `ScanStarted` before): the error alone when the scan failed; otherwise the
/// number of mods found, followed by an empty check result when there are none
/// (and the mods of the last check are forgotten) or by `CheckStarted`. The flag
/// says whether the check goes on.
pub fn after_scan(scanned: Result<usize, String>, stored: &mut Vec<ModInfo>) -> (res: (Vec<AppEvent>, bool))
    ensures
        match scanned {
            Err(m) => {
                &&& res.0@.len() == 1
                &&& res.0@[0] == AppEvent::Error(m)
                &&& !res.1
                &&& final(stored)@ == old(stored)@
            },
            Ok(count) => {
                &&& res.0@.len() == 2
                &&& res.0@[0] == (AppEvent::ScanComplete { count })
                &&& if count == 0 {
                    &&& res.0@[1] matches AppEvent::CheckComplete { mod_infos } && mod_infos@.len() == 0
                    &&& !res.1
                    &&& final(stored)@.len() == 0
                } else {
                    &&& res.0@[1] is CheckStarted
                    &&& res.1
                    &&& final(stored)@ == old(stored)@
                }
            },
        },
{
    let mut events: Vec<AppEvent> = Vec::new();
    match scanned {
        Err(m) => {
            events.push(AppEvent::Error(m));
            (events, false)
        },
        Ok(count) => {
            events.push(AppEvent::ScanComplete { count });
            if count == 0 {
                stored.clear();
                events.push(AppEvent::CheckComplete { mod_infos: Vec::new() });
                (events, false)
            } else {
                events.push(AppEvent::CheckStarted);
                (events, true)
            }
        },
    }
}

/// What the worker reports once the mods have been checked: the mods with their
/// versions, which it also keeps for a later batch of downloads; or the error,
/// keeping the mods of the last check.
pub fn after_check(checked: Result<Vec<ModInfo>, String>, stored: &mut Vec<ModInfo>) -> (res: AppEvent)
    ensures
        match checked {
            Ok(infos) => {
                &&& res == (AppEvent::CheckComplete { mod_infos: infos })
                &&& final(stored)@.len() == infos@.len()
                &&& forall|i: int| 0 <= i < infos@.len() ==> (#[trigger] final(stored)@[i])@ == infos@[i]@
            },
            Err(m) => {
                &&& res == AppEvent::Error(m)
                &&& final(stored)@ == old(stored)@
            },
        },
{
    match checked {
        Ok(infos) => {
            let mut copy: Vec<ModInfo> = Vec::new();
            let n = infos.len();
            let mut i: usize = 0;
            while i < n
                invariant
                    n == infos@.len(),
                    i <= n,
                    copy@.len() == i,
                    forall|k: int| 0 <= k < i ==> (#[trigger] copy@[k])@ == infos@[k]@,
                decreases n - i,
            {
                copy.push(infos[i].clone());
                i = i + 1;
            }
            *stored = copy;
            AppEvent::CheckComplete { mod_infos: infos }
        },
        Err(m) => AppEvent::Error(m),
    }
}

// ── What the window prints ──────────────────────────────────────────

/// The "Current" cell of a listed mod: the number of its version, or `?`.
pub fn current_label(m: &ModInfo) -> (res: &str)
    ensures
        res@ == number_or_unknown(m.current_version),
{
    number_or_unknown_of(&m.current_version)
}

/// The "Latest" cell of a listed mod: the number of its new version (`?` when it
/// has none), or `—` when the mod has no update.
pub open spec fn latest_label_spec(m: ModInfo) -> Seq<char> {
    match m.update_version {
        Some(_) => number_or_unknown(m.update_version),
        None => "—"@,
    }
}

/// The "Latest" cell of a listed mod.
pub fn latest_label(m: &ModInfo) -> (res: &str)
    ensures
        res@ == latest_label_spec(*m),
{
    match &m.update_version {
        Some(_) => number_or_unknown_of(&m.update_version),
        None => "—",
    }
}

/// The "Type" cell of a listed mod: the release channel of its new version, as
/// `{:?}` prints it, or nothing when it has no update.
pub fn kind_label(m: &ModInfo) -> (res: &str)
    ensures
        res@ == match m.update_version {
            Some(u) => u.version_type.name_spec(),
            None => ""@,
        },
{
    match &m.update_version {
        Some(u) => u.version_type.name(),
        None => "",
    }
}

/// The counter line of a batch of downloads.
pub open spec fn batch_label_spec(completed: nat, total: nat, failed: nat) -> Seq<char> {
    decimal(completed) + " / "@ + decimal(total) + " completed, "@ + decimal(failed) + " failed"@
}

/// The counter line of a batch reads: finished, then the number listed, then
/// failed, each before its own word.
pub proof fn lemma_batch_label_counts(completed: nat, total: nat, failed: nat)
    ensures
        batch_label_spec(completed, total, failed) == decimal(completed) + seq![' ', '/', ' '] + decimal(total)
            + seq![' ', 'c', 'o', 'm', 'p', 'l', 'e', 't', 'e', 'd', ',', ' '] + decimal(failed)
            + seq![' ', 'f', 'a', 'i', 'l', 'e', 'd'],
{
    reveal_strlit(" / ");
    reveal_strlit(" completed, ");
    reveal_strlit(" failed");
    assert(" / "@ =~= seq![' ', '/', ' ']);
    assert(" completed, "@ =~= seq![' ', 'c', 'o', 'm', 'p', 'l', 'e', 't', 'e', 'd', ',', ' ']);
    assert(" failed"@ =~= seq![' ', 'f', 'a', 'i', 'l', 'e', 'd']);
}

/// The counter line of a batch of downloads: how many of the listed mods
/// finished, and how many failed.
pub fn batch_label(completed: usize, total: usize, failed: usize) -> (res: String)
    ensures
        res@ == batch_label_spec(completed as nat, total as nat, failed as nat),
{
    let mut s = String::new();
    push_decimal(&mut s, completed as u64);
    push_str(&mut s, " / ");
    push_decimal(&mut s, total as u64);
    push_str(&mut s, " completed, ");
    push_decimal(&mut s, failed as u64);
    push_str(&mut s, " failed");
    assert(s@ =~= batch_label_spec(completed as nat, total as nat, failed as nat));
    s
}

/// The text on a progress bar: the percentage followed by `%`.
pub fn percent_label(percent: u32) -> (res: String)
    ensures
        res@ == decimal(percent as nat) + "%"@,
{
    let mut s = String::new();
    push_decimal(&mut s, percent as u64);
    push_str(&mut s, "%");
    s
}

// ── A batch of downloads ────────────────────────────────────────────

/// How far a download has come when it starts, in percent.
pub const STARTED_PERCENT: u32 = 50;

/// How far a download has come when it is done, in percent.
pub const FINISHED_PERCENT: u32 = 100;

/// Whether the mod at `index` of the last check can be installed: there is such a
/// mod and it has an update.
pub open spec fn installable_spec(stored: Seq<ModInfo>, index: usize) -> bool {
    index < stored.len() && stored[index as int].update_version is Some
}

/// Whether the mod at `index` of the last check can be installed.
pub fn installable(stored: &[ModInfo], index: usize) -> (res: bool)
    ensures
        res == installable_spec(stored@, index),
{
    index < stored.len() && stored[index].update_version.is_some()
}

/// The worker's tally of a batch of downloads: the mods asked for, how many have
/// been dealt with, and how many of those were installed and failed. A mod that
/// cannot be installed counts as failed.
pub struct DownloadBatch {
    indices: Vec<usize>,
    succeeded: usize,
    failed: usize,
}

impl DownloadBatch {
    /// The indices of the mods asked for.
    pub closed spec fn indices(&self) -> Seq<usize> {
        self.indices@
    }

    /// How many of them have been dealt with.
    pub closed spec fn handled(&self) -> nat {
        (self.succeeded + self.failed) as nat
    }

    /// How many were installed.
    pub closed spec fn succeeded(&self) -> nat {
        self.succeeded as nat
    }

    /// How many failed.
    pub closed spec fn failed(&self) -> nat {
        self.failed as nat
    }

    /// No more mods were dealt with than asked for.
    #[verifier::type_invariant]
    closed spec fn counts_agree(&self) -> bool {
        self.succeeded + self.failed <= self.indices@.len()
    }

    /// A batch over the mods at `indices` with nothing dealt with yet.
    pub fn new(indices: Vec<usize>) -> (res: DownloadBatch)
        ensures
            res.indices() == indices@,
            res.handled() == 0,
            res.succeeded() == 0,
            res.failed() == 0,
    {
        DownloadBatch { indices, succeeded: 0, failed: 0 }
    }

    /// The index of the mod to deal with next, or `None` when all are dealt with.
    pub fn next_index(&self) -> (res: Option<usize>)
        ensures
            res == if self.handled() < self.indices().len() {
                Some(self.indices()[self.handled() as int])
            } else {
                None::<usize>
            },
    {
        proof {
            use_type_invariant(self);
        }
        let n = self.indices.len();
        let handled = self.succeeded + self.failed;
        if handled < n {
            Some(self.indices[handled])
        } else {
            None
        }
    }

    /// Records how dealing with the next mod ended.
    pub fn record(&mut self, success: bool)
        requires
            old(self).handled() < old(self).indices().len(),
        ensures
            final(self).indices() == old(self).indices(),
            final(self).handled() == old(self).handled() + 1,
            final(self).succeeded() == old(self).succeeded() + if success { 1nat } else { 0nat },
            final(self).failed() == old(self).failed() + if success { 0nat } else { 1nat },
    {
        proof {
            use_type_invariant(&*self);
        }
        let asked = self.indices.len();
        assert(self.succeeded + self.failed < asked);
        if success {
            self.succeeded = self.succeeded + 1;
        } else {
            self.failed = self.failed + 1;
        }
    }

    /// The report of a finished batch out of the `total_scanned` mods of the last
    /// check: every mod asked for counts as an update available, those not asked
    /// for as up to date (none when more were asked for than scanned). The report
    /// lists no results and no loader or game version.
    pub fn finish(self, total_scanned: usize, timestamp: Timestamp) -> (res: UpdateReport)
        requires
            self.handled() == self.indices().len(),
        ensures
            res.total_scanned == total_scanned,
            res.total_updates_available == self.indices().len(),
            res.total_updated == self.succeeded(),
            res.total_failed == self.failed(),
            res.total_updated + res.total_failed == res.total_updates_available,
            res.total_up_to_date == if total_scanned >= self.indices().len() {
                total_scanned - self.indices().len()
            } else {
                0
            },
            res.results@.len() == 0,
            res.loader@.len() == 0,
            res.game_version@.len() == 0,
            res.timestamp == timestamp,
    {
        proof {
            use_type_invariant(&self);
        }
        let asked = self.indices.len();
        UpdateReport {
            total_scanned,
            total_updates_available: asked,
            total_updated: self.succeeded,
            total_failed: self.failed,
            total_up_to_date: total_scanned.saturating_sub(asked),
            results: Vec::new(),
            loader: String::new(),
            game_version: String::new(),
            timestamp,
        }
    }
}

// ── Window icon ─────────────────────────────────────────────────────

/// The width and height of the window icon, in pixels.
pub const ICON_SIZE: u32 = 32;

/// The colour (red, green, blue, alpha) of the icon's pixel in column `x` and row
/// `y`: a green arrow pointing up, on a dark disc. Every pixel is opaque; those
/// outside the disc are black.
pub open spec fn icon_pixel(x: int, y: int) -> (u8, u8, u8, u8) {
    let dx = x - 16;
    let dy = y - 16;
    let adx = if dx < 0 { -dx } else { dx };
    let in_arrow = -8 < dy < 8 && dy > adx * 2 - 8 && dy < 8 - adx * 2 + 2;
    if in_arrow {
        (74u8, 222u8, 128u8, 255u8)
    } else if dx * dx + dy * dy < 256 {
        (26u8, 26u8, 46u8, 255u8)
    } else {
        (0u8, 0u8, 0u8, 255u8)
    }
}

/// The bytes of the pixel (`x`, `y`): red, green, blue, alpha.
pub open spec fn pixel_bytes(x: int, y: int) -> Seq<u8> {
    let p = icon_pixel(x, y);
    seq![p.0, p.1, p.2, p.3]
}

/// The icon's bytes for its first `rows` rows, then `cols` pixels of the next.
pub open spec fn icon_prefix(rows: int, cols: int) -> Seq<u8>
    decreases rows, cols,
    when rows >= 0 && cols >= 0
{
    if cols > 0 {
        icon_prefix(rows, cols - 1) + pixel_bytes(cols - 1, rows)
    } else if rows > 0 {
        icon_prefix(rows - 1, 32)
    } else {
        Seq::empty()
    }
}

/// The icon's bytes, row by row from the top, four per pixel.
pub open spec fn icon_bytes() -> Seq<u8> {
    icon_prefix(32, 0)
}

/// The pixel (`x`, `y`) of the icon, computed.
fn compute_pixel(x: i32, y: i32) -> (res: (u8, u8, u8, u8))
    requires
        0 <= x < 32,
        0 <= y < 32,
    ensures
        res == icon_pixel(x as int, y as int),
{
    let dx: i32 = x - 16;
    let dy: i32 = y - 16;
    let adx: i32 = if dx < 0 { -dx } else { dx };
    assert(0 <= dx * dx <= 256 && 0 <= dy * dy <= 256) by (nonlinear_arith)
        requires
            -16 <= dx <= 15,
            -16 <= dy <= 15,
    ;
    let dist: i32 = dx * dx + dy * dy;
    let in_arrow = dy < 8 && dy > -8 && dy > adx * 2 - 8 && dy < 8 - adx * 2 + 2;
    if in_arrow {
        (74, 222, 128, 255)
    } else if dist < 256 {
        (26, 26, 46, 255)
    } else {
        (0, 0, 0, 255)
    }
}

/// The pixels of the window icon, row by row from the top, four bytes (red,
/// green, blue, alpha) per pixel.
pub fn icon_rgba() -> (res: Vec<u8>)
    ensures
        res@ == icon_bytes(),
        res@.len() == 32 * 32 * 4,
{
    let mut res: Vec<u8> = Vec::new();
    let mut y: i32 = 0;
    assert(icon_prefix(0, 0) =~= Seq::<u8>::empty());
    while y < 32
        invariant
            0 <= y <= 32,
            res@ == icon_prefix(y as int, 0),
            res@.len() == y * 128,
        decreases 32 - y,
    {
        let mut x: i32 = 0;
        while x < 32
            invariant
                0 <= y < 32,
                0 <= x <= 32,
                res@ == icon_prefix(y as int, x as int),
                res@.len() == y * 128 + x * 4,
            decreases 32 - x,
        {
            let p = compute_pixel(x, y);
            let ghost before = res@;
            res.push(p.0);
            res.push(p.1);
            res.push(p.2);
            res.push(p.3);
            assert(res@ =~= before + pixel_bytes(x as int, y as int));
            x = x + 1;
        }
        assert(icon_prefix(y + 1, 0) == icon_prefix(y as int, 32));
        y = y + 1;
    }
    res
}

} // verus!
