//! The update process: pairing local mods with the versions the API reports,
//! choosing and checking the file to download, and keeping the tally of a run in
//! an `UpdateReport`, which also renders as Markdown.
//!
//! Talking to the API and writing files is left to the caller: it asks
//! `UpdateRun` which mod to install next and hands back each outcome.
use vstd::prelude::*;
use vstd::string::*;
use std::path::PathBuf;
use crate::digest::{hash_bytes_sha512, sha512};
use crate::error::CoreError;
use crate::api::models::{Version, VersionFile, VersionView, VersionFilesResponse, VersionFilesUpdateResponse};
use crate::path::clone_opt_path;
use crate::scanner::LocalMod;
use crate::text::{
    clone_opt_string, decimal, hex_lower, join, join_strings, push_decimal, push_str, str_chars,
    string_from_chars, views,
};
use crate::time::{report_file_name, report_file_name_spec, utc_format, Timestamp, REPORT_TIME_PATTERN};

verus! {

/// The name of the copy of the newest report.
pub const LATEST_REPORT_FILE: &'static str = "latest-report.json";

/// The note on a result of a dry run.
pub const DRY_RUN_NOTE: &'static str = "Dry run — not downloaded";

// ── Mods and their versions ─────────────────────────────────────────

/// A local mod with the versions the API reports for it.
#[derive(Debug)]
pub struct ModInfo {
    pub local: LocalMod,
    /// The version the local file is (from `/v2/version_files`).
    pub current_version: Option<Version>,
    /// The newer version to update to (from `/v2/version_files/update`).
    pub update_version: Option<Version>,
}

/// The view of an optional version.
pub open spec fn opt_version_view(v: Option<Version>) -> Option<VersionView> {
    match v {
        Some(x) => Some(x@),
        None => None,
    }
}

/// A mod with its versions taken by their views.
pub struct ModInfoView {
    pub local: LocalMod,
    pub current_version: Option<VersionView>,
    pub update_version: Option<VersionView>,
}

impl View for ModInfo {
    type V = ModInfoView;

    open spec fn view(&self) -> ModInfoView {
        ModInfoView {
            local: self.local,
            current_version: opt_version_view(self.current_version),
            update_version: opt_version_view(self.update_version),
        }
    }
}

fn clone_opt_version(v: &Option<Version>) -> (res: Option<Version>)
    ensures
        opt_version_view(res) == opt_version_view(*v),
{
    match v {
        Some(x) => Some(x.clone()),
        None => None,
    }
}

impl Clone for ModInfo {
    fn clone(&self) -> (res: Self)
        ensures
            res@ == self@,
    {
        ModInfo {
            local: self.local.clone(),
            current_version: clone_opt_version(&self.current_version),
            update_version: clone_opt_version(&self.update_version),
        }
    }
}

/// The SHA-512 hashes of the local mods, in order.
pub fn collect_sha512(local_mods: &[LocalMod]) -> (res: Vec<String>)
    ensures
        res@ == local_mods@.map_values(|m: LocalMod| m.sha512),
{
    let mut res: Vec<String> = Vec::new();
    let n = local_mods.len();
    let mut i: usize = 0;
    while i < n
        invariant
            n == local_mods@.len(),
            i <= n,
            res@ == local_mods@.take(i as int).map_values(|m: LocalMod| m.sha512),
        decreases n - i,
    {
        res.push(local_mods[i].sha512.clone());
        assert(local_mods@.take(i + 1).map_values(|m: LocalMod| m.sha512)
            =~= local_mods@.take(i as int).map_values(|m: LocalMod| m.sha512).push(local_mods@[i as int].sha512));
        i = i + 1;
    }
    assert(local_mods@.take(n as int) =~= local_mods@);
    res
}

/// The version an API answer gives for `hash`: that of the first entry with this
/// hash (the answer has at most one).
pub open spec fn lookup_version(entries: Seq<(String, Version)>, hash: Seq<char>) -> Option<VersionView>
    decreases entries.len(),
{
    if entries.len() == 0 {
        None
    } else if entries[0].0@ == hash {
        Some(entries[0].1@)
    } else {
        lookup_version(entries.drop_first(), hash)
    }
}

/// Whether no two entries of an API answer share a hash (the answer is a JSON
/// object keyed by hash).
pub open spec fn distinct_keys(entries: Seq<(String, Version)>) -> bool {
    forall|i: int, j: int| 0 <= i < j < entries.len() ==> (#[trigger] entries[i]).0@ != (#[trigger] entries[j]).0@
}

/// On an answer whose hashes are distinct, the lookup gives the version of the
/// one entry with the hash, wherever it stands.
pub proof fn lemma_lookup_version_unique(entries: Seq<(String, Version)>, i: int)
    requires
        distinct_keys(entries),
        0 <= i < entries.len(),
    ensures
        lookup_version(entries, entries[i].0@) == Some(entries[i].1@),
    decreases i,
{
    if i > 0 {
        let rest = entries.drop_first();
        assert(entries[0].0@ != entries[i].0@);
        assert(rest[i - 1] == entries[i]);
        assert forall|a: int, b: int| 0 <= a < b < rest.len() implies (#[trigger] rest[a]).0@ != (#[trigger] rest[b]).0@ by {
            assert(rest[a] == entries[a + 1] && rest[b] == entries[b + 1]);
        }
        lemma_lookup_version_unique(rest, i - 1);
    }
}

fn find_version(entries: &Vec<(String, Version)>, hash: &String) -> (res: Option<Version>)
    ensures
        opt_version_view(res) == lookup_version(entries@, hash@),
{
    let n = entries.len();
    let mut i: usize = 0;
    assert(entries@.skip(0) =~= entries@);
    while i < n
        invariant
            n == entries@.len(),
            i <= n,
            lookup_version(entries@, hash@) == lookup_version(entries@.skip(i as int), hash@),
        decreases n - i,
    {
        assert(entries@.skip(i as int).drop_first() =~= entries@.skip(i + 1));
        if entries[i].0 == *hash {
            return Some(entries[i].1.clone());
        }
        i = i + 1;
    }
    None
}

/// Pairs each local mod with the version each answer gives for its SHA-512.
pub fn build_mod_infos(
    local_mods: &[LocalMod],
    current: &VersionFilesResponse,
    updates: &VersionFilesUpdateResponse,
) -> (res: Vec<ModInfo>)
    ensures
        res@.len() == local_mods@.len(),
        forall|i: int| 0 <= i < res@.len() ==> {
            &&& (#[trigger] res@[i]).local == local_mods@[i]
            &&& res@[i]@.current_version == lookup_version(current@, local_mods@[i].sha512@)
            &&& res@[i]@.update_version == lookup_version(updates@, local_mods@[i].sha512@)
        },
{
    let mut res: Vec<ModInfo> = Vec::new();
    let n = local_mods.len();
    let mut i: usize = 0;
    while i < n
        invariant
            n == local_mods@.len(),
            i <= n,
            res@.len() == i,
            forall|k: int| 0 <= k < i ==> {
                &&& (#[trigger] res@[k]).local == local_mods@[k]
                &&& res@[k]@.current_version == lookup_version(current@, local_mods@[k].sha512@)
                &&& res@[k]@.update_version == lookup_version(updates@, local_mods@[k].sha512@)
            },
        decreases n - i,
    {
        let local = &local_mods[i];
        let info = ModInfo {
            local: local.clone(),
            current_version: find_version(current, &local.sha512),
            update_version: find_version(updates, &local.sha512),
        };
        res.push(info);
        i = i + 1;
    }
    res
}

// ── Installing one update ───────────────────────────────────────────

/// The file of a version to download: the first primary file, else the first file.
pub open spec fn download_index(files: Seq<VersionFile>) -> Option<int> {
    if exists|i: int| 0 <= i < files.len() && files[i].primary {
        Some(choose|i: int| 0 <= i < files.len() && files[i].primary
            && forall|j: int| 0 <= j < i ==> !(#[trigger] files[j]).primary)
    } else if files.len() > 0 {
        Some(0)
    } else {
        None
    }
}

proof fn lemma_first_primary(files: Seq<VersionFile>, i: int)
    requires
        0 <= i < files.len(),
        files[i].primary,
        forall|j: int| 0 <= j < i ==> !(#[trigger] files[j]).primary,
    ensures
        download_index(files) == Some(i),
{
    let k = choose|k: int| 0 <= k < files.len() && files[k].primary
        && forall|j: int| 0 <= j < k ==> !(#[trigger] files[j]).primary;
    assert(0 <= k < files.len() && files[k].primary);
    if k < i {
        assert(!files[k].primary);
    }
    if i < k {
        assert(!files[i].primary);
    }
}

/// Chooses the file to download for a mod's update: the update's first primary
/// file, else its first file. Fails when there is no update, or it has no file.
pub fn select_download(mod_info: &ModInfo) -> (res: Result<VersionFile, CoreError>)
    ensures
        mod_info.update_version is None ==> (res matches Err(CoreError::Update(m))
            && m@ == "No update version available"@),
        mod_info.update_version matches Some(u) ==> match download_index(u.files@) {
            Some(k) => res matches Ok(f) && f == u.files@[k],
            None => res matches Err(CoreError::Update(m))
                && m@ == "No downloadable file found for update of "@ + mod_info.local.filename@,
        },
{
    match &mod_info.update_version {
        None => Err(CoreError::Update(String::from_str("No update version available"))),
        Some(u) => {
            let n = u.files.len();
            let mut i: usize = 0;
            while i < n
                invariant
                    n == u.files@.len(),
                    mod_info.update_version == Some(*u),
                    i <= n,
                    forall|j: int| 0 <= j < i ==> !(#[trigger] u.files@[j]).primary,
                decreases n - i,
            {
                if u.files[i].primary {
                    proof {
                        lemma_first_primary(u.files@, i as int);
                    }
                    return Ok(u.files[i].clone());
                }
                i = i + 1;
            }
            if n > 0 {
                Ok(u.files[0].clone())
            } else {
                let mut m = String::new();
                push_str(&mut m, "No downloadable file found for update of ");
                push_str(&mut m, mod_info.local.filename.as_str());
                Err(CoreError::Update(m))
            }
        },
    }
}

/// Checks a download against the SHA-512 the API gave for the file.
pub fn verify_download(file: &VersionFile, data: &[u8]) -> (res: Result<(), CoreError>)
    ensures
        res is Ok <==> hex_lower(sha512(data@)) == file.hashes.sha512@,
        res matches Err(e) ==> (e matches CoreError::HashMismatch { filename, expected, actual }
            && filename == file.filename && expected == file.hashes.sha512
            && actual@ == hex_lower(sha512(data@))),
{
    let actual = hash_bytes_sha512(data);
    if actual != file.hashes.sha512 {
        Err(CoreError::HashMismatch {
            filename: file.filename.clone(),
            expected: file.hashes.sha512.clone(),
            actual,
        })
    } else {
        Ok(())
    }
}

/// Index of the last `-` in `s`, if any.
pub open spec fn last_dash(s: Seq<char>) -> Option<int>
    decreases s.len(),
{
    if s.len() == 0 {
        None
    } else if s.last() == '-' {
        Some(s.len() - 1)
    } else {
        last_dash(s.drop_last())
    }
}

/// `s` without every trailing `.jar` (`str::trim_end_matches(".jar")`).
pub open spec fn strip_jar_suffixes(s: Seq<char>) -> Seq<char>
    decreases s.len(),
{
    if s.len() >= 4 && s.subrange(s.len() - 4, s.len() as int) == ".jar"@ {
        strip_jar_suffixes(s.subrange(0, s.len() - 4))
    } else {
        s
    }
}

/// The project name guessed from a file name: the part before the last `-` (the
/// whole name when there is none), without trailing `.jar`s.
pub open spec fn project_name_spec(filename: Seq<char>) -> Seq<char> {
    let stem = match last_dash(filename) {
        Some(i) => filename.subrange(0, i),
        None => filename,
    };
    strip_jar_suffixes(stem)
}

proof fn lemma_last_dash_found(s: Seq<char>, i: int)
    requires
        0 <= i < s.len(),
        s[i] == '-',
        forall|k: int| i < k < s.len() ==> s[k] != '-',
    ensures
        last_dash(s) == Some(i),
    decreases s.len(),
{
    if s.last() != '-' {
        let p = s.drop_last();
        assert forall|k: int| i < k < p.len() implies p[k] != '-' by {
            assert(p[k] == s[k]);
        }
        lemma_last_dash_found(p, i);
    }
}

proof fn lemma_last_dash_none(s: Seq<char>)
    requires
        forall|k: int| 0 <= k < s.len() ==> s[k] != '-',
    ensures
        last_dash(s) is None,
    decreases s.len(),
{
    if s.len() > 0 {
        let p = s.drop_last();
        assert forall|k: int| 0 <= k < p.len() implies p[k] != '-' by {
            assert(p[k] == s[k]);
        }
        lemma_last_dash_none(p);
    }
}

/// Guesses a project name from a mod's file name (`sodium-fabric-0.5.jar` gives
/// `sodium-fabric`).
pub fn project_name_from_filename(filename: &str) -> (res: String)
    ensures
        res@ == project_name_spec(filename@),
{
    let chars = str_chars(filename);
    let n = chars.len();
    let mut i: usize = n;
    while i > 0 && chars[i - 1] != '-'
        invariant
            n == chars@.len(),
            chars@ == filename@,
            i <= n,
            forall|k: int| i <= k < n ==> chars@[k] != '-',
        decreases i,
    {
        i = i - 1;
    }
    let found = i > 0;
    let mut end: usize = if found { i - 1 } else { n };
    proof {
        if found {
            lemma_last_dash_found(filename@, end as int);
        } else {
            lemma_last_dash_none(filename@);
        }
    }
    let ghost stem = if found { filename@.subrange(0, end as int) } else { filename@ };
    assert(stem =~= chars@.subrange(0, end as int));
    proof {
        reveal_strlit(".jar");
    }
    while end >= 4 && chars[end - 4] == '.' && chars[end - 3] == 'j' && chars[end - 2] == 'a'
        && chars[end - 1] == 'r'
        invariant
            n == chars@.len(),
            end <= n,
            strip_jar_suffixes(stem) == strip_jar_suffixes(chars@.subrange(0, end as int)),
        decreases end,
    {
        let ghost cur = chars@.subrange(0, end as int);
        proof {
            reveal_strlit(".jar");
        }
        assert(cur.subrange(cur.len() - 4, cur.len() as int) =~= ".jar"@);
        assert(cur.subrange(0, cur.len() - 4) =~= chars@.subrange(0, end - 4));
        end = end - 4;
    }
    proof {
        reveal_strlit(".jar");
        let cur = chars@.subrange(0, end as int);
        if cur.len() >= 4 && cur.subrange(cur.len() - 4, cur.len() as int) == ".jar"@ {
            assert(cur.subrange(cur.len() - 4, cur.len() as int)[0] == chars@[end - 4]);
            assert(cur.subrange(cur.len() - 4, cur.len() as int)[1] == chars@[end - 3]);
            assert(cur.subrange(cur.len() - 4, cur.len() as int)[2] == chars@[end - 2]);
            assert(cur.subrange(cur.len() - 4, cur.len() as int)[3] == chars@[end - 1]);
        }
    }
    let mut chars = chars;
    chars.truncate(end);
    assert(chars@ =~= chars@.subrange(0, end as int));
    string_from_chars(chars.as_slice())
}

// ── Results and reports ─────────────────────────────────────────────

/// The outcome of updating one mod.
#[derive(Debug)]
pub struct UpdateResult {
    pub filename: String,
    pub old_path: PathBuf,
    /// Where the new file was saved, if it was.
    pub new_path: Option<PathBuf>,
    pub project_name: Option<String>,
    pub old_version: Option<String>,
    pub new_version_name: Option<String>,
    pub new_version_number: Option<String>,
    pub success: bool,
    pub error: Option<String>,
}

impl Clone for UpdateResult {
    fn clone(&self) -> (res: Self)
        ensures
            res == *self,
    {
        UpdateResult {
            filename: self.filename.clone(),
            old_path: self.old_path.clone(),
            new_path: clone_opt_path(&self.new_path),
            project_name: clone_opt_string(&self.project_name),
            old_version: clone_opt_string(&self.old_version),
            new_version_name: clone_opt_string(&self.new_version_name),
            new_version_number: clone_opt_string(&self.new_version_number),
            success: self.success,
            error: clone_opt_string(&self.error),
        }
    }
}

/// The version number of an optional version.
pub open spec fn version_number_of(v: Option<VersionView>) -> Option<String> {
    match v {
        Some(x) => x.version_number,
        None => None,
    }
}

/// The name of an optional version.
pub open spec fn version_name_of(v: Option<VersionView>) -> Option<String> {
    match v {
        Some(x) => x.name,
        None => None,
    }
}

fn version_number(v: &Option<Version>) -> (res: Option<String>)
    ensures
        res == version_number_of(opt_version_view(*v)),
{
    match v {
        Some(x) => clone_opt_string(&x.version_number),
        None => None,
    }
}

fn version_name(v: &Option<Version>) -> (res: Option<String>)
    ensures
        res == version_name_of(opt_version_view(*v)),
{
    match v {
        Some(x) => clone_opt_string(&x.name),
        None => None,
    }
}

/// The result recorded when `m`'s update was installed at `new_path`.
pub fn installed_result(mod_info: &ModInfo, new_path: PathBuf) -> (res: UpdateResult)
    ensures
        res.filename == mod_info.local.filename,
        res.old_path == mod_info.local.path,
        res.new_path == Some(new_path),
        match mod_info.current_version {
            Some(_) => res.project_name matches Some(p) && p@ == project_name_spec(mod_info.local.filename@),
            None => res.project_name is None,
        },
        res.old_version == version_number_of(mod_info@.current_version),
        res.new_version_name == version_name_of(mod_info@.update_version),
        res.new_version_number == version_number_of(mod_info@.update_version),
        res.success,
        res.error is None,
{
    let project_name = match &mod_info.current_version {
        Some(_) => Some(project_name_from_filename(mod_info.local.filename.as_str())),
        None => None,
    };
    UpdateResult {
        filename: mod_info.local.filename.clone(),
        old_path: mod_info.local.path.clone(),
        new_path: Some(new_path),
        project_name,
        old_version: version_number(&mod_info.current_version),
        new_version_name: version_name(&mod_info.update_version),
        new_version_number: version_number(&mod_info.update_version),
        success: true,
        error: None,
    }
}

/// The result recorded for `m` in a dry run: what would be downloaded.
pub fn planned_result(mod_info: &ModInfo) -> (res: UpdateResult)
    ensures
        res.filename == mod_info.local.filename,
        res.old_path == mod_info.local.path,
        res.new_path is None,
        res.project_name matches Some(p) && p@ == project_name_spec(mod_info.local.filename@),
        res.old_version == version_number_of(mod_info@.current_version),
        res.new_version_name == version_name_of(mod_info@.update_version),
        res.new_version_number == version_number_of(mod_info@.update_version),
        !res.success,
        res.error matches Some(e) && e@ == DRY_RUN_NOTE@,
{
    UpdateResult {
        filename: mod_info.local.filename.clone(),
        old_path: mod_info.local.path.clone(),
        new_path: None,
        project_name: Some(project_name_from_filename(mod_info.local.filename.as_str())),
        old_version: version_number(&mod_info.current_version),
        new_version_name: version_name(&mod_info.update_version),
        new_version_number: version_number(&mod_info.update_version),
        success: false,
        error: Some(String::from_str(DRY_RUN_NOTE)),
    }
}

/// The result recorded when installing `m`'s update failed with `message`.
pub fn failed_result(mod_info: &ModInfo, message: String) -> (res: UpdateResult)
    ensures
        res == failed_result_spec(*mod_info, message),
{
    UpdateResult {
        filename: mod_info.local.filename.clone(),
        old_path: mod_info.local.path.clone(),
        new_path: None,
        project_name: None,
        old_version: version_number(&mod_info.current_version),
        new_version_name: version_name(&mod_info.update_version),
        new_version_number: version_number(&mod_info.update_version),
        success: false,
        error: Some(message),
    }
}


/// The result recorded when installing `m`'s update failed with `message`.
pub open spec fn failed_result_spec(m: ModInfo, message: String) -> UpdateResult {
    UpdateResult {
        filename: m.local.filename,
        old_path: m.local.path,
        new_path: None,
        project_name: None,
        old_version: version_number_of(m@.current_version),
        new_version_name: version_name_of(m@.update_version),
        new_version_number: version_number_of(m@.update_version),
        success: false,
        error: Some(message),
    }
}

/// Overall report of an update run.
#[derive(Debug)]
pub struct UpdateReport {
    pub total_scanned: usize,
    pub total_updates_available: usize,
    pub total_updated: usize,
    pub total_failed: usize,
    pub total_up_to_date: usize,
    pub results: Vec<UpdateResult>,
    pub loader: String,
    pub game_version: String,
    pub timestamp: Timestamp,
}

impl Clone for UpdateReport {
    fn clone(&self) -> (res: Self)
        ensures
            res.total_scanned == self.total_scanned,
            res.total_updates_available == self.total_updates_available,
            res.total_updated == self.total_updated,
            res.total_failed == self.total_failed,
            res.total_up_to_date == self.total_up_to_date,
            res.results@ == self.results@,
            res.loader == self.loader,
            res.game_version == self.game_version,
            res.timestamp == self.timestamp,
    {
        let mut results: Vec<UpdateResult> = Vec::new();
        let n = self.results.len();
        let mut i: usize = 0;
        while i < n
            invariant
                n == self.results@.len(),
                i <= n,
                results@ == self.results@.take(i as int),
            decreases n - i,
        {
            results.push(self.results[i].clone());
            assert(self.results@.take(i + 1) =~= self.results@.take(i as int).push(self.results@[i as int]));
            i = i + 1;
        }
        assert(self.results@.take(n as int) =~= self.results@);
        UpdateReport {
            total_scanned: self.total_scanned,
            total_updates_available: self.total_updates_available,
            total_updated: self.total_updated,
            total_failed: self.total_failed,
            total_up_to_date: self.total_up_to_date,
            results,
            loader: self.loader.clone(),
            game_version: self.game_version.clone(),
            timestamp: self.timestamp,
        }
    }
}

/// The indices, in order, of the mods that have an update.
pub open spec fn updatable_indices(infos: Seq<ModInfo>) -> Seq<usize>
    decreases infos.len(),
{
    if infos.len() == 0 {
        Seq::empty()
    } else {
        let rest = updatable_indices(infos.drop_last());
        if infos.last().update_version is Some {
            rest.push((infos.len() - 1) as usize)
        } else {
            rest
        }
    }
}

/// How many results are successes.
pub open spec fn count_successes(results: Seq<UpdateResult>) -> nat
    decreases results.len(),
{
    if results.len() == 0 {
        0
    } else {
        count_successes(results.drop_last()) + if results.last().success { 1nat } else { 0nat }
    }
}

/// The tallies of a report agree with each other and with its results: every mod
/// scanned is either up to date or has an update; every update available was
/// either installed or failed, and has exactly one result; and the installed ones
/// are the successful results.
pub open spec fn tallies_agree(r: UpdateReport) -> bool {
    &&& r.total_up_to_date + r.total_updates_available == r.total_scanned
    &&& r.total_updated + r.total_failed == r.total_updates_available
    &&& r.results@.len() == r.total_updates_available
    &&& r.total_updated == count_successes(r.results@)
}

/// The mods listed as having an update are positions of the list in increasing
/// order (so none is listed twice), each of which has an update.
pub proof fn lemma_updatable_indices(infos: Seq<ModInfo>)
    requires
        infos.len() <= usize::MAX,
    ensures
        updatable_indices(infos).len() <= infos.len(),
        forall|k: int| 0 <= k < updatable_indices(infos).len() ==> {
            &&& (#[trigger] updatable_indices(infos)[k]) < infos.len()
            &&& infos[updatable_indices(infos)[k] as int].update_version is Some
        },
        forall|a: int, b: int| 0 <= a < b < updatable_indices(infos).len()
            ==> updatable_indices(infos)[a] < updatable_indices(infos)[b],
    decreases infos.len(),
{
    if infos.len() > 0 {
        let p = infos.drop_last();
        lemma_updatable_indices(p);
        let rest = updatable_indices(p);
        let all = updatable_indices(infos);
        assert forall|k: int| 0 <= k < all.len() implies {
            &&& (#[trigger] all[k]) < infos.len()
            &&& infos[all[k] as int].update_version is Some
        } by {
            if k < rest.len() {
                assert(all[k] == rest[k]);
                assert(infos[rest[k] as int] == p[rest[k] as int]);
            } else {
                assert(all[k] == (infos.len() - 1) as usize);
            }
        }
        assert forall|a: int, b: int| 0 <= a < b < all.len() implies all[a] < all[b] by {
            if b < rest.len() {
                assert(all[a] == rest[a] && all[b] == rest[b]);
            } else {
                assert(all[a] == rest[a]);
                assert(rest[a] < p.len());
            }
        }
    }
}

/// Every mod that has an update is listed, whatever its version: with
/// `lemma_updatable_indices`, the list holds exactly the positions of the mods
/// with an update, in increasing order.
pub proof fn lemma_updatable_indices_complete(infos: Seq<ModInfo>)
    requires
        infos.len() <= usize::MAX,
    ensures
        forall|i: int| 0 <= i < infos.len() && (#[trigger] infos[i]).update_version is Some
            ==> updatable_indices(infos).contains(i as usize),
    decreases infos.len(),
{
    if infos.len() > 0 {
        let p = infos.drop_last();
        lemma_updatable_indices_complete(p);
        let rest = updatable_indices(p);
        let all = updatable_indices(infos);
        assert forall|i: int| 0 <= i < infos.len() && (#[trigger] infos[i]).update_version is Some
            implies all.contains(i as usize) by {
            if i < p.len() {
                assert(p[i] == infos[i]);
                assert(rest.contains(i as usize));
                let k = choose|k: int| 0 <= k < rest.len() && rest[k] == i as usize;
                assert(all[k] == rest[k]);
            } else {
                assert(all[rest.len() as int] == i as usize);
            }
        }
    }
}

/// The indices, in order, of the mods that have an update.
pub fn mods_with_updates(mod_infos: &[ModInfo]) -> (res: Vec<usize>)
    ensures
        res@ == updatable_indices(mod_infos@),
        forall|i: int| 0 <= i < mod_infos@.len() && (#[trigger] mod_infos@[i]).update_version is Some
            ==> res@.contains(i as usize),
        forall|k: int| 0 <= k < res@.len() ==> (#[trigger] res@[k]) < mod_infos@.len()
            && mod_infos@[res@[k] as int].update_version is Some,
{
    let mut res: Vec<usize> = Vec::new();
    let n = mod_infos.len();
    let mut i: usize = 0;
    while i < n
        invariant
            n == mod_infos@.len(),
            i <= n,
            res@ == updatable_indices(mod_infos@.take(i as int)),
        decreases n - i,
    {
        assert(mod_infos@.take(i + 1).drop_last() =~= mod_infos@.take(i as int));
        if mod_infos[i].update_version.is_some() {
            res.push(i);
        }
        i = i + 1;
    }
    assert(mod_infos@.take(n as int) =~= mod_infos@);
    proof {
        lemma_updatable_indices(mod_infos@);
        lemma_updatable_indices_complete(mod_infos@);
    }
    res
}

/// The dry run of an update: every mod that has an update gets the result
/// `planned_result` describes, and nothing is downloaded, so every update counts
/// as failed.
pub fn dry_run_report(
    mod_infos: &[ModInfo],
    loaders: &[String],
    game_versions: &[String],
    timestamp: Timestamp,
) -> (res: UpdateReport)
    ensures
        tallies_agree(res),
        res.total_scanned == mod_infos@.len(),
        res.total_updates_available == updatable_indices(mod_infos@).len(),
        res.total_updated == 0,
        res.loader@ == join(views(loaders@), ", "@),
        res.game_version@ == join(views(game_versions@), ", "@),
        res.timestamp == timestamp,
        forall|k: int| 0 <= k < res.results@.len() ==> {
            let m = mod_infos@[updatable_indices(mod_infos@)[k] as int];
            let r = #[trigger] res.results@[k];
            &&& r.filename == m.local.filename
            &&& r.old_path == m.local.path
            &&& r.new_path is None
            &&& r.project_name matches Some(p) && p@ == project_name_spec(m.local.filename@)
            &&& r.old_version == version_number_of(m@.current_version)
            &&& r.new_version_name == version_name_of(m@.update_version)
            &&& r.new_version_number == version_number_of(m@.update_version)
            &&& !r.success
            &&& r.error matches Some(e) && e@ == DRY_RUN_NOTE@
        },
{
    let updates = mods_with_updates(mod_infos);
    let total_scanned = mod_infos.len();
    proof {
        lemma_updatable_indices(mod_infos@);
    }
    let mut results: Vec<UpdateResult> = Vec::new();
    let n = updates.len();
    let mut k: usize = 0;
    while k < n
        invariant
            n == updates@.len(),
            updates@ == updatable_indices(mod_infos@),
            n <= mod_infos@.len(),
            forall|j: int| 0 <= j < n ==> (#[trigger] updates@[j]) < mod_infos@.len(),
            k <= n,
            results@.len() == k,
            count_successes(results@) == 0,
            forall|j: int| 0 <= j < k ==> {
                let m = mod_infos@[updatable_indices(mod_infos@)[j] as int];
                let r = #[trigger] results@[j];
                &&& r.filename == m.local.filename
                &&& r.old_path == m.local.path
                &&& r.new_path is None
                &&& r.project_name matches Some(p) && p@ == project_name_spec(m.local.filename@)
                &&& r.old_version == version_number_of(m@.current_version)
                &&& r.new_version_name == version_name_of(m@.update_version)
                &&& r.new_version_number == version_number_of(m@.update_version)
                &&& !r.success
                &&& r.error matches Some(e) && e@ == DRY_RUN_NOTE@
            },
        decreases n - k,
    {
        let r = planned_result(&mod_infos[updates[k]]);
        let ghost before = results@;
        results.push(r);
        assert(results@.drop_last() =~= before);
        k = k + 1;
    }
    UpdateReport {
        total_scanned,
        total_updates_available: n,
        total_updated: 0,
        total_failed: n,
        total_up_to_date: total_scanned - n,
        results,
        loader: join_strings(loaders, ", "),
        game_version: join_strings(game_versions, ", "),
        timestamp,
    }
}

/// A run of updates in progress: which mods have an update, and the results so far.
pub struct UpdateRun {
    infos: Ghost<Seq<ModInfo>>,
    pending: Vec<usize>,
    results: Vec<UpdateResult>,
    total_scanned: usize,
    total_updated: usize,
    total_failed: usize,
    loader: String,
    game_version: String,
    timestamp: Timestamp,
}

impl UpdateRun {
    /// The mods of the run.
    pub closed spec fn mod_infos(&self) -> Seq<ModInfo> {
        self.infos@
    }

    /// The results recorded so far, in the order of the mods.
    pub closed spec fn results(&self) -> Seq<UpdateResult> {
        self.results@
    }

    /// The loader text the report will carry.
    pub closed spec fn loader(&self) -> Seq<char> {
        self.loader@
    }

    /// The game-version text the report will carry.
    pub closed spec fn game_version(&self) -> Seq<char> {
        self.game_version@
    }

    /// The instant the report will carry.
    pub closed spec fn timestamp(&self) -> Timestamp {
        self.timestamp
    }

    /// The internal bookkeeping is consistent.
    pub closed spec fn wf(&self) -> bool {
        &&& self.pending@ == updatable_indices(self.infos@)
        &&& self.results@.len() <= self.pending@.len()
        &&& self.pending@.len() <= self.infos@.len()
        &&& forall|j: int| 0 <= j < self.pending@.len() ==> (#[trigger] self.pending@[j]) < self.infos@.len()
        &&& self.total_scanned == self.infos@.len()
        &&& self.total_updated == count_successes(self.results@)
        &&& self.total_updated + self.total_failed == self.results@.len()
    }

    /// Whether every mod with an update has a result.
    pub closed spec fn done(&self) -> bool {
        self.results@.len() == self.pending@.len()
    }

    /// The mod whose result is recorded next: the `results().len()`-th mod that
    /// has an update.
    pub closed spec fn next_spec(&self) -> Option<usize> {
        if self.results@.len() < self.pending@.len() {
            Some(self.pending@[self.results@.len() as int])
        } else {
            None
        }
    }

    /// A run over `mod_infos` that has recorded nothing yet.
    pub fn start(
        mod_infos: &[ModInfo],
        loaders: &[String],
        game_versions: &[String],
        timestamp: Timestamp,
    ) -> (res: UpdateRun)
        ensures
            res.wf(),
            res.mod_infos() == mod_infos@,
            res.results() == Seq::<UpdateResult>::empty(),
            res.loader() == join(views(loaders@), ", "@),
            res.game_version() == join(views(game_versions@), ", "@),
            res.timestamp() == timestamp,
    {
        let pending = mods_with_updates(mod_infos);
        let total_scanned = mod_infos.len();
        proof {
            lemma_updatable_indices(mod_infos@);
        }
        UpdateRun {
            infos: Ghost(mod_infos@),
            pending,
            results: Vec::new(),
            total_scanned,
            total_updated: 0,
            total_failed: 0,
            loader: join_strings(loaders, ", "),
            game_version: join_strings(game_versions, ", "),
            timestamp,
        }
    }

    /// The index of the mod to install next, or `None` when the run is done.
    pub fn next_index(&self) -> (res: Option<usize>)
        requires
            self.wf(),
        ensures
            res == self.next_spec(),
            res is None <==> self.done(),
            res matches Some(i) ==> i < self.mod_infos().len()
                && self.mod_infos()[i as int].update_version is Some,
    {
        proof {
            lemma_updatable_indices(self.infos@);
        }
        if self.results.len() < self.pending.len() {
            Some(self.pending[self.results.len()])
        } else {
            None
        }
    }

    /// Records the outcome of installing the next mod: the path its update was
    /// saved at, or the message of the error that stopped it.
    pub fn record(&mut self, mod_infos: &[ModInfo], outcome: Result<PathBuf, String>)
        requires
            old(self).wf(),
            !old(self).done(),
            mod_infos@ == old(self).mod_infos(),
        ensures
            final(self).wf(),
            final(self).mod_infos() == old(self).mod_infos(),
            final(self).loader() == old(self).loader(),
            final(self).game_version() == old(self).game_version(),
            final(self).timestamp() == old(self).timestamp(),
            final(self).results().len() == old(self).results().len() + 1,
            final(self).results().drop_last() == old(self).results(),
            ({
                let m = mod_infos@[old(self).next_spec()->0 as int];
                let r = final(self).results().last();
                match outcome {
                    Ok(p) => {
                        &&& r.filename == m.local.filename
                        &&& r.old_path == m.local.path
                        &&& r.new_path == Some(p)
                        &&& match m.current_version {
                            Some(_) => r.project_name matches Some(n) && n@ == project_name_spec(m.local.filename@),
                            None => r.project_name is None,
                        }
                        &&& r.old_version == version_number_of(m@.current_version)
                        &&& r.new_version_name == version_name_of(m@.update_version)
                        &&& r.new_version_number == version_number_of(m@.update_version)
                        &&& r.success
                        &&& r.error is None
                    },
                    Err(e) => r == failed_result_spec(m, e),
                }
            }),
    {
        let i = self.pending[self.results.len()];
        let r = match outcome {
            Ok(p) => installed_result(&mod_infos[i], p),
            Err(e) => {
                let r = failed_result(&mod_infos[i], e);
                assert(r == failed_result_spec(mod_infos@[i as int], e));
                r
            },
        };
        if r.success {
            self.total_updated = self.total_updated + 1;
        } else {
            self.total_failed = self.total_failed + 1;
        }
        let ghost before = self.results@;
        self.results.push(r);
        assert(self.results@.drop_last() =~= before);
    }

    /// The report of a finished run.
    pub fn finish(self) -> (res: UpdateReport)
        requires
            self.wf(),
            self.done(),
        ensures
            tallies_agree(res),
            res.total_scanned == self.mod_infos().len(),
            res.total_updates_available == updatable_indices(self.mod_infos()).len(),
            res.results@ == self.results(),
            res.loader@ == self.loader(),
            res.game_version@ == self.game_version(),
            res.timestamp == self.timestamp(),
    {
        let total_updates_available = self.pending.len();
        UpdateReport {
            total_scanned: self.total_scanned,
            total_updates_available,
            total_updated: self.total_updated,
            total_failed: self.total_failed,
            total_up_to_date: self.total_scanned - total_updates_available,
            results: self.results,
            loader: self.loader,
            game_version: self.game_version,
            timestamp: self.timestamp,
        }
    }
}

/// The name of the JSON file a report is saved as.
pub fn json_report_file_name(report: &UpdateReport) -> (res: String)
    ensures
        res@ == report_file_name_spec(report.timestamp@, ".json"@),
{
    report_file_name(&report.timestamp, ".json")
}

// ── Markdown ────────────────────────────────────────────────────────

/// The view of an optional string, or `default` when it is absent.
pub open spec fn or_default(s: Option<String>, default: Seq<char>) -> Seq<char> {
    match s {
        Some(x) => x@,
        None => default,
    }
}

/// The name a result is listed under: its project name, or its file name.
pub open spec fn listed_name(r: UpdateResult) -> Seq<char> {
    or_default(r.project_name, r.filename@)
}

/// The table row of an installed update: name, old version, new version.
pub open spec fn updated_row(r: UpdateResult) -> Seq<char> {
    "| "@ + listed_name(r) + " | "@ + or_default(r.old_version, "?"@) + " | "@
        + or_default(r.new_version_number, "?"@) + " |\n"@
}

/// The table row of a failed update: name and error.
pub open spec fn failed_row(r: UpdateResult) -> Seq<char> {
    "| "@ + listed_name(r) + " | "@ + or_default(r.error, "Unknown error"@) + " |\n"@
}

/// An installed update's row names the project (the file when the project is
/// unknown), then the old version, then the new one, with `?` for a missing
/// version; a failed update's row names it, then its error (`Unknown error` when
/// there is none).
pub proof fn lemma_report_rows(r: UpdateResult)
    ensures
        ({
            let name = match r.project_name {
                Some(p) => p@,
                None => r.filename@,
            };
            let old = match r.old_version {
                Some(v) => v@,
                None => seq!['?'],
            };
            let new = match r.new_version_number {
                Some(v) => v@,
                None => seq!['?'],
            };
            let error = match r.error {
                Some(e) => e@,
                None => "Unknown error"@,
            };
            &&& updated_row(r) == seq!['|', ' '] + name + seq![' ', '|', ' '] + old + seq![' ', '|', ' '] + new
                + seq![' ', '|', '\n']
            &&& failed_row(r) == seq!['|', ' '] + name + seq![' ', '|', ' '] + error + seq![' ', '|', '\n']
        }),
{
    reveal_strlit("| ");
    reveal_strlit(" | ");
    reveal_strlit(" |\n");
    reveal_strlit("?");
    assert("| "@ =~= seq!['|', ' ']);
    assert(" | "@ =~= seq![' ', '|', ' ']);
    assert(" |\n"@ =~= seq![' ', '|', '\n']);
    assert("?"@ =~= seq!['?']);
}

/// The rows of the successful results, in order.
pub open spec fn updated_rows(results: Seq<UpdateResult>) -> Seq<char>
    decreases results.len(),
{
    if results.len() == 0 {
        Seq::empty()
    } else {
        updated_rows(results.drop_last()) + if results.last().success {
            updated_row(results.last())
        } else {
            Seq::empty()
        }
    }
}

/// The rows of the unsuccessful results, in order.
pub open spec fn failed_rows(results: Seq<UpdateResult>) -> Seq<char>
    decreases results.len(),
{
    if results.len() == 0 {
        Seq::empty()
    } else {
        failed_rows(results.drop_last()) + if !results.last().success {
            failed_row(results.last())
        } else {
            Seq::empty()
        }
    }
}

/// Whether some result is a success.
pub open spec fn any_success(results: Seq<UpdateResult>) -> bool {
    exists|i: int| 0 <= i < results.len() && (#[trigger] results[i]).success
}

/// Whether some result is not a success.
pub open spec fn any_failure(results: Seq<UpdateResult>) -> bool {
    exists|i: int| 0 <= i < results.len() && !(#[trigger] results[i]).success
}

/// A row of the summary table.
pub open spec fn summary_row(label: Seq<char>, count: nat) -> Seq<char> {
    "| "@ + label + " | "@ + decimal(count) + " |\n"@
}

/// The head of a report: title, time, loader and game version.
pub open spec fn markdown_head(r: UpdateReport) -> Seq<char> {
    "# Modrinth Update Report\n\n"@ + "**Generated:** "@
        + utc_format(r.timestamp@.0, r.timestamp@.1, REPORT_TIME_PATTERN@) + "\n\n"@
        + "**Loader:** "@ + r.loader@ + " &nbsp;|&nbsp; **Game Version:** "@ + r.game_version@
        + "\n\n"@
}

/// The summary table of a report.
pub open spec fn markdown_summary(r: UpdateReport) -> Seq<char> {
    "## Summary\n\n"@ + "| Category | Count |\n"@ + "|----------|-------|\n"@
        + summary_row("Mods scanned"@, r.total_scanned as nat)
        + summary_row("Updates available"@, r.total_updates_available as nat)
        + summary_row("Successfully updated"@, r.total_updated as nat)
        + summary_row("Failed"@, r.total_failed as nat)
        + summary_row("Already up-to-date"@, r.total_up_to_date as nat)
        + seq!['\n']
}

/// The section listing installed updates, when there is any.
pub open spec fn markdown_updated(results: Seq<UpdateResult>) -> Seq<char> {
    if any_success(results) {
        "## Updated Mods\n\n"@ + "| Mod | Old Version | New Version |\n"@
            + "|-----|-------------|-------------|\n"@ + updated_rows(results) + seq!['\n']
    } else {
        Seq::empty()
    }
}

/// The section listing failed updates, when there is any.
pub open spec fn markdown_failed(results: Seq<UpdateResult>) -> Seq<char> {
    if any_failure(results) {
        "## Failed Updates\n\n"@ + "| Mod | Error |\n"@ + "|-----|-------|\n"@
            + failed_rows(results) + seq!['\n']
    } else {
        Seq::empty()
    }
}

/// A report in Markdown.
pub open spec fn markdown_spec(r: UpdateReport) -> Seq<char> {
    markdown_head(r) + markdown_summary(r) + markdown_updated(r.results@) + markdown_failed(r.results@)
}

/// The rows of a report's summary table, each count under its own label.
pub open spec fn summary_counts_text(r: UpdateReport) -> Seq<char> {
    "| "@ + "Mods scanned"@ + " | "@ + decimal(r.total_scanned as nat) + " |\n"@
        + "| "@ + "Updates available"@ + " | "@ + decimal(r.total_updates_available as nat) + " |\n"@
        + "| "@ + "Successfully updated"@ + " | "@ + decimal(r.total_updated as nat) + " |\n"@
        + "| "@ + "Failed"@ + " | "@ + decimal(r.total_failed as nat) + " |\n"@
        + "| "@ + "Already up-to-date"@ + " | "@ + decimal(r.total_up_to_date as nat) + " |\n"@
}

proof fn lemma_regroup_summary(
    top: Seq<char>,
    r1: Seq<char>,
    r2: Seq<char>,
    r3: Seq<char>,
    r4: Seq<char>,
    r5: Seq<char>,
    nl: Seq<char>,
)
    ensures
        top + r1 + r2 + r3 + r4 + r5 + nl == top + (r1 + r2 + r3 + r4 + r5) + nl,
{
    assert(top + r1 + r2 + r3 + r4 + r5 + nl =~= top + (r1 + r2 + r3 + r4 + r5) + nl);
}

proof fn lemma_window(head: Seq<char>, top: Seq<char>, rows: Seq<char>, nl: Seq<char>, u: Seq<char>, f: Seq<char>)
    ensures
        ({
            let md = head + (top + rows + nl) + u + f;
            let k = (head.len() + top.len()) as int;
            k + rows.len() <= md.len() && md.subrange(k, k + rows.len()) == rows
        }),
{
    let md = head + (top + rows + nl) + u + f;
    let k = (head.len() + top.len()) as int;
    assert(md.subrange(k, k + rows.len()) =~= rows);
}

/// The Markdown of a report holds, as one block right after its heading lines,
/// the summary rows with the scanned, available, installed, failed and
/// up-to-date counts of the report, in that order, each under its label.
pub proof fn lemma_markdown_summary_counts(r: UpdateReport)
    ensures
        ({
            let md = markdown_spec(r);
            let rows = summary_counts_text(r);
            let k = (markdown_head(r).len() + ("## Summary\n\n"@ + "| Category | Count |\n"@
                + "|----------|-------|\n"@).len()) as int;
            k + rows.len() <= md.len() && md.subrange(k, k + rows.len()) == rows
        }),
{
    let top = "## Summary\n\n"@ + "| Category | Count |\n"@ + "|----------|-------|\n"@;
    let r1 = summary_row("Mods scanned"@, r.total_scanned as nat);
    let r2 = summary_row("Updates available"@, r.total_updates_available as nat);
    let r3 = summary_row("Successfully updated"@, r.total_updated as nat);
    let r4 = summary_row("Failed"@, r.total_failed as nat);
    let r5 = summary_row("Already up-to-date"@, r.total_up_to_date as nat);
    let nl = seq!['\n'];
    lemma_regroup_summary(top, r1, r2, r3, r4, r5, nl);
    assert(markdown_summary(r) == top + (r1 + r2 + r3 + r4 + r5) + nl);
    assert(summary_counts_text(r) == r1 + r2 + r3 + r4 + r5);
    lemma_window(markdown_head(r), top, r1 + r2 + r3 + r4 + r5, nl, markdown_updated(r.results@), markdown_failed(r.results@));
}

fn push_opt_or(s: &mut String, o: &Option<String>, default: &str)
    ensures
        final(s)@ == old(s)@ + or_default(*o, default@),
{
    match o {
        Some(x) => push_str(s, x.as_str()),
        None => push_str(s, default),
    }
}

fn push_summary_row(s: &mut String, label: &str, count: usize)
    ensures
        final(s)@ == old(s)@ + summary_row(label@, count as nat),
{
    push_str(s, "| ");
    push_str(s, label);
    push_str(s, " | ");
    push_decimal(s, count as u64);
    push_str(s, " |\n");
    assert(s@ =~= old(s)@ + summary_row(label@, count as nat));
}

fn push_listed_name(s: &mut String, r: &UpdateResult)
    ensures
        final(s)@ == old(s)@ + listed_name(*r),
{
    match &r.project_name {
        Some(p) => push_str(s, p.as_str()),
        None => push_str(s, r.filename.as_str()),
    }
}

/// The rows of the successful (`success`) or unsuccessful results, and whether there is any.
fn rows_of(results: &Vec<UpdateResult>, success: bool) -> (res: (String, bool))
    ensures
        res.0@ == if success { updated_rows(results@) } else { failed_rows(results@) },
        res.1 == if success { any_success(results@) } else { any_failure(results@) },
{
    let mut rows = String::new();
    let mut any = false;
    let n = results.len();
    let mut i: usize = 0;
    while i < n
        invariant
            n == results@.len(),
            i <= n,
            rows@ == if success { updated_rows(results@.take(i as int)) } else { failed_rows(results@.take(i as int)) },
            any == exists|j: int| 0 <= j < i && (#[trigger] results@[j]).success == success,
        decreases n - i,
    {
        let r = &results[i];
        let ghost before = rows@;
        assert(results@.take(i + 1).drop_last() =~= results@.take(i as int));
        if r.success == success {
            any = true;
            push_str(&mut rows, "| ");
            push_listed_name(&mut rows, r);
            push_str(&mut rows, " | ");
            if success {
                push_opt_or(&mut rows, &r.old_version, "?");
                push_str(&mut rows, " | ");
                push_opt_or(&mut rows, &r.new_version_number, "?");
                push_str(&mut rows, " |\n");
                assert(rows@ =~= before + updated_row(*r));
            } else {
                push_opt_or(&mut rows, &r.error, "Unknown error");
                push_str(&mut rows, " |\n");
                assert(rows@ =~= before + failed_row(*r));
            }
        } else {
            assert(rows@ =~= before + Seq::<char>::empty());
        }
        i = i + 1;
    }
    assert(results@.take(n as int) =~= results@);
    proof {
        if success {
            if any {
                let j = choose|j: int| 0 <= j < n && (#[trigger] results@[j]).success == success;
                assert(results@[j].success);
            }
        } else {
            if any {
                let j = choose|j: int| 0 <= j < n && (#[trigger] results@[j]).success == success;
                assert(!results@[j].success);
            }
            assert(any_failure(results@) ==> any) by {
                if any_failure(results@) {
                    let j = choose|j: int| 0 <= j < results@.len() && !(#[trigger] results@[j]).success;
                    assert(results@[j].success == success);
                }
            }
        }
    }
    (rows, any)
}

fn push_markdown_head(md: &mut String, r: &UpdateReport)
    ensures
        final(md)@ == old(md)@ + markdown_head(*r),
{
    push_str(md, "# Modrinth Update Report\n\n");
    push_str(md, "**Generated:** ");
    let stamp = r.timestamp.format(REPORT_TIME_PATTERN);
    push_str(md, stamp.as_str());
    push_str(md, "\n\n");
    push_str(md, "**Loader:** ");
    push_str(md, r.loader.as_str());
    push_str(md, " &nbsp;|&nbsp; **Game Version:** ");
    push_str(md, r.game_version.as_str());
    push_str(md, "\n\n");
    assert(md@ =~= old(md)@ + markdown_head(*r));
}

fn push_markdown_summary(md: &mut String, r: &UpdateReport)
    ensures
        final(md)@ == old(md)@ + markdown_summary(*r),
{
    push_str(md, "## Summary\n\n");
    push_str(md, "| Category | Count |\n");
    push_str(md, "|----------|-------|\n");
    push_summary_row(md, "Mods scanned", r.total_scanned);
    push_summary_row(md, "Updates available", r.total_updates_available);
    push_summary_row(md, "Successfully updated", r.total_updated);
    push_summary_row(md, "Failed", r.total_failed);
    push_summary_row(md, "Already up-to-date", r.total_up_to_date);
    md.push('\n');
    assert(md@ =~= old(md)@ + markdown_summary(*r));
}

fn push_markdown_updated(md: &mut String, results: &Vec<UpdateResult>)
    ensures
        final(md)@ == old(md)@ + markdown_updated(results@),
{
    let (rows, any) = rows_of(results, true);
    if any {
        push_str(md, "## Updated Mods\n\n");
        push_str(md, "| Mod | Old Version | New Version |\n");
        push_str(md, "|-----|-------------|-------------|\n");
        push_str(md, rows.as_str());
        md.push('\n');
    }
    assert(md@ =~= old(md)@ + markdown_updated(results@));
}

fn push_markdown_failed(md: &mut String, results: &Vec<UpdateResult>)
    ensures
        final(md)@ == old(md)@ + markdown_failed(results@),
{
    let (rows, any) = rows_of(results, false);
    if any {
        push_str(md, "## Failed Updates\n\n");
        push_str(md, "| Mod | Error |\n");
        push_str(md, "|-----|-------|\n");
        push_str(md, rows.as_str());
        md.push('\n');
    }
    assert(md@ =~= old(md)@ + markdown_failed(results@));
}

impl UpdateReport {
    /// The report in Markdown: a head, a summary table, then a table of the
    /// installed updates and one of the failed updates, each only when not empty.
    pub fn to_markdown(&self) -> (res: String)
        ensures
            res@ == markdown_spec(*self),
            ({
                let k = (markdown_head(*self).len() + ("## Summary\n\n"@ + "| Category | Count |\n"@
                    + "|----------|-------|\n"@).len()) as int;
                let rows = summary_counts_text(*self);
                k + rows.len() <= res@.len() && res@.subrange(k, k + rows.len()) == rows
            }),
    {
        proof {
            lemma_markdown_summary_counts(*self);
        }
        let mut md = String::new();
        push_markdown_head(&mut md, self);
        push_markdown_summary(&mut md, self);
        push_markdown_updated(&mut md, &self.results);
        push_markdown_failed(&mut md, &self.results);
        assert(md@ =~= markdown_spec(*self));
        md
    }
}

} // verus!
