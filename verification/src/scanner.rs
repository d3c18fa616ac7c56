//! Recognising mod files, and reading lists of mod names.
//!
//! Walking directories and reading files is left to the caller, which asks
//! `classify_entry` what to do with each directory entry and hashes mod files
//! with `ContentHasher`.
use vstd::prelude::*;
use std::path::PathBuf;
pub use crate::digest::{hash_bytes_sha1, hash_bytes_sha512};
use crate::text::{
    char_is_whitespace, is_whitespace, str_chars, string_from_chars, trim, trim_chars,
};

verus! {

/// A mod file found by the scanner.
#[derive(Debug)]
pub struct LocalMod {
    /// Path of the mod file.
    pub path: PathBuf,
    /// Just the file name (such as `sodium-1.20.1.jar`).
    pub filename: String,
    /// SHA-512 of the file (lower-case hex).
    pub sha512: String,
    /// SHA-1 of the file (lower-case hex).
    pub sha1: String,
    /// File size in bytes.
    pub size: u64,
}

impl Clone for LocalMod {
    fn clone(&self) -> (res: Self)
        ensures
            res == *self,
    {
        LocalMod {
            path: self.path.clone(),
            filename: self.filename.clone(),
            sha512: self.sha512.clone(),
            sha1: self.sha1.clone(),
            size: self.size,
        }
    }
}

/// Index of the last `.` in `name`, if any.
pub open spec fn last_dot(name: Seq<char>) -> Option<int>
    decreases name.len(),
{
    if name.len() == 0 {
        None
    } else if name.last() == '.' {
        Some(name.len() - 1)
    } else {
        last_dot(name.drop_last())
    }
}

/// `Path::extension` of a file name: the text after the last `.`, unless there is
/// no `.`, or the only `.` opens the name, or the name is `..`.
pub open spec fn extension(name: Seq<char>) -> Option<Seq<char>> {
    if name == ".."@ {
        None
    } else {
        match last_dot(name) {
            Some(i) => if i > 0 {
                Some(name.subrange(i + 1, name.len() as int))
            } else {
                None
            },
            None => None,
        }
    }
}

/// Whether a file name has the extension `jar` (exactly, in lower case).
pub open spec fn is_mod_file_name(name: Seq<char>) -> bool {
    extension(name) == Some("jar"@)
}

proof fn lemma_last_dot_bounds(name: Seq<char>)
    ensures
        last_dot(name) matches Some(i) ==> 0 <= i < name.len() && name[i] == '.'
            && forall|k: int| i < k < name.len() ==> name[k] != '.',
        last_dot(name) is None ==> forall|k: int| 0 <= k < name.len() ==> name[k] != '.',
    decreases name.len(),
{
    if name.len() > 0 && name.last() != '.' {
        let prefix = name.drop_last();
        lemma_last_dot_bounds(prefix);
        assert forall|k: int| 0 <= k < prefix.len() implies prefix[k] == name[k] by {}
    }
}

/// Whether the file `name` is a mod file: its extension is `jar`.
pub fn has_jar_extension(name: &str) -> (res: bool)
    ensures
        res == is_mod_file_name(name@),
{
    let chars = str_chars(name);
    let n = chars.len();
    proof {
        reveal_strlit("jar");
        reveal_strlit("..");
        lemma_last_dot_bounds(name@);
    }
    if n < 5 {
        proof {
            if let Some(i) = last_dot(name@) {
                if i > 0 && name@ != ".."@ {
                    assert(name@.subrange(i + 1, name@.len() as int).len() < 3);
                }
            }
        }
        return false;
    }
    let ok = chars[n - 4] == '.' && chars[n - 3] == 'j' && chars[n - 2] == 'a' && chars[n - 1] == 'r';
    proof {
        let s = name@;
        if ok {
            assert(s.drop_last().last() != '.');
            assert(last_dot(s) == last_dot(s.drop_last()));
            assert(s.drop_last().drop_last().last() != '.');
            assert(last_dot(s.drop_last()) == last_dot(s.drop_last().drop_last()));
            assert(s.drop_last().drop_last().drop_last().last() == '.');
            assert(last_dot(s) == Some(s.len() - 4));
            assert(s.subrange(s.len() - 3, s.len() as int) =~= "jar"@);
            assert(s != ".."@);
        } else {
            if let Some(i) = last_dot(s) {
                if i > 0 && s != ".."@ && s.subrange(i + 1, s.len() as int) == "jar"@ {
                    assert(s.subrange(i + 1, s.len() as int).len() == 3);
                    assert(i == s.len() - 4);
                    assert(s[s.len() - 3] == s.subrange(i + 1, s.len() as int)[0]);
                    assert(s[s.len() - 2] == s.subrange(i + 1, s.len() as int)[1]);
                    assert(s[s.len() - 1] == s.subrange(i + 1, s.len() as int)[2]);
                }
            }
        }
    }
    ok
}

/// What the scanner does with one directory entry.
#[derive(Debug, Clone, Copy, PartialEq, Eq, Structural)]
pub enum EntryAction {
    /// Scan the subdirectory (skipping it, with a warning, if that fails).
    Descend,
    /// Hash the file as a mod (skipping it, with a warning, if that fails).
    HashMod,
    /// Ignore the entry.
    Skip,
}

/// What a scan does with a directory entry: descend into a directory when the
/// scan is recursive, hash a file whose name has the `jar` extension, and ignore
/// everything else. `file_name` is the entry's last path component, if it has one.
pub fn classify_entry(is_dir: bool, is_file: bool, recursive: bool, file_name: Option<&str>) -> (res: EntryAction)
    ensures
        res == if is_dir && recursive {
            EntryAction::Descend
        } else if is_file && (file_name matches Some(n) && is_mod_file_name(n@)) {
            EntryAction::HashMod
        } else {
            EntryAction::Skip
        },
{
    if is_dir && recursive {
        EntryAction::Descend
    } else if is_file {
        match file_name {
            Some(n) => if has_jar_extension(n) {
                EntryAction::HashMod
            } else {
                EntryAction::Skip
            },
            None => EntryAction::Skip,
        }
    } else {
        EntryAction::Skip
    }
}

// ── Lists of mod names ──────────────────────────────────────────────

/// The pieces of `s` between line feeds (`str::split('\n')`): one more piece
/// than there are line feeds.
pub open spec fn split_lines(s: Seq<char>) -> Seq<Seq<char>>
    decreases s.len(),
{
    if s.len() == 0 {
        seq![Seq::<char>::empty()]
    } else {
        let rest = split_lines(s.drop_last());
        if s.last() == '\n' {
            rest.push(Seq::empty())
        } else {
            rest.update(rest.len() - 1, rest.last().push(s.last()))
        }
    }
}

/// Whether a trimmed line names a mod: it is not blank and not a `#` comment.
pub open spec fn is_name_line(line: Seq<char>) -> bool {
    line.len() > 0 && line[0] != '#'
}

/// The trimmed lines, in order, that name a mod.
pub open spec fn name_lines(lines: Seq<Seq<char>>) -> Seq<Seq<char>>
    decreases lines.len(),
{
    if lines.len() == 0 {
        Seq::empty()
    } else {
        let rest = name_lines(lines.drop_last());
        let line = trim(lines.last());
        if is_name_line(line) {
            rest.push(line)
        } else {
            rest
        }
    }
}

/// The mod names in the text of a list: every line, trimmed, that is neither
/// blank nor starts with `#`, in order. (`str::lines` also drops a `\r` before each
/// line feed and a last empty line; trimming and dropping blank lines make no
/// difference between the two.)
pub open spec fn mod_names_spec(content: Seq<char>) -> Seq<Seq<char>> {
    name_lines(split_lines(content))
}

/// Over any lines, the mod names are the lines with only their leading and
/// trailing whitespace removed, kept in order when they are neither blank nor a
/// `#` comment.
pub proof fn lemma_name_lines_are_trimmed(lines: Seq<Seq<char>>)
    ensures
        name_lines(lines) == lines.map_values(|l: Seq<char>| trim(l)).filter(
            |t: Seq<char>| t.len() > 0 && t[0] != '#',
        ),
    decreases lines.len(),
{
    reveal(Seq::filter);
    let pred = |t: Seq<char>| t.len() > 0 && t[0] != '#';
    let trimmed = lines.map_values(|l: Seq<char>| trim(l));
    if lines.len() > 0 {
        lemma_name_lines_are_trimmed(lines.drop_last());
        assert(trimmed.drop_last() =~= lines.drop_last().map_values(|l: Seq<char>| trim(l)));
        assert(trimmed.last() == trim(lines.last()));
    } else {
        assert(trimmed =~= Seq::<Seq<char>>::empty());
    }
}

/// The names read from a list are its pieces between line feeds, each with only
/// its leading and trailing whitespace removed (the characters inside a line, its
/// spaces among them, stay), in order, leaving out blank pieces and `#` comments.
pub proof fn lemma_mod_names_are_trimmed_lines(content: Seq<char>)
    ensures
        mod_names_spec(content) == split_lines(content).map_values(|l: Seq<char>| trim(l)).filter(
            |t: Seq<char>| t.len() > 0 && t[0] != '#',
        ),
{
    lemma_name_lines_are_trimmed(split_lines(content));
}

proof fn lemma_split_lines_len(s: Seq<char>)
    ensures
        split_lines(s).len() >= 1,
    decreases s.len(),
{
    if s.len() > 0 {
        lemma_split_lines_len(s.drop_last());
    }
}

/// Appends the trimmed `line` to `names` when it names a mod.
fn keep_name_line(names: &mut Vec<String>, line: &Vec<char>)
    ensures
        final(names)@.map_values(|n: String| n@) == if is_name_line(trim(line@)) {
            old(names)@.map_values(|n: String| n@).push(trim(line@))
        } else {
            old(names)@.map_values(|n: String| n@)
        },
{
    let t = trim_chars(line.as_slice());
    if t.len() > 0 && t[0] != '#' {
        let s = string_from_chars(t.as_slice());
        names.push(s);
        assert(names@.map_values(|n: String| n@) =~= old(names)@.map_values(|n: String| n@).push(trim(line@)));
    }
}

/// Reads mod names from the text of a list, one per line; blank lines and lines
/// that start with `#` are skipped.
pub fn parse_mod_names(content: &str) -> (res: Vec<String>)
    ensures
        res@.map_values(|n: String| n@) == mod_names_spec(content@),
        res@.map_values(|n: String| n@) == split_lines(content@).map_values(|l: Seq<char>| trim(l)).filter(
            |t: Seq<char>| t.len() > 0 && t[0] != '#',
        ),
{
    let chars = str_chars(content);
    let n = chars.len();
    let mut names: Vec<String> = Vec::new();
    let mut line: Vec<char> = Vec::new();
    let mut i: usize = 0;
    proof {
        lemma_split_lines_len(content@.take(0));
        assert(content@.take(0) =~= Seq::<char>::empty());
    }
    while i < n
        invariant
            n == chars@.len(),
            chars@ == content@,
            i <= n,
            split_lines(content@.take(i as int)).len() >= 1,
            line@ == split_lines(content@.take(i as int)).last(),
            names@.map_values(|s: String| s@) == name_lines(split_lines(content@.take(i as int)).drop_last()),
        decreases n - i,
    {
        let c = chars[i];
        let ghost prev = content@.take(i as int);
        let ghost next = content@.take(i + 1);
        assert(next.drop_last() =~= prev);
        assert(next.last() == c);
        if c == '\n' {
            keep_name_line(&mut names, &line);
            proof {
                let pieces = split_lines(prev);
                assert(split_lines(next) == pieces.push(Seq::<char>::empty()));
                assert(split_lines(next).drop_last() =~= pieces);
                assert(pieces.drop_last().push(pieces.last()) =~= pieces);
            }
            line = Vec::new();
        } else {
            line.push(c);
            proof {
                let pieces = split_lines(prev);
                assert(split_lines(next) == pieces.update(pieces.len() - 1, pieces.last().push(c)));
                assert(split_lines(next).drop_last() =~= pieces.drop_last());
            }
        }
        i = i + 1;
    }
    keep_name_line(&mut names, &line);
    proof {
        assert(content@.take(n as int) =~= content@);
        let pieces = split_lines(content@);
        assert(pieces.drop_last().push(pieces.last()) =~= pieces);
        lemma_mod_names_are_trimmed_lines(content@);
    }
    names
}

} // verus!
