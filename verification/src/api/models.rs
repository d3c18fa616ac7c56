//! The data exchanged with the Modrinth API v2.
//!
//! Strings and lists stand as `String` and `Vec`; instants as [`Timestamp`]. The
//! maps that the API returns (hash to version) stand as vectors of pairs whose
//! keys are distinct.
use vstd::prelude::*;
use crate::time::Timestamp;
use crate::text::{clone_opt_string, clone_strings};

verus! {

/// A mod loader, from `/v2/tag/loader`.
#[derive(Debug)]
pub struct Loader {
    pub icon: String,
    pub name: String,
    pub supported_project_types: Vec<String>,
}

impl Clone for Loader {
    fn clone(&self) -> (res: Self)
        ensures
            res.icon == self.icon,
            res.name == self.name,
            res.supported_project_types@ == self.supported_project_types@,
    {
        Loader {
            icon: self.icon.clone(),
            name: self.name.clone(),
            supported_project_types: clone_strings(&self.supported_project_types),
        }
    }
}

/// A Minecraft version, from `/v2/tag/game_version`.
#[derive(Debug)]
pub struct GameVersion {
    pub version: String,
    pub version_type: String,
    pub date: String,
    pub major: bool,
}

impl Clone for GameVersion {
    fn clone(&self) -> (res: Self)
        ensures
            res == *self,
    {
        GameVersion {
            version: self.version.clone(),
            version_type: self.version_type.clone(),
            date: self.date.clone(),
            major: self.major,
        }
    }
}

/// A project category, from `/v2/tag/category`.
#[derive(Debug)]
pub struct Category {
    pub icon: String,
    pub name: String,
    pub project_type: String,
    pub header: String,
}

impl Clone for Category {
    fn clone(&self) -> (res: Self)
        ensures
            res == *self,
    {
        Category {
            icon: self.icon.clone(),
            name: self.name.clone(),
            project_type: self.project_type.clone(),
            header: self.header.clone(),
        }
    }
}

/// The SHA-512 and SHA-1 hashes (lower-case hex) of a file.
#[derive(Debug)]
pub struct FileHashes {
    pub sha512: String,
    pub sha1: String,
}

impl Clone for FileHashes {
    fn clone(&self) -> (res: Self)
        ensures
            res == *self,
    {
        FileHashes { sha512: self.sha512.clone(), sha1: self.sha1.clone() }
    }
}

/// The kind of an additional file of a version.
#[derive(Debug, Clone, Copy, PartialEq, Eq, Structural)]
pub enum FileType {
    RequiredResourcePack,
    OptionalResourcePack,
    SourcesJar,
    DevJar,
    JavadocJar,
    Signature,
    Unknown,
}

/// A file within a version.
#[derive(Debug)]
pub struct VersionFile {
    pub hashes: FileHashes,
    pub url: String,
    pub filename: String,
    pub primary: bool,
    pub size: u64,
    pub file_type: Option<FileType>,
}

impl Clone for VersionFile {
    fn clone(&self) -> (res: Self)
        ensures
            res == *self,
    {
        VersionFile {
            hashes: self.hashes.clone(),
            url: self.url.clone(),
            filename: self.filename.clone(),
            primary: self.primary,
            size: self.size,
            file_type: self.file_type,
        }
    }
}

/// How a version depends on another project or version.
#[derive(Debug, Clone, Copy, PartialEq, Eq, Structural)]
pub enum DependencyType {
    Required,
    Optional,
    Incompatible,
    Embedded,
}

/// A dependency of a version.
#[derive(Debug)]
pub struct Dependency {
    pub dependency_type: Option<DependencyType>,
    pub version_id: Option<String>,
    pub project_id: Option<String>,
    pub file_name: Option<String>,
}

impl Clone for Dependency {
    fn clone(&self) -> (res: Self)
        ensures
            res == *self,
    {
        Dependency {
            dependency_type: self.dependency_type,
            version_id: clone_opt_string(&self.version_id),
            project_id: clone_opt_string(&self.project_id),
            file_name: clone_opt_string(&self.file_name),
        }
    }
}

/// The release channel of a version.
#[derive(Debug, Clone, Copy, PartialEq, Eq, Structural)]
pub enum VersionType {
    Release,
    Beta,
    Alpha,
}

impl VersionType {
    /// The variant's name, as `{:?}` prints it.
    pub open spec fn name_spec(self) -> Seq<char> {
        match self {
            VersionType::Release => "Release"@,
            VersionType::Beta => "Beta"@,
            VersionType::Alpha => "Alpha"@,
        }
    }

    /// The variant's name, as `{:?}` prints it.
    pub fn name(&self) -> (res: &'static str)
        ensures
            res@ == self.name_spec(),
            res@ == match *self {
                VersionType::Release => seq!['R', 'e', 'l', 'e', 'a', 's', 'e'],
                VersionType::Beta => seq!['B', 'e', 't', 'a'],
                VersionType::Alpha => seq!['A', 'l', 'p', 'h', 'a'],
            },
    {
        proof {
            lemma_version_type_names(*self, *self);
        }
        match self {
            VersionType::Release => "Release",
            VersionType::Beta => "Beta",
            VersionType::Alpha => "Alpha",
        }
    }
}

/// Each release channel is labelled with its variant's name, as `{:?}` prints it,
/// so different channels never share a label.
pub proof fn lemma_version_type_names(a: VersionType, b: VersionType)
    ensures
        VersionType::Release.name_spec() == seq!['R', 'e', 'l', 'e', 'a', 's', 'e'],
        VersionType::Beta.name_spec() == seq!['B', 'e', 't', 'a'],
        VersionType::Alpha.name_spec() == seq!['A', 'l', 'p', 'h', 'a'],
        a != b ==> a.name_spec() != b.name_spec(),
{
    reveal_strlit("Release");
    reveal_strlit("Beta");
    reveal_strlit("Alpha");
    assert(VersionType::Release.name_spec() =~= seq!['R', 'e', 'l', 'e', 'a', 's', 'e']);
    assert(VersionType::Beta.name_spec() =~= seq!['B', 'e', 't', 'a']);
    assert(VersionType::Alpha.name_spec() =~= seq!['A', 'l', 'p', 'h', 'a']);
}

/// The publication status of a version.
#[derive(Debug, Clone, Copy, PartialEq, Eq, Structural)]
pub enum VersionStatus {
    Listed,
    Archived,
    Draft,
    Unlisted,
    Scheduled,
    Unknown,
}

/// A version of a project.
#[derive(Debug)]
pub struct Version {
    pub id: String,
    pub project_id: String,
    pub author_id: String,
    pub name: Option<String>,
    pub version_number: Option<String>,
    pub changelog: Option<String>,
    pub changelog_url: Option<String>,
    pub date_published: Timestamp,
    pub downloads: u64,
    pub version_type: VersionType,
    pub status: VersionStatus,
    pub requested_status: Option<VersionStatus>,
    pub featured: bool,
    pub game_versions: Vec<String>,
    pub loaders: Vec<String>,
    pub files: Vec<VersionFile>,
    pub dependencies: Vec<Dependency>,
}

/// A version with its lists taken as sequences.
pub struct VersionView {
    pub id: String,
    pub project_id: String,
    pub author_id: String,
    pub name: Option<String>,
    pub version_number: Option<String>,
    pub changelog: Option<String>,
    pub changelog_url: Option<String>,
    pub date_published: Timestamp,
    pub downloads: u64,
    pub version_type: VersionType,
    pub status: VersionStatus,
    pub requested_status: Option<VersionStatus>,
    pub featured: bool,
    pub game_versions: Seq<String>,
    pub loaders: Seq<String>,
    pub files: Seq<VersionFile>,
    pub dependencies: Seq<Dependency>,
}

impl View for Version {
    type V = VersionView;

    open spec fn view(&self) -> VersionView {
        VersionView {
            id: self.id,
            project_id: self.project_id,
            author_id: self.author_id,
            name: self.name,
            version_number: self.version_number,
            changelog: self.changelog,
            changelog_url: self.changelog_url,
            date_published: self.date_published,
            downloads: self.downloads,
            version_type: self.version_type,
            status: self.status,
            requested_status: self.requested_status,
            featured: self.featured,
            game_versions: self.game_versions@,
            loaders: self.loaders@,
            files: self.files@,
            dependencies: self.dependencies@,
        }
    }
}

fn clone_files(v: &Vec<VersionFile>) -> (res: Vec<VersionFile>)
    ensures
        res@ == v@,
{
    let mut res: Vec<VersionFile> = Vec::new();
    let n = v.len();
    let mut i: usize = 0;
    while i < n
        invariant
            n == v@.len(),
            i <= n,
            res@ == v@.take(i as int),
        decreases n - i,
    {
        res.push(v[i].clone());
        assert(v@.take(i + 1) =~= v@.take(i as int).push(v@[i as int]));
        i = i + 1;
    }
    assert(v@.take(n as int) =~= v@);
    res
}

fn clone_dependencies(v: &Vec<Dependency>) -> (res: Vec<Dependency>)
    ensures
        res@ == v@,
{
    let mut res: Vec<Dependency> = Vec::new();
    let n = v.len();
    let mut i: usize = 0;
    while i < n
        invariant
            n == v@.len(),
            i <= n,
            res@ == v@.take(i as int),
        decreases n - i,
    {
        res.push(v[i].clone());
        assert(v@.take(i + 1) =~= v@.take(i as int).push(v@[i as int]));
        i = i + 1;
    }
    assert(v@.take(n as int) =~= v@);
    res
}

impl Clone for Version {
    fn clone(&self) -> (res: Self)
        ensures
            res@ == self@,
    {
        Version {
            id: self.id.clone(),
            project_id: self.project_id.clone(),
            author_id: self.author_id.clone(),
            name: clone_opt_string(&self.name),
            version_number: clone_opt_string(&self.version_number),
            changelog: clone_opt_string(&self.changelog),
            changelog_url: clone_opt_string(&self.changelog_url),
            date_published: self.date_published,
            downloads: self.downloads,
            version_type: self.version_type,
            status: self.status,
            requested_status: self.requested_status,
            featured: self.featured,
            game_versions: clone_strings(&self.game_versions),
            loaders: clone_strings(&self.loaders),
            files: clone_files(&self.files),
            dependencies: clone_dependencies(&self.dependencies),
        }
    }
}

/// One project found by a search.
#[derive(Debug)]
pub struct SearchHit {
    pub project_id: String,
    pub project_type: String,
    pub slug: String,
    pub title: String,
    pub description: String,
    pub author: String,
    pub categories: Vec<String>,
    pub display_categories: Vec<String>,
    pub versions: Vec<String>,
    pub latest_version: Option<String>,
    pub downloads: u64,
    pub follows: u64,
    pub date_created: Timestamp,
    pub date_modified: Timestamp,
    pub license: String,
    pub client_side: String,
    pub server_side: String,
    pub icon_url: Option<String>,
    pub color: Option<u32>,
    pub thread_id: String,
    pub monetization_status: String,
    pub gallery: Vec<String>,
    pub featured_gallery: Option<String>,
}

/// Whether `a` holds the same values as `b`, lists taken by their contents.
pub open spec fn same_hit(a: SearchHit, b: SearchHit) -> bool {
    &&& a.project_id == b.project_id
    &&& a.project_type == b.project_type
    &&& a.slug == b.slug
    &&& a.title == b.title
    &&& a.description == b.description
    &&& a.author == b.author
    &&& a.categories@ == b.categories@
    &&& a.display_categories@ == b.display_categories@
    &&& a.versions@ == b.versions@
    &&& a.latest_version == b.latest_version
    &&& a.downloads == b.downloads
    &&& a.follows == b.follows
    &&& a.date_created == b.date_created
    &&& a.date_modified == b.date_modified
    &&& a.license == b.license
    &&& a.client_side == b.client_side
    &&& a.server_side == b.server_side
    &&& a.icon_url == b.icon_url
    &&& a.color == b.color
    &&& a.thread_id == b.thread_id
    &&& a.monetization_status == b.monetization_status
    &&& a.gallery@ == b.gallery@
    &&& a.featured_gallery == b.featured_gallery
}

impl Clone for SearchHit {
    fn clone(&self) -> (res: Self)
        ensures
            same_hit(res, *self),
    {
        SearchHit {
            project_id: self.project_id.clone(),
            project_type: self.project_type.clone(),
            slug: self.slug.clone(),
            title: self.title.clone(),
            description: self.description.clone(),
            author: self.author.clone(),
            categories: clone_strings(&self.categories),
            display_categories: clone_strings(&self.display_categories),
            versions: clone_strings(&self.versions),
            latest_version: clone_opt_string(&self.latest_version),
            downloads: self.downloads,
            follows: self.follows,
            date_created: self.date_created,
            date_modified: self.date_modified,
            license: self.license.clone(),
            client_side: self.client_side.clone(),
            server_side: self.server_side.clone(),
            icon_url: clone_opt_string(&self.icon_url),
            color: self.color,
            thread_id: self.thread_id.clone(),
            monetization_status: self.monetization_status.clone(),
            gallery: clone_strings(&self.gallery),
            featured_gallery: clone_opt_string(&self.featured_gallery),
        }
    }
}

/// The answer to a search.
#[derive(Debug)]
pub struct SearchResponse {
    pub hits: Vec<SearchHit>,
    pub offset: u32,
    pub limit: u32,
    pub total_hits: u32,
}

impl Clone for SearchResponse {
    fn clone(&self) -> (res: Self)
        ensures
            res.hits@.len() == self.hits@.len(),
            forall|i: int| 0 <= i < self.hits@.len() ==> same_hit(#[trigger] res.hits@[i], self.hits@[i]),
            res.offset == self.offset,
            res.limit == self.limit,
            res.total_hits == self.total_hits,
    {
        let mut hits: Vec<SearchHit> = Vec::new();
        let n = self.hits.len();
        let mut i: usize = 0;
        while i < n
            invariant
                n == self.hits@.len(),
                i <= n,
                hits@.len() == i,
                forall|k: int| 0 <= k < i ==> same_hit(#[trigger] hits@[k], self.hits@[k]),
            decreases n - i,
        {
            hits.push(self.hits[i].clone());
            i = i + 1;
        }
        SearchResponse { hits, offset: self.offset, limit: self.limit, total_hits: self.total_hits }
    }
}

/// The answer of `/v2/version_files` and `/v2/version_files/update`: the version
/// found for each file hash, as the entries of the JSON object the API returns
/// (so distinct entries have distinct hashes, `updater::distinct_keys`).
pub type VersionFilesResponse = Vec<(String, Version)>;

/// The answer of `/v2/version_files/update`, in the same form.
pub type VersionFilesUpdateResponse = Vec<(String, Version)>;

/// The hash algorithm that file hashes are given in.
#[derive(Debug, Clone, Copy, PartialEq, Eq, Structural)]
pub enum HashAlgorithm {
    Sha1,
    Sha512,
}

impl HashAlgorithm {
    /// The algorithm's name as the API spells it.
    pub open spec fn name_spec(self) -> Seq<char> {
        match self {
            HashAlgorithm::Sha1 => "sha1"@,
            HashAlgorithm::Sha512 => "sha512"@,
        }
    }

    /// The algorithm's name as the API spells it: `sha1` or `sha512`.
    pub fn as_str(&self) -> (res: &'static str)
        ensures
            res@ == self.name_spec(),
    {
        match self {
            HashAlgorithm::Sha1 => "sha1",
            HashAlgorithm::Sha512 => "sha512",
        }
    }
}

/// Body of `POST /v2/version_files`.
#[derive(Debug)]
pub struct VersionFilesRequest {
    pub hashes: Vec<String>,
    pub algorithm: String,
}

impl Clone for VersionFilesRequest {
    fn clone(&self) -> (res: Self)
        ensures
            res.hashes@ == self.hashes@,
            res.algorithm == self.algorithm,
    {
        VersionFilesRequest { hashes: clone_strings(&self.hashes), algorithm: self.algorithm.clone() }
    }
}

/// Body of `POST /v2/version_files/update`.
#[derive(Debug)]
pub struct VersionFilesUpdateRequest {
    pub hashes: Vec<String>,
    pub algorithm: String,
    pub loaders: Vec<String>,
    pub game_versions: Vec<String>,
}

impl Clone for VersionFilesUpdateRequest {
    fn clone(&self) -> (res: Self)
        ensures
            res.hashes@ == self.hashes@,
            res.algorithm == self.algorithm,
            res.loaders@ == self.loaders@,
            res.game_versions@ == self.game_versions@,
    {
        VersionFilesUpdateRequest {
            hashes: clone_strings(&self.hashes),
            algorithm: self.algorithm.clone(),
            loaders: clone_strings(&self.loaders),
            game_versions: clone_strings(&self.game_versions),
        }
    }
}

} // verus!
