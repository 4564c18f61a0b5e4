//! The backend for the local file system.
//!
//! The backend decides; it does not touch the disk. Each operation takes
//! what the caller saw on the disk and says what is to be done or what is
//! to be answered. A path is used as it is given: nothing confines the
//! operations to some part of the file system.

use crate::storage::config::{StorageConfig, StorageConfigView, StorageType};
use crate::storage::error::{StorageError, StorageErrorView};
use crate::storage::order::{arranged, insert_ordered, lemma_arranged};
use crate::outside::{
    bytes_from_vec, bytes_len, bytes_of, guess_mime, guessed_mime, home_dir, host_name,
    is_random_id_text, random_id,
};
use crate::storage::paths::{file_name, file_name_of, join, joined_path, parent, parent_of};
use crate::storage::probe::{
    raw_views, DiskStat, EntryMetadata, PathProbe, RawEntry, RawEntryView,
};
use crate::storage::types::{
    entry_views, DirectoryListing, ProjectStructure, ProjectStructureView, StorageEntry,
    StorageEntryView, StorageInfo, StorageInfoView, UploadResult, UploadResultView,
};
use crate::text::{is_hidden_name, opt_text, owned, starts_with_dot, texts};
use vstd::prelude::*;

verus! {

/// The backend for the local file system.
pub struct LocalStorageProvider {
    id: String,
    show_hidden: bool,
    default_projects_path: String,
}

/// A [`LocalStorageProvider`] as a mathematical value.
pub struct LocalStorageProviderView {
    /// The backend's identifier.
    pub id: Seq<char>,
    /// Whether entries whose name begins with a dot are listed.
    pub show_hidden: bool,
    /// Where new projects are placed unless the caller says otherwise.
    pub default_projects_path: Seq<char>,
}

impl View for LocalStorageProvider {
    type V = LocalStorageProviderView;

    closed spec fn view(&self) -> LocalStorageProviderView {
        LocalStorageProviderView {
            id: self.id@,
            show_hidden: self.show_hidden,
            default_projects_path: self.default_projects_path@,
        }
    }
}

/// The backend that a configuration gives on a machine where `drawn_id` was
/// drawn as an identifier and the user's directories are as given.
///
/// The identifier is the configured one, else the drawn one. New projects
/// go to the configured path; else to the user's directory for videos; else
/// to `Videos` below the home directory; else to `/tmp`.
pub open spec fn provider_of(
    config: StorageConfigView,
    drawn_id: Seq<char>,
    video_dir: Option<Seq<char>>,
    home_dir: Option<Seq<char>>,
) -> LocalStorageProviderView {
    LocalStorageProviderView {
        id: match config.id {
            Some(id) => id,
            None => drawn_id,
        },
        show_hidden: config.show_hidden,
        default_projects_path: match config.default_projects_path {
            Some(path) => path,
            None => match video_dir {
                Some(path) => path,
                None => match home_dir {
                    Some(home) => joined_path(home, "Videos"@),
                    None => "/tmp"@,
                },
            },
        },
    }
}

/// Whether `provider` is the backend that `config` gives on a machine whose
/// directory for videos is `video_dir`: with some identifier drawn and with
/// some home directory.
pub open spec fn is_provider_for(
    provider: LocalStorageProviderView,
    config: StorageConfigView,
    video_dir: Option<Seq<char>>,
) -> bool {
    exists|drawn_id: Seq<char>, home: Option<Seq<char>>|
        provider == #[trigger] provider_of(config, drawn_id, video_dir, home)
}

/// The directory that stands for the user's home: the one the environment
/// names, else the root.
pub open spec fn home_or_root(home: Option<Seq<char>>) -> Seq<char> {
    match home {
        Some(h) => h,
        None => "/"@,
    }
}

/// The path that a request means: the home directory for the empty path,
/// else the path as it is given.
pub open spec fn resolved(path: Seq<char>, home: Option<Seq<char>>) -> Seq<char> {
    if path.len() == 0 {
        home_or_root(home)
    } else {
        path
    }
}

/// A time of the medium as a time stamp: the seconds since the epoch, 0
/// where the medium gave none. Seconds beyond the range of the stamp wrap
/// around.
pub open spec fn stamp_of(secs: Option<u64>) -> i64 {
    match secs {
        Some(s) => s as i64,
        None => 0,
    }
}

/// The entry that stands for an item with the given name and path, of
/// which the medium records `m`.
///
/// A regular file has its length as size and the media type that its path
/// suggests. Anything else has size 0 and the media type of a directory.
pub open spec fn entry_of(name: Seq<char>, path: Seq<char>, m: EntryMetadata) -> StorageEntryView {
    StorageEntryView {
        name: name,
        path: path,
        is_directory: m.is_dir,
        size: if m.is_file {
            m.len
        } else {
            0
        },
        created_at: stamp_of(m.created_secs),
        modified_at: stamp_of(m.modified_secs),
        mime_type: if m.is_file {
            guessed_mime(path)
        } else {
            "inode/directory"@
        },
        metadata: Seq::empty(),
    }
}

/// Whether an item of a directory is listed: its metadata could be read,
/// and its name does not begin with a dot unless hidden entries are shown.
pub open spec fn is_listed(item: RawEntryView, show_hidden: bool) -> bool {
    item.metadata is Some && (show_hidden || !is_hidden_name(item.name))
}

/// The entries for the listed items of `items`, in the order of `items`.
pub open spec fn listed_entries(items: Seq<RawEntryView>, show_hidden: bool) -> Seq<
    StorageEntryView,
>
    decreases items.len(),
{
    if items.len() == 0 {
        Seq::empty()
    } else {
        let rest = listed_entries(items.drop_last(), show_hidden);
        let item = items.last();
        if is_listed(item, show_hidden) {
            rest.push(entry_of(item.name, item.path, item.metadata->Some_0))
        } else {
            rest
        }
    }
}

/// What a backend says of itself.
pub open spec fn info_of(
    provider: LocalStorageProviderView,
    hostname: Option<Seq<char>>,
    os: Seq<char>,
    home: Option<Seq<char>>,
    root_paths: Seq<Seq<char>>,
    total_space: u64,
    free_space: u64,
) -> StorageInfoView {
    StorageInfoView {
        id: provider.id,
        storage_type: "local"@,
        hostname: match hostname {
            Some(h) => h,
            None => "unknown"@,
        },
        os: os,
        home_directory: home_or_root(home),
        default_projects_path: provider.default_projects_path,
        root_paths: root_paths,
        total_space: total_space,
        free_space: free_space,
    }
}

/// The roots from which browsing starts on a Unix system: the root itself,
/// `/home` where it exists, and the directories mounted below the usual
/// mount points.
pub open spec fn roots_of(home_exists: bool, mounts: Seq<Seq<char>>) -> Seq<Seq<char>> {
    seq!["/"@] + (if home_exists {
        seq!["/home"@]
    } else {
        Seq::empty()
    }) + mounts
}

/// Whether the sizes that `stat` stands for fit into 64 bits.
pub open spec fn disk_fits(stat: DiskStat) -> bool {
    stat.blocks * stat.fragment_size <= u64::MAX && stat.blocks_available * stat.fragment_size
        <= u64::MAX
}

/// The directories of the project `name` below `base`: the root, `assets`
/// with `video`, `audio` and `images` below it, `timeline` and `exports`.
pub open spec fn layout_of(base: Seq<char>, name: Seq<char>) -> ProjectStructureView {
    let root = joined_path(base, name);
    let assets = joined_path(root, "assets"@);
    ProjectStructureView {
        project_path: root,
        assets_path: assets,
        video_path: joined_path(assets, "video"@),
        audio_path: joined_path(assets, "audio"@),
        images_path: joined_path(assets, "images"@),
        timeline_path: joined_path(root, "timeline"@),
        exports_path: joined_path(root, "exports"@),
    }
}

/// The directories of a project in the order in which they are created: the
/// root first, and each directory after the one above it.
pub open spec fn directories_of(s: ProjectStructureView) -> Seq<Seq<char>> {
    seq![
        s.project_path,
        s.assets_path,
        s.video_path,
        s.audio_path,
        s.images_path,
        s.timeline_path,
        s.exports_path,
    ]
}

impl DiskStat {
    /// Tests whether the sizes that the figures stand for fit into 64 bits.
    pub fn fits(&self) -> (r: bool)
        ensures
            r == disk_fits(*self),
    {
        let limit: u128 = 0xffff_ffff_ffff_ffff;
        let b: u128 = self.blocks as u128;
        let a: u128 = self.blocks_available as u128;
        let f: u128 = self.fragment_size as u128;
        assert(b * f <= 0xffff_ffff_ffff_ffff * 0xffff_ffff_ffff_ffff) by (nonlinear_arith)
            requires
                0 <= b <= 0xffff_ffff_ffff_ffff,
                0 <= f <= 0xffff_ffff_ffff_ffff,
        ;
        assert(a * f <= 0xffff_ffff_ffff_ffff * 0xffff_ffff_ffff_ffff) by (nonlinear_arith)
            requires
                0 <= a <= 0xffff_ffff_ffff_ffff,
                0 <= f <= 0xffff_ffff_ffff_ffff,
        ;
        b * f <= limit && a * f <= limit
    }
}

impl ProjectStructure {
    /// Lays out the directories of the project `project_name` below
    /// `base_path`. Nothing is created.
    pub fn layout(base_path: &str, project_name: &str) -> (r: ProjectStructure)
        ensures
            r@ == layout_of(base_path@, project_name@),
    {
        let project_path = join(base_path, project_name);
        let assets_path = join(project_path.as_str(), "assets");
        let video_path = join(assets_path.as_str(), "video");
        let audio_path = join(assets_path.as_str(), "audio");
        let images_path = join(assets_path.as_str(), "images");
        let timeline_path = join(project_path.as_str(), "timeline");
        let exports_path = join(project_path.as_str(), "exports");
        ProjectStructure {
            project_path,
            assets_path,
            video_path,
            audio_path,
            images_path,
            timeline_path,
            exports_path,
        }
    }

    /// The seven directories, in the order in which they are to be created.
    pub fn directories(&self) -> (r: Vec<String>)
        ensures
            texts(r@) == directories_of(self@),
    {
        let mut dirs: Vec<String> = Vec::new();
        dirs.push(self.project_path.clone());
        dirs.push(self.assets_path.clone());
        dirs.push(self.video_path.clone());
        dirs.push(self.audio_path.clone());
        dirs.push(self.images_path.clone());
        dirs.push(self.timeline_path.clone());
        dirs.push(self.exports_path.clone());
        assert(texts(dirs@) =~= directories_of(self@));
        dirs
    }
}

impl LocalStorageProvider {
    /// The backend for a configuration, on a machine where `drawn_id` was
    /// drawn as an identifier and the user's directories are as given.
    pub fn with_environment(
        config: &StorageConfig,
        drawn_id: String,
        video_dir: Option<String>,
        home_dir: Option<String>,
    ) -> (r: LocalStorageProvider)
        ensures
            r@ == provider_of(config@, drawn_id@, opt_text(video_dir), opt_text(home_dir)),
    {
        let id = match &config.id {
            Some(id) => id.clone(),
            None => drawn_id,
        };
        let default_projects_path = match &config.default_projects_path {
            Some(path) => path.clone(),
            None => match video_dir {
                Some(path) => path,
                None => match home_dir {
                    Some(home) => join(home.as_str(), "Videos"),
                    None => owned("/tmp"),
                },
            },
        };
        LocalStorageProvider { id, show_hidden: config.show_hidden, default_projects_path }
    }

    /// The backend for a configuration on this machine, whose directory for
    /// videos is `video_dir` where the caller found one. An identifier is
    /// drawn where the configuration has none, and it has the form of a
    /// random identifier; the home directory is asked for where neither the
    /// configuration nor `video_dir` names a place for projects. What is
    /// configured stands as it is.
    pub fn new(config: &StorageConfig, video_dir: Option<String>) -> (r: Result<
        LocalStorageProvider,
        StorageError,
    >)
        ensures
            r matches Ok(p) && is_provider_for(p@, config@, opt_text(video_dir)) && (config@.id
                is None ==> is_random_id_text(p@.id)),
    {
        let drawn_id = if config.id.is_none() {
            random_id()
        } else {
            String::new()
        };
        let home = if config.default_projects_path.is_none() && video_dir.is_none() {
            home_dir()
        } else {
            None
        };
        let p = LocalStorageProvider::with_environment(config, drawn_id, video_dir, home);
        assert(p@ == provider_of(config@, drawn_id@, opt_text(video_dir), opt_text(home)));
        Ok(p)
    }

    /// The backend's identifier.
    pub fn id(&self) -> (r: &String)
        ensures
            r@ == self@.id,
    {
        &self.id
    }

    /// Whether entries whose name begins with a dot are listed.
    pub fn show_hidden(&self) -> (r: bool)
        ensures
            r == self@.show_hidden,
    {
        self.show_hidden
    }

    /// Where new projects are placed unless the caller says otherwise.
    pub fn default_projects_path(&self) -> (r: &String)
        ensures
            r@ == self@.default_projects_path,
    {
        &self.default_projects_path
    }

    /// The user's home directory on this machine, or the root where the
    /// environment names none.
    pub fn get_home_directory(&self) -> (r: String)
        ensures
            exists|home: Option<Seq<char>>| r@ == home_or_root(home),
    {
        let home = home_dir();
        let r = LocalStorageProvider::home_directory_from(home);
        assert(r@ == home_or_root(opt_text(home)));
        r
    }

    /// The directory that stands for the user's home, given what the
    /// environment names.
    pub fn home_directory_from(home: Option<String>) -> (r: String)
        ensures
            r@ == home_or_root(opt_text(home)),
    {
        match home {
            Some(h) => h,
            None => owned("/"),
        }
    }

    /// The path that a request means on this machine. A path that is not
    /// empty is used as it is given; the empty path means the home
    /// directory.
    pub fn resolve_path(&self, path: &str) -> (r: String)
        ensures
            exists|home: Option<Seq<char>>| r@ == resolved(path@, home),
            path@.len() > 0 ==> r@ == path@,
    {
        if path.is_empty() {
            let home = home_dir();
            let r = LocalStorageProvider::home_directory_from(home);
            assert(r@ == resolved(path@, opt_text(home)));
            r
        } else {
            let r = owned(path);
            assert(r@ == resolved(path@, None));
            r
        }
    }

    /// The path that a request means, where the environment names `home`
    /// as the home directory.
    pub fn resolve_path_from(path: &str, home: Option<String>) -> (r: String)
        ensures
            r@ == resolved(path@, opt_text(home)),
    {
        if path.is_empty() {
            LocalStorageProvider::home_directory_from(home)
        } else {
            owned(path)
        }
    }

    /// The entry for an item with the given name and path, of which the
    /// medium records `metadata`.
    pub fn entry_from_metadata(&self, name: String, path: String, metadata: EntryMetadata) -> (r:
        StorageEntry)
        ensures
            r@ == entry_of(name@, path@, metadata),
    {
        let created_at = stamp(metadata.created_secs);
        let modified_at = stamp(metadata.modified_secs);
        let mime_type = if metadata.is_file {
            guess_mime(path.as_str())
        } else {
            owned("inode/directory")
        };
        let r = StorageEntry {
            name,
            path,
            is_directory: metadata.is_dir,
            size: if metadata.is_file {
                metadata.len
            } else {
                0
            },
            created_at,
            modified_at,
            mime_type,
            metadata: Vec::new(),
        };
        assert(r@.metadata =~= Seq::empty());
        r
    }

    /// What the backend says of itself, given what the machine says of
    /// itself.
    pub fn describe(
        &self,
        hostname: Option<String>,
        os: &str,
        home: Option<String>,
        root_paths: Vec<String>,
        total_space: u64,
        free_space: u64,
    ) -> (r: StorageInfo)
        ensures
            r@ == info_of(
                self@,
                opt_text(hostname),
                os@,
                opt_text(home),
                texts(root_paths@),
                total_space,
                free_space,
            ),
    {
        StorageInfo {
            id: self.id.clone(),
            storage_type: owned("local"),
            hostname: match hostname {
                Some(h) => h,
                None => owned("unknown"),
            },
            os: owned(os),
            home_directory: LocalStorageProvider::home_directory_from(home),
            default_projects_path: self.default_projects_path.clone(),
            root_paths,
            total_space,
            free_space,
        }
    }

    /// What the backend says of itself on this machine. The machine's name
    /// and the home directory are asked for here; the operating system, the
    /// roots and the sizes of the disk are the caller's to find.
    pub fn get_info(&self, os: &str, root_paths: Vec<String>, total_space: u64, free_space: u64) -> (r:
        Result<StorageInfo, StorageError>)
        ensures
            r matches Ok(info) && exists|hostname: Option<Seq<char>>, home: Option<Seq<char>>|
                info@ == info_of(
                    self@,
                    hostname,
                    os@,
                    home,
                    texts(root_paths@),
                    total_space,
                    free_space,
                ),
    {
        let hostname = host_name();
        let home = home_dir();
        let info = self.describe(hostname, os, home, root_paths, total_space, free_space);
        assert(info@ == info_of(
            self@,
            opt_text(hostname),
            os@,
            opt_text(home),
            texts(root_paths@),
            total_space,
            free_space,
        ));
        Ok(info)
    }

    /// The roots from which browsing starts on a Unix system, given whether
    /// `/home` exists and which directories are mounted.
    pub fn get_root_paths(home_exists: bool, mounts: Vec<String>) -> (r: Vec<String>)
        ensures
            texts(r@) == roots_of(home_exists, texts(mounts@)),
    {
        let mut paths: Vec<String> = Vec::new();
        paths.push(owned("/"));
        if home_exists {
            paths.push(owned("/home"));
        }
        let ghost head = texts(paths@);
        let mut mounts = mounts;
        let ghost tail = texts(mounts@);
        paths.append(&mut mounts);
        assert(texts(paths@) =~= head + tail);
        assert(head + tail =~= roots_of(home_exists, tail));
        paths
    }

    /// The size of the disk and the space free on it, in bytes; both 0
    /// where the figures could not be had.
    pub fn get_disk_space(stat: Option<DiskStat>) -> (r: (u64, u64))
        requires
            stat matches Some(s) ==> disk_fits(s),
        ensures
            match stat {
                Some(s) => r.0 == s.blocks * s.fragment_size && r.1 == s.blocks_available
                    * s.fragment_size,
                None => r == (0u64, 0u64),
            },
    {
        match stat {
            Some(s) => (s.blocks * s.fragment_size, s.blocks_available * s.fragment_size),
            None => (0, 0),
        }
    }

    /// Whether the directory at `dir_path` can be listed, given what a look
    /// at the path showed.
    pub fn check_directory(&self, dir_path: &str, probe: PathProbe) -> (r: Result<
        (),
        StorageError,
    >)
        ensures
            !probe.exists ==> (r matches Err(e) && e@ == StorageErrorView::NotFound(dir_path@)),
            probe.exists && !probe.is_dir ==> (r matches Err(e) && e@
                == StorageErrorView::NotADirectory(dir_path@)),
            probe.exists && probe.is_dir ==> r is Ok,
    {
        if !probe.exists {
            Err(StorageError::NotFound(owned(dir_path)))
        } else if !probe.is_dir {
            Err(StorageError::NotADirectory(owned(dir_path)))
        } else {
            Ok(())
        }
    }

    /// The listing of the directory at `dir_path`, which was read to hold
    /// `children`.
    ///
    /// The listing holds one entry for each listed child and no other, in
    /// the order of a listing: no file stands before a directory, within
    /// each of the two groups the names go up when case is disregarded, and
    /// entries that are alike in both keep the order in which they were
    /// read. The parent is the directory above `dir_path`, and empty where
    /// there is none.
    pub fn list_directory(&self, dir_path: &str, children: Vec<RawEntry>) -> (r: DirectoryListing)
        ensures
            r.wf(),
            r@.current_path == dir_path@,
            r@.parent_path == (match parent_of(dir_path@) {
                Some(p) => p,
                None => Seq::empty(),
            }),
            r@.entries == arranged(listed_entries(raw_views(children@), self@.show_hidden)),
            r@.entries.to_multiset() == listed_entries(
                raw_views(children@),
                self@.show_hidden,
            ).to_multiset(),
    {
        let ghost items = raw_views(children@);
        let ghost show = self@.show_hidden;
        let mut entries: Vec<StorageEntry> = Vec::new();
        assert(items.take(0) =~= Seq::empty());
        assert(entry_views(entries@) =~= arranged(listed_entries(items.take(0), show)));
        for child in it: children.into_iter()
            invariant
                show == self@.show_hidden,
                it.seq().len() == items.len(),
                forall|k: int| 0 <= k < items.len() ==> (#[trigger] it.seq()[k])@ == items[k],
                entry_views(entries@) == arranged(
                    listed_entries(items.take(it.index() as int), show),
                ),
        {
            let ghost i = it.index() as int;
            proof {
                assert(items.take(i + 1).drop_last() =~= items.take(i));
                assert(items.take(i + 1).last() == child@);
                let sofar = listed_entries(items.take(i), show);
                let e = entry_of(child@.name, child@.path, child@.metadata->Some_0);
                assert(sofar.push(e).drop_last() =~= sofar);
            }
            let hidden = !self.show_hidden && starts_with_dot(child.name.as_str());
            if !hidden {
                match child.metadata {
                    Some(metadata) => {
                        let entry = self.entry_from_metadata(child.name, child.path, metadata);
                        insert_ordered(&mut entries, entry);
                    },
                    None => {},
                }
            }
        }
        proof {
            assert(items.take(items.len() as int) =~= items);
            lemma_arranged(listed_entries(items, show));
        }
        let parent_path = match parent(dir_path) {
            Some(p) => p,
            None => String::new(),
        };
        DirectoryListing { current_path: owned(dir_path), parent_path, entries }
    }

    /// The entry for what stands at `path`, which the backend resolved to
    /// `resolved`. `probe` and `metadata` are what a look at the resolved
    /// path showed.
    ///
    /// Where nothing is there the path is reported as not found, as the
    /// caller gave it. Where the metadata could not be read the medium's
    /// failure is handed on. Else the entry carries the last component of
    /// the resolved path as its name, or no name where there is none.
    pub fn get_entry_info(
        &self,
        path: &str,
        resolved: &str,
        probe: PathProbe,
        metadata: Result<EntryMetadata, String>,
    ) -> (r: Result<StorageEntry, StorageError>)
        ensures
            !probe.exists ==> (r matches Err(e) && e@ == StorageErrorView::NotFound(path@)),
            probe.exists ==> match metadata {
                Err(text) => r matches Err(e) && e@ == StorageErrorView::Io(text@),
                Ok(m) => r matches Ok(entry) && entry@ == entry_of(
                    match file_name_of(resolved@) {
                        Some(n) => n,
                        None => Seq::empty(),
                    },
                    resolved@,
                    m,
                ),
            },
    {
        if !probe.exists {
            return Err(StorageError::NotFound(owned(path)));
        }
        match metadata {
            Err(text) => Err(StorageError::Io(text)),
            Ok(m) => {
                let name = match file_name(resolved) {
                    Some(n) => n,
                    None => String::new(),
                };
                Ok(self.entry_from_metadata(name, owned(resolved), m))
            },
        }
    }

    /// How the directory at `path` is to be created: with all that is
    /// missing above it where `recursive` is set, else alone, which the
    /// medium refuses where the directory above is missing.
    pub fn create_directory(&self, path: &str, recursive: bool) -> (r: Creation)
        ensures
            r == (if recursive {
                Creation::WithAncestors
            } else {
                Creation::Alone
            }),
    {
        if recursive {
            Creation::WithAncestors
        } else {
            Creation::Alone
        }
    }

    /// What creating the directory at `path` ends with, given what the
    /// medium made of it: the path, or the medium's failure.
    pub fn directory_created(&self, path: &str, made: Result<(), String>) -> (r: Result<
        String,
        StorageError,
    >)
        ensures
            match made {
                Ok(_) => (r matches Ok(p) && p@ == path@),
                Err(text) => (r matches Err(e) && e@ == StorageErrorView::Io(text@)),
            },
    {
        match made {
            Ok(_) => Ok(owned(path)),
            Err(text) => Err(StorageError::Io(text)),
        }
    }

    /// Whether and how the directory at `path` may be removed, given what a
    /// look at the path showed. With `recursive` the directory goes with
    /// all that it holds; without, only an empty directory goes, and
    /// whether it is empty is the medium's to say.
    pub fn delete_directory(&self, path: &str, probe: PathProbe, recursive: bool) -> (r: Result<
        Removal,
        StorageError,
    >)
        ensures
            !probe.exists ==> (r matches Err(e) && e@ == StorageErrorView::NotFound(path@)),
            probe.exists && !probe.is_dir ==> (r matches Err(e) && e@
                == StorageErrorView::NotADirectory(path@)),
            probe.exists && probe.is_dir ==> (r matches Ok(how) && how == (if recursive {
                Removal::Subtree
            } else {
                Removal::EmptyDirectory
            })),
    {
        if !probe.exists {
            Err(StorageError::NotFound(owned(path)))
        } else if !probe.is_dir {
            Err(StorageError::NotADirectory(owned(path)))
        } else if recursive {
            Ok(Removal::Subtree)
        } else {
            Ok(Removal::EmptyDirectory)
        }
    }

    /// Whether the file at `path` may be removed, given what a look at the
    /// path showed.
    pub fn delete_file(&self, path: &str, probe: PathProbe) -> (r: Result<(), StorageError>)
        ensures
            !probe.exists ==> (r matches Err(e) && e@ == StorageErrorView::NotFound(path@)),
            probe.exists && probe.is_dir ==> (r matches Err(e) && e@ == StorageErrorView::NotAFile(
                path@,
            )),
            probe.exists && !probe.is_dir ==> r is Ok,
    {
        if !probe.exists {
            Err(StorageError::NotFound(owned(path)))
        } else if probe.is_dir {
            Err(StorageError::NotAFile(owned(path)))
        } else {
            Ok(())
        }
    }

    /// Whether `data` may be written to `destination`, and what is to be
    /// done for it.
    ///
    /// A destination that exists is refused unless `overwrite` is set.
    /// Else the directories above the destination are to be created, the
    /// data written, and the answer is the destination with the number of
    /// bytes of `data`.
    pub fn upload_bytes(
        &self,
        destination: &str,
        data: &bytes::Bytes,
        exists: bool,
        overwrite: bool,
    ) -> (r: Result<UploadPlan, StorageError>)
        ensures
            exists && !overwrite ==> (r matches Err(e) && e@ == StorageErrorView::AlreadyExists(
                destination@,
            )),
            !(exists && !overwrite) ==> (r matches Ok(plan) && opt_text(plan.parent) == parent_of(
                destination@,
            ) && plan.result@ == (UploadResultView {
                path: destination@,
                size: bytes_of(*data).len() as u64,
                checksum: None,
            })),
    {
        if exists && !overwrite {
            return Err(StorageError::AlreadyExists(owned(destination)));
        }
        let size = bytes_len(data) as u64;
        Ok(
            UploadPlan {
                parent: parent(destination),
                result: UploadResult { path: owned(destination), size, checksum: None },
            },
        )
    }

    /// Whether the file at `path` may be read as a whole, given what a look
    /// at the path showed.
    pub fn download_bytes(&self, path: &str, probe: PathProbe) -> (r: Result<(), StorageError>)
        ensures
            !probe.exists ==> (r matches Err(e) && e@ == StorageErrorView::NotFound(path@)),
            probe.exists && probe.is_dir ==> (r matches Err(e) && e@ == StorageErrorView::NotAFile(
                path@,
            )),
            probe.exists && !probe.is_dir ==> r is Ok,
    {
        self.delete_file(path, probe)
    }

    /// The content of a file as a buffer, given what reading it gave: the
    /// bytes that were read, or the medium's failure.
    pub fn downloaded(read: Result<Vec<u8>, String>) -> (r: Result<bytes::Bytes, StorageError>)
        ensures
            match read {
                Ok(data) => r matches Ok(b) && bytes_of(b) == data@,
                Err(text) => r matches Err(e) && e@ == StorageErrorView::Io(text@),
            },
    {
        match read {
            Ok(data) => Ok(bytes_from_vec(data)),
            Err(text) => Err(StorageError::Io(text)),
        }
    }

    /// Whether the file at `path` may be opened for reading.
    pub fn get_read_stream(&self, path: &str, exists: bool) -> (r: Result<(), StorageError>)
        ensures
            !exists ==> (r matches Err(e) && e@ == StorageErrorView::NotFound(path@)),
            exists ==> r is Ok,
    {
        if !exists {
            Err(StorageError::NotFound(owned(path)))
        } else {
            Ok(())
        }
    }

    /// Whether a file may be created at `path` for writing. A path that
    /// exists is refused unless `overwrite` is set. Else the answer is the
    /// directory above the path, which is to be created first with all
    /// that is missing above it; `None` where the path has none.
    pub fn get_write_stream(&self, path: &str, exists: bool, overwrite: bool) -> (r: Result<
        Option<String>,
        StorageError,
    >)
        ensures
            exists && !overwrite ==> (r matches Err(e) && e@ == StorageErrorView::AlreadyExists(
                path@,
            )),
            !(exists && !overwrite) ==> (r matches Ok(dir) && opt_text(dir) == parent_of(path@)),
    {
        if exists && !overwrite {
            Err(StorageError::AlreadyExists(owned(path)))
        } else {
            Ok(parent(path))
        }
    }

    /// Whether the directories of a project may be created, given its
    /// layout and whether its root exists already. A root that exists is
    /// refused; else the layout is what the caller creates and reports.
    pub fn init_project_structure(&self, layout: ProjectStructure, root_exists: bool) -> (r: Result<
        ProjectStructure,
        StorageError,
    >)
        ensures
            root_exists ==> (r matches Err(e) && e@ == StorageErrorView::AlreadyExists(
                layout@.project_path,
            )),
            !root_exists ==> (r matches Ok(s) && s@ == layout@),
    {
        if root_exists {
            Err(StorageError::AlreadyExists(layout.project_path))
        } else {
            Ok(layout)
        }
    }
}

/// How a directory is created.
#[derive(Debug, Clone, Copy, PartialEq, Eq, Structural)]
pub enum Creation {
    /// With every directory that is missing above it.
    WithAncestors,
    /// Alone: the directory above it must exist.
    Alone,
}

/// How a directory is removed.
#[derive(Debug, Clone, Copy, PartialEq, Eq, Structural)]
pub enum Removal {
    /// With all that it holds.
    Subtree,
    /// Only if it is empty.
    EmptyDirectory,
}

/// What is to be done for an upload that may go ahead.
pub struct UploadPlan {
    /// The directory to create first, with all that is missing above it.
    pub parent: Option<String>,
    /// The answer, once the data is written.
    pub result: UploadResult,
}

/// A time of the medium as a time stamp.
pub fn stamp(secs: Option<u64>) -> (r: i64)
    ensures
        r == stamp_of(secs),
        secs matches Some(s) ==> (s <= i64::MAX ==> r == s),
{
    match secs {
        Some(s) => #[verifier::truncate]
        (s as i64),
        None => 0,
    }
}

/// The backend that a configuration asks for, on a machine whose directory
/// for videos is `video_dir`. Only the local file system has one; an object
/// store is refused as not supported.
pub fn create_provider(config: &StorageConfig, video_dir: Option<String>) -> (r: Result<
    LocalStorageProvider,
    StorageError,
>)
    ensures
        config@.storage_type == StorageType::S3 ==> (r matches Err(e) && e@
            == StorageErrorView::NotSupported),
        config@.storage_type == StorageType::Local ==> (r matches Ok(p) && is_provider_for(
            p@,
            config@,
            opt_text(video_dir),
        ) && (config@.id is None ==> is_random_id_text(p@.id))),
{
    match config.storage_type {
        StorageType::Local => LocalStorageProvider::new(config, video_dir),
        StorageType::S3 => Err(StorageError::NotSupported),
    }
}

/// A project has seven directories: its root and six below it, each below
/// the root or below `assets`.
pub proof fn lemma_layout_has_seven_directories(base: Seq<char>, name: Seq<char>)
    ensures
        directories_of(layout_of(base, name)).len() == 7,
        directories_of(layout_of(base, name))[0] == joined_path(base, name),
{
}

} // verus!
