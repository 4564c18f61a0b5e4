use crate::text::{opt_text, texts};
use vstd::prelude::*;

verus! {

/// A snapshot of what a storage backend is and where it lives.
#[derive(Debug, Clone)]
pub struct StorageInfo {
    /// The backend's identifier.
    pub id: String,
    /// The kind of medium, as a tag (`local`, `s3`).
    pub storage_type: String,
    /// The name of the machine.
    pub hostname: String,
    /// The operating system.
    pub os: String,
    /// The user's home directory.
    pub home_directory: String,
    /// Where new projects are placed unless the caller says otherwise.
    pub default_projects_path: String,
    /// The roots from which browsing can start.
    pub root_paths: Vec<String>,
    /// The size of the medium, in bytes.
    pub total_space: u64,
    /// The free space on the medium, in bytes.
    pub free_space: u64,
}

/// A [`StorageInfo`] as a mathematical value.
pub struct StorageInfoView {
    pub id: Seq<char>,
    pub storage_type: Seq<char>,
    pub hostname: Seq<char>,
    pub os: Seq<char>,
    pub home_directory: Seq<char>,
    pub default_projects_path: Seq<char>,
    pub root_paths: Seq<Seq<char>>,
    pub total_space: u64,
    pub free_space: u64,
}

impl View for StorageInfo {
    type V = StorageInfoView;

    open spec fn view(&self) -> StorageInfoView {
        StorageInfoView {
            id: self.id@,
            storage_type: self.storage_type@,
            hostname: self.hostname@,
            os: self.os@,
            home_directory: self.home_directory@,
            default_projects_path: self.default_projects_path@,
            root_paths: texts(self.root_paths@),
            total_space: self.total_space,
            free_space: self.free_space,
        }
    }
}

/// One file or directory, as a backend reports it.
#[derive(Debug, Clone)]
pub struct StorageEntry {
    /// The last component of the path.
    pub name: String,
    /// The full path.
    pub path: String,
    /// Whether the entry is a directory.
    pub is_directory: bool,
    /// The size in bytes; 0 for a directory.
    pub size: u64,
    /// When the entry was created, in seconds since the epoch.
    pub created_at: i64,
    /// When the entry was last changed, in seconds since the epoch.
    pub modified_at: i64,
    /// The media type.
    pub mime_type: String,
    /// Further properties, as pairs of a key and a value.
    pub metadata: Vec<(String, String)>,
}

/// A [`StorageEntry`] as a mathematical value.
pub struct StorageEntryView {
    pub name: Seq<char>,
    pub path: Seq<char>,
    pub is_directory: bool,
    pub size: u64,
    pub created_at: i64,
    pub modified_at: i64,
    pub mime_type: Seq<char>,
    pub metadata: Seq<(Seq<char>, Seq<char>)>,
}

impl View for StorageEntry {
    type V = StorageEntryView;

    open spec fn view(&self) -> StorageEntryView {
        StorageEntryView {
            name: self.name@,
            path: self.path@,
            is_directory: self.is_directory,
            size: self.size,
            created_at: self.created_at,
            modified_at: self.modified_at,
            mime_type: self.mime_type@,
            metadata: Seq::new(
                self.metadata@.len(),
                |i: int| (self.metadata@[i].0@, self.metadata@[i].1@),
            ),
        }
    }
}

/// The views of a list of entries, in order.
pub open spec fn entry_views(v: Seq<StorageEntry>) -> Seq<StorageEntryView> {
    Seq::new(v.len(), |i: int| v[i]@)
}

/// What a directory holds.
#[derive(Debug, Clone)]
pub struct DirectoryListing {
    /// The directory that was listed.
    pub current_path: String,
    /// The directory above it; empty at a root.
    pub parent_path: String,
    /// The entries: directories first, each group by name without regard to
    /// case.
    pub entries: Vec<StorageEntry>,
}

/// A [`DirectoryListing`] as a mathematical value.
pub struct DirectoryListingView {
    pub current_path: Seq<char>,
    pub parent_path: Seq<char>,
    pub entries: Seq<StorageEntryView>,
}

impl View for DirectoryListing {
    type V = DirectoryListingView;

    open spec fn view(&self) -> DirectoryListingView {
        DirectoryListingView {
            current_path: self.current_path@,
            parent_path: self.parent_path@,
            entries: entry_views(self.entries@),
        }
    }
}

/// What a finished upload left behind.
#[derive(Debug, Clone)]
pub struct UploadResult {
    /// Where the file was written.
    pub path: String,
    /// How many bytes it holds.
    pub size: u64,
    /// A checksum of the content, where the backend computes one.
    pub checksum: Option<String>,
}

/// An [`UploadResult`] as a mathematical value.
pub struct UploadResultView {
    pub path: Seq<char>,
    pub size: u64,
    pub checksum: Option<Seq<char>>,
}

impl View for UploadResult {
    type V = UploadResultView;

    open spec fn view(&self) -> UploadResultView {
        UploadResultView {
            path: self.path@,
            size: self.size,
            checksum: opt_text(self.checksum),
        }
    }
}

/// The directories of a project: its root and the six below it.
#[derive(Debug, Clone)]
pub struct ProjectStructure {
    /// The project's root.
    pub project_path: String,
    /// `assets` below the root.
    pub assets_path: String,
    /// `video` below the assets.
    pub video_path: String,
    /// `audio` below the assets.
    pub audio_path: String,
    /// `images` below the assets.
    pub images_path: String,
    /// `timeline` below the root.
    pub timeline_path: String,
    /// `exports` below the root.
    pub exports_path: String,
}

/// A [`ProjectStructure`] as a mathematical value.
pub struct ProjectStructureView {
    pub project_path: Seq<char>,
    pub assets_path: Seq<char>,
    pub video_path: Seq<char>,
    pub audio_path: Seq<char>,
    pub images_path: Seq<char>,
    pub timeline_path: Seq<char>,
    pub exports_path: Seq<char>,
}

impl View for ProjectStructure {
    type V = ProjectStructureView;

    open spec fn view(&self) -> ProjectStructureView {
        ProjectStructureView {
            project_path: self.project_path@,
            assets_path: self.assets_path@,
            video_path: self.video_path@,
            audio_path: self.audio_path@,
            images_path: self.images_path@,
            timeline_path: self.timeline_path@,
            exports_path: self.exports_path@,
        }
    }
}

} // verus!
