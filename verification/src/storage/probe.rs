//! What the medium was seen to hold, as plain values. The caller looks; the
//! backend decides on what was seen.

use vstd::prelude::*;

verus! {

/// What a look at a path showed.
#[derive(Debug, Clone, Copy, PartialEq, Eq, Structural)]
pub struct PathProbe {
    /// Whether anything is there.
    pub exists: bool,
    /// Whether a directory is there.
    pub is_dir: bool,
}

/// What the medium records of one file or directory.
#[derive(Debug, Clone, Copy, PartialEq, Eq, Structural)]
pub struct EntryMetadata {
    /// Whether it is a regular file.
    pub is_file: bool,
    /// Whether it is a directory.
    pub is_dir: bool,
    /// Its length in bytes.
    pub len: u64,
    /// When it was created, in seconds since the epoch, where the medium
    /// says so and the time is not before the epoch.
    pub created_secs: Option<u64>,
    /// When it was last changed, in the same form.
    pub modified_secs: Option<u64>,
}

/// One item of a directory, as it was read.
#[derive(Debug, Clone)]
pub struct RawEntry {
    /// The item's name.
    pub name: String,
    /// The item's full path.
    pub path: String,
    /// What the medium records of it, where that could be read.
    pub metadata: Option<EntryMetadata>,
}

/// A [`RawEntry`] as a mathematical value.
pub struct RawEntryView {
    pub name: Seq<char>,
    pub path: Seq<char>,
    pub metadata: Option<EntryMetadata>,
}

impl View for RawEntry {
    type V = RawEntryView;

    open spec fn view(&self) -> RawEntryView {
        RawEntryView { name: self.name@, path: self.path@, metadata: self.metadata }
    }
}

/// The views of a list of raw entries, in order.
pub open spec fn raw_views(v: Seq<RawEntry>) -> Seq<RawEntryView> {
    Seq::new(v.len(), |i: int| v[i]@)
}

/// The figures of a file system, as `statvfs` reports them.
#[derive(Debug, Clone, Copy, PartialEq, Eq, Structural)]
pub struct DiskStat {
    /// The size of the file system, in fragments.
    pub blocks: u64,
    /// The fragments free to an unprivileged user.
    pub blocks_available: u64,
    /// The size of a fragment, in bytes.
    pub fragment_size: u64,
}

} // verus!
