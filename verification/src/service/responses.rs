//! The answers of the storage service. A failure of the backend is never a
//! fault of the call: it is answered with `success: false` and the
//! backend's words, so that the caller always gets a well-formed answer.
//! Only the description of the backend has no such form, and fails as an
//! internal fault.

use crate::fault::{Fault, FaultView};
use crate::service::transfer::internal_error;
use crate::storage::error::{outcome_view, StorageError, StorageErrorView};
use crate::storage::types::{
    DirectoryListing, DirectoryListingView, ProjectStructure, ProjectStructureView, StorageEntry,
    StorageEntryView, StorageInfo, StorageInfoView,
};
use crate::wire::storage::{
    BrowseDirectoryResponse, BrowseDirectoryResponseView, CreateDirectoryResponse,
    CreateDirectoryResponseView, DeleteResponse, DeleteResponseView, DirectoryEntry,
    DirectoryEntryView, GetFileInfoResponse, GetFileInfoResponseView, GetStorageInfoResponse,
    GetStorageInfoResponseView, InitProjectStructureResponse, InitProjectStructureResponseView,
};
use vstd::prelude::*;

verus! {

/// An entry as the service reports it: all but the further properties.
pub open spec fn wire_entry(e: StorageEntryView) -> DirectoryEntryView {
    DirectoryEntryView {
        name: e.name,
        path: e.path,
        is_directory: e.is_directory,
        size: e.size,
        created_at: e.created_at,
        modified_at: e.modified_at,
        mime_type: e.mime_type,
    }
}

/// Turns an entry into the form in which the service reports it.
pub fn entry_to_wire(entry: StorageEntry) -> (r: DirectoryEntry)
    ensures
        r@ == wire_entry(entry@),
{
    DirectoryEntry {
        name: entry.name,
        path: entry.path,
        is_directory: entry.is_directory,
        size: entry.size,
        created_at: entry.created_at,
        modified_at: entry.modified_at,
        mime_type: entry.mime_type,
    }
}

/// The backend's description of itself as the service reports it.
pub open spec fn wire_info(info: StorageInfoView) -> GetStorageInfoResponseView {
    GetStorageInfoResponseView {
        storage_id: info.id,
        hostname: info.hostname,
        os: info.os,
        home_directory: info.home_directory,
        default_projects_path: info.default_projects_path,
        root_paths: info.root_paths,
        total_space: info.total_space,
        free_space: info.free_space,
    }
}

/// Answers a request for the backend's description.
pub fn get_storage_info(result: Result<StorageInfo, StorageError>) -> (r: Result<
    GetStorageInfoResponse,
    Fault,
>)
    ensures
        match result {
            Ok(info) => (r matches Ok(resp) && resp@ == wire_info(info@)),
            Err(e) => (r matches Err(f) && f@ == internal_error(e@)),
        },
{
    match result {
        Err(e) => Err(Fault::internal(e.message())),
        Ok(info) => Ok(
            GetStorageInfoResponse {
                storage_id: info.id,
                hostname: info.hostname,
                os: info.os,
                home_directory: info.home_directory,
                default_projects_path: info.default_projects_path,
                root_paths: info.root_paths,
                total_space: info.total_space,
                free_space: info.free_space,
            },
        ),
    }
}

/// The answer to a request for what a directory holds.
pub open spec fn browse_answer(result: Result<DirectoryListingView, StorageErrorView>) -> BrowseDirectoryResponseView {
    match result {
        Ok(listing) => BrowseDirectoryResponseView {
            success: true,
            error_message: Seq::empty(),
            current_path: listing.current_path,
            parent_path: listing.parent_path,
            entries: Seq::new(listing.entries.len(), |i: int| wire_entry(listing.entries[i])),
        },
        Err(e) => BrowseDirectoryResponseView {
            success: false,
            error_message: e.message(),
            current_path: Seq::empty(),
            parent_path: Seq::empty(),
            entries: Seq::empty(),
        },
    }
}

/// Answers a request for what a directory holds.
pub fn browse_directory(result: Result<DirectoryListing, StorageError>) -> (r:
    BrowseDirectoryResponse)
    ensures
        r@ == browse_answer(outcome_view(result)),
{
    match result {
        Ok(listing) => {
            let ghost from = listing@.entries;
            let mut entries: Vec<DirectoryEntry> = Vec::new();
            for e in it: listing.entries.into_iter()
                invariant
                    it.seq().len() == from.len(),
                    forall|k: int| 0 <= k < from.len() ==> (#[trigger] it.seq()[k])@ == from[k],
                    entries@.len() == it.index(),
                    forall|k: int|
                        0 <= k < it.index() ==> (#[trigger] entries@[k])@ == wire_entry(from[k]),
            {
                entries.push(entry_to_wire(e));
            }
            let r = BrowseDirectoryResponse {
                success: true,
                error_message: String::new(),
                current_path: listing.current_path,
                parent_path: listing.parent_path,
                entries,
            };
            assert(r@.entries =~= browse_answer(outcome_view(result)).entries);
            r
        },
        Err(e) => {
            let r = BrowseDirectoryResponse {
                success: false,
                error_message: e.message(),
                current_path: String::new(),
                parent_path: String::new(),
                entries: Vec::new(),
            };
            assert(r@.entries =~= Seq::empty());
            r
        },
    }
}

/// The answer to a request for a new directory.
pub open spec fn create_directory_answer(result: Result<Seq<char>, StorageErrorView>) -> CreateDirectoryResponseView {
    match result {
        Ok(path) => CreateDirectoryResponseView {
            success: true,
            error_message: Seq::empty(),
            created_path: path,
        },
        Err(e) => CreateDirectoryResponseView {
            success: false,
            error_message: e.message(),
            created_path: Seq::empty(),
        },
    }
}

/// Answers a request for a new directory.
pub fn create_directory(result: Result<String, StorageError>) -> (r: CreateDirectoryResponse)
    ensures
        r@ == create_directory_answer(
            match result {
                Ok(p) => Ok(p@),
                Err(e) => Err(e@),
            },
        ),
{
    match result {
        Ok(created_path) => CreateDirectoryResponse {
            success: true,
            error_message: String::new(),
            created_path,
        },
        Err(e) => CreateDirectoryResponse {
            success: false,
            error_message: e.message(),
            created_path: String::new(),
        },
    }
}

/// What a request to remove a path turns into, once the backend has said
/// what stands at the path.
pub enum DeleteTarget {
    /// A directory stands there: it is removed as one.
    Directory,
    /// Something else stands there: it is removed as a file.
    File,
    /// The backend could not say: the removal ends with its error.
    Refused(StorageError),
}

/// A [`DeleteTarget`] as a mathematical value.
pub enum DeleteTargetView {
    Directory,
    File,
    Refused(StorageErrorView),
}

impl View for DeleteTarget {
    type V = DeleteTargetView;

    open spec fn view(&self) -> DeleteTargetView {
        match self {
            DeleteTarget::Directory => DeleteTargetView::Directory,
            DeleteTarget::File => DeleteTargetView::File,
            DeleteTarget::Refused(e) => DeleteTargetView::Refused(e@),
        }
    }
}

/// How a path is removed, given what the backend says of it.
pub open spec fn delete_target_of(entry: Result<StorageEntryView, StorageErrorView>) -> DeleteTargetView {
    match entry {
        Ok(e) => if e.is_directory {
            DeleteTargetView::Directory
        } else {
            DeleteTargetView::File
        },
        Err(e) => DeleteTargetView::Refused(e),
    }
}

/// Decides how a path is removed, given what the backend says of it.
pub fn delete_target(entry: Result<StorageEntry, StorageError>) -> (r: DeleteTarget)
    ensures
        r@ == delete_target_of(outcome_view(entry)),
{
    match entry {
        Ok(e) => {
            if e.is_directory {
                DeleteTarget::Directory
            } else {
                DeleteTarget::File
            }
        },
        Err(e) => DeleteTarget::Refused(e),
    }
}

/// The answer to a request to remove a path.
pub open spec fn delete_answer(result: Result<(), StorageErrorView>) -> DeleteResponseView {
    match result {
        Ok(_) => DeleteResponseView { success: true, error_message: Seq::empty() },
        Err(e) => DeleteResponseView { success: false, error_message: e.message() },
    }
}

/// Answers a request to remove a path, given what became of the removal.
pub fn delete(result: Result<(), StorageError>) -> (r: DeleteResponse)
    ensures
        r@ == delete_answer(crate::storage::provider::verdict_view(result)),
{
    match result {
        Ok(_) => DeleteResponse { success: true, error_message: String::new() },
        Err(e) => DeleteResponse { success: false, error_message: e.message() },
    }
}

/// The answer to a request for one entry.
pub open spec fn file_info_answer(result: Result<StorageEntryView, StorageErrorView>) -> GetFileInfoResponseView {
    match result {
        Ok(e) => GetFileInfoResponseView {
            success: true,
            error_message: Seq::empty(),
            file_info: Some(wire_entry(e)),
        },
        Err(e) => GetFileInfoResponseView {
            success: false,
            error_message: e.message(),
            file_info: None,
        },
    }
}

/// Answers a request for one entry.
pub fn get_file_info(result: Result<StorageEntry, StorageError>) -> (r: GetFileInfoResponse)
    ensures
        r@ == file_info_answer(outcome_view(result)),
{
    match result {
        Ok(entry) => GetFileInfoResponse {
            success: true,
            error_message: String::new(),
            file_info: Some(entry_to_wire(entry)),
        },
        Err(e) => GetFileInfoResponse {
            success: false,
            error_message: e.message(),
            file_info: None,
        },
    }
}

/// The answer to a request for the directories of a project.
pub open spec fn project_structure_answer(
    result: Result<ProjectStructureView, StorageErrorView>,
) -> InitProjectStructureResponseView {
    match result {
        Ok(s) => InitProjectStructureResponseView {
            success: true,
            error_message: Seq::empty(),
            project_path: s.project_path,
            assets_path: s.assets_path,
            video_path: s.video_path,
            audio_path: s.audio_path,
            images_path: s.images_path,
            timeline_path: s.timeline_path,
            exports_path: s.exports_path,
        },
        Err(e) => InitProjectStructureResponseView {
            success: false,
            error_message: e.message(),
            project_path: Seq::empty(),
            assets_path: Seq::empty(),
            video_path: Seq::empty(),
            audio_path: Seq::empty(),
            images_path: Seq::empty(),
            timeline_path: Seq::empty(),
            exports_path: Seq::empty(),
        },
    }
}

/// Answers a request for the directories of a project.
pub fn init_project_structure(result: Result<ProjectStructure, StorageError>) -> (r:
    InitProjectStructureResponse)
    ensures
        r@ == project_structure_answer(outcome_view(result)),
{
    match result {
        Ok(s) => InitProjectStructureResponse {
            success: true,
            error_message: String::new(),
            project_path: s.project_path,
            assets_path: s.assets_path,
            video_path: s.video_path,
            audio_path: s.audio_path,
            images_path: s.images_path,
            timeline_path: s.timeline_path,
            exports_path: s.exports_path,
        },
        Err(e) => InitProjectStructureResponse {
            success: false,
            error_message: e.message(),
            project_path: String::new(),
            assets_path: String::new(),
            video_path: String::new(),
            audio_path: String::new(),
            images_path: String::new(),
            timeline_path: String::new(),
            exports_path: String::new(),
        },
    }
}

} // verus!
