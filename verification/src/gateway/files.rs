//! The gateway's file operations. Each is handed on to the storage service:
//! the request goes out in the storage service's shape, and the answer comes
//! back in the gateway's, field for field. Where the storage service could
//! not be reached the call ends with an internal fault.

use crate::fault::{ending_view, internal_fault, reply_view, Fault, FaultView};
use crate::gateway::projects::storage_prefix;
use crate::wire::gateway as outer;
use crate::wire::storage as inner;
use vstd::prelude::*;

verus! {

/// The storage service's description of itself, in the gateway's shape.
pub open spec fn storage_info_of(resp: inner::GetStorageInfoResponseView) -> outer::GetStorageInfoResponseView {
    outer::GetStorageInfoResponseView {
        storage_id: resp.storage_id,
        hostname: resp.hostname,
        os: resp.os,
        home_directory: resp.home_directory,
        default_projects_path: resp.default_projects_path,
        root_paths: resp.root_paths,
        total_space: resp.total_space,
        free_space: resp.free_space,
    }
}

/// Answers a request for the storage backend's description.
pub fn get_storage_info(outcome: Result<inner::GetStorageInfoResponse, String>) -> (r: Result<outer::GetStorageInfoResponse, Fault>)
    ensures
        ending_view(r) == (match reply_view(outcome) {
            Ok(resp) => Ok(storage_info_of(resp)),
            Err(text) => Err(internal_fault(storage_prefix(), text)),
        }),
{
    match outcome {
        Err(text) => Err(Fault::from_backend("FileGateway error: ", text.as_str())),
        Ok(resp) => Ok(
            outer::GetStorageInfoResponse {
                storage_id: resp.storage_id,
                hostname: resp.hostname,
                os: resp.os,
                home_directory: resp.home_directory,
                default_projects_path: resp.default_projects_path,
                root_paths: resp.root_paths,
                total_space: resp.total_space,
                free_space: resp.free_space,
            },
        ),
    }
}

/// The request that asks the storage service what a directory holds.
pub fn browse_request(req: outer::BrowseDirectoryRequest) -> (r: inner::BrowseDirectoryRequest)
    ensures
        r@ == (inner::BrowseDirectoryRequestView {
            path: req@.path,
        }),
{
    inner::BrowseDirectoryRequest {
        path: req.path,
    }
}

/// The request that asks the storage service for a new directory.
pub fn create_directory_request(req: outer::CreateDirectoryRequest) -> (r: inner::CreateDirectoryRequest)
    ensures
        r@ == (inner::CreateDirectoryRequestView {
            path: req@.path,
            create_parents: req@.create_parents,
        }),
{
    inner::CreateDirectoryRequest {
        path: req.path,
        create_parents: req.create_parents,
    }
}

/// The outcome of creating a directory, in the gateway's shape.
pub open spec fn directory_created_of(resp: inner::CreateDirectoryResponseView) -> outer::CreateDirectoryResponseView {
    outer::CreateDirectoryResponseView {
        success: resp.success,
        error_message: resp.error_message,
        created_path: resp.created_path,
    }
}

/// Answers a request for a new directory.
pub fn create_directory(outcome: Result<inner::CreateDirectoryResponse, String>) -> (r: Result<outer::CreateDirectoryResponse, Fault>)
    ensures
        ending_view(r) == (match reply_view(outcome) {
            Ok(resp) => Ok(directory_created_of(resp)),
            Err(text) => Err(internal_fault(storage_prefix(), text)),
        }),
{
    match outcome {
        Err(text) => Err(Fault::from_backend("FileGateway error: ", text.as_str())),
        Ok(resp) => Ok(
            outer::CreateDirectoryResponse {
                success: resp.success,
                error_message: resp.error_message,
                created_path: resp.created_path,
            },
        ),
    }
}

/// The request that asks the storage service to remove a file or a directory.
pub fn delete_request(req: outer::DeleteRequest) -> (r: inner::DeleteRequest)
    ensures
        r@ == (inner::DeleteRequestView {
            path: req@.path,
            recursive: req@.recursive,
        }),
{
    inner::DeleteRequest {
        path: req.path,
        recursive: req.recursive,
    }
}

/// The outcome of a removal, in the gateway's shape.
pub open spec fn deleted_of(resp: inner::DeleteResponseView) -> outer::DeleteResponseView {
    outer::DeleteResponseView {
        success: resp.success,
        error_message: resp.error_message,
    }
}

/// Answers a request to remove a file or a directory.
pub fn delete(outcome: Result<inner::DeleteResponse, String>) -> (r: Result<outer::DeleteResponse, Fault>)
    ensures
        ending_view(r) == (match reply_view(outcome) {
            Ok(resp) => Ok(deleted_of(resp)),
            Err(text) => Err(internal_fault(storage_prefix(), text)),
        }),
{
    match outcome {
        Err(text) => Err(Fault::from_backend("FileGateway error: ", text.as_str())),
        Ok(resp) => Ok(
            outer::DeleteResponse {
                success: resp.success,
                error_message: resp.error_message,
            },
        ),
    }
}

/// The request that asks the storage service for the directories of a project.
pub fn init_project_structure_request(req: outer::InitProjectStructureRequest) -> (r: inner::InitProjectStructureRequest)
    ensures
        r@ == (inner::InitProjectStructureRequestView {
            base_path: req@.base_path,
            project_name: req@.project_name,
        }),
{
    inner::InitProjectStructureRequest {
        base_path: req.base_path,
        project_name: req.project_name,
    }
}

/// The directories of a project, in the gateway's shape.
pub open spec fn project_structure_of(resp: inner::InitProjectStructureResponseView) -> outer::InitProjectStructureResponseView {
    outer::InitProjectStructureResponseView {
        success: resp.success,
        error_message: resp.error_message,
        project_path: resp.project_path,
        assets_path: resp.assets_path,
        video_path: resp.video_path,
        audio_path: resp.audio_path,
        images_path: resp.images_path,
        timeline_path: resp.timeline_path,
        exports_path: resp.exports_path,
    }
}

/// Answers a request for the directories of a project.
pub fn init_project_structure(outcome: Result<inner::InitProjectStructureResponse, String>) -> (r: Result<outer::InitProjectStructureResponse, Fault>)
    ensures
        ending_view(r) == (match reply_view(outcome) {
            Ok(resp) => Ok(project_structure_of(resp)),
            Err(text) => Err(internal_fault(storage_prefix(), text)),
        }),
{
    match outcome {
        Err(text) => Err(Fault::from_backend("FileGateway error: ", text.as_str())),
        Ok(resp) => Ok(
            outer::InitProjectStructureResponse {
                success: resp.success,
                error_message: resp.error_message,
                project_path: resp.project_path,
                assets_path: resp.assets_path,
                video_path: resp.video_path,
                audio_path: resp.audio_path,
                images_path: resp.images_path,
                timeline_path: resp.timeline_path,
                exports_path: resp.exports_path,
            },
        ),
    }
}

/// The request that asks the storage service for a file's content.
pub fn download_request(req: outer::DownloadFileRequest) -> (r: inner::DownloadFileRequest)
    ensures
        r@ == (inner::DownloadFileRequestView {
            path: req@.path,
        }),
{
    inner::DownloadFileRequest {
        path: req.path,
    }
}

/// An entry of a listing, in the gateway's shape.
pub open spec fn entry_of(e: inner::DirectoryEntryView) -> outer::DirectoryEntryView {
    outer::DirectoryEntryView {
        name: e.name,
        path: e.path,
        is_directory: e.is_directory,
        size: e.size,
        created_at: e.created_at,
        modified_at: e.modified_at,
        mime_type: e.mime_type,
    }
}

/// Turns an entry of a listing into the gateway's shape.
pub fn entry_from_storage(e: inner::DirectoryEntry) -> (r: outer::DirectoryEntry)
    ensures
        r@ == entry_of(e@),
{
    outer::DirectoryEntry {
        name: e.name,
        path: e.path,
        is_directory: e.is_directory,
        size: e.size,
        created_at: e.created_at,
        modified_at: e.modified_at,
        mime_type: e.mime_type,
    }
}

/// A listing in the gateway's shape: the same verdict, message and paths, and
/// each entry in the gateway's shape, in the storage service's order.
pub open spec fn listing_of(resp: inner::BrowseDirectoryResponseView) -> outer::BrowseDirectoryResponseView {
    outer::BrowseDirectoryResponseView {
        success: resp.success,
        error_message: resp.error_message,
        current_path: resp.current_path,
        parent_path: resp.parent_path,
        entries: Seq::new(resp.entries.len(), |i: int| entry_of(resp.entries[i])),
    }
}

/// Answers a request for what a directory holds.
pub fn browse_directory(outcome: Result<inner::BrowseDirectoryResponse, String>) -> (r: Result<
    outer::BrowseDirectoryResponse,
    Fault,
>)
    ensures
        ending_view(r) == (match reply_view(outcome) {
            Ok(resp) => Ok(listing_of(resp)),
            Err(text) => Err(internal_fault(storage_prefix(), text)),
        }),
{
    match outcome {
        Err(text) => Err(Fault::from_backend("FileGateway error: ", text.as_str())),
        Ok(resp) => {
            let ghost from = resp@.entries;
            let mut entries: Vec<outer::DirectoryEntry> = Vec::new();
            for e in it: resp.entries.into_iter()
                invariant
                    it.seq().len() == from.len(),
                    forall|k: int| 0 <= k < from.len() ==> (#[trigger] it.seq()[k])@ == from[k],
                    entries@.len() == it.index(),
                    forall|k: int|
                        0 <= k < it.index() ==> (#[trigger] entries@[k])@ == entry_of(from[k]),
            {
                entries.push(entry_from_storage(e));
            }
            let r = outer::BrowseDirectoryResponse {
                success: resp.success,
                error_message: resp.error_message,
                current_path: resp.current_path,
                parent_path: resp.parent_path,
                entries,
            };
            assert(r@.entries =~= listing_of(resp@).entries);
            Ok(r)
        },
    }
}

/// What the gateway says of itself and of its storage backend: its own
/// version, the registry's machine as `localhost`, and the storage service's
/// description of itself.
pub open spec fn services_info_of(
    version: Seq<char>,
    info: inner::GetStorageInfoResponseView,
) -> outer::GetServicesInfoResponseView {
    outer::GetServicesInfoResponseView {
        gateway_version: version,
        engine_hostname: "localhost"@,
        storage_hostname: info.hostname,
        storage_os: info.os,
        home_directory: info.home_directory,
        default_projects_path: info.default_projects_path,
        root_paths: info.root_paths,
        total_space: info.total_space,
        free_space: info.free_space,
    }
}

/// Answers a request for the description of the services, for a gateway of
/// version `version`.
pub fn get_services_info(version: &str, outcome: Result<inner::GetStorageInfoResponse, String>) -> (r:
    Result<outer::GetServicesInfoResponse, Fault>)
    ensures
        ending_view(r) == (match reply_view(outcome) {
            Ok(info) => Ok(services_info_of(version@, info)),
            Err(text) => Err(internal_fault(storage_prefix(), text)),
        }),
{
    match outcome {
        Err(text) => Err(Fault::from_backend("FileGateway error: ", text.as_str())),
        Ok(info) => Ok(
            outer::GetServicesInfoResponse {
                gateway_version: crate::text::owned(version),
                engine_hostname: crate::text::owned("localhost"),
                storage_hostname: info.hostname,
                storage_os: info.os,
                home_directory: info.home_directory,
                default_projects_path: info.default_projects_path,
                root_paths: info.root_paths,
                total_space: info.total_space,
                free_space: info.free_space,
            },
        ),
    }
}

} // verus!
