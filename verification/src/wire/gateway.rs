//! The messages of the gateway, the service that callers reach.

use crate::text::texts;
use vstd::prelude::*;

verus! {

/// How one backend answered a health check.
#[derive(Debug, Clone)]
pub struct ServiceStatus {
    /// The backend's name.
    pub name: String,
    /// Whether it answered.
    pub connected: bool,
    /// Where it is reached.
    pub address: String,
    /// Its version.
    pub version: String,
    /// How long the answer took, in milliseconds; -1 where none came.
    pub latency_ms: i64,
}

/// A [`ServiceStatus`] as a mathematical value.
pub struct ServiceStatusView {
    pub name: Seq<char>,
    pub connected: bool,
    pub address: Seq<char>,
    pub version: Seq<char>,
    pub latency_ms: i64,
}

impl View for ServiceStatus {
    type V = ServiceStatusView;

    open spec fn view(&self) -> ServiceStatusView {
        ServiceStatusView {
            name: self.name@,
            connected: self.connected,
            address: self.address@,
            version: self.version@,
            latency_ms: self.latency_ms,
        }
    }
}

/// How the backends answered a health check.
#[derive(Debug, Clone)]
pub struct HealthCheckResponse {
    /// Whether every backend answered.
    pub all_healthy: bool,
    /// One status for each backend.
    pub services: Vec<ServiceStatus>,
}

/// A [`HealthCheckResponse`] as a mathematical value.
pub struct HealthCheckResponseView {
    pub all_healthy: bool,
    pub services: Seq<ServiceStatusView>,
}

impl View for HealthCheckResponse {
    type V = HealthCheckResponseView;

    open spec fn view(&self) -> HealthCheckResponseView {
        HealthCheckResponseView {
            all_healthy: self.all_healthy,
            services: Seq::new(self.services@.len(), |i: int| self.services@[i]@),
        }
    }
}

/// What the gateway and its storage backend are.
#[derive(Debug, Clone)]
pub struct GetServicesInfoResponse {
    /// The gateway's version.
    pub gateway_version: String,
    /// The machine of the registry service.
    pub engine_hostname: String,
    /// The machine of the storage service.
    pub storage_hostname: String,
    /// The operating system of the storage service.
    pub storage_os: String,
    /// The user's home directory.
    pub home_directory: String,
    /// Where new projects are placed unless the caller says otherwise.
    pub default_projects_path: String,
    /// The roots from which browsing can start.
    pub root_paths: Vec<String>,
    /// The size of the medium, in bytes.
    pub total_space: u64,
    /// The free space on the medium, in bytes.
    pub free_space: u64,
}

/// A [`GetServicesInfoResponse`] as a mathematical value.
pub struct GetServicesInfoResponseView {
    pub gateway_version: Seq<char>,
    pub engine_hostname: Seq<char>,
    pub storage_hostname: Seq<char>,
    pub storage_os: Seq<char>,
    pub home_directory: Seq<char>,
    pub default_projects_path: Seq<char>,
    pub root_paths: Seq<Seq<char>>,
    pub total_space: u64,
    pub free_space: u64,
}

impl View for GetServicesInfoResponse {
    type V = GetServicesInfoResponseView;

    open spec fn view(&self) -> GetServicesInfoResponseView {
        GetServicesInfoResponseView {
            gateway_version: self.gateway_version@,
            engine_hostname: self.engine_hostname@,
            storage_hostname: self.storage_hostname@,
            storage_os: self.storage_os@,
            home_directory: self.home_directory@,
            default_projects_path: self.default_projects_path@,
            root_paths: texts(self.root_paths@),
            total_space: self.total_space,
            free_space: self.free_space,
        }
    }
}

/// A project as the gateway reports it.
#[derive(Debug, Clone)]
pub struct Project {
    /// The project's identifier.
    pub id: String,
    /// The project's name.
    pub name: String,
    /// The project's root directory.
    pub path: String,
    /// When the project was registered, in seconds since the epoch.
    pub created_at: i64,
    /// When the project was last opened, in seconds since the epoch.
    pub updated_at: i64,
}

/// A [`Project`] as a mathematical value.
pub struct ProjectView {
    pub id: Seq<char>,
    pub name: Seq<char>,
    pub path: Seq<char>,
    pub created_at: i64,
    pub updated_at: i64,
}

impl View for Project {
    type V = ProjectView;

    open spec fn view(&self) -> ProjectView {
        ProjectView {
            id: self.id@,
            name: self.name@,
            path: self.path@,
            created_at: self.created_at,
            updated_at: self.updated_at,
        }
    }
}

/// All registered projects.
#[derive(Debug, Clone)]
pub struct ListProjectsResponse {
    /// The projects, in no particular order.
    pub projects: Vec<Project>,
}

/// A [`ListProjectsResponse`] as a mathematical value.
pub struct ListProjectsResponseView {
    pub projects: Seq<ProjectView>,
}

impl View for ListProjectsResponse {
    type V = ListProjectsResponseView;

    open spec fn view(&self) -> ListProjectsResponseView {
        ListProjectsResponseView {
            projects: Seq::new(self.projects@.len(), |i: int| self.projects@[i]@),
        }
    }
}

/// Asks for a new project.
#[derive(Debug, Clone)]
pub struct CreateProjectRequest {
    /// The project's name.
    pub name: String,
    /// The directory that receives the project.
    pub path: String,
}

/// A [`CreateProjectRequest`] as a mathematical value.
pub struct CreateProjectRequestView {
    pub name: Seq<char>,
    pub path: Seq<char>,
}

impl View for CreateProjectRequest {
    type V = CreateProjectRequestView;

    open spec fn view(&self) -> CreateProjectRequestView {
        CreateProjectRequestView {
            name: self.name@,
            path: self.path@,
        }
    }
}

/// The outcome of creating a project.
#[derive(Debug, Clone)]
pub struct CreateProjectResponse {
    /// Whether the operation succeeded.
    pub success: bool,
    /// Why it failed; empty on success.
    pub error_message: String,
    /// The new record, on success.
    pub project: Option<Project>,
}

/// A [`CreateProjectResponse`] as a mathematical value.
pub struct CreateProjectResponseView {
    pub success: bool,
    pub error_message: Seq<char>,
    pub project: Option<ProjectView>,
}

impl View for CreateProjectResponse {
    type V = CreateProjectResponseView;

    open spec fn view(&self) -> CreateProjectResponseView {
        CreateProjectResponseView {
            success: self.success,
            error_message: self.error_message@,
            project: match self.project {
                Some(v) => Some(v@),
                None => None,
            },
        }
    }
}

/// Asks to open a project.
#[derive(Debug, Clone)]
pub struct OpenProjectRequest {
    /// The project's identifier.
    pub project_id: String,
}

/// A [`OpenProjectRequest`] as a mathematical value.
pub struct OpenProjectRequestView {
    pub project_id: Seq<char>,
}

impl View for OpenProjectRequest {
    type V = OpenProjectRequestView;

    open spec fn view(&self) -> OpenProjectRequestView {
        OpenProjectRequestView {
            project_id: self.project_id@,
        }
    }
}

/// The outcome of opening a project.
#[derive(Debug, Clone)]
pub struct OpenProjectResponse {
    /// Whether the operation succeeded.
    pub success: bool,
    /// Why it failed; empty on success.
    pub error_message: String,
    /// The record, on success.
    pub project: Option<Project>,
}

/// A [`OpenProjectResponse`] as a mathematical value.
pub struct OpenProjectResponseView {
    pub success: bool,
    pub error_message: Seq<char>,
    pub project: Option<ProjectView>,
}

impl View for OpenProjectResponse {
    type V = OpenProjectResponseView;

    open spec fn view(&self) -> OpenProjectResponseView {
        OpenProjectResponseView {
            success: self.success,
            error_message: self.error_message@,
            project: match self.project {
                Some(v) => Some(v@),
                None => None,
            },
        }
    }
}

/// Asks to delete a project.
#[derive(Debug, Clone)]
pub struct DeleteProjectRequest {
    /// The project's identifier.
    pub project_id: String,
    /// Whether the project's directory is removed too.
    pub delete_files: bool,
}

/// A [`DeleteProjectRequest`] as a mathematical value.
pub struct DeleteProjectRequestView {
    pub project_id: Seq<char>,
    pub delete_files: bool,
}

impl View for DeleteProjectRequest {
    type V = DeleteProjectRequestView;

    open spec fn view(&self) -> DeleteProjectRequestView {
        DeleteProjectRequestView {
            project_id: self.project_id@,
            delete_files: self.delete_files,
        }
    }
}

/// The outcome of deleting a project.
#[derive(Debug, Clone)]
pub struct DeleteProjectResponse {
    /// Whether the operation succeeded.
    pub success: bool,
    /// Why it failed; empty on success.
    pub error_message: String,
}

/// A [`DeleteProjectResponse`] as a mathematical value.
pub struct DeleteProjectResponseView {
    pub success: bool,
    pub error_message: Seq<char>,
}

impl View for DeleteProjectResponse {
    type V = DeleteProjectResponseView;

    open spec fn view(&self) -> DeleteProjectResponseView {
        DeleteProjectResponseView {
            success: self.success,
            error_message: self.error_message@,
        }
    }
}

/// What the storage backend is and where it lives.
#[derive(Debug, Clone)]
pub struct GetStorageInfoResponse {
    /// The backend's identifier.
    pub storage_id: String,
    /// The name of the machine.
    pub hostname: String,
    /// The operating system.
    pub os: String,
    /// The user's home directory.
    pub home_directory: String,
    /// Where new projects are placed unless the caller says otherwise.
    pub default_projects_path: String,
    /// The roots from which browsing can start.
    pub root_paths: Vec<String>,
    /// The size of the medium, in bytes.
    pub total_space: u64,
    /// The free space on the medium, in bytes.
    pub free_space: u64,
}

/// A [`GetStorageInfoResponse`] as a mathematical value.
pub struct GetStorageInfoResponseView {
    pub storage_id: Seq<char>,
    pub hostname: Seq<char>,
    pub os: Seq<char>,
    pub home_directory: Seq<char>,
    pub default_projects_path: Seq<char>,
    pub root_paths: Seq<Seq<char>>,
    pub total_space: u64,
    pub free_space: u64,
}

impl View for GetStorageInfoResponse {
    type V = GetStorageInfoResponseView;

    open spec fn view(&self) -> GetStorageInfoResponseView {
        GetStorageInfoResponseView {
            storage_id: self.storage_id@,
            hostname: self.hostname@,
            os: self.os@,
            home_directory: self.home_directory@,
            default_projects_path: self.default_projects_path@,
            root_paths: texts(self.root_paths@),
            total_space: self.total_space,
            free_space: self.free_space,
        }
    }
}

/// One file or directory of a listing.
#[derive(Debug, Clone)]
pub struct DirectoryEntry {
    /// The last component of the path.
    pub name: String,
    /// The full path.
    pub path: String,
    /// Whether the entry is a directory.
    pub is_directory: bool,
    /// The size in bytes; 0 for a directory.
    pub size: u64,
    /// When the entry was created, in seconds since the epoch.
    pub created_at: i64,
    /// When the entry was last changed, in seconds since the epoch.
    pub modified_at: i64,
    /// The media type.
    pub mime_type: String,
}

/// A [`DirectoryEntry`] as a mathematical value.
pub struct DirectoryEntryView {
    pub name: Seq<char>,
    pub path: Seq<char>,
    pub is_directory: bool,
    pub size: u64,
    pub created_at: i64,
    pub modified_at: i64,
    pub mime_type: Seq<char>,
}

impl View for DirectoryEntry {
    type V = DirectoryEntryView;

    open spec fn view(&self) -> DirectoryEntryView {
        DirectoryEntryView {
            name: self.name@,
            path: self.path@,
            is_directory: self.is_directory,
            size: self.size,
            created_at: self.created_at,
            modified_at: self.modified_at,
            mime_type: self.mime_type@,
        }
    }
}

/// Asks what a directory holds.
#[derive(Debug, Clone)]
pub struct BrowseDirectoryRequest {
    /// The directory; empty for the home directory.
    pub path: String,
}

/// A [`BrowseDirectoryRequest`] as a mathematical value.
pub struct BrowseDirectoryRequestView {
    pub path: Seq<char>,
}

impl View for BrowseDirectoryRequest {
    type V = BrowseDirectoryRequestView;

    open spec fn view(&self) -> BrowseDirectoryRequestView {
        BrowseDirectoryRequestView {
            path: self.path@,
        }
    }
}

/// What a directory holds.
#[derive(Debug, Clone)]
pub struct BrowseDirectoryResponse {
    /// Whether the operation succeeded.
    pub success: bool,
    /// Why it failed; empty on success.
    pub error_message: String,
    /// The directory that was listed.
    pub current_path: String,
    /// The directory above it; empty at a root.
    pub parent_path: String,
    /// The entries, directories first.
    pub entries: Vec<DirectoryEntry>,
}

/// A [`BrowseDirectoryResponse`] as a mathematical value.
pub struct BrowseDirectoryResponseView {
    pub success: bool,
    pub error_message: Seq<char>,
    pub current_path: Seq<char>,
    pub parent_path: Seq<char>,
    pub entries: Seq<DirectoryEntryView>,
}

impl View for BrowseDirectoryResponse {
    type V = BrowseDirectoryResponseView;

    open spec fn view(&self) -> BrowseDirectoryResponseView {
        BrowseDirectoryResponseView {
            success: self.success,
            error_message: self.error_message@,
            current_path: self.current_path@,
            parent_path: self.parent_path@,
            entries: Seq::new(self.entries@.len(), |i: int| self.entries@[i]@),
        }
    }
}

/// Asks for a new directory.
#[derive(Debug, Clone)]
pub struct CreateDirectoryRequest {
    /// The directory to create.
    pub path: String,
    /// Whether missing directories above it are created too.
    pub create_parents: bool,
}

/// A [`CreateDirectoryRequest`] as a mathematical value.
pub struct CreateDirectoryRequestView {
    pub path: Seq<char>,
    pub create_parents: bool,
}

impl View for CreateDirectoryRequest {
    type V = CreateDirectoryRequestView;

    open spec fn view(&self) -> CreateDirectoryRequestView {
        CreateDirectoryRequestView {
            path: self.path@,
            create_parents: self.create_parents,
        }
    }
}

/// The outcome of creating a directory.
#[derive(Debug, Clone)]
pub struct CreateDirectoryResponse {
    /// Whether the operation succeeded.
    pub success: bool,
    /// Why it failed; empty on success.
    pub error_message: String,
    /// The directory that was created.
    pub created_path: String,
}

/// A [`CreateDirectoryResponse`] as a mathematical value.
pub struct CreateDirectoryResponseView {
    pub success: bool,
    pub error_message: Seq<char>,
    pub created_path: Seq<char>,
}

impl View for CreateDirectoryResponse {
    type V = CreateDirectoryResponseView;

    open spec fn view(&self) -> CreateDirectoryResponseView {
        CreateDirectoryResponseView {
            success: self.success,
            error_message: self.error_message@,
            created_path: self.created_path@,
        }
    }
}

/// Asks to remove a file or a directory.
#[derive(Debug, Clone)]
pub struct DeleteRequest {
    /// What to remove.
    pub path: String,
    /// Whether a directory is removed with all that it holds.
    pub recursive: bool,
}

/// A [`DeleteRequest`] as a mathematical value.
pub struct DeleteRequestView {
    pub path: Seq<char>,
    pub recursive: bool,
}

impl View for DeleteRequest {
    type V = DeleteRequestView;

    open spec fn view(&self) -> DeleteRequestView {
        DeleteRequestView {
            path: self.path@,
            recursive: self.recursive,
        }
    }
}

/// The outcome of a removal.
#[derive(Debug, Clone)]
pub struct DeleteResponse {
    /// Whether the operation succeeded.
    pub success: bool,
    /// Why it failed; empty on success.
    pub error_message: String,
}

/// A [`DeleteResponse`] as a mathematical value.
pub struct DeleteResponseView {
    pub success: bool,
    pub error_message: Seq<char>,
}

impl View for DeleteResponse {
    type V = DeleteResponseView;

    open spec fn view(&self) -> DeleteResponseView {
        DeleteResponseView {
            success: self.success,
            error_message: self.error_message@,
        }
    }
}

/// The frame that opens an upload.
#[derive(Debug, Clone)]
pub struct UploadFileMetadata {
    /// The directory that receives the file.
    pub destination_path: String,
    /// The file's name in that directory.
    pub filename: String,
    /// The size the sender announces; not checked against what arrives.
    pub total_size: u64,
    /// Whether a file already there is replaced.
    pub overwrite: bool,
}

/// A [`UploadFileMetadata`] as a mathematical value.
pub struct UploadFileMetadataView {
    pub destination_path: Seq<char>,
    pub filename: Seq<char>,
    pub total_size: u64,
    pub overwrite: bool,
}

impl View for UploadFileMetadata {
    type V = UploadFileMetadataView;

    open spec fn view(&self) -> UploadFileMetadataView {
        UploadFileMetadataView {
            destination_path: self.destination_path@,
            filename: self.filename@,
            total_size: self.total_size,
            overwrite: self.overwrite,
        }
    }
}

/// What one frame of an upload carries.
#[derive(Debug, Clone)]
pub enum UploadData {
    /// The opening frame.
    Metadata(UploadFileMetadata),
    /// A fragment of the content.
    Chunk(Vec<u8>),
}

/// A [`UploadData`] as a mathematical value.
pub enum UploadDataView {
    Metadata(UploadFileMetadataView),
    Chunk(Seq<u8>),
}

impl View for UploadData {
    type V = UploadDataView;

    open spec fn view(&self) -> UploadDataView {
        match self {
            UploadData::Metadata(x) => UploadDataView::Metadata(x@),
            UploadData::Chunk(x) => UploadDataView::Chunk(x@),
        }
    }
}

/// One frame of an upload.
#[derive(Debug, Clone)]
pub struct UploadFileRequest {
    /// The frame's payload, if it has one.
    pub data: Option<UploadData>,
}

/// A [`UploadFileRequest`] as a mathematical value.
pub struct UploadFileRequestView {
    pub data: Option<UploadDataView>,
}

impl View for UploadFileRequest {
    type V = UploadFileRequestView;

    open spec fn view(&self) -> UploadFileRequestView {
        UploadFileRequestView {
            data: match self.data {
                Some(v) => Some(v@),
                None => None,
            },
        }
    }
}

/// The outcome of an upload.
#[derive(Debug, Clone)]
pub struct UploadFileResponse {
    /// Whether the operation succeeded.
    pub success: bool,
    /// Why it failed; empty on success.
    pub error_message: String,
    /// Where the file was written.
    pub file_path: String,
    /// How many bytes were written.
    pub bytes_written: u64,
}

/// A [`UploadFileResponse`] as a mathematical value.
pub struct UploadFileResponseView {
    pub success: bool,
    pub error_message: Seq<char>,
    pub file_path: Seq<char>,
    pub bytes_written: u64,
}

impl View for UploadFileResponse {
    type V = UploadFileResponseView;

    open spec fn view(&self) -> UploadFileResponseView {
        UploadFileResponseView {
            success: self.success,
            error_message: self.error_message@,
            file_path: self.file_path@,
            bytes_written: self.bytes_written,
        }
    }
}

/// Asks for a file's content.
#[derive(Debug, Clone)]
pub struct DownloadFileRequest {
    /// The file.
    pub path: String,
}

/// A [`DownloadFileRequest`] as a mathematical value.
pub struct DownloadFileRequestView {
    pub path: Seq<char>,
}

impl View for DownloadFileRequest {
    type V = DownloadFileRequestView;

    open spec fn view(&self) -> DownloadFileRequestView {
        DownloadFileRequestView {
            path: self.path@,
        }
    }
}

/// The frame that opens a download.
#[derive(Debug, Clone)]
pub struct DownloadFileMetadata {
    /// The file's name.
    pub filename: String,
    /// The file's size in bytes.
    pub total_size: u64,
    /// The media type.
    pub mime_type: String,
}

/// A [`DownloadFileMetadata`] as a mathematical value.
pub struct DownloadFileMetadataView {
    pub filename: Seq<char>,
    pub total_size: u64,
    pub mime_type: Seq<char>,
}

impl View for DownloadFileMetadata {
    type V = DownloadFileMetadataView;

    open spec fn view(&self) -> DownloadFileMetadataView {
        DownloadFileMetadataView {
            filename: self.filename@,
            total_size: self.total_size,
            mime_type: self.mime_type@,
        }
    }
}

/// What one frame of a download carries.
#[derive(Debug, Clone)]
pub enum DownloadData {
    /// The opening frame.
    Metadata(DownloadFileMetadata),
    /// A fragment of the content.
    Chunk(Vec<u8>),
}

/// A [`DownloadData`] as a mathematical value.
pub enum DownloadDataView {
    Metadata(DownloadFileMetadataView),
    Chunk(Seq<u8>),
}

impl View for DownloadData {
    type V = DownloadDataView;

    open spec fn view(&self) -> DownloadDataView {
        match self {
            DownloadData::Metadata(x) => DownloadDataView::Metadata(x@),
            DownloadData::Chunk(x) => DownloadDataView::Chunk(x@),
        }
    }
}

/// One frame of a download.
#[derive(Debug, Clone)]
pub struct DownloadFileResponse {
    /// The frame's payload, if it has one.
    pub data: Option<DownloadData>,
}

/// A [`DownloadFileResponse`] as a mathematical value.
pub struct DownloadFileResponseView {
    pub data: Option<DownloadDataView>,
}

impl View for DownloadFileResponse {
    type V = DownloadFileResponseView;

    open spec fn view(&self) -> DownloadFileResponseView {
        DownloadFileResponseView {
            data: match self.data {
                Some(v) => Some(v@),
                None => None,
            },
        }
    }
}

/// Asks for the directories of a new project.
#[derive(Debug, Clone)]
pub struct InitProjectStructureRequest {
    /// The directory that receives the project.
    pub base_path: String,
    /// The project's name.
    pub project_name: String,
}

/// A [`InitProjectStructureRequest`] as a mathematical value.
pub struct InitProjectStructureRequestView {
    pub base_path: Seq<char>,
    pub project_name: Seq<char>,
}

impl View for InitProjectStructureRequest {
    type V = InitProjectStructureRequestView;

    open spec fn view(&self) -> InitProjectStructureRequestView {
        InitProjectStructureRequestView {
            base_path: self.base_path@,
            project_name: self.project_name@,
        }
    }
}

/// The directories of a new project.
#[derive(Debug, Clone)]
pub struct InitProjectStructureResponse {
    /// Whether the operation succeeded.
    pub success: bool,
    /// Why it failed; empty on success.
    pub error_message: String,
    /// The project's root.
    pub project_path: String,
    /// `assets` below the root.
    pub assets_path: String,
    /// `video` below the assets.
    pub video_path: String,
    /// `audio` below the assets.
    pub audio_path: String,
    /// `images` below the assets.
    pub images_path: String,
    /// `timeline` below the root.
    pub timeline_path: String,
    /// `exports` below the root.
    pub exports_path: String,
}

/// A [`InitProjectStructureResponse`] as a mathematical value.
pub struct InitProjectStructureResponseView {
    pub success: bool,
    pub error_message: Seq<char>,
    pub project_path: Seq<char>,
    pub assets_path: Seq<char>,
    pub video_path: Seq<char>,
    pub audio_path: Seq<char>,
    pub images_path: Seq<char>,
    pub timeline_path: Seq<char>,
    pub exports_path: Seq<char>,
}

impl View for InitProjectStructureResponse {
    type V = InitProjectStructureResponseView;

    open spec fn view(&self) -> InitProjectStructureResponseView {
        InitProjectStructureResponseView {
            success: self.success,
            error_message: self.error_message@,
            project_path: self.project_path@,
            assets_path: self.assets_path@,
            video_path: self.video_path@,
            audio_path: self.audio_path@,
            images_path: self.images_path@,
            timeline_path: self.timeline_path@,
            exports_path: self.exports_path@,
        }
    }
}

} // verus!
