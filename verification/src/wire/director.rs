//! The messages of the project registry service.

use crate::text::texts;
use vstd::prelude::*;

verus! {

/// A project as the registry reports it.
#[derive(Debug, Clone)]
pub struct ProjectInfo {
    /// The project's identifier.
    pub id: String,
    /// The project's name.
    pub name: String,
    /// The project's root directory.
    pub path: String,
    /// The storage backend that holds the project.
    pub file_gateway_id: String,
    /// When the project was registered, in seconds since the epoch.
    pub created_at: i64,
    /// When the project was last opened, in seconds since the epoch.
    pub modified_at: i64,
}

/// A [`ProjectInfo`] as a mathematical value.
pub struct ProjectInfoView {
    pub id: Seq<char>,
    pub name: Seq<char>,
    pub path: Seq<char>,
    pub file_gateway_id: Seq<char>,
    pub created_at: i64,
    pub modified_at: i64,
}

impl View for ProjectInfo {
    type V = ProjectInfoView;

    open spec fn view(&self) -> ProjectInfoView {
        ProjectInfoView {
            id: self.id@,
            name: self.name@,
            path: self.path@,
            file_gateway_id: self.file_gateway_id@,
            created_at: self.created_at,
            modified_at: self.modified_at,
        }
    }
}

/// What the registry service is.
#[derive(Debug, Clone)]
pub struct GetEngineInfoResponse {
    /// The identifier of this run of the service.
    pub engine_id: String,
    /// The service's version.
    pub version: String,
    /// The media containers it handles.
    pub supported_formats: Vec<String>,
}

/// A [`GetEngineInfoResponse`] as a mathematical value.
pub struct GetEngineInfoResponseView {
    pub engine_id: Seq<char>,
    pub version: Seq<char>,
    pub supported_formats: Seq<Seq<char>>,
}

impl View for GetEngineInfoResponse {
    type V = GetEngineInfoResponseView;

    open spec fn view(&self) -> GetEngineInfoResponseView {
        GetEngineInfoResponseView {
            engine_id: self.engine_id@,
            version: self.version@,
            supported_formats: texts(self.supported_formats@),
        }
    }
}

/// All registered projects.
#[derive(Debug, Clone)]
pub struct ListProjectsResponse {
    /// The projects, in no particular order.
    pub projects: Vec<ProjectInfo>,
}

/// A [`ListProjectsResponse`] as a mathematical value.
pub struct ListProjectsResponseView {
    pub projects: Seq<ProjectInfoView>,
}

impl View for ListProjectsResponse {
    type V = ListProjectsResponseView;

    open spec fn view(&self) -> ListProjectsResponseView {
        ListProjectsResponseView {
            projects: Seq::new(self.projects@.len(), |i: int| self.projects@[i]@),
        }
    }
}

/// Asks to register a project.
#[derive(Debug, Clone)]
pub struct RegisterProjectRequest {
    /// The project's name.
    pub name: String,
    /// The project's root directory.
    pub path: String,
    /// The storage backend that holds the project.
    pub file_gateway_id: String,
}

/// A [`RegisterProjectRequest`] as a mathematical value.
pub struct RegisterProjectRequestView {
    pub name: Seq<char>,
    pub path: Seq<char>,
    pub file_gateway_id: Seq<char>,
}

impl View for RegisterProjectRequest {
    type V = RegisterProjectRequestView;

    open spec fn view(&self) -> RegisterProjectRequestView {
        RegisterProjectRequestView {
            name: self.name@,
            path: self.path@,
            file_gateway_id: self.file_gateway_id@,
        }
    }
}

/// The outcome of a registration.
#[derive(Debug, Clone)]
pub struct RegisterProjectResponse {
    /// Whether the operation succeeded.
    pub success: bool,
    /// Why it failed; empty on success.
    pub error_message: String,
    /// The new record, on success.
    pub project: Option<ProjectInfo>,
}

/// A [`RegisterProjectResponse`] as a mathematical value.
pub struct RegisterProjectResponseView {
    pub success: bool,
    pub error_message: Seq<char>,
    pub project: Option<ProjectInfoView>,
}

impl View for RegisterProjectResponse {
    type V = RegisterProjectResponseView;

    open spec fn view(&self) -> RegisterProjectResponseView {
        RegisterProjectResponseView {
            success: self.success,
            error_message: self.error_message@,
            project: match self.project {
                Some(v) => Some(v@),
                None => None,
            },
        }
    }
}

/// Asks to open a project.
#[derive(Debug, Clone)]
pub struct OpenProjectRequest {
    /// The project's identifier.
    pub project_id: String,
}

/// A [`OpenProjectRequest`] as a mathematical value.
pub struct OpenProjectRequestView {
    pub project_id: Seq<char>,
}

impl View for OpenProjectRequest {
    type V = OpenProjectRequestView;

    open spec fn view(&self) -> OpenProjectRequestView {
        OpenProjectRequestView {
            project_id: self.project_id@,
        }
    }
}

/// The outcome of opening a project.
#[derive(Debug, Clone)]
pub struct OpenProjectResponse {
    /// Whether the operation succeeded.
    pub success: bool,
    /// Why it failed; empty on success.
    pub error_message: String,
    /// The record, on success.
    pub project: Option<ProjectInfo>,
}

/// A [`OpenProjectResponse`] as a mathematical value.
pub struct OpenProjectResponseView {
    pub success: bool,
    pub error_message: Seq<char>,
    pub project: Option<ProjectInfoView>,
}

impl View for OpenProjectResponse {
    type V = OpenProjectResponseView;

    open spec fn view(&self) -> OpenProjectResponseView {
        OpenProjectResponseView {
            success: self.success,
            error_message: self.error_message@,
            project: match self.project {
                Some(v) => Some(v@),
                None => None,
            },
        }
    }
}

/// Asks to remove a project's record.
#[derive(Debug, Clone)]
pub struct UnregisterProjectRequest {
    /// The project's identifier.
    pub project_id: String,
}

/// A [`UnregisterProjectRequest`] as a mathematical value.
pub struct UnregisterProjectRequestView {
    pub project_id: Seq<char>,
}

impl View for UnregisterProjectRequest {
    type V = UnregisterProjectRequestView;

    open spec fn view(&self) -> UnregisterProjectRequestView {
        UnregisterProjectRequestView {
            project_id: self.project_id@,
        }
    }
}

/// The outcome of removing a record.
#[derive(Debug, Clone)]
pub struct UnregisterProjectResponse {
    /// Whether the operation succeeded.
    pub success: bool,
    /// Why it failed; empty on success.
    pub error_message: String,
}

/// A [`UnregisterProjectResponse`] as a mathematical value.
pub struct UnregisterProjectResponseView {
    pub success: bool,
    pub error_message: Seq<char>,
}

impl View for UnregisterProjectResponse {
    type V = UnregisterProjectResponseView;

    open spec fn view(&self) -> UnregisterProjectResponseView {
        UnregisterProjectResponseView {
            success: self.success,
            error_message: self.error_message@,
        }
    }
}

} // verus!
