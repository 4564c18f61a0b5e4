//! The answers of the registry service. A failure of the registry is never
//! a fault of the call: it is answered with `success: false` and the
//! registry's words.

use crate::fault::{Fault, FaultCode, FaultView};
use crate::outside::{is_random_id_text, random_id};
use crate::registry::manager::{
    record_outcome, record_views, ProjectError, ProjectErrorView, ProjectMetadata,
    ProjectMetadataView,
};
use crate::text::{owned, texts};
use crate::wire::director::{
    GetEngineInfoResponse, GetEngineInfoResponseView, ListProjectsResponse,
    ListProjectsResponseView, OpenProjectResponse, OpenProjectResponseView, ProjectInfo,
    ProjectInfoView, RegisterProjectResponse, RegisterProjectResponseView,
    UnregisterProjectResponse, UnregisterProjectResponseView,
};
use vstd::prelude::*;

verus! {

/// A record as the service reports it: its times in whole seconds.
pub open spec fn info_of_record(record: ProjectMetadataView) -> ProjectInfoView {
    ProjectInfoView {
        id: record.id,
        name: record.name,
        path: record.path,
        file_gateway_id: record.file_gateway_id,
        created_at: record.created_at.secs,
        modified_at: record.modified_at.secs,
    }
}

/// Turns a record into the form in which the service reports it.
pub fn project_info(meta: &ProjectMetadata) -> (r: ProjectInfo)
    ensures
        r@ == info_of_record(meta@),
{
    ProjectInfo {
        id: meta.id.clone(),
        name: meta.name.clone(),
        path: meta.path.clone(),
        file_gateway_id: meta.file_gateway_id.clone(),
        created_at: meta.created_at.secs,
        modified_at: meta.modified_at.secs,
    }
}

/// The media containers that the engine handles.
pub open spec fn supported_formats() -> Seq<Seq<char>> {
    seq!["mp4"@, "mov"@, "avi"@, "mkv"@, "webm"@]
}

/// An identifier for one run of the service: drawn at random, in the form of every such identifier.
pub fn new_engine_id() -> (r: String)
    ensures
        is_random_id_text(r@),
{
    random_id()
}

/// What the service says of itself.
pub fn get_engine_info(engine_id: &str, version: &str) -> (r: GetEngineInfoResponse)
    ensures
        r@ == (GetEngineInfoResponseView {
            engine_id: engine_id@,
            version: version@,
            supported_formats: supported_formats(),
        }),
{
    let mut formats: Vec<String> = Vec::new();
    formats.push(owned("mp4"));
    formats.push(owned("mov"));
    formats.push(owned("avi"));
    formats.push(owned("mkv"));
    formats.push(owned("webm"));
    assert(texts(formats@) =~= supported_formats());
    GetEngineInfoResponse {
        engine_id: owned(engine_id),
        version: owned(version),
        supported_formats: formats,
    }
}

/// The fault with which a call ends when the registry cannot be had because
/// an earlier call broke off while it held the registry.
pub fn lock_fault() -> (r: Fault)
    ensures
        r@ == (FaultView { code: FaultCode::Internal, message: "Внутренняя ошибка сервера"@ }),
{
    Fault::internal(owned("Внутренняя ошибка сервера"))
}

/// Answers a request for all projects: each record as the service reports
/// it, in the registry's order.
pub fn list_projects(records: &Vec<ProjectMetadata>) -> (r: ListProjectsResponse)
    ensures
        r@.projects == Seq::new(
            records@.len(),
            |i: int| info_of_record(record_views(records@)[i]),
        ),
{
    let mut projects: Vec<ProjectInfo> = Vec::new();
    let n = records.len();
    let mut i: usize = 0;
    while i < n
        invariant
            i <= n,
            n == records@.len(),
            projects@.len() == i,
            forall|k: int| 0 <= k < i ==> (#[trigger] projects@[k])@ == info_of_record(records@[k]@),
        decreases n - i,
    {
        projects.push(project_info(&records[i]));
        i = i + 1;
    }
    let r = ListProjectsResponse { projects };
    assert(r@.projects =~= Seq::new(
        records@.len(),
        |i: int| info_of_record(record_views(records@)[i]),
    ));
    r
}

/// The answer to a registration.
pub open spec fn register_answer(result: Result<ProjectMetadataView, ProjectErrorView>) -> RegisterProjectResponseView {
    match result {
        Ok(record) => RegisterProjectResponseView {
            success: true,
            error_message: Seq::empty(),
            project: Some(info_of_record(record)),
        },
        Err(e) => RegisterProjectResponseView {
            success: false,
            error_message: e.message(),
            project: None,
        },
    }
}

/// Answers a registration, given what the registry made of it.
pub fn register_project(result: Result<ProjectMetadata, ProjectError>) -> (r:
    RegisterProjectResponse)
    ensures
        r@ == register_answer(record_outcome(result)),
{
    match result {
        Ok(metadata) => RegisterProjectResponse {
            success: true,
            error_message: String::new(),
            project: Some(project_info(&metadata)),
        },
        Err(e) => RegisterProjectResponse {
            success: false,
            error_message: e.message(),
            project: None,
        },
    }
}

/// The answer to a request to open a project.
pub open spec fn open_answer(result: Result<ProjectMetadataView, ProjectErrorView>) -> OpenProjectResponseView {
    match result {
        Ok(record) => OpenProjectResponseView {
            success: true,
            error_message: Seq::empty(),
            project: Some(info_of_record(record)),
        },
        Err(e) => OpenProjectResponseView {
            success: false,
            error_message: e.message(),
            project: None,
        },
    }
}

/// Answers a request to open a project, given what the registry made of it.
pub fn open_project(result: Result<ProjectMetadata, ProjectError>) -> (r: OpenProjectResponse)
    ensures
        r@ == open_answer(record_outcome(result)),
{
    match result {
        Ok(metadata) => OpenProjectResponse {
            success: true,
            error_message: String::new(),
            project: Some(project_info(&metadata)),
        },
        Err(e) => OpenProjectResponse {
            success: false,
            error_message: e.message(),
            project: None,
        },
    }
}

/// The answer to a request to remove a record.
pub open spec fn unregister_answer(result: Result<(), ProjectErrorView>) -> UnregisterProjectResponseView {
    match result {
        Ok(_) => UnregisterProjectResponseView { success: true, error_message: Seq::empty() },
        Err(e) => UnregisterProjectResponseView { success: false, error_message: e.message() },
    }
}

/// Answers a request to remove a record, given what the registry made of
/// it.
pub fn unregister_project(result: Result<(), ProjectError>) -> (r: UnregisterProjectResponse)
    ensures
        r@ == unregister_answer(
            match result {
                Ok(_) => Ok(()),
                Err(e) => Err(e@),
            },
        ),
{
    match result {
        Ok(_) => UnregisterProjectResponse { success: true, error_message: String::new() },
        Err(e) => UnregisterProjectResponse { success: false, error_message: e.message() },
    }
}

} // verus!
