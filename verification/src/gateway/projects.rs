//! The gateway's project operations: the two workflows that span the
//! registry and the storage service, and the calls that it hands on to the
//! registry.
//!
//! A workflow is a value that takes what a backend answered and says what to
//! do next. The caller performs each request and hands the answer back, so
//! that the two backends are used one after the other and never together.
//! Neither workflow undoes a step that succeeded when a later one fails.

use crate::fault::{ending_view, internal_fault, reply_view, Fault, FaultView};
use crate::wire::director::{
    ListProjectsResponseView as RegistryListView, OpenProjectRequest as RegistryOpenRequest,
    OpenProjectRequestView as RegistryOpenRequestView,
    OpenProjectResponse as RegistryOpenResponse,
    OpenProjectResponseView as RegistryOpenResponseView, ProjectInfo, ProjectInfoView,
    RegisterProjectRequest, RegisterProjectRequestView, RegisterProjectResponse,
    RegisterProjectResponseView, UnregisterProjectRequest, UnregisterProjectRequestView,
    UnregisterProjectResponse, UnregisterProjectResponseView,
};
use crate::wire::gateway::{
    CreateProjectRequest, CreateProjectResponse, CreateProjectResponseView, DeleteProjectRequest,
    DeleteProjectResponse, DeleteProjectResponseView, ListProjectsResponse,
    ListProjectsResponseView, OpenProjectRequest, OpenProjectResponse, OpenProjectResponseView,
    Project, ProjectView,
};
use crate::wire::storage::{
    DeleteRequest, DeleteRequestView, InitProjectStructureRequest,
    InitProjectStructureRequestView, InitProjectStructureResponse,
    InitProjectStructureResponseView,
};
use vstd::prelude::*;

verus! {

/// A registry record in the gateway's own shape: the same identifier, name,
/// path and creation time; the time of the last change under the gateway's
/// name for it. The storage backend's identifier is not handed on.
pub open spec fn project_of(p: ProjectInfoView) -> ProjectView {
    ProjectView {
        id: p.id,
        name: p.name,
        path: p.path,
        created_at: p.created_at,
        updated_at: p.modified_at,
    }
}

/// [`project_of`] on a record that may be absent.
pub open spec fn opt_project_of(p: Option<ProjectInfoView>) -> Option<ProjectView> {
    match p {
        Some(p) => Some(project_of(p)),
        None => None,
    }
}

/// Turns a registry record into the gateway's shape.
pub fn project_from_info(p: ProjectInfo) -> (r: Project)
    ensures
        r@ == project_of(p@),
{
    Project {
        id: p.id,
        name: p.name,
        path: p.path,
        created_at: p.created_at,
        updated_at: p.modified_at,
    }
}

fn opt_project_from_info(p: Option<ProjectInfo>) -> (r: Option<Project>)
    ensures
        (match r {
            Some(v) => Some(v@),
            None => None,
        }) == opt_project_of(
            match p {
                Some(v) => Some(v@),
                None => None,
            },
        ),
{
    match p {
        Some(p) => Some(project_from_info(p)),
        None => None,
    }
}

/// The words that open the message of a fault of the registry.
pub open spec fn engine_prefix() -> Seq<char> {
    "Engine error: "@
}

/// The words that open the message of a fault of the storage service.
pub open spec fn storage_prefix() -> Seq<char> {
    "FileGateway error: "@
}

// ---------------------------------------------------------------------
// Listing and opening
// ---------------------------------------------------------------------

/// What the gateway answers to a request for all projects, given what the
/// registry answered: each record in the gateway's shape, in the registry's
/// order; a fault where the registry could not be reached.
pub open spec fn listed_projects(outcome: Result<RegistryListView, Seq<char>>) -> Result<
    ListProjectsResponseView,
    FaultView,
> {
    match outcome {
        Ok(list) => Ok(
            ListProjectsResponseView {
                projects: Seq::new(list.projects.len(), |i: int| project_of(list.projects[i])),
            },
        ),
        Err(text) => Err(internal_fault(engine_prefix(), text)),
    }
}

/// Answers a request for all projects from what the registry answered.
pub fn list_projects(
    outcome: Result<crate::wire::director::ListProjectsResponse, String>,
) -> (r: Result<ListProjectsResponse, Fault>)
    ensures
        ending_view(r) == listed_projects(reply_view(outcome)),
{
    match outcome {
        Err(text) => Err(Fault::from_backend("Engine error: ", text.as_str())),
        Ok(list) => {
            let ghost from = list@.projects;
            let mut projects: Vec<Project> = Vec::new();
            for p in it: list.projects.into_iter()
                invariant
                    it.seq().len() == from.len(),
                    forall|k: int| 0 <= k < from.len() ==> (#[trigger] it.seq()[k])@ == from[k],
                    projects@.len() == it.index(),
                    forall|k: int|
                        0 <= k < it.index() ==> (#[trigger] projects@[k])@ == project_of(from[k]),
            {
                projects.push(project_from_info(p));
            }
            let r = ListProjectsResponse { projects };
            assert(r@.projects =~= Seq::new(from.len(), |i: int| project_of(from[i])));
            Ok(r)
        },
    }
}

/// The request that the gateway sends to the registry to open a project.
pub fn open_project_request(req: OpenProjectRequest) -> (r: RegistryOpenRequest)
    ensures
        r@ == (RegistryOpenRequestView { project_id: req@.project_id }),
{
    RegistryOpenRequest { project_id: req.project_id }
}

/// What the gateway answers to a request to open a project, given what the
/// registry answered.
pub open spec fn opened_project(outcome: Result<RegistryOpenResponseView, Seq<char>>) -> Result<
    OpenProjectResponseView,
    FaultView,
> {
    match outcome {
        Ok(resp) => Ok(
            OpenProjectResponseView {
                success: resp.success,
                error_message: resp.error_message,
                project: opt_project_of(resp.project),
            },
        ),
        Err(text) => Err(internal_fault(engine_prefix(), text)),
    }
}

/// Answers a request to open a project from what the registry answered.
pub fn open_project(outcome: Result<RegistryOpenResponse, String>) -> (r: Result<
    OpenProjectResponse,
    Fault,
>)
    ensures
        ending_view(r) == opened_project(reply_view(outcome)),
{
    match outcome {
        Err(text) => Err(Fault::from_backend("Engine error: ", text.as_str())),
        Ok(resp) => Ok(
            OpenProjectResponse {
                success: resp.success,
                error_message: resp.error_message,
                project: opt_project_from_info(resp.project),
            },
        ),
    }
}

// ---------------------------------------------------------------------
// Creating a project
// ---------------------------------------------------------------------

/// A project that is being created: its directories have been asked for.
pub struct CreateProject {
    name: String,
}

impl View for CreateProject {
    type V = Seq<char>;

    /// The name of the project.
    closed spec fn view(&self) -> Seq<char> {
        self.name@
    }
}

/// What the create-project workflow does after the storage service answered.
pub enum CreateProjectStep {
    /// The directories stand: register the project.
    Register(RegisterProjectRequest),
    /// The workflow is over, with this answer or fault.
    Done(Result<CreateProjectResponse, Fault>),
}

/// A [`CreateProjectStep`] as a mathematical value.
pub enum CreateProjectStepView {
    Register(RegisterProjectRequestView),
    Done(Result<CreateProjectResponseView, FaultView>),
}

impl View for CreateProjectStep {
    type V = CreateProjectStepView;

    open spec fn view(&self) -> CreateProjectStepView {
        match self {
            CreateProjectStep::Register(req) => CreateProjectStepView::Register(req@),
            CreateProjectStep::Done(r) => CreateProjectStepView::Done(ending_view(*r)),
        }
    }
}

/// The step that follows the storage service's answer, for the project
/// `name`.
///
/// A fault ends the workflow with a fault. An answer that reports failure
/// ends it with that failure, and the registry is not asked. Only where the
/// directories stand is the project registered, at the path that the storage
/// service reported, with no storage backend named.
pub open spec fn create_after_scaffold(
    name: Seq<char>,
    outcome: Result<InitProjectStructureResponseView, Seq<char>>,
) -> CreateProjectStepView {
    match outcome {
        Err(text) => CreateProjectStepView::Done(Err(internal_fault(storage_prefix(), text))),
        Ok(structure) => if !structure.success {
            CreateProjectStepView::Done(
                Ok(
                    CreateProjectResponseView {
                        success: false,
                        error_message: structure.error_message,
                        project: None,
                    },
                ),
            )
        } else {
            CreateProjectStepView::Register(
                RegisterProjectRequestView {
                    name: name,
                    path: structure.project_path,
                    file_gateway_id: Seq::empty(),
                },
            )
        },
    }
}

/// What the workflow ends with, given the registry's answer to the
/// registration: the registry's verdict and message, and the new record in
/// the gateway's shape. A registration that failed leaves the directories in
/// place.
pub open spec fn create_after_register(
    outcome: Result<RegisterProjectResponseView, Seq<char>>,
) -> Result<CreateProjectResponseView, FaultView> {
    match outcome {
        Err(text) => Err(internal_fault(engine_prefix(), text)),
        Ok(resp) => Ok(
            CreateProjectResponseView {
                success: resp.success,
                error_message: resp.error_message,
                project: opt_project_of(resp.project),
            },
        ),
    }
}

impl CreateProject {
    /// Starts the workflow: the directories of the project `req.name` are
    /// asked for below `req.path`.
    pub fn begin(req: CreateProjectRequest) -> (r: (CreateProject, InitProjectStructureRequest))
        ensures
            r.0@ == req@.name,
            r.1@ == (InitProjectStructureRequestView {
                base_path: req@.path,
                project_name: req@.name,
            }),
    {
        let project_name = req.name.clone();
        (
            CreateProject { name: req.name },
            InitProjectStructureRequest { base_path: req.path, project_name },
        )
    }

    /// Takes the storage service's answer and says what follows.
    pub fn scaffolded(self, outcome: Result<InitProjectStructureResponse, String>) -> (r:
        CreateProjectStep)
        ensures
            r@ == create_after_scaffold(self@, reply_view(outcome)),
    {
        match outcome {
            Err(text) => CreateProjectStep::Done(
                Err(Fault::from_backend("FileGateway error: ", text.as_str())),
            ),
            Ok(structure) => {
                if !structure.success {
                    CreateProjectStep::Done(
                        Ok(
                            CreateProjectResponse {
                                success: false,
                                error_message: structure.error_message,
                                project: None,
                            },
                        ),
                    )
                } else {
                    CreateProjectStep::Register(
                        RegisterProjectRequest {
                            name: self.name,
                            path: structure.project_path,
                            file_gateway_id: String::new(),
                        },
                    )
                }
            },
        }
    }

    /// Takes the registry's answer to the registration and ends the
    /// workflow.
    pub fn registered(outcome: Result<RegisterProjectResponse, String>) -> (r: Result<
        CreateProjectResponse,
        Fault,
    >)
        ensures
            ending_view(r) == create_after_register(reply_view(outcome)),
    {
        match outcome {
            Err(text) => Err(Fault::from_backend("Engine error: ", text.as_str())),
            Ok(resp) => Ok(
                CreateProjectResponse {
                    success: resp.success,
                    error_message: resp.error_message,
                    project: opt_project_from_info(resp.project),
                },
            ),
        }
    }
}

/// The registry is asked to register a project only after the storage
/// service reported that the directories stand.
pub proof fn lemma_register_needs_scaffold(
    name: Seq<char>,
    outcome: Result<InitProjectStructureResponseView, Seq<char>>,
)
    ensures
        create_after_scaffold(name, outcome) is Register <==> (outcome is Ok
            && outcome->Ok_0.success),
{
}

// ---------------------------------------------------------------------
// Deleting a project
// ---------------------------------------------------------------------

/// A project that is being deleted.
pub struct DeleteProject {
    project_id: String,
    delete_files: bool,
    project_path: Option<String>,
}

/// A [`DeleteProject`] as a mathematical value.
pub struct DeleteProjectView {
    /// The project's identifier.
    pub project_id: Seq<char>,
    /// Whether the caller asked for the directory to be removed.
    pub delete_files: bool,
    /// The project's directory, once the registry's list has shown it.
    pub project_path: Option<Seq<char>>,
}

impl View for DeleteProject {
    type V = DeleteProjectView;

    closed spec fn view(&self) -> DeleteProjectView {
        DeleteProjectView {
            project_id: self.project_id@,
            delete_files: self.delete_files,
            project_path: crate::text::opt_text(self.project_path),
        }
    }
}

/// What the delete-project workflow does next.
pub enum DeleteProjectStep {
    /// Ask the registry for all projects.
    ListProjects,
    /// Ask the registry to remove the record.
    Unregister(UnregisterProjectRequest),
    /// The record is gone: ask the storage service to remove the directory.
    /// The answer to the caller is already fixed.
    DeleteFiles(DeleteRequest, DeleteProjectResponse),
    /// The workflow is over, with this answer or fault.
    Done(Result<DeleteProjectResponse, Fault>),
}

/// A [`DeleteProjectStep`] as a mathematical value.
pub enum DeleteProjectStepView {
    ListProjects,
    Unregister(UnregisterProjectRequestView),
    DeleteFiles(DeleteRequestView, DeleteProjectResponseView),
    Done(Result<DeleteProjectResponseView, FaultView>),
}

impl View for DeleteProjectStep {
    type V = DeleteProjectStepView;

    open spec fn view(&self) -> DeleteProjectStepView {
        match self {
            DeleteProjectStep::ListProjects => DeleteProjectStepView::ListProjects,
            DeleteProjectStep::Unregister(req) => DeleteProjectStepView::Unregister(req@),
            DeleteProjectStep::DeleteFiles(req, resp) => DeleteProjectStepView::DeleteFiles(
                req@,
                resp@,
            ),
            DeleteProjectStep::Done(r) => DeleteProjectStepView::Done(ending_view(*r)),
        }
    }
}

/// Whether `found` is the path of the first record of `projects` whose
/// identifier is `id`: `None` exactly when no record has that identifier.
pub open spec fn is_path_of_first(
    projects: Seq<ProjectInfoView>,
    id: Seq<char>,
    found: Option<Seq<char>>,
) -> bool {
    match found {
        None => forall|k: int| 0 <= k < projects.len() ==> (#[trigger] projects[k]).id != id,
        Some(path) => exists|k: int|
            {
                &&& 0 <= k < projects.len()
                &&& (#[trigger] projects[k]).id == id
                &&& projects[k].path == path
                &&& forall|j: int| 0 <= j < k ==> (#[trigger] projects[j]).id != id
            },
    }
}

/// The request that removes the record of the project `id`.
pub open spec fn unregister_request(id: Seq<char>) -> DeleteProjectStepView {
    DeleteProjectStepView::Unregister(UnregisterProjectRequestView { project_id: id })
}

/// The first step of the workflow: the registry's list is needed only where
/// the directory is to be removed too.
pub open spec fn delete_first_step(req: crate::wire::gateway::DeleteProjectRequestView) -> DeleteProjectStepView {
    if req.delete_files {
        DeleteProjectStepView::ListProjects
    } else {
        unregister_request(req.project_id)
    }
}

/// The step that follows the registry's answer to the removal of the record.
///
/// The caller's answer is the registry's verdict and message. The directory
/// is removed, with all that it holds, only where the record was removed, the
/// caller asked for it and the list had shown the project's path.
pub open spec fn delete_after_unregister(
    state: DeleteProjectView,
    outcome: Result<UnregisterProjectResponseView, Seq<char>>,
) -> DeleteProjectStepView {
    match outcome {
        Err(text) => DeleteProjectStepView::Done(Err(internal_fault(engine_prefix(), text))),
        Ok(resp) => {
            let answer = DeleteProjectResponseView {
                success: resp.success,
                error_message: resp.error_message,
            };
            if resp.success && state.delete_files && state.project_path is Some {
                DeleteProjectStepView::DeleteFiles(
                    DeleteRequestView { path: state.project_path->Some_0, recursive: true },
                    answer,
                )
            } else {
                DeleteProjectStepView::Done(Ok(answer))
            }
        },
    }
}

impl DeleteProject {
    /// Starts the workflow.
    pub fn begin(req: DeleteProjectRequest) -> (r: (DeleteProject, DeleteProjectStep))
        ensures
            r.0@ == (DeleteProjectView {
                project_id: req@.project_id,
                delete_files: req@.delete_files,
                project_path: None,
            }),
            r.1@ == delete_first_step(req@),
    {
        let step = if req.delete_files {
            DeleteProjectStep::ListProjects
        } else {
            DeleteProjectStep::Unregister(
                UnregisterProjectRequest { project_id: req.project_id.clone() },
            )
        };
        (
            DeleteProject {
                project_id: req.project_id,
                delete_files: req.delete_files,
                project_path: None,
            },
            step,
        )
    }

    /// Takes the registry's list. The project's path is that of the first
    /// record with the project's identifier; then the record's removal is
    /// asked for, whether or not one was found. A fault ends the workflow.
    pub fn listed(
        self,
        outcome: Result<crate::wire::director::ListProjectsResponse, String>,
    ) -> (r: (DeleteProject, DeleteProjectStep))
        ensures
            r.0@.project_id == self@.project_id,
            r.0@.delete_files == self@.delete_files,
            match reply_view(outcome) {
                Err(text) => {
                    &&& r.0@.project_path == self@.project_path
                    &&& r.1@ == DeleteProjectStepView::Done(
                        Err(internal_fault(engine_prefix(), text)),
                    )
                },
                Ok(list) => {
                    &&& is_path_of_first(list.projects, self@.project_id, r.0@.project_path)
                    &&& r.1@ == unregister_request(self@.project_id)
                },
            },
    {
        match outcome {
            Err(text) => (
                self,
                DeleteProjectStep::Done(Err(Fault::from_backend("Engine error: ", text.as_str()))),
            ),
            Ok(list) => {
                let mut found: Option<String> = None;
                let n = list.projects.len();
                let mut i: usize = 0;
                while i < n && found.is_none()
                    invariant
                        i <= n,
                        n == list.projects@.len(),
                        found is None ==> forall|k: int|
                            0 <= k < i ==> (#[trigger] list@.projects[k]).id != self@.project_id,
                        found is Some ==> is_path_of_first(
                            list@.projects,
                            self@.project_id,
                            crate::text::opt_text(found),
                        ),
                    decreases n - i + (if found is None { 1int } else { 0int }),
                {
                    let p = &list.projects[i];
                    assert(list@.projects[i as int] == p@);
                    if p.id == self.project_id {
                        found = Some(p.path.clone());
                    } else {
                        i = i + 1;
                    }
                }
                let request = UnregisterProjectRequest { project_id: self.project_id.clone() };
                (
                    DeleteProject {
                        project_id: self.project_id,
                        delete_files: self.delete_files,
                        project_path: found,
                    },
                    DeleteProjectStep::Unregister(request),
                )
            },
        }
    }

    /// Takes the registry's answer to the removal of the record and says
    /// what follows.
    pub fn unregistered(self, outcome: Result<UnregisterProjectResponse, String>) -> (r:
        DeleteProjectStep)
        ensures
            r@ == delete_after_unregister(self@, reply_view(outcome)),
    {
        match outcome {
            Err(text) => DeleteProjectStep::Done(
                Err(Fault::from_backend("Engine error: ", text.as_str())),
            ),
            Ok(resp) => {
                let answer = DeleteProjectResponse {
                    success: resp.success,
                    error_message: resp.error_message,
                };
                if answer.success && self.delete_files {
                    match self.project_path {
                        Some(path) => DeleteProjectStep::DeleteFiles(
                            DeleteRequest { path, recursive: true },
                            answer,
                        ),
                        None => DeleteProjectStep::Done(Ok(answer)),
                    }
                } else {
                    DeleteProjectStep::Done(Ok(answer))
                }
            },
        }
    }

    /// Takes what became of the removal of the directory. The caller's
    /// answer stays as it was fixed when the record was removed: a removal
    /// that failed is only noted, with the text that is returned beside the
    /// answer.
    pub fn files_deleted(answer: DeleteProjectResponse, outcome: Result<(), String>) -> (r: (
        DeleteProjectResponse,
        Option<String>,
    ))
        ensures
            r.0@ == answer@,
            crate::text::opt_text(r.1) == (match outcome {
                Ok(_) => None,
                Err(text) => Some(text@),
            }),
    {
        match outcome {
            Ok(_) => (answer, None),
            Err(text) => (answer, Some(text)),
        }
    }
}

/// The directory of a project is removed only after the registry confirmed
/// that the record is gone, and the answer to the caller is then a success.
pub proof fn lemma_files_deleted_only_after_unregister(
    state: DeleteProjectView,
    outcome: Result<UnregisterProjectResponseView, Seq<char>>,
)
    ensures
        delete_after_unregister(state, outcome) matches DeleteProjectStepView::DeleteFiles(
            request,
            answer,
        ) ==> {
            &&& outcome is Ok
            &&& outcome->Ok_0.success
            &&& answer.success
            &&& state.delete_files
            &&& state.project_path == Some(request.path)
            &&& request.recursive
        },
{
}

} // verus!
