//! The project registry: the records of all known projects.
//!
//! A record is made when a project is registered, after its directories
//! were created; it is touched when the project is opened and removed when
//! the project is unregistered. Removing a record never removes files. No
//! two records share an identifier, and registration keeps paths apart. The
//! registry lives in memory; after every change the caller writes all
//! records out anew.

use crate::outside::{is_random_id_text, now, project_data_dir, random_id};
use crate::registry::identifier::{lemma_serial_id_injective, serial_id, serial_id_text};
use crate::storage::paths::{join, joined_path};
use crate::text::{concat2, opt_text, owned};
use vstd::prelude::*;

verus! {

/// A point in time: whole seconds since the epoch, and the nanoseconds into
/// the second.
#[derive(Debug, Clone, Copy, PartialEq, Eq, Structural)]
pub struct Timestamp {
    pub secs: i64,
    pub nanos: u32,
}

/// Why an operation of the registry failed.
#[derive(Debug)]
pub enum ProjectError {
    /// The records could not be read or written; the text is the medium's.
    IoError(String),
    /// A project is registered at the path already.
    ProjectAlreadyExists(String),
    /// No project has the identifier.
    ProjectNotFound(String),
    /// The records could not be put into or taken out of their stored form.
    SerializationError(String),
    /// The environment names no place for the application's data.
    DataDirNotFound,
}

/// A [`ProjectError`] as a mathematical value.
pub enum ProjectErrorView {
    IoError(Seq<char>),
    ProjectAlreadyExists(Seq<char>),
    ProjectNotFound(Seq<char>),
    SerializationError(Seq<char>),
    DataDirNotFound,
}

impl ProjectErrorView {
    /// The text shown to a caller for this error.
    pub open spec fn message(self) -> Seq<char> {
        match self {
            ProjectErrorView::IoError(m) => "Ошибка ввода-вывода: "@ + m,
            ProjectErrorView::ProjectAlreadyExists(p) => "Проект уже зарегистрирован: "@ + p,
            ProjectErrorView::ProjectNotFound(id) => "Проект не найден: "@ + id,
            ProjectErrorView::SerializationError(m) => "Ошибка сериализации: "@ + m,
            ProjectErrorView::DataDirNotFound => "Не удалось определить директорию данных приложения"@,
        }
    }
}

impl View for ProjectError {
    type V = ProjectErrorView;

    open spec fn view(&self) -> ProjectErrorView {
        match self {
            ProjectError::IoError(m) => ProjectErrorView::IoError(m@),
            ProjectError::ProjectAlreadyExists(p) => ProjectErrorView::ProjectAlreadyExists(p@),
            ProjectError::ProjectNotFound(id) => ProjectErrorView::ProjectNotFound(id@),
            ProjectError::SerializationError(m) => ProjectErrorView::SerializationError(m@),
            ProjectError::DataDirNotFound => ProjectErrorView::DataDirNotFound,
        }
    }
}

impl ProjectError {
    /// The text shown to a caller for this error.
    pub fn message(&self) -> (r: String)
        ensures
            r@ == self@.message(),
    {
        match self {
            ProjectError::IoError(m) => concat2("Ошибка ввода-вывода: ", m.as_str()),
            ProjectError::ProjectAlreadyExists(p) => concat2(
                "Проект уже зарегистрирован: ",
                p.as_str(),
            ),
            ProjectError::ProjectNotFound(id) => concat2("Проект не найден: ", id.as_str()),
            ProjectError::SerializationError(m) => concat2("Ошибка сериализации: ", m.as_str()),
            ProjectError::DataDirNotFound => owned(
                "Не удалось определить директорию данных приложения",
            ),
        }
    }
}

/// The record of a project.
#[derive(Debug, Clone)]
pub struct ProjectMetadata {
    /// The project's identifier, given at registration and never changed.
    pub id: String,
    /// The project's name.
    pub name: String,
    /// The project's root directory.
    pub path: String,
    /// The storage backend that holds the project.
    pub file_gateway_id: String,
    /// When the project was registered.
    pub created_at: Timestamp,
    /// When the project was last opened.
    pub modified_at: Timestamp,
}

/// A [`ProjectMetadata`] as a mathematical value.
pub struct ProjectMetadataView {
    pub id: Seq<char>,
    pub name: Seq<char>,
    pub path: Seq<char>,
    pub file_gateway_id: Seq<char>,
    pub created_at: Timestamp,
    pub modified_at: Timestamp,
}

impl View for ProjectMetadata {
    type V = ProjectMetadataView;

    open spec fn view(&self) -> ProjectMetadataView {
        ProjectMetadataView {
            id: self.id@,
            name: self.name@,
            path: self.path@,
            file_gateway_id: self.file_gateway_id@,
            created_at: self.created_at,
            modified_at: self.modified_at,
        }
    }
}

impl ProjectMetadata {
    /// A copy of the record.
    pub fn duplicate(&self) -> (r: ProjectMetadata)
        ensures
            r@ == self@,
    {
        ProjectMetadata {
            id: self.id.clone(),
            name: self.name.clone(),
            path: self.path.clone(),
            file_gateway_id: self.file_gateway_id.clone(),
            created_at: self.created_at,
            modified_at: self.modified_at,
        }
    }
}

/// The views of a list of records, in order.
pub open spec fn record_views(v: Seq<ProjectMetadata>) -> Seq<ProjectMetadataView> {
    Seq::new(v.len(), |i: int| v[i]@)
}

/// Whether no two records share an identifier.
pub open spec fn ids_distinct(records: Seq<ProjectMetadataView>) -> bool {
    forall|i: int, j: int|
        0 <= i < j < records.len() ==> (#[trigger] records[i]).id != (#[trigger] records[j]).id
}

/// Whether no two records share a path.
pub open spec fn paths_distinct(records: Seq<ProjectMetadataView>) -> bool {
    forall|i: int, j: int|
        0 <= i < j < records.len() ==> (#[trigger] records[i]).path != (#[trigger] records[j]).path
}

/// Whether a record has the identifier `id`.
pub open spec fn has_id(records: Seq<ProjectMetadataView>, id: Seq<char>) -> bool {
    exists|k: int| 0 <= k < records.len() && (#[trigger] records[k]).id == id
}

/// Whether a record has the path `path`.
pub open spec fn has_path(records: Seq<ProjectMetadataView>, path: Seq<char>) -> bool {
    exists|k: int| 0 <= k < records.len() && (#[trigger] records[k]).path == path
}

/// The place of a record with the identifier `id`, where there is one.
pub open spec fn place_of(records: Seq<ProjectMetadataView>, id: Seq<char>) -> int {
    choose|k: int| 0 <= k < records.len() && (#[trigger] records[k]).id == id
}

/// The records without the one that has the identifier `id`.
pub open spec fn without(records: Seq<ProjectMetadataView>, id: Seq<char>) -> Seq<
    ProjectMetadataView,
> {
    if has_id(records, id) {
        records.remove(place_of(records, id))
    } else {
        records
    }
}

/// The records after `record` was put among them: behind all others, and in
/// place of a record with the same identifier.
pub open spec fn with_record(records: Seq<ProjectMetadataView>, record: ProjectMetadataView) -> Seq<
    ProjectMetadataView,
> {
    without(records, record.id).push(record)
}

/// The records after the one with the identifier `id` was opened at the
/// time `at`: its time of change is `at`, and nothing else differs.
pub open spec fn with_opened(records: Seq<ProjectMetadataView>, id: Seq<char>, at: Timestamp) -> Seq<
    ProjectMetadataView,
> {
    if has_id(records, id) {
        let k = place_of(records, id);
        records.update(k, ProjectMetadataView { modified_at: at, ..records[k] })
    } else {
        records
    }
}

/// The record that a registration makes.
pub open spec fn new_record(
    id: Seq<char>,
    name: Seq<char>,
    path: Seq<char>,
    file_gateway_id: Seq<char>,
    at: Timestamp,
) -> ProjectMetadataView {
    ProjectMetadataView { id, name, path, file_gateway_id, created_at: at, modified_at: at }
}

/// The view of what a registration or an opening returns.
pub open spec fn record_outcome(r: Result<ProjectMetadata, ProjectError>) -> Result<
    ProjectMetadataView,
    ProjectErrorView,
> {
    match r {
        Ok(record) => Ok(record@),
        Err(e) => Err(e@),
    }
}

/// What a registration leaves and returns: a path at which a project is
/// registered already is refused and the records stay as they are; else the
/// new record is put among the others and returned.
pub open spec fn registration(
    records: Seq<ProjectMetadataView>,
    record: ProjectMetadataView,
) -> (Seq<ProjectMetadataView>, Result<ProjectMetadataView, ProjectErrorView>) {
    if has_path(records, record.path) {
        (records, Err(ProjectErrorView::ProjectAlreadyExists(record.path)))
    } else {
        (with_record(records, record), Ok(record))
    }
}

/// The records that a stored list gives when it is loaded: one after the
/// other is put among those before it, so that of two with one identifier
/// the later one stays.
pub open spec fn loaded(stored: Seq<ProjectMetadataView>) -> Seq<ProjectMetadataView>
    decreases stored.len(),
{
    if stored.len() == 0 {
        Seq::empty()
    } else {
        with_record(loaded(stored.drop_last()), stored.last())
    }
}

/// The registry of projects.
pub struct ProjectManager {
    projects: Vec<ProjectMetadata>,
    projects_index_path: String,
}

/// A [`ProjectManager`] as a mathematical value.
pub struct ProjectManagerView {
    /// The records, in the order in which they were put in.
    pub projects: Seq<ProjectMetadataView>,
    /// The file in which the records are stored.
    pub index_path: Seq<char>,
}

impl View for ProjectManager {
    type V = ProjectManagerView;

    closed spec fn view(&self) -> ProjectManagerView {
        ProjectManagerView {
            projects: record_views(self.projects@),
            index_path: self.projects_index_path@,
        }
    }
}

/// Where the registry keeps its records on this machine.
pub struct IndexLocation {
    /// The directory for the application's data, which is to be created
    /// with all that is missing above it.
    pub data_dir: String,
    /// The file of the records, in that directory.
    pub index_path: String,
}

impl ProjectManager {
    /// Whether the registry is well formed: no two records share an
    /// identifier.
    pub open spec fn wf(&self) -> bool {
        ids_distinct(self@.projects)
    }

    /// The place of the records, given the directory that the environment
    /// names for the application's data.
    pub fn index_location_in(data_dir: Option<String>) -> (r: Result<IndexLocation, ProjectError>)
        ensures
            match data_dir {
                None => (r matches Err(e) && e@ == ProjectErrorView::DataDirNotFound),
                Some(dir) => (r matches Ok(loc) && loc.data_dir@ == dir@ && loc.index_path@
                    == joined_path(dir@, "projects.json"@)),
            },
    {
        match data_dir {
            None => Err(ProjectError::DataDirNotFound),
            Some(dir) => {
                let index_path = join(dir.as_str(), "projects.json");
                Ok(IndexLocation { data_dir: dir, index_path })
            },
        }
    }

    /// The place of the records on this machine: the file `projects.json`
    /// in the directory that the environment names for the application's
    /// data. Fails where the environment names none.
    pub fn index_location() -> (r: Result<IndexLocation, ProjectError>)
        ensures
            r matches Ok(loc) ==> loc.index_path@ == joined_path(
                loc.data_dir@,
                "projects.json"@,
            ),
            r matches Err(e) ==> e@ == ProjectErrorView::DataDirNotFound,
    {
        ProjectManager::index_location_in(project_data_dir("com", "director", "DirectorEngine"))
    }

    /// The registry that keeps its records in the file at `index_path`, with
    /// the records that were found stored there; `None` where the file does
    /// not exist yet.
    pub fn new(index_path: String, stored: Option<Vec<ProjectMetadata>>) -> (r: ProjectManager)
        ensures
            r.wf(),
            r@.index_path == index_path@,
            r@.projects == (match stored {
                Some(records) => loaded(record_views(records@)),
                None => Seq::empty(),
            }),
    {
        let mut manager = ProjectManager { projects: Vec::new(), projects_index_path: index_path };
        assert(manager@.projects =~= Seq::empty());
        match stored {
            Some(records) => {
                manager.load_projects_index(records);
            },
            None => {},
        }
        manager
    }

    /// Replaces the records by those of a stored list.
    pub fn load_projects_index(&mut self, stored: Vec<ProjectMetadata>)
        ensures
            final(self).wf(),
            final(self)@.index_path == old(self)@.index_path,
            final(self)@.projects == loaded(record_views(stored@)),
    {
        let ghost from = record_views(stored@);
        self.projects = Vec::new();
        assert(from.take(0) =~= Seq::empty());
        assert(self@.projects =~= loaded(from.take(0)));
        for record in it: stored.into_iter()
            invariant
                it.seq().len() == from.len(),
                forall|k: int| 0 <= k < from.len() ==> (#[trigger] it.seq()[k])@ == from[k],
                self.wf(),
                self@.index_path == old(self)@.index_path,
                self@.projects == loaded(from.take(it.index() as int)),
        {
            let ghost i = it.index() as int;
            assert(from.take(i + 1).drop_last() =~= from.take(i));
            assert(from.take(i + 1).last() == record@);
            self.put(record);
        }
        assert(from.take(from.len() as int) =~= from);
    }

    /// The file in which the records are stored.
    pub fn index_path(&self) -> (r: &String)
        ensures
            r@ == self@.index_path,
    {
        &self.projects_index_path
    }

    /// All records.
    pub fn list_projects(&self) -> (r: Vec<ProjectMetadata>)
        ensures
            record_views(r@) == self@.projects,
    {
        let mut out: Vec<ProjectMetadata> = Vec::new();
        let n = self.projects.len();
        let mut i: usize = 0;
        while i < n
            invariant
                i <= n,
                n == self.projects@.len(),
                out@.len() == i,
                forall|k: int| 0 <= k < i ==> (#[trigger] out@[k])@ == self.projects@[k]@,
            decreases n - i,
        {
            out.push(self.projects[i].duplicate());
            i = i + 1;
        }
        assert(record_views(out@) =~= self@.projects);
        out
    }

    /// The place of the record with the identifier `id`, if there is one.
    fn find(&self, id: &str) -> (r: Option<usize>)
        requires
            self.wf(),
        ensures
            match r {
                Some(k) => k < self@.projects.len() && self@.projects[k as int].id == id@
                    && has_id(self@.projects, id@) && place_of(self@.projects, id@) == k,
                None => !has_id(self@.projects, id@),
            },
    {
        let wanted = owned(id);
        let n = self.projects.len();
        let mut i: usize = 0;
        while i < n
            invariant
                i <= n,
                n == self.projects@.len(),
                self.wf(),
                wanted@ == id@,
                forall|k: int| 0 <= k < i ==> (#[trigger] self@.projects[k]).id != id@,
            decreases n - i,
        {
            if self.projects[i].id == wanted {
                assert(self@.projects[i as int].id == id@);
                assert(has_id(self@.projects, id@));
                return Some(i);
            }
            i = i + 1;
        }
        None
    }

    /// Whether a record has the path `path`.
    fn path_taken(&self, path: &str) -> (r: bool)
        ensures
            r == has_path(self@.projects, path@),
    {
        let wanted = owned(path);
        let n = self.projects.len();
        let mut i: usize = 0;
        while i < n
            invariant
                i <= n,
                n == self.projects@.len(),
                wanted@ == path@,
                forall|k: int| 0 <= k < i ==> (#[trigger] self@.projects[k]).path != path@,
            decreases n - i,
        {
            if self.projects[i].path == wanted {
                assert(self@.projects[i as int].path == path@);
                return true;
            }
            i = i + 1;
        }
        false
    }

    /// Puts a record among the others, in place of one with the same
    /// identifier.
    fn put(&mut self, record: ProjectMetadata)
        requires
            old(self).wf(),
        ensures
            final(self).wf(),
            final(self)@.index_path == old(self)@.index_path,
            final(self)@.projects == with_record(old(self)@.projects, record@),
    {
        let ghost before = self@.projects;
        match self.find(record.id.as_str()) {
            Some(k) => {
                let _ = self.projects.remove(k);
                assert(self@.projects =~= before.remove(k as int));
            },
            None => {},
        }
        let ghost rest = self@.projects;
        assert(rest == without(before, record@.id));
        proof {
            lemma_without_keeps(before, record@.id);
        }
        self.projects.push(record);
        assert(self@.projects =~= rest.push(record@));
    }

    /// Registers a project, with the identifier `id` and at the time `at`.
    ///
    /// A path at which a project is registered already is refused, and the
    /// registry stays as it is. Else the new record is put among the
    /// others, in place of one with the same identifier, and returned.
    pub fn register_with(
        &mut self,
        name: &str,
        path: &str,
        file_gateway_id: &str,
        id: String,
        at: Timestamp,
    ) -> (r: Result<ProjectMetadata, ProjectError>)
        requires
            old(self).wf(),
        ensures
            final(self).wf(),
            final(self)@.index_path == old(self)@.index_path,
            (final(self)@.projects, record_outcome(r)) == registration(
                old(self)@.projects,
                new_record(id@, name@, path@, file_gateway_id@, at),
            ),
            paths_distinct(old(self)@.projects) ==> paths_distinct(final(self)@.projects),
    {
        proof {
            lemma_registration_keeps_apart(
                self@.projects,
                new_record(id@, name@, path@, file_gateway_id@, at),
            );
        }
        if self.path_taken(path) {
            return Err(ProjectError::ProjectAlreadyExists(owned(path)));
        }
        let metadata = ProjectMetadata {
            id,
            name: owned(name),
            path: owned(path),
            file_gateway_id: owned(file_gateway_id),
            created_at: at,
            modified_at: at,
        };
        let result = metadata.duplicate();
        self.put(metadata);
        Ok(result)
    }

    /// An identifier for a new record: one that no record has, in the form
    /// of a random identifier. It is drawn at random; should a record have
    /// it already, the first identifier of the series that no record has is
    /// taken in its place.
    fn fresh_id(&self) -> (r: String)
        requires
            self.wf(),
        ensures
            !has_id(self@.projects, r@),
            is_random_id_text(r@),
    {
        let drawn = random_id();
        if self.find(drawn.as_str()).is_none() {
            return drawn;
        }
        let n = self.projects.len();
        let mut j: u64 = 0;
        // The records found to hold an identifier of the series so far: one
        // for each number below `j`, so that `j` cannot pass their count.
        let ghost mut matched: Set<int> = Set::empty();
        loop
            invariant
                self.wf(),
                n == self@.projects.len(),
                j <= n,
                matched.finite(),
                matched.len() == j,
                forall|k: int| #[trigger]
                    matched.contains(k) ==> 0 <= k < n && exists|i: int|
                        0 <= i < j && self@.projects[k].id == #[trigger] serial_id_text(i),
            decreases n - j,
        {
            let candidate = serial_id(j);
            match self.find(candidate.as_str()) {
                None => {
                    return candidate;
                },
                Some(k) => {
                    proof {
                        if matched.contains(k as int) {
                            let i = choose|i: int|
                                0 <= i < j && self@.projects[k as int].id == #[trigger] serial_id_text(i);
                            lemma_serial_id_injective(i, j as int);
                        }
                        let ghost grown = matched.insert(k as int);
                        assert forall|m: int| #[trigger] grown.contains(m) implies 0 <= m < n
                            && exists|i: int|
                            0 <= i < j + 1 && self@.projects[m].id == #[trigger] serial_id_text(i) by {
                            if m == k {
                                assert(self@.projects[m].id == serial_id_text(j as int));
                            } else {
                                let i = choose|i: int|
                                    0 <= i < j && self@.projects[m].id == #[trigger] serial_id_text(i);
                                assert(self@.projects[m].id == serial_id_text(i));
                            }
                        }
                        vstd::set_lib::lemma_int_range(0, n as int);
                        assert(grown.subset_of(vstd::set_lib::set_int_range(0, n as int)));
                        vstd::set_lib::lemma_len_subset(
                            grown,
                            vstd::set_lib::set_int_range(0, n as int),
                        );
                        matched = grown;
                    }
                    j = j + 1;
                },
            }
        }
    }

    /// Registers a project under a new identifier, at the time of the call.
    ///
    /// A path at which a project is registered already is refused, and the
    /// registry stays as it is. Else the project is registered: the record
    /// has the given name, path and backend, both its times are the time of
    /// the call, and its identifier is one that no record had and has the
    /// form of a random identifier. The record is put behind all others, and
    /// every other record stays as it was.
    pub fn register_project(&mut self, name: &str, path: &str, file_gateway_id: &str) -> (r: Result<
        ProjectMetadata,
        ProjectError,
    >)
        requires
            old(self).wf(),
        ensures
            final(self).wf(),
            final(self)@.index_path == old(self)@.index_path,
            paths_distinct(old(self)@.projects) ==> paths_distinct(final(self)@.projects),
            has_path(old(self)@.projects, path@) ==> (r matches Err(e) && e@
                == ProjectErrorView::ProjectAlreadyExists(path@) && final(self)@ == old(self)@),
            !has_path(old(self)@.projects, path@) ==> (r matches Ok(record) && record@
                == new_record(
                record@.id,
                name@,
                path@,
                file_gateway_id@,
                record@.created_at,
            ) && !has_id(old(self)@.projects, record@.id) && is_random_id_text(record@.id)
                && final(self)@.projects == old(self)@.projects.push(record@)),
    {
        if self.path_taken(path) {
            return Err(ProjectError::ProjectAlreadyExists(owned(path)));
        }
        let at = now();
        let id = self.fresh_id();
        self.register_with(name, path, file_gateway_id, id, at)
    }

    /// Opens the project with the identifier `project_id` at the time `at`.
    ///
    /// An identifier that no record has is refused. Else the record's time
    /// of change becomes `at`, and the record is returned as it then stands.
    pub fn open_with(&mut self, project_id: &str, at: Timestamp) -> (r: Result<
        ProjectMetadata,
        ProjectError,
    >)
        requires
            old(self).wf(),
        ensures
            final(self).wf(),
            final(self)@.index_path == old(self)@.index_path,
            final(self)@.projects == with_opened(old(self)@.projects, project_id@, at),
            paths_distinct(old(self)@.projects) ==> paths_distinct(final(self)@.projects),
            !has_id(old(self)@.projects, project_id@) ==> (r matches Err(e) && e@
                == ProjectErrorView::ProjectNotFound(project_id@)),
            has_id(old(self)@.projects, project_id@) ==> (r matches Ok(record) && record@
                == final(self)@.projects[place_of(old(self)@.projects, project_id@)]),
    {
        let ghost before = self@.projects;
        match self.find(project_id) {
            None => Err(ProjectError::ProjectNotFound(owned(project_id))),
            Some(k) => {
                let touched = ProjectMetadata {
                    id: self.projects[k].id.clone(),
                    name: self.projects[k].name.clone(),
                    path: self.projects[k].path.clone(),
                    file_gateway_id: self.projects[k].file_gateway_id.clone(),
                    created_at: self.projects[k].created_at,
                    modified_at: at,
                };
                let result = touched.duplicate();
                self.projects.set(k, touched);
                assert(self@.projects =~= before.update(
                    k as int,
                    ProjectMetadataView { modified_at: at, ..before[k as int] },
                ));
                Ok(result)
            },
        }
    }

    /// Opens the project with the identifier `project_id`, at the time of
    /// the call.
    pub fn open_project(&mut self, project_id: &str) -> (r: Result<ProjectMetadata, ProjectError>)
        requires
            old(self).wf(),
        ensures
            final(self).wf(),
            final(self)@.index_path == old(self)@.index_path,
            paths_distinct(old(self)@.projects) ==> paths_distinct(final(self)@.projects),
            !has_id(old(self)@.projects, project_id@) ==> (r matches Err(e) && e@
                == ProjectErrorView::ProjectNotFound(project_id@) && final(self)@ == old(self)@),
            has_id(old(self)@.projects, project_id@) ==> (r matches Ok(record)
                && final(self)@.projects == with_opened(
                old(self)@.projects,
                project_id@,
                record@.modified_at,
            ) && record@ == final(self)@.projects[place_of(old(self)@.projects, project_id@)]),
    {
        match self.find(project_id) {
            None => Err(ProjectError::ProjectNotFound(owned(project_id))),
            Some(_) => {
                let at = now();
                self.open_with(project_id, at)
            },
        }
    }

    /// Removes the record with the identifier `project_id`. The project's
    /// files are not touched.
    ///
    /// An identifier that no record has is refused, and the registry stays
    /// as it is.
    pub fn unregister_project(&mut self, project_id: &str) -> (r: Result<(), ProjectError>)
        requires
            old(self).wf(),
        ensures
            final(self).wf(),
            final(self)@.index_path == old(self)@.index_path,
            final(self)@.projects == without(old(self)@.projects, project_id@),
            paths_distinct(old(self)@.projects) ==> paths_distinct(final(self)@.projects),
            !has_id(old(self)@.projects, project_id@) ==> (r matches Err(e) && e@
                == ProjectErrorView::ProjectNotFound(project_id@)),
            has_id(old(self)@.projects, project_id@) ==> r is Ok,
    {
        let ghost before = self@.projects;
        match self.find(project_id) {
            None => Err(ProjectError::ProjectNotFound(owned(project_id))),
            Some(k) => {
                let _ = self.projects.remove(k);
                assert(self@.projects =~= before.remove(k as int));
                proof {
                    lemma_without_keeps(before, project_id@);
                }
                Ok(())
            },
        }
    }

    /// What a change of the registry ends with, once the records were
    /// written out: the change's own result, or the failure of the writing.
    /// The change stands in memory either way.
    pub fn persisted<T>(value: T, saved: Result<(), ProjectError>) -> (r: Result<T, ProjectError>)
        ensures
            match saved {
                Ok(_) => r == Ok::<T, ProjectError>(value),
                Err(e) => r == Err::<T, ProjectError>(e),
            },
    {
        match saved {
            Ok(_) => Ok(value),
            Err(e) => Err(e),
        }
    }
}

/// Taking a record out leaves the identifiers and the paths of the others
/// apart, and none of them has the identifier that was taken out.
pub proof fn lemma_without_keeps(records: Seq<ProjectMetadataView>, id: Seq<char>)
    requires
        ids_distinct(records),
    ensures
        ids_distinct(without(records, id)),
        !has_id(without(records, id), id),
        paths_distinct(records) ==> paths_distinct(without(records, id)),
        forall|path: Seq<char>|
            has_path(without(records, id), path) ==> has_path(records, path),
{
    let rest = without(records, id);
    if has_id(records, id) {
        let k = place_of(records, id);
        assert forall|i: int| 0 <= i < rest.len() implies (#[trigger] rest[i]) == records[if i
            < k {
            i
        } else {
            i + 1
        }] by {}
        assert forall|i: int| 0 <= i < rest.len() implies (#[trigger] rest[i]).id != id by {
            let i0 = if i < k { i } else { i + 1 };
            assert(rest[i] == records[i0]);
            if i0 < k {
                assert(records[i0].id != records[k].id);
            } else {
                assert(records[k].id != records[i0].id);
            }
        }
        assert forall|i: int, j: int| 0 <= i < j < rest.len() implies (#[trigger] rest[i]).id != (
        #[trigger] rest[j]).id by {
            let i0 = if i < k { i } else { i + 1 };
            let j0 = if j < k { j } else { j + 1 };
            assert(rest[i] == records[i0] && rest[j] == records[j0]);
            assert(records[i0].id != records[j0].id);
        }
        if paths_distinct(records) {
            assert forall|i: int, j: int| 0 <= i < j < rest.len() implies (#[trigger] rest[i]).path
                != (#[trigger] rest[j]).path by {
                let i0 = if i < k { i } else { i + 1 };
                let j0 = if j < k { j } else { j + 1 };
                assert(rest[i] == records[i0] && rest[j] == records[j0]);
                assert(records[i0].path != records[j0].path);
            }
        }
        assert forall|path: Seq<char>| has_path(rest, path) implies has_path(records, path) by {
            let i = choose|i: int| 0 <= i < rest.len() && (#[trigger] rest[i]).path == path;
            let i0 = if i < k { i } else { i + 1 };
            assert(rest[i] == records[i0]);
            assert(records[i0].path == path);
        }
    }
}

/// A stored list in which no two records share an identifier is loaded as
/// it stands.
pub proof fn lemma_loaded_as_stored(stored: Seq<ProjectMetadataView>)
    requires
        ids_distinct(stored),
    ensures
        loaded(stored) == stored,
    decreases stored.len(),
{
    if stored.len() == 0 {
        assert(loaded(stored) =~= stored);
    } else {
        let front = stored.drop_last();
        assert forall|i: int, j: int| 0 <= i < j < front.len() implies (#[trigger] front[i]).id != (
        #[trigger] front[j]).id by {
            assert(front[i] == stored[i] && front[j] == stored[j]);
        }
        lemma_loaded_as_stored(front);
        assert(!has_id(front, stored.last().id)) by {
            if has_id(front, stored.last().id) {
                let k = choose|k: int|
                    0 <= k < front.len() && (#[trigger] front[k]).id == stored.last().id;
                assert(front[k] == stored[k]);
                assert(stored[k].id != stored[stored.len() - 1].id);
            }
        }
        assert(front.push(stored.last()) =~= stored);
    }
}

/// A registration keeps identifiers apart, and paths too where they were
/// apart before.
pub proof fn lemma_registration_keeps_apart(
    records: Seq<ProjectMetadataView>,
    record: ProjectMetadataView,
)
    requires
        ids_distinct(records),
    ensures
        ids_distinct(registration(records, record).0),
        paths_distinct(records) ==> paths_distinct(registration(records, record).0),
{
    lemma_without_keeps(records, record.id);
    if !has_path(records, record.path) {
        let rest = without(records, record.id);
        let after = rest.push(record);
        assert forall|i: int, j: int| 0 <= i < j < after.len() implies (#[trigger] after[i]).id != (
        #[trigger] after[j]).id by {
            assert(after[i] == rest[i]);
            if j < rest.len() {
                assert(after[j] == rest[j]);
            }
        }
        if paths_distinct(records) {
            assert forall|i: int, j: int| 0 <= i < j < after.len() implies (#[trigger] after[i]).path
                != (#[trigger] after[j]).path by {
                assert(after[i] == rest[i]);
                if j < rest.len() {
                    assert(after[j] == rest[j]);
                } else {
                    assert(has_path(rest, rest[i].path));
                }
            }
        }
    }
}

/// A path is registered once: after a registration at a path succeeded, a
/// second registration at that path is refused as already registered, and
/// the registry stays as the first left it.
pub proof fn lemma_path_registered_once(
    records: Seq<ProjectMetadataView>,
    first: ProjectMetadataView,
    second: ProjectMetadataView,
)
    requires
        ids_distinct(records),
        first.path == second.path,
    ensures
        registration(registration(records, first).0, second) == (
            registration(records, first).0,
            Err::<ProjectMetadataView, ProjectErrorView>(
                ProjectErrorView::ProjectAlreadyExists(second.path),
            ),
        ),
{
    let after = registration(records, first).0;
    if !has_path(records, first.path) {
        let rest = without(records, first.id);
        assert(after[rest.len() as int] == first);
        assert(has_path(after, first.path));
    }
}

/// A registration under an identifier that no record has puts the new
/// record behind the others and leaves every other record as it was.
pub proof fn lemma_registration_of_fresh(
    records: Seq<ProjectMetadataView>,
    record: ProjectMetadataView,
)
    requires
        !has_path(records, record.path),
        !has_id(records, record.id),
    ensures
        registration(records, record) == (
            records.push(record),
            Ok::<ProjectMetadataView, ProjectErrorView>(record),
        ),
{
}

/// Two registrations at different paths, one after the other, both succeed
/// where neither path was registered before and each identifier is one that
/// no record has when it is given. Both records are then among the records,
/// behind all that were there before, and none of those is lost or changed.
pub proof fn lemma_two_registrations_both_listed(
    records: Seq<ProjectMetadataView>,
    first: ProjectMetadataView,
    second: ProjectMetadataView,
)
    requires
        first.path != second.path,
        !has_path(records, first.path),
        !has_path(records, second.path),
        !has_id(records, first.id),
        !has_id(records.push(first), second.id),
    ensures
        registration(records, first) == (
            records.push(first),
            Ok::<ProjectMetadataView, ProjectErrorView>(first),
        ),
        registration(records.push(first), second) == (
            records.push(first).push(second),
            Ok::<ProjectMetadataView, ProjectErrorView>(second),
        ),
        first.id != second.id,
        records.push(first).push(second).len() == records.len() + 2,
        forall|k: int|
            0 <= k < records.len() ==> #[trigger] records.push(first).push(second)[k]
                == records[k],
{
    let after = records.push(first);
    assert(after[records.len() as int] == first);
    assert(!has_path(after, second.path)) by {
        if has_path(after, second.path) {
            let k = choose|k: int| 0 <= k < after.len() && (#[trigger] after[k]).path == second.path;
            if k < records.len() {
                assert(after[k] == records[k]);
                assert(has_path(records, second.path));
            }
        }
    }
    lemma_registration_of_fresh(records, first);
    lemma_registration_of_fresh(after, second);
}

} // verus!
