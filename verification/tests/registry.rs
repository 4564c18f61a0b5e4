use director_gateway::registry::identifier::serial_id;
use director_gateway::registry::manager::{
    ProjectError, ProjectManager, ProjectMetadata, Timestamp,
};
use director_gateway::registry::service::{
    get_engine_info, list_projects, lock_fault, new_engine_id, open_project, project_info,
    register_project, unregister_project,
};
use director_gateway::fault::FaultCode;

fn at(secs: i64) -> Timestamp {
    Timestamp { secs, nanos: 500 }
}

fn record(id: &str, path: &str) -> ProjectMetadata {
    ProjectMetadata {
        id: id.to_string(),
        name: format!("name of {}", id),
        path: path.to_string(),
        file_gateway_id: "gw".to_string(),
        created_at: at(1),
        modified_at: at(2),
    }
}

fn empty() -> ProjectManager {
    ProjectManager::new("/data/projects.json".to_string(), None)
}

fn ids(m: &ProjectManager) -> Vec<String> {
    m.list_projects().into_iter().map(|p| p.id).collect()
}

#[test]
fn error_messages_of_the_registry() {
    assert_eq!(ProjectError::IoError("x".to_string()).message(), "Ошибка ввода-вывода: x");
    assert_eq!(
        ProjectError::ProjectAlreadyExists("/p".to_string()).message(),
        "Проект уже зарегистрирован: /p"
    );
    assert_eq!(ProjectError::ProjectNotFound("id".to_string()).message(), "Проект не найден: id");
    assert_eq!(ProjectError::SerializationError("x".to_string()).message(), "Ошибка сериализации: x");
    assert_eq!(
        ProjectError::DataDirNotFound.message(),
        "Не удалось определить директорию данных приложения"
    );
}

#[test]
fn new_registry_is_empty() {
    let m = empty();
    assert!(m.list_projects().is_empty());
    assert_eq!(m.index_path().as_str(), "/data/projects.json");
}

#[test]
fn registration_makes_a_record() {
    let mut m = empty();
    let r = m.register_with("Demo", "/tmp/x/Demo", "gw-1", "id-1".to_string(), at(100)).expect("new path");
    assert_eq!(r.id, "id-1");
    assert_eq!(r.name, "Demo");
    assert_eq!(r.path, "/tmp/x/Demo");
    assert_eq!(r.file_gateway_id, "gw-1");
    assert_eq!(r.created_at, at(100));
    assert_eq!(r.modified_at, at(100));
    let all = m.list_projects();
    assert_eq!(all.len(), 1);
    assert_eq!(all[0].id, "id-1");
    assert_eq!(all[0].path, "/tmp/x/Demo");
}

#[test]
fn second_registration_at_a_path_is_refused_and_changes_nothing() {
    let mut m = empty();
    m.register_with("Demo", "/tmp/x/Demo", "gw", "id-1".to_string(), at(1)).expect("new path");
    match m.register_with("Other", "/tmp/x/Demo", "gw", "id-2".to_string(), at(2)) {
        Err(ProjectError::ProjectAlreadyExists(path)) => assert_eq!(path, "/tmp/x/Demo"),
        _ => panic!("a registered path is refused"),
    }
    let all = m.list_projects();
    assert_eq!(all.len(), 1);
    assert_eq!(all[0].id, "id-1");
    assert_eq!(all[0].name, "Demo");
    assert_eq!(all[0].modified_at, at(1));
    match m.register_project("Third", "/tmp/x/Demo", "gw") {
        Err(ProjectError::ProjectAlreadyExists(path)) => assert_eq!(path, "/tmp/x/Demo"),
        _ => panic!("a registered path is refused"),
    }
    assert_eq!(ids(&m), vec!["id-1"]);
}

#[test]
fn paths_are_compared_as_given() {
    let mut m = empty();
    m.register_with("a", "/tmp/x/Demo", "gw", "1".to_string(), at(1)).expect("new path");
    m.register_with("b", "/tmp/x/Demo/", "gw", "2".to_string(), at(1)).expect("another text");
    m.register_with("c", "/tmp/x/demo", "gw", "3".to_string(), at(1)).expect("another text");
    assert_eq!(ids(&m), vec!["1", "2", "3"]);
}

#[test]
fn two_registrations_are_both_listed() {
    for swap in [false, true] {
        let mut m = empty();
        let (first, second) = if swap { (("B", "/p/b"), ("A", "/p/a")) } else { (("A", "/p/a"), ("B", "/p/b")) };
        let a = m.register_project(first.0, first.1, "gw").expect("new path");
        let b = m.register_project(second.0, second.1, "gw").expect("new path");
        assert_ne!(a.id, b.id);
        let all = m.list_projects();
        assert_eq!(all.len(), 2);
        assert!(all.iter().any(|p| p.id == a.id && p.path == first.1 && p.name == first.0));
        assert!(all.iter().any(|p| p.id == b.id && p.path == second.1 && p.name == second.0));
    }
}

#[test]
fn registration_stamps_both_times_alike() {
    let mut m = empty();
    let r = m.register_project("Demo", "/p/demo", "gw-7").expect("new path");
    assert_eq!(r.created_at, r.modified_at);
    assert!(r.created_at.secs > 1_600_000_000);
    assert_eq!(r.id.len(), 36);
    assert_eq!(r.file_gateway_id, "gw-7");
}

#[test]
fn registration_under_a_taken_identifier_replaces_the_record() {
    let mut m = empty();
    m.register_with("a", "/p/a", "gw", "same".to_string(), at(1)).expect("new path");
    m.register_with("b", "/p/b", "gw", "other".to_string(), at(1)).expect("new path");
    m.register_with("c", "/p/c", "gw", "same".to_string(), at(2)).expect("new path");
    let all = m.list_projects();
    assert_eq!(all.len(), 2);
    assert_eq!(all[0].id, "other");
    assert_eq!(all[1].id, "same");
    assert_eq!(all[1].path, "/p/c");
}

#[test]
fn opening_touches_the_time_of_change() {
    let mut m = empty();
    m.register_with("a", "/p/a", "gw", "1".to_string(), at(10)).expect("new path");
    m.register_with("b", "/p/b", "gw", "2".to_string(), at(11)).expect("new path");
    let r = m.open_with("1", at(99)).expect("registered");
    assert_eq!(r.id, "1");
    assert_eq!(r.created_at, at(10));
    assert_eq!(r.modified_at, at(99));
    let all = m.list_projects();
    assert_eq!(all[0].modified_at, at(99));
    assert_eq!(all[0].created_at, at(10));
    assert_eq!(all[1].modified_at, at(11));
    let r = m.open_project("2").expect("registered");
    assert_eq!(r.id, "2");
    assert!(r.modified_at.secs > 1_600_000_000);
    assert_eq!(r.created_at, at(11));
}

#[test]
fn opening_an_unknown_project_fails() {
    let mut m = empty();
    m.register_with("a", "/p/a", "gw", "1".to_string(), at(10)).expect("new path");
    match m.open_with("nope", at(5)) {
        Err(ProjectError::ProjectNotFound(id)) => assert_eq!(id, "nope"),
        _ => panic!("an unknown identifier is refused"),
    }
    match m.open_project("nope") {
        Err(ProjectError::ProjectNotFound(id)) => assert_eq!(id, "nope"),
        _ => panic!("an unknown identifier is refused"),
    }
    assert_eq!(m.list_projects()[0].modified_at, at(10));
}

#[test]
fn unregistering_removes_the_record() {
    let mut m = empty();
    m.register_with("a", "/p/a", "gw", "1".to_string(), at(1)).expect("new path");
    m.register_with("b", "/p/b", "gw", "2".to_string(), at(1)).expect("new path");
    m.register_with("c", "/p/c", "gw", "3".to_string(), at(1)).expect("new path");
    assert!(m.unregister_project("2").is_ok());
    assert_eq!(ids(&m), vec!["1", "3"]);
    match m.unregister_project("2") {
        Err(ProjectError::ProjectNotFound(id)) => assert_eq!(id, "2"),
        _ => panic!("an unknown identifier is refused"),
    }
    assert_eq!(ids(&m), vec!["1", "3"]);
    m.register_with("again", "/p/b", "gw", "4".to_string(), at(2)).expect("the path is free again");
    assert_eq!(ids(&m), vec!["1", "3", "4"]);
}

#[test]
fn loading_keeps_the_later_of_two_records_with_one_identifier() {
    let stored = vec![record("a", "/p/a"), record("b", "/p/b"), record("a", "/p/a2")];
    let m = ProjectManager::new("/data/projects.json".to_string(), Some(stored));
    let all = m.list_projects();
    assert_eq!(all.len(), 2);
    assert_eq!(all[0].id, "b");
    assert_eq!(all[1].id, "a");
    assert_eq!(all[1].path, "/p/a2");
    let mut m = m;
    m.load_projects_index(vec![record("z", "/p/z")]);
    assert_eq!(ids(&m), vec!["z"]);
    assert_eq!(m.index_path().as_str(), "/data/projects.json");
}

#[test]
fn index_location() {
    match ProjectManager::index_location_in(None) {
        Err(ProjectError::DataDirNotFound) => {}
        _ => panic!("without a data directory there is no place"),
    }
    let loc = ProjectManager::index_location_in(Some("/home/u/.local/share/directorengine".to_string()))
        .ok()
        .expect("a place");
    assert_eq!(loc.data_dir, "/home/u/.local/share/directorengine");
    assert_eq!(loc.index_path, "/home/u/.local/share/directorengine/projects.json");
    if let Ok(loc) = ProjectManager::index_location() {
        assert!(loc.index_path.ends_with("projects.json"));
        assert!(loc.index_path.starts_with(loc.data_dir.as_str()));
    }
}

#[test]
fn change_stands_when_writing_fails() {
    let mut m = empty();
    let r = m.register_with("a", "/p/a", "gw", "1".to_string(), at(1)).expect("new path");
    match ProjectManager::persisted(r, Err(ProjectError::IoError("disk full".to_string()))) {
        Err(ProjectError::IoError(text)) => assert_eq!(text, "disk full"),
        _ => panic!("a failed write is reported"),
    }
    assert_eq!(ids(&m), vec!["1"]);
    assert_eq!(ProjectManager::persisted(7u8, Ok(())).ok(), Some(7u8));
}

#[test]
fn record_copy_is_equal() {
    let r = record("a", "/p/a");
    let c = r.duplicate();
    assert_eq!(c.id, r.id);
    assert_eq!(c.name, r.name);
    assert_eq!(c.path, r.path);
    assert_eq!(c.file_gateway_id, r.file_gateway_id);
    assert_eq!(c.created_at, r.created_at);
    assert_eq!(c.modified_at, r.modified_at);
}

#[test]
fn service_reports_records_in_seconds() {
    let info = project_info(&record("a", "/p/a"));
    assert_eq!(info.id, "a");
    assert_eq!(info.name, "name of a");
    assert_eq!(info.path, "/p/a");
    assert_eq!(info.file_gateway_id, "gw");
    assert_eq!(info.created_at, 1);
    assert_eq!(info.modified_at, 2);
    let list = list_projects(&vec![record("a", "/p/a"), record("b", "/p/b")]);
    assert_eq!(list.projects.len(), 2);
    assert_eq!(list.projects[0].id, "a");
    assert_eq!(list.projects[1].path, "/p/b");
}

#[test]
fn service_answers() {
    let ok = register_project(Ok(record("a", "/p/a")));
    assert!(ok.success);
    assert_eq!(ok.error_message, "");
    assert_eq!(ok.project.expect("the record").id, "a");
    let no = register_project(Err(ProjectError::ProjectAlreadyExists("/p/a".to_string())));
    assert!(!no.success);
    assert_eq!(no.error_message, "Проект уже зарегистрирован: /p/a");
    assert!(no.project.is_none());

    let ok = open_project(Ok(record("a", "/p/a")));
    assert!(ok.success);
    assert_eq!(ok.project.expect("the record").modified_at, 2);
    let no = open_project(Err(ProjectError::ProjectNotFound("zz".to_string())));
    assert!(!no.success);
    assert_eq!(no.error_message, "Проект не найден: zz");
    assert!(no.project.is_none());

    let ok = unregister_project(Ok(()));
    assert!(ok.success);
    assert_eq!(ok.error_message, "");
    let no = unregister_project(Err(ProjectError::IoError("ro".to_string())));
    assert!(!no.success);
    assert_eq!(no.error_message, "Ошибка ввода-вывода: ro");
}

#[test]
fn engine_info() {
    let info = get_engine_info("engine-1", "0.1.0");
    assert_eq!(info.engine_id, "engine-1");
    assert_eq!(info.version, "0.1.0");
    assert_eq!(info.supported_formats, vec!["mp4", "mov", "avi", "mkv", "webm"]);
    let id = new_engine_id();
    assert_ne!(id, new_engine_id());
    assert_eq!(id.len(), 36);
    for (i, c) in id.chars().enumerate() {
        if i == 8 || i == 13 || i == 18 || i == 23 {
            assert_eq!(c, '-');
        } else {
            assert!(c.is_ascii_digit() || ('a'..='f').contains(&c));
        }
    }
    assert_eq!(id.chars().nth(14), Some('4'));
    let f = lock_fault();
    assert_eq!(f.code, FaultCode::Internal);
    assert_eq!(f.message, "Внутренняя ошибка сервера");
}

#[test]
fn identifiers_of_the_series() {
    assert_eq!(serial_id(0), "00000000-0000-4000-8000-000000000000");
    assert_eq!(serial_id(1), "00000000-0000-4000-8000-000000000001");
    assert_eq!(serial_id(255), "00000000-0000-4000-8000-0000000000ff");
    assert_eq!(serial_id(0xdead_beef), "00000000-0000-4000-8000-0000deadbeef");
    assert_eq!(serial_id(0x1_0000_0000), "00000001-0000-4000-8000-000000000000");
    assert_eq!(serial_id(0x0123_4567_89ab_cdef), "01234567-0000-4000-8000-000089abcdef");
    assert_eq!(serial_id(u64::MAX), "ffffffff-0000-4000-8000-0000ffffffff");
}

#[test]
fn registration_gives_an_identifier_that_no_record_has() {
    let stored = vec![
        record("00000000-0000-4000-8000-000000000000", "/p/0"),
        record("00000000-0000-4000-8000-000000000001", "/p/1"),
    ];
    let mut m = ProjectManager::new("/data/projects.json".to_string(), Some(stored));
    let mut seen: Vec<String> = ids(&m);
    for i in 0..50 {
        let path = format!("/q/{}", i);
        let r = m.register_project("n", &path, "gw").expect("new path");
        assert!(!seen.contains(&r.id));
        assert_eq!(r.id.len(), 36);
        assert_eq!(r.id.chars().nth(14), Some('4'));
        seen.push(r.id);
        let all = m.list_projects();
        assert_eq!(all.len(), seen.len());
        assert_eq!(all.last().expect("the new record").path, path);
        assert_eq!(ids(&m), seen);
    }
}
