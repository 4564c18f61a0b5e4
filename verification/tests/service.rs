use director_gateway::fault::FaultCode;
use director_gateway::service::responses::{
    browse_directory, create_directory, delete, delete_target, entry_to_wire, get_file_info,
    get_storage_info, init_project_structure, DeleteTarget,
};
use director_gateway::storage::error::StorageError;
use director_gateway::storage::types::{DirectoryListing, ProjectStructure, StorageEntry, StorageInfo};

fn entry(name: &str, dir: bool) -> StorageEntry {
    StorageEntry {
        name: name.to_string(),
        path: format!("/d/{}", name),
        is_directory: dir,
        size: if dir { 0 } else { 42 },
        created_at: 5,
        modified_at: 6,
        mime_type: if dir { "inode/directory".to_string() } else { "video/mp4".to_string() },
        metadata: vec![("k".to_string(), "v".to_string())],
    }
}

#[test]
fn entry_as_the_service_reports_it() {
    let e = entry_to_wire(entry("a.mp4", false));
    assert_eq!(e.name, "a.mp4");
    assert_eq!(e.path, "/d/a.mp4");
    assert!(!e.is_directory);
    assert_eq!(e.size, 42);
    assert_eq!(e.created_at, 5);
    assert_eq!(e.modified_at, 6);
    assert_eq!(e.mime_type, "video/mp4");
}

#[test]
fn storage_info_answer() {
    let info = StorageInfo {
        id: "store".to_string(),
        storage_type: "local".to_string(),
        hostname: "studio".to_string(),
        os: "linux".to_string(),
        home_directory: "/home/u".to_string(),
        default_projects_path: "/home/u/Videos".to_string(),
        root_paths: vec!["/".to_string()],
        total_space: 9,
        free_space: 4,
    };
    let r = get_storage_info(Ok(info)).ok().expect("answered");
    assert_eq!(r.storage_id, "store");
    assert_eq!(r.hostname, "studio");
    assert_eq!(r.os, "linux");
    assert_eq!(r.home_directory, "/home/u");
    assert_eq!(r.default_projects_path, "/home/u/Videos");
    assert_eq!(r.root_paths, vec!["/"]);
    assert_eq!(r.total_space, 9);
    assert_eq!(r.free_space, 4);
    let f = get_storage_info(Err(StorageError::NotSupported)).err().expect("a fault");
    assert_eq!(f.code, FaultCode::Internal);
    assert_eq!(f.message, "Провайдер не поддерживает эту операцию");
}

#[test]
fn browse_answer() {
    let listing = DirectoryListing {
        current_path: "/d".to_string(),
        parent_path: "/".to_string(),
        entries: vec![entry("sub", true), entry("a.mp4", false)],
    };
    let r = browse_directory(Ok(listing));
    assert!(r.success);
    assert_eq!(r.error_message, "");
    assert_eq!(r.current_path, "/d");
    assert_eq!(r.parent_path, "/");
    assert_eq!(r.entries.len(), 2);
    assert_eq!(r.entries[0].name, "sub");
    assert_eq!(r.entries[1].name, "a.mp4");
    let r = browse_directory(Err(StorageError::NotFound("/d".to_string())));
    assert!(!r.success);
    assert_eq!(r.error_message, "Путь не существует: /d");
    assert_eq!(r.current_path, "");
    assert_eq!(r.parent_path, "");
    assert!(r.entries.is_empty());
}

#[test]
fn create_directory_answer() {
    let r = create_directory(Ok("/d/new".to_string()));
    assert!(r.success);
    assert_eq!(r.created_path, "/d/new");
    assert_eq!(r.error_message, "");
    let r = create_directory(Err(StorageError::Io("no parent".to_string())));
    assert!(!r.success);
    assert_eq!(r.created_path, "");
    assert_eq!(r.error_message, "Ошибка ввода-вывода: no parent");
}

#[test]
fn removal_goes_by_what_stands_at_the_path() {
    assert!(matches!(delete_target(Ok(entry("sub", true))), DeleteTarget::Directory));
    assert!(matches!(delete_target(Ok(entry("a.mp4", false))), DeleteTarget::File));
    match delete_target(Err(StorageError::NotFound("/x".to_string()))) {
        DeleteTarget::Refused(StorageError::NotFound(path)) => assert_eq!(path, "/x"),
        _ => panic!("the backend's error ends the removal"),
    }
    let r = delete(Ok(()));
    assert!(r.success);
    assert_eq!(r.error_message, "");
    let r = delete(Err(StorageError::Io("directory not empty".to_string())));
    assert!(!r.success);
    assert_eq!(r.error_message, "Ошибка ввода-вывода: directory not empty");
    let r = delete(Err(StorageError::NotFound("/x".to_string())));
    assert!(!r.success);
    assert_eq!(r.error_message, "Путь не существует: /x");
}

#[test]
fn file_info_answer() {
    let r = get_file_info(Ok(entry("a.mp4", false)));
    assert!(r.success);
    assert_eq!(r.file_info.expect("the entry").size, 42);
    let r = get_file_info(Err(StorageError::NotFound("/x".to_string())));
    assert!(!r.success);
    assert_eq!(r.error_message, "Путь не существует: /x");
    assert!(r.file_info.is_none());
}

#[test]
fn project_structure_answer() {
    let r = init_project_structure(Ok(ProjectStructure::layout("/tmp/x", "Demo")));
    assert!(r.success);
    assert_eq!(r.error_message, "");
    assert_eq!(r.project_path, "/tmp/x/Demo");
    assert_eq!(r.assets_path, "/tmp/x/Demo/assets");
    assert_eq!(r.video_path, "/tmp/x/Demo/assets/video");
    assert_eq!(r.audio_path, "/tmp/x/Demo/assets/audio");
    assert_eq!(r.images_path, "/tmp/x/Demo/assets/images");
    assert_eq!(r.timeline_path, "/tmp/x/Demo/timeline");
    assert_eq!(r.exports_path, "/tmp/x/Demo/exports");
    let r = init_project_structure(Err(StorageError::AlreadyExists("/tmp/x/Demo".to_string())));
    assert!(!r.success);
    assert_eq!(r.error_message, "Файл уже существует: /tmp/x/Demo");
    assert_eq!(r.project_path, "");
    assert_eq!(r.exports_path, "");
}
