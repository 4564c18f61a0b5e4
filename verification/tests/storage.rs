use director_gateway::storage::config::StorageConfig;
use director_gateway::storage::error::StorageError;
use director_gateway::storage::local::{stamp, Creation, LocalStorageProvider, Removal};
use director_gateway::storage::probe::{DiskStat, EntryMetadata, PathProbe, RawEntry};
use director_gateway::storage::provider::{
    copy_downloaded, copy_uploaded, rename_copied, rename_deleted, CopyStep, RenameStep,
};
use director_gateway::storage::types::{ProjectStructure, UploadResult};

fn provider(show_hidden: bool) -> LocalStorageProvider {
    let mut c = StorageConfig::local();
    c.id = Some("store".to_string());
    c.default_projects_path = Some("/projects".to_string());
    c.show_hidden = show_hidden;
    LocalStorageProvider::new(&c, None).expect("always succeeds")
}

fn dir_meta() -> EntryMetadata {
    EntryMetadata { is_file: false, is_dir: true, len: 4096, created_secs: Some(10), modified_secs: Some(20) }
}

fn file_meta(len: u64) -> EntryMetadata {
    EntryMetadata { is_file: true, is_dir: false, len, created_secs: Some(1), modified_secs: Some(2) }
}

fn raw(dir: &str, name: &str, metadata: Option<EntryMetadata>) -> RawEntry {
    RawEntry { name: name.to_string(), path: format!("{}/{}", dir, name), metadata }
}

const MISSING: PathProbe = PathProbe { exists: false, is_dir: false };
const FILE: PathProbe = PathProbe { exists: true, is_dir: false };
const DIRECTORY: PathProbe = PathProbe { exists: true, is_dir: true };

#[test]
fn error_messages() {
    assert_eq!(StorageError::NotFound("/a".to_string()).message(), "Путь не существует: /a");
    assert_eq!(
        StorageError::NotADirectory("/a".to_string()).message(),
        "Путь не является директорией: /a"
    );
    assert_eq!(StorageError::NotAFile("/a".to_string()).message(), "Путь не является файлом: /a");
    assert_eq!(StorageError::AlreadyExists("/a".to_string()).message(), "Файл уже существует: /a");
    assert_eq!(StorageError::PermissionDenied("/a".to_string()).message(), "Недостаточно прав: /a");
    assert_eq!(StorageError::io("disk full".to_string()).message(), "Ошибка ввода-вывода: disk full");
    assert_eq!(StorageError::Config("bad".to_string()).message(), "Ошибка конфигурации: bad");
    assert_eq!(StorageError::NotSupported.message(), "Провайдер не поддерживает эту операцию");
}

#[test]
fn empty_path_means_home() {
    assert_eq!(LocalStorageProvider::resolve_path_from("", Some("/home/u".to_string())), "/home/u");
    assert_eq!(LocalStorageProvider::resolve_path_from("", None), "/");
    assert_eq!(
        LocalStorageProvider::resolve_path_from("/var/data", Some("/home/u".to_string())),
        "/var/data"
    );
}

#[test]
fn resolve_path_keeps_a_given_path() {
    let p = provider(false);
    assert_eq!(p.resolve_path("/var/data"), "/var/data");
    assert_eq!(p.resolve_path("relative/x"), "relative/x");
    assert!(!p.resolve_path("").is_empty());
    assert_eq!(p.resolve_path(""), p.get_home_directory());
}

#[test]
fn entry_of_a_file() {
    let p = provider(false);
    let e = p.entry_from_metadata("clip.mp4".to_string(), "/m/clip.mp4".to_string(), file_meta(1234));
    assert_eq!(e.name, "clip.mp4");
    assert_eq!(e.path, "/m/clip.mp4");
    assert!(!e.is_directory);
    assert_eq!(e.size, 1234);
    assert_eq!(e.created_at, 1);
    assert_eq!(e.modified_at, 2);
    assert_eq!(e.mime_type, "video/mp4");
    assert!(e.metadata.is_empty());
}

#[test]
fn entry_of_a_file_without_known_extension() {
    let p = provider(false);
    let e = p.entry_from_metadata("blob".to_string(), "/m/blob".to_string(), file_meta(1));
    assert_eq!(e.mime_type, "application/octet-stream");
    let e = p.entry_from_metadata("x.png".to_string(), "/m/x.png".to_string(), file_meta(1));
    assert_eq!(e.mime_type, "image/png");
}

#[test]
fn entry_of_a_directory() {
    let p = provider(false);
    let e = p.entry_from_metadata("assets".to_string(), "/m/assets".to_string(), dir_meta());
    assert!(e.is_directory);
    assert_eq!(e.size, 0);
    assert_eq!(e.mime_type, "inode/directory");
    assert_eq!(e.created_at, 10);
    assert_eq!(e.modified_at, 20);
}

#[test]
fn entry_without_times() {
    let p = provider(false);
    let m = EntryMetadata { is_file: true, is_dir: false, len: 5, created_secs: None, modified_secs: None };
    let e = p.entry_from_metadata("a.txt".to_string(), "/a.txt".to_string(), m);
    assert_eq!(e.created_at, 0);
    assert_eq!(e.modified_at, 0);
    assert_eq!(e.mime_type, "text/plain");
}

#[test]
fn time_stamps_wrap_beyond_the_range() {
    assert_eq!(stamp(None), 0);
    assert_eq!(stamp(Some(0)), 0);
    assert_eq!(stamp(Some(1_700_000_000)), 1_700_000_000);
    assert_eq!(stamp(Some(i64::MAX as u64)), i64::MAX);
    assert_eq!(stamp(Some(u64::MAX)), -1);
}

#[test]
fn listing_checks_the_directory() {
    let p = provider(false);
    match p.check_directory("/nowhere", MISSING) {
        Err(StorageError::NotFound(path)) => assert_eq!(path, "/nowhere"),
        _ => panic!("a missing path is not found"),
    }
    match p.check_directory("/etc/hosts", FILE) {
        Err(StorageError::NotADirectory(path)) => assert_eq!(path, "/etc/hosts"),
        _ => panic!("a file is not a directory"),
    }
    assert!(p.check_directory("/etc", DIRECTORY).is_ok());
}

#[test]
fn listing_orders_directories_first_then_by_name_without_case() {
    let p = provider(false);
    let children = vec![
        raw("/d", "zeta.txt", Some(file_meta(1))),
        raw("/d", "Beta", Some(dir_meta())),
        raw("/d", "alpha.txt", Some(file_meta(2))),
        raw("/d", "alpha", Some(dir_meta())),
        raw("/d", "Gamma.txt", Some(file_meta(3))),
        raw("/d", "delta", Some(dir_meta())),
    ];
    let listing = p.list_directory("/d", children);
    let names: Vec<&str> = listing.entries.iter().map(|e| e.name.as_str()).collect();
    assert_eq!(names, vec!["alpha", "Beta", "delta", "alpha.txt", "Gamma.txt", "zeta.txt"]);
    assert_eq!(listing.current_path, "/d");
    assert_eq!(listing.parent_path, "/");
}

#[test]
fn listing_reports_the_parent() {
    let p = provider(false);
    assert_eq!(p.list_directory("/a/b/c", Vec::new()).parent_path, "/a/b");
    assert_eq!(p.list_directory("/", Vec::new()).parent_path, "");
    assert!(p.list_directory("/", Vec::new()).entries.is_empty());
}

#[test]
fn listing_leaves_out_hidden_entries_unless_asked() {
    let children = || {
        vec![
            raw("/d", ".git", Some(dir_meta())),
            raw("/d", "src", Some(dir_meta())),
            raw("/d", ".env", Some(file_meta(9))),
            raw("/d", "a.rs", Some(file_meta(9))),
        ]
    };
    let shown = provider(false).list_directory("/d", children());
    let names: Vec<&str> = shown.entries.iter().map(|e| e.name.as_str()).collect();
    assert_eq!(names, vec!["src", "a.rs"]);
    let all = provider(true).list_directory("/d", children());
    let names: Vec<&str> = all.entries.iter().map(|e| e.name.as_str()).collect();
    assert_eq!(names, vec![".git", "src", ".env", "a.rs"]);
}

#[test]
fn listing_leaves_out_what_could_not_be_read() {
    let p = provider(false);
    let children = vec![raw("/d", "gone", None), raw("/d", "here", Some(file_meta(1)))];
    let listing = p.list_directory("/d", children);
    assert_eq!(listing.entries.len(), 1);
    assert_eq!(listing.entries[0].name, "here");
    assert_eq!(listing.entries[0].path, "/d/here");
}

#[test]
fn entry_info() {
    let p = provider(false);
    match p.get_entry_info("/x/y.mov", "/x/y.mov", MISSING, Ok(file_meta(1))) {
        Err(StorageError::NotFound(path)) => assert_eq!(path, "/x/y.mov"),
        _ => panic!("a missing path is not found"),
    }
    match p.get_entry_info("/x/y.mov", "/x/y.mov", FILE, Err("denied".to_string())) {
        Err(StorageError::Io(text)) => assert_eq!(text, "denied"),
        _ => panic!("the medium's failure is handed on"),
    }
    let e = p.get_entry_info("/x/y.mov", "/x/y.mov", FILE, Ok(file_meta(77))).expect("exists");
    assert_eq!(e.name, "y.mov");
    assert_eq!(e.path, "/x/y.mov");
    assert_eq!(e.size, 77);
    assert_eq!(e.mime_type, "video/quicktime");
    let e = p.get_entry_info("", "/", DIRECTORY, Ok(dir_meta())).expect("exists");
    assert_eq!(e.name, "");
    assert_eq!(e.path, "/");
    assert!(e.is_directory);
}

#[test]
fn entry_info_reports_the_path_as_given() {
    let p = provider(false);
    match p.get_entry_info("", "/home/u", MISSING, Err(String::new())) {
        Err(StorageError::NotFound(path)) => assert_eq!(path, ""),
        _ => panic!("a missing path is not found"),
    }
}

#[test]
fn creating_directories() {
    let p = provider(false);
    assert_eq!(p.create_directory("/a/b", true), Creation::WithAncestors);
    assert_eq!(p.create_directory("/a/b", false), Creation::Alone);
    assert_eq!(p.directory_created("/a/b", Ok(())).expect("made"), "/a/b");
    match p.directory_created("/a/b", Err("no parent".to_string())) {
        Err(StorageError::Io(text)) => assert_eq!(text, "no parent"),
        _ => panic!("the medium's failure is handed on"),
    }
}

#[test]
fn removing_directories() {
    let p = provider(false);
    match p.delete_directory("/gone", MISSING, true) {
        Err(StorageError::NotFound(path)) => assert_eq!(path, "/gone"),
        _ => panic!("a missing path is not found"),
    }
    match p.delete_directory("/file", FILE, true) {
        Err(StorageError::NotADirectory(path)) => assert_eq!(path, "/file"),
        _ => panic!("a file is not a directory"),
    }
    assert_eq!(p.delete_directory("/dir", DIRECTORY, true).expect("may go"), Removal::Subtree);
    assert_eq!(p.delete_directory("/dir", DIRECTORY, false).expect("may go"), Removal::EmptyDirectory);
}

#[test]
fn removing_files() {
    let p = provider(false);
    match p.delete_file("/gone", MISSING) {
        Err(StorageError::NotFound(path)) => assert_eq!(path, "/gone"),
        _ => panic!("a missing path is not found"),
    }
    match p.delete_file("/dir", DIRECTORY) {
        Err(StorageError::NotAFile(path)) => assert_eq!(path, "/dir"),
        _ => panic!("a directory is not a file"),
    }
    assert!(p.delete_file("/file", FILE).is_ok());
}

#[test]
fn upload_refuses_an_existing_file_unless_overwriting() {
    let p = provider(false);
    let data = bytes::Bytes::from(vec![1u8, 2, 3, 4, 5]);
    match p.upload_bytes("/a/b/c.bin", &data, true, false) {
        Err(StorageError::AlreadyExists(path)) => assert_eq!(path, "/a/b/c.bin"),
        _ => panic!("an existing file is not replaced"),
    }
    let plan = p.upload_bytes("/a/b/c.bin", &data, true, true).expect("overwrite replaces");
    assert_eq!(plan.parent.as_deref(), Some("/a/b"));
    assert_eq!(plan.result.path, "/a/b/c.bin");
    assert_eq!(plan.result.size, 5);
    assert!(plan.result.checksum.is_none());
    let plan = p.upload_bytes("/a/b/c.bin", &data, false, false).expect("a new file is written");
    assert_eq!(plan.result.size, 5);
    let empty = bytes::Bytes::new();
    let plan = p.upload_bytes("/", &empty, false, false).expect("a new file is written");
    assert!(plan.parent.is_none());
    assert_eq!(plan.result.size, 0);
}

#[test]
fn download_checks_and_wraps_the_content() {
    let p = provider(false);
    match p.download_bytes("/gone", MISSING) {
        Err(StorageError::NotFound(path)) => assert_eq!(path, "/gone"),
        _ => panic!("a missing path is not found"),
    }
    match p.download_bytes("/dir", DIRECTORY) {
        Err(StorageError::NotAFile(path)) => assert_eq!(path, "/dir"),
        _ => panic!("a directory is not a file"),
    }
    assert!(p.download_bytes("/file", FILE).is_ok());
    let b = LocalStorageProvider::downloaded(Ok(vec![9u8, 8, 7])).expect("read");
    assert_eq!(&b[..], &[9u8, 8, 7]);
    match LocalStorageProvider::downloaded(Err("bad sector".to_string())) {
        Err(StorageError::Io(text)) => assert_eq!(text, "bad sector"),
        _ => panic!("the medium's failure is handed on"),
    }
}

#[test]
fn streams_check_the_path() {
    let p = provider(false);
    match p.get_read_stream("/gone", false) {
        Err(StorageError::NotFound(path)) => assert_eq!(path, "/gone"),
        _ => panic!("a missing path is not found"),
    }
    assert!(p.get_read_stream("/file", true).is_ok());
    match p.get_write_stream("/a/file", true, false) {
        Err(StorageError::AlreadyExists(path)) => assert_eq!(path, "/a/file"),
        _ => panic!("an existing file is not replaced"),
    }
    assert_eq!(p.get_write_stream("/a/file", true, true).expect("replaced").as_deref(), Some("/a"));
    assert_eq!(p.get_write_stream("/a/b/file", false, false).expect("new").as_deref(), Some("/a/b"));
}

#[test]
fn project_layout() {
    let s = ProjectStructure::layout("/tmp/x", "Demo");
    assert_eq!(s.project_path, "/tmp/x/Demo");
    assert_eq!(s.assets_path, "/tmp/x/Demo/assets");
    assert_eq!(s.video_path, "/tmp/x/Demo/assets/video");
    assert_eq!(s.audio_path, "/tmp/x/Demo/assets/audio");
    assert_eq!(s.images_path, "/tmp/x/Demo/assets/images");
    assert_eq!(s.timeline_path, "/tmp/x/Demo/timeline");
    assert_eq!(s.exports_path, "/tmp/x/Demo/exports");
    assert_eq!(
        s.directories(),
        vec![
            "/tmp/x/Demo",
            "/tmp/x/Demo/assets",
            "/tmp/x/Demo/assets/video",
            "/tmp/x/Demo/assets/audio",
            "/tmp/x/Demo/assets/images",
            "/tmp/x/Demo/timeline",
            "/tmp/x/Demo/exports",
        ]
    );
}

#[test]
fn project_layout_with_trailing_separator_and_absolute_name() {
    assert_eq!(ProjectStructure::layout("/tmp/x/", "Demo").project_path, "/tmp/x/Demo");
    assert_eq!(ProjectStructure::layout("/tmp/x", "/abs").project_path, "/abs");
}

#[test]
fn project_structure_is_refused_where_the_root_exists() {
    let p = provider(false);
    let layout = ProjectStructure::layout("/tmp/x", "Demo");
    match p.init_project_structure(layout, true) {
        Err(StorageError::AlreadyExists(path)) => assert_eq!(path, "/tmp/x/Demo"),
        _ => panic!("an existing root is refused"),
    }
    let layout = ProjectStructure::layout("/tmp/x", "Demo");
    let s = p.init_project_structure(layout, false).expect("a new root is accepted");
    assert_eq!(s.project_path, "/tmp/x/Demo");
    assert_eq!(s.exports_path, "/tmp/x/Demo/exports");
}

#[test]
fn fresh_project_lists_its_directories() {
    let p = provider(false);
    let s = p
        .init_project_structure(ProjectStructure::layout("/base", "Demo"), false)
        .expect("a new root is accepted");
    let created = s.directories();
    assert_eq!(created.len(), 7);
    let below = |dir: &str| -> Vec<RawEntry> {
        created
            .iter()
            .filter(|d| std::path::Path::new(d.as_str()).parent() == Some(std::path::Path::new(dir)))
            .map(|d| RawEntry {
                name: std::path::Path::new(d.as_str())
                    .file_name()
                    .map(|n| n.to_string_lossy().to_string())
                    .unwrap_or_default(),
                path: d.clone(),
                metadata: Some(dir_meta()),
            })
            .collect()
    };
    let root = p.list_directory("/base/Demo", below("/base/Demo"));
    let assets = p.list_directory("/base/Demo/assets", below("/base/Demo/assets"));
    let names: Vec<&str> = root.entries.iter().map(|e| e.name.as_str()).collect();
    assert_eq!(names, vec!["assets", "exports", "timeline"]);
    let names: Vec<&str> = assets.entries.iter().map(|e| e.name.as_str()).collect();
    assert_eq!(names, vec!["audio", "images", "video"]);
    assert_eq!(root.parent_path, "/base");
    let mut all: Vec<String> = Vec::new();
    for e in root.entries.iter().chain(assets.entries.iter()) {
        assert!(e.is_directory);
        assert_eq!(e.size, 0);
        assert_eq!(e.mime_type, "inode/directory");
        all.push(e.path.clone());
    }
    all.sort();
    let mut six: Vec<String> = created[1..].to_vec();
    six.sort();
    assert_eq!(all, six);
}

#[test]
fn storage_description() {
    let p = provider(false);
    let info = p.describe(
        Some("studio".to_string()),
        "linux",
        Some("/home/u".to_string()),
        vec!["/".to_string(), "/home".to_string()],
        1000,
        400,
    );
    assert_eq!(info.id, "store");
    assert_eq!(info.storage_type, "local");
    assert_eq!(info.hostname, "studio");
    assert_eq!(info.os, "linux");
    assert_eq!(info.home_directory, "/home/u");
    assert_eq!(info.default_projects_path, "/projects");
    assert_eq!(info.root_paths, vec!["/", "/home"]);
    assert_eq!(info.total_space, 1000);
    assert_eq!(info.free_space, 400);
    let info = p.describe(None, "linux", None, Vec::new(), 0, 0);
    assert_eq!(info.hostname, "unknown");
    assert_eq!(info.home_directory, "/");
}

#[test]
fn storage_description_on_this_machine() {
    let p = provider(false);
    let info = p.get_info("linux", vec!["/".to_string()], 10, 5).expect("always succeeds");
    assert_eq!(info.id, "store");
    assert_eq!(info.storage_type, "local");
    assert_eq!(info.os, "linux");
    assert!(!info.hostname.is_empty());
    assert!(!info.home_directory.is_empty());
    assert_eq!(info.root_paths, vec!["/"]);
    assert_eq!(info.total_space, 10);
    assert_eq!(info.free_space, 5);
}

#[test]
fn root_paths() {
    assert_eq!(LocalStorageProvider::get_root_paths(false, Vec::new()), vec!["/"]);
    assert_eq!(LocalStorageProvider::get_root_paths(true, Vec::new()), vec!["/", "/home"]);
    assert_eq!(
        LocalStorageProvider::get_root_paths(true, vec!["/media/usb".to_string(), "/mnt/nas".to_string()]),
        vec!["/", "/home", "/media/usb", "/mnt/nas"]
    );
    assert_eq!(
        LocalStorageProvider::get_root_paths(false, vec!["/mnt/nas".to_string()]),
        vec!["/", "/mnt/nas"]
    );
}

#[test]
fn disk_space() {
    assert_eq!(LocalStorageProvider::get_disk_space(None), (0, 0));
    let stat = DiskStat { blocks: 1000, blocks_available: 250, fragment_size: 4096 };
    assert!(stat.fits());
    assert_eq!(LocalStorageProvider::get_disk_space(Some(stat)), (4_096_000, 1_024_000));
    let huge = DiskStat { blocks: u64::MAX, blocks_available: 1, fragment_size: 2 };
    assert!(!huge.fits());
    let edge = DiskStat { blocks: u64::MAX, blocks_available: u64::MAX, fragment_size: 1 };
    assert!(edge.fits());
    assert_eq!(LocalStorageProvider::get_disk_space(Some(edge)), (u64::MAX, u64::MAX));
}

#[test]
fn copy_is_download_then_upload_without_overwriting() {
    let data = bytes::Bytes::from(vec![1u8, 2, 3]);
    match copy_downloaded("/to", Ok(data.clone())) {
        CopyStep::Upload { destination, data: carried, overwrite } => {
            assert_eq!(destination, "/to");
            assert_eq!(carried, data);
            assert!(!overwrite);
        }
        _ => panic!("a download that succeeded is followed by the upload"),
    }
    match copy_downloaded("/to", Err(StorageError::NotFound("/from".to_string()))) {
        CopyStep::Done(Err(StorageError::NotFound(path))) => assert_eq!(path, "/from"),
        _ => panic!("a download that failed ends the copy"),
    }
    let done = UploadResult { path: "/to".to_string(), size: 3, checksum: None };
    assert!(copy_uploaded(Ok(done)).is_ok());
    match copy_uploaded(Err(StorageError::AlreadyExists("/to".to_string()))) {
        Err(StorageError::AlreadyExists(path)) => assert_eq!(path, "/to"),
        _ => panic!("an upload that failed fails the copy"),
    }
}

#[test]
fn rename_removes_the_source_only_after_the_copy() {
    match rename_copied("/from", Ok(())) {
        RenameStep::DeleteSource(path) => assert_eq!(path, "/from"),
        _ => panic!("the source is removed after the copy"),
    }
    match rename_copied("/from", Err(StorageError::AlreadyExists("/to".to_string()))) {
        RenameStep::Done(Err(StorageError::AlreadyExists(path))) => assert_eq!(path, "/to"),
        _ => panic!("a copy that failed leaves the source"),
    }
    assert!(rename_deleted(Ok(())).is_ok());
    match rename_deleted(Err(StorageError::Io("busy".to_string()))) {
        Err(StorageError::Io(text)) => assert_eq!(text, "busy"),
        _ => panic!("a removal that failed fails the rename"),
    }
}

#[test]
fn listing_keeps_the_order_of_names_that_differ_in_case_only() {
    let p = provider(false);
    let first = p.list_directory(
        "/d",
        vec![raw("/d", "Readme", Some(file_meta(1))), raw("/d", "README", Some(file_meta(2))), raw("/d", "readme", Some(file_meta(3)))],
    );
    let names: Vec<&str> = first.entries.iter().map(|e| e.name.as_str()).collect();
    assert_eq!(names, vec!["Readme", "README", "readme"]);
    let second = p.list_directory(
        "/d",
        vec![raw("/d", "readme", Some(file_meta(3))), raw("/d", "Zed", Some(file_meta(1))), raw("/d", "README", Some(file_meta(2)))],
    );
    let names: Vec<&str> = second.entries.iter().map(|e| e.name.as_str()).collect();
    assert_eq!(names, vec!["readme", "README", "Zed"]);
}

#[test]
fn listing_orders_names_beyond_ascii_by_their_lower_case() {
    let p = provider(false);
    let listing = p.list_directory(
        "/d",
        vec![raw("/d", "Über", Some(dir_meta())), raw("/d", "zebra", Some(dir_meta())), raw("/d", "Äpfel", Some(dir_meta()))],
    );
    let names: Vec<&str> = listing.entries.iter().map(|e| e.name.as_str()).collect();
    assert_eq!(names, vec!["zebra", "Äpfel", "Über"]);
}
