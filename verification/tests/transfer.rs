use director_gateway::fault::{Fault, FaultCode};
use director_gateway::service::transfer::{
    download_file, upload_file, Download, DownloadStep, Upload, UploadStep, BLOCK_SIZE,
};
use director_gateway::storage::error::StorageError;
use director_gateway::storage::types::StorageEntry;
use director_gateway::wire::storage::{
    DownloadData, DownloadFileResponse, UploadData, UploadFileMetadata, UploadFileRequest,
};

fn opening(dir: &str, name: &str, total_size: u64, overwrite: bool) -> UploadFileRequest {
    UploadFileRequest {
        data: Some(UploadData::Metadata(UploadFileMetadata {
            destination_path: dir.to_string(),
            filename: name.to_string(),
            total_size,
            overwrite,
        })),
    }
}

fn fragment(bytes: &[u8]) -> UploadFileRequest {
    UploadFileRequest { data: Some(UploadData::Chunk(bytes.to_vec())) }
}

fn file_entry(name: &str, size: u64) -> StorageEntry {
    StorageEntry {
        name: name.to_string(),
        path: format!("/store/{}", name),
        is_directory: false,
        size,
        created_at: 0,
        modified_at: 0,
        mime_type: "application/octet-stream".to_string(),
        metadata: Vec::new(),
    }
}

/// Runs an upload of `payload`, cut into fragments of `cut` bytes, and gives
/// back what was written and the count that the answer reports.
fn upload(payload: &[u8], cut: usize) -> (Vec<u8>, u64, String) {
    let (mut session, sink) =
        Upload::begin(Some(Ok(opening("/store", "f.bin", payload.len() as u64, false)))).ok().expect("opens");
    assert_eq!(sink.path, "/store/f.bin");
    assert!(!sink.overwrite);
    session = session.opened(Ok(())).ok().expect("sink stands");
    let mut file: Vec<u8> = Vec::new();
    for part in payload.chunks(cut.max(1)) {
        assert!(session.can_take(part.len()));
        match session.frame(Ok(fragment(part))) {
            UploadStep::Write(bytes) => file.extend_from_slice(&bytes),
            _ => panic!("a fragment is written"),
        }
    }
    let answer = session.finish(Ok(())).ok().expect("flushed");
    assert!(answer.success);
    assert_eq!(answer.error_message, "");
    (file, answer.bytes_written, answer.file_path)
}

/// Runs a download of `file` and gives back the bytes of its fragments and
/// the number of fragments.
fn download(file: &[u8]) -> (Vec<u8>, usize) {
    let session = Download::begin(Ok(file_entry("f.bin", file.len() as u64))).ok().expect("a file");
    let first = session.opened(Ok(())).ok().expect("source stands");
    match first.data {
        Some(DownloadData::Metadata(m)) => {
            assert_eq!(m.filename, "f.bin");
            assert_eq!(m.total_size, file.len() as u64);
            assert_eq!(m.mime_type, "application/octet-stream");
        }
        _ => panic!("the first frame opens the download"),
    }
    let mut got: Vec<u8> = Vec::new();
    let mut fragments = 0usize;
    let mut at = 0usize;
    loop {
        let end = (at + BLOCK_SIZE).min(file.len());
        let block = file[at..end].to_vec();
        at = end;
        match Download::block(Ok(block)) {
            DownloadStep::Send(DownloadFileResponse { data: Some(DownloadData::Chunk(bytes)) }) => {
                assert!(!bytes.is_empty());
                assert!(bytes.len() <= BLOCK_SIZE);
                got.extend_from_slice(&bytes);
                fragments += 1;
            }
            DownloadStep::Close => break,
            _ => panic!("a block is sent as a fragment"),
        }
    }
    (got, fragments)
}

fn round_trip(size: usize) -> usize {
    let payload: Vec<u8> = (0..size).map(|i| (i % 251) as u8).collect();
    let (file, written, path) = upload(&payload, 10_000);
    assert_eq!(path, "/store/f.bin");
    assert_eq!(written, size as u64);
    assert_eq!(file, payload);
    let (got, fragments) = download(&file);
    assert_eq!(got, payload);
    fragments
}

#[test]
fn block_size_is_64_kib() {
    assert_eq!(BLOCK_SIZE, 64 * 1024);
}

#[test]
fn round_trip_of_an_empty_payload() {
    assert_eq!(round_trip(0), 0);
}

#[test]
fn round_trip_of_one_byte() {
    assert_eq!(round_trip(1), 1);
}

#[test]
fn round_trip_of_more_than_one_block() {
    assert_eq!(round_trip(64 * 1024 + 1), 2);
    assert_eq!(round_trip(64 * 1024), 1);
    assert_eq!(round_trip(200_000), 4);
}

#[test]
fn empty_stream_is_refused() {
    match Upload::begin(None) {
        Err(Fault { code, message }) => {
            assert_eq!(code, FaultCode::InvalidArgument);
            assert_eq!(message, "Пустой стрим");
        }
        Ok(_) => panic!("an empty stream is refused"),
    }
}

#[test]
fn first_frame_must_open_the_upload() {
    for first in [fragment(&[1, 2, 3]), UploadFileRequest { data: None }] {
        match Upload::begin(Some(Ok(first))) {
            Err(Fault { code, message }) => {
                assert_eq!(code, FaultCode::InvalidArgument);
                assert_eq!(message, "Первое сообщение должно содержать метаданные");
            }
            Ok(_) => panic!("the first frame must open the upload"),
        }
    }
}

#[test]
fn broken_stream_is_handed_on() {
    let fault = Fault { code: FaultCode::Other(14), message: "unavailable".to_string() };
    match Upload::begin(Some(Err(fault))) {
        Err(Fault { code, message }) => {
            assert_eq!(code, FaultCode::Other(14));
            assert_eq!(message, "unavailable");
        }
        Ok(_) => panic!("a fault is handed on"),
    }
    let (mut session, _) = Upload::begin(Some(Ok(opening("/d", "f", 0, true)))).ok().expect("opens");
    let fault = Fault { code: FaultCode::Other(1), message: "cancelled".to_string() };
    match session.frame(Err(fault)) {
        UploadStep::Fail(Fault { code, message }) => {
            assert_eq!(code, FaultCode::Other(1));
            assert_eq!(message, "cancelled");
        }
        _ => panic!("a fault ends the upload"),
    }
    assert_eq!(session.bytes_written(), 0);
}

#[test]
fn upload_asks_for_the_sink_with_the_overwrite_flag() {
    let (_, sink) = Upload::begin(Some(Ok(opening("/media/in", "clip.mp4", 10, true)))).ok().expect("opens");
    assert_eq!(sink.path, "/media/in/clip.mp4");
    assert!(sink.overwrite);
}

#[test]
fn refused_sink_is_answered_not_raised() {
    let (session, _) = Upload::begin(Some(Ok(opening("/d", "f", 3, false)))).ok().expect("opens");
    match session.opened(Err(StorageError::AlreadyExists("/d/f".to_string()))) {
        Err(answer) => {
            assert!(!answer.success);
            assert_eq!(answer.error_message, "Файл уже существует: /d/f");
            assert_eq!(answer.file_path, "");
            assert_eq!(answer.bytes_written, 0);
        }
        Ok(_) => panic!("a refused sink ends the upload"),
    }
}

#[test]
fn declared_size_is_not_checked() {
    let (mut session, _) = Upload::begin(Some(Ok(opening("/d", "f", 1_000_000, false)))).ok().expect("opens");
    session = session.opened(Ok(())).ok().expect("sink stands");
    match session.frame(Ok(fragment(&[1, 2, 3]))) {
        UploadStep::Write(bytes) => assert_eq!(bytes, vec![1, 2, 3]),
        _ => panic!("a fragment is written"),
    }
    let answer = session.finish(Ok(())).ok().expect("flushed");
    assert!(answer.success);
    assert_eq!(answer.bytes_written, 3);
    assert_eq!(answer.file_path, "/d/f");
}

#[test]
fn frames_without_a_fragment_are_passed_over() {
    let (mut session, _) = Upload::begin(Some(Ok(opening("/d", "f", 0, false)))).ok().expect("opens");
    assert!(matches!(session.frame(Ok(UploadFileRequest { data: None })), UploadStep::Ignore));
    assert!(matches!(session.frame(Ok(opening("/other", "g", 0, true))), UploadStep::Ignore));
    assert!(matches!(session.frame(Ok(fragment(&[]))), UploadStep::Write(_)));
    assert_eq!(session.bytes_written(), 0);
    assert!(matches!(session.frame(Ok(fragment(&[7; 5]))), UploadStep::Write(_)));
    assert!(matches!(session.frame(Ok(fragment(&[8; 4]))), UploadStep::Write(_)));
    assert_eq!(session.bytes_written(), 9);
    assert!(session.can_take(usize::MAX - 9));
    assert_eq!(session.finish(Ok(())).ok().expect("flushed").file_path, "/d/f");
}

#[test]
fn sink_failures_are_internal_faults() {
    let f = Upload::sink_failed("no space left".to_string());
    assert_eq!(f.code, FaultCode::Internal);
    assert_eq!(f.message, "no space left");
    let (session, _) = Upload::begin(Some(Ok(opening("/d", "f", 0, false)))).ok().expect("opens");
    match session.finish(Err("flush failed".to_string())) {
        Err(Fault { code, message }) => {
            assert_eq!(code, FaultCode::Internal);
            assert_eq!(message, "flush failed");
        }
        Ok(_) => panic!("a flush that failed fails the upload"),
    }
}

#[test]
fn download_of_a_missing_path_is_not_found() {
    match Download::begin(Err(StorageError::NotFound("/x".to_string()))) {
        Err(Fault { code, message }) => {
            assert_eq!(code, FaultCode::NotFound);
            assert_eq!(message, "Путь не существует: /x");
        }
        Ok(_) => panic!("a missing path is not found"),
    }
}

#[test]
fn download_of_a_directory_is_refused() {
    let mut entry = file_entry("dir", 0);
    entry.is_directory = true;
    match Download::begin(Ok(entry)) {
        Err(Fault { code, message }) => {
            assert_eq!(code, FaultCode::InvalidArgument);
            assert_eq!(message, "Путь является директорией");
        }
        Ok(_) => panic!("a directory is refused"),
    }
}

#[test]
fn download_source_that_cannot_be_opened() {
    let session = Download::begin(Ok(file_entry("f", 1))).ok().expect("a file");
    match session.opened(Err(StorageError::Io("denied".to_string()))) {
        Err(Fault { code, message }) => {
            assert_eq!(code, FaultCode::Internal);
            assert_eq!(message, "Ошибка ввода-вывода: denied");
        }
        Ok(_) => panic!("a source that cannot be opened fails the download"),
    }
}

#[test]
fn download_read_failure_ends_the_stream() {
    let fault = Fault { code: FaultCode::Internal, message: "read failed".to_string() };
    match Download::block(Err(fault)) {
        DownloadStep::Fail(Fault { code, message }) => {
            assert_eq!(code, FaultCode::Internal);
            assert_eq!(message, "read failed");
        }
        _ => panic!("a read that failed fails the download"),
    }
    assert!(matches!(Download::block(Ok(Vec::new())), DownloadStep::Close));
}

/// Uploads `payload` in fragments of `cut` bytes into a file of its own and
/// downloads what was written, all at once.
fn whole_round_trip(payload: &[u8], cut: usize) -> usize {
    let mut items = vec![Ok(opening("/store", "f.bin", payload.len() as u64, true))];
    for part in payload.chunks(cut.max(1)) {
        items.push(Ok(fragment(part)));
    }
    let (written, answer) = upload_file(items, Ok(()), Ok(()));
    let answer = answer.ok().expect("the upload succeeds");
    assert!(answer.success);
    assert_eq!(answer.file_path, "/store/f.bin");
    assert_eq!(answer.bytes_written, payload.len() as u64);
    assert_eq!(written, payload);

    let frames = download_file(Ok(file_entry("f.bin", written.len() as u64)), Ok(()), &written)
        .ok()
        .expect("the download succeeds");
    match &frames[0].data {
        Some(DownloadData::Metadata(m)) => {
            assert_eq!(m.filename, "f.bin");
            assert_eq!(m.total_size, payload.len() as u64);
        }
        _ => panic!("the first frame opens the download"),
    }
    let mut got: Vec<u8> = Vec::new();
    for frame in &frames[1..] {
        match &frame.data {
            Some(DownloadData::Chunk(bytes)) => {
                assert!(!bytes.is_empty() && bytes.len() <= BLOCK_SIZE);
                got.extend_from_slice(bytes);
            }
            _ => panic!("only fragments follow the opening frame"),
        }
    }
    assert_eq!(got, payload);
    frames.len() - 1
}

#[test]
fn whole_round_trip_of_an_empty_payload() {
    assert_eq!(whole_round_trip(&[], 7), 0);
}

#[test]
fn whole_round_trip_of_one_byte() {
    assert_eq!(whole_round_trip(&[0x41], 7), 1);
}

#[test]
fn whole_round_trip_of_more_than_one_block() {
    let payload: Vec<u8> = (0..65537usize).map(|i| (i % 253) as u8).collect();
    assert_eq!(whole_round_trip(&payload, 1000), 2);
    assert_eq!(whole_round_trip(&payload, 65537), 2);
    assert_eq!(whole_round_trip(&payload[..65536], 4096), 1);
    let payload: Vec<u8> = (0..200_000usize).map(|i| (i % 7) as u8).collect();
    assert_eq!(whole_round_trip(&payload, 3), 4);
}

#[test]
fn whole_upload_that_fails() {
    let (written, answer) = upload_file(Vec::new(), Ok(()), Ok(()));
    assert!(written.is_empty());
    assert_eq!(answer.err().expect("an empty stream is refused").message, "Пустой стрим");

    let items = vec![Ok(fragment(&[1]))];
    let (written, answer) = upload_file(items, Ok(()), Ok(()));
    assert!(written.is_empty());
    assert_eq!(answer.err().expect("refused").code, FaultCode::InvalidArgument);

    let items = vec![Ok(opening("/d", "f", 1, false)), Ok(fragment(&[1]))];
    let (written, answer) = upload_file(items, Err(StorageError::AlreadyExists("/d/f".to_string())), Ok(()));
    assert!(written.is_empty());
    let answer = answer.ok().expect("answered, not raised");
    assert!(!answer.success);
    assert_eq!(answer.error_message, "Файл уже существует: /d/f");

    let items = vec![
        Ok(opening("/d", "f", 9, false)),
        Ok(fragment(&[1, 2])),
        Ok(UploadFileRequest { data: None }),
        Ok(fragment(&[3])),
        Err(Fault { code: FaultCode::Other(1), message: "cancelled".to_string() }),
        Ok(fragment(&[4, 5, 6])),
    ];
    let (written, answer) = upload_file(items, Ok(()), Ok(()));
    assert_eq!(written, vec![1, 2, 3]);
    assert_eq!(answer.err().expect("a broken stream fails the upload").message, "cancelled");

    let items = vec![Ok(opening("/d", "f", 9, false)), Ok(fragment(&[1, 2]))];
    let (written, answer) = upload_file(items, Ok(()), Err("flush failed".to_string()));
    assert_eq!(written, vec![1, 2]);
    assert_eq!(answer.err().expect("a failed flush fails the upload").message, "flush failed");
}

#[test]
fn whole_download_that_fails() {
    let content = vec![1u8, 2, 3];
    let f = download_file(Err(StorageError::NotFound("/x".to_string())), Ok(()), &content)
        .err()
        .expect("a missing path is not found");
    assert_eq!(f.code, FaultCode::NotFound);
    let mut dir = file_entry("dir", 0);
    dir.is_directory = true;
    let f = download_file(Ok(dir), Ok(()), &content).err().expect("a directory is refused");
    assert_eq!(f.code, FaultCode::InvalidArgument);
    let f = download_file(Ok(file_entry("f", 3)), Err(StorageError::Io("denied".to_string())), &content)
        .err()
        .expect("a source that cannot be opened fails the download");
    assert_eq!(f.code, FaultCode::Internal);
    assert_eq!(f.message, "Ошибка ввода-вывода: denied");
}
