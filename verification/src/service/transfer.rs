//! The storage service's side of a transfer.
//!
//! A transfer is one opening frame followed by any number of fragments, in
//! order. An upload writes each fragment to the sink as it arrives and
//! reports how many bytes it wrote; the size that the opening frame
//! announces is not checked against that. A download sends the opening
//! frame, then one fragment for each block read from the source, and ends
//! without a closing frame when the source is exhausted.
//!
//! The values here decide; the caller opens, writes, reads and closes.

use crate::fault::{Fault, FaultCode, FaultView};
use crate::storage::error::{StorageError, StorageErrorView};
use crate::storage::types::{StorageEntry, StorageEntryView};
use crate::text::{concat3, owned};
use crate::wire::storage::{
    DownloadData, DownloadDataView, DownloadFileMetadata, DownloadFileMetadataView,
    DownloadFileResponse, DownloadFileResponseView, UploadData, UploadDataView,
    UploadFileMetadataView, UploadFileRequest, UploadFileRequestView, UploadFileResponse,
    UploadFileResponseView,
};
use vstd::prelude::*;

verus! {

/// The size of the blocks in which a download reads its source: 64 KiB.
pub const BLOCK_SIZE: usize = 65536;

/// The parts of a byte string, joined in order.
pub open spec fn joined(parts: Seq<Seq<u8>>) -> Seq<u8>
    decreases parts.len(),
{
    if parts.len() == 0 {
        Seq::empty()
    } else {
        joined(parts.drop_last()) + parts.last()
    }
}

/// An incoming item of an upload: a frame, or the fault that ended the
/// stream.
pub open spec fn item_view(item: Result<UploadFileRequest, Fault>) -> Result<
    UploadFileRequestView,
    FaultView,
> {
    match item {
        Ok(f) => Ok(f@),
        Err(e) => Err(e@),
    }
}

/// The fault of class `InvalidArgument` with the message `message`.
pub open spec fn invalid_argument(message: Seq<char>) -> FaultView {
    FaultView { code: FaultCode::InvalidArgument, message }
}

/// The internal fault that reports the storage error `e` in its own words.
pub open spec fn internal_error(e: StorageErrorView) -> FaultView {
    FaultView { code: FaultCode::Internal, message: e.message() }
}

/// The internal fault with the message `text`.
pub open spec fn internal_text(text: Seq<char>) -> FaultView {
    FaultView { code: FaultCode::Internal, message: text }
}

// ---------------------------------------------------------------------
// Upload
// ---------------------------------------------------------------------

/// An upload whose opening frame has been read.
pub struct Upload {
    destination: String,
    bytes_written: u64,
}

/// An [`Upload`] as a mathematical value.
pub struct UploadView {
    /// The file that receives the content.
    pub destination: Seq<char>,
    /// The number of bytes handed to the sink so far.
    pub bytes_written: u64,
}

impl View for Upload {
    type V = UploadView;

    closed spec fn view(&self) -> UploadView {
        UploadView { destination: self.destination@, bytes_written: self.bytes_written }
    }
}

/// The sink that an upload asks for.
pub struct OpenSink {
    /// The file to create.
    pub path: String,
    /// Whether a file already there is replaced.
    pub overwrite: bool,
}

/// What an upload does with one incoming item.
pub enum UploadStep {
    /// Append these bytes to the sink.
    Write(Vec<u8>),
    /// The item carried no fragment: nothing is written.
    Ignore,
    /// The stream broke: the upload ends with this fault. The sink is
    /// flushed and closed; what was written stays as a partial file.
    Fail(Fault),
}

/// An [`UploadStep`] as a mathematical value.
pub enum UploadStepView {
    Write(Seq<u8>),
    Ignore,
    Fail(FaultView),
}

impl View for UploadStep {
    type V = UploadStepView;

    open spec fn view(&self) -> UploadStepView {
        match self {
            UploadStep::Write(bytes) => UploadStepView::Write(bytes@),
            UploadStep::Ignore => UploadStepView::Ignore,
            UploadStep::Fail(f) => UploadStepView::Fail(f@),
        }
    }
}

/// The file that an upload writes: the file name below the destination
/// directory.
pub open spec fn upload_destination(m: UploadFileMetadataView) -> Seq<char> {
    m.destination_path + "/"@ + m.filename
}

/// How an upload starts, given the first item of the stream (`None` where
/// the stream is empty).
///
/// The first item must be an opening frame; the upload then asks for a sink
/// at the destination, with the frame's overwrite flag, and has written
/// nothing. An empty stream and a first frame of another kind are refused as
/// invalid arguments; a fault is handed on.
pub open spec fn upload_start(first: Option<Result<UploadFileRequestView, FaultView>>) -> Result<
    (UploadView, Seq<char>, bool),
    FaultView,
> {
    match first {
        None => Err(invalid_argument("Пустой стрим"@)),
        Some(Err(fault)) => Err(fault),
        Some(Ok(frame)) => match frame.data {
            Some(UploadDataView::Metadata(m)) => Ok(
                (
                    UploadView { destination: upload_destination(m), bytes_written: 0 },
                    upload_destination(m),
                    m.overwrite,
                ),
            ),
            _ => Err(invalid_argument("Первое сообщение должно содержать метаданные"@)),
        },
    }
}

/// The bytes that an item of an upload adds to the file: those of a
/// fragment, none for anything else.
pub open spec fn fragment_of(item: Result<UploadFileRequestView, FaultView>) -> Seq<u8> {
    match item {
        Ok(frame) => match frame.data {
            Some(UploadDataView::Chunk(bytes)) => bytes,
            _ => Seq::empty(),
        },
        Err(_) => Seq::empty(),
    }
}

/// What an upload does with one item that follows the opening frame.
pub open spec fn upload_step(item: Result<UploadFileRequestView, FaultView>) -> UploadStepView {
    match item {
        Err(fault) => UploadStepView::Fail(fault),
        Ok(frame) => match frame.data {
            Some(UploadDataView::Chunk(bytes)) => UploadStepView::Write(bytes),
            _ => UploadStepView::Ignore,
        },
    }
}

/// The answer that ends an upload which wrote `bytes_written` bytes to
/// `destination`.
pub open spec fn upload_answer(state: UploadView) -> UploadFileResponseView {
    UploadFileResponseView {
        success: true,
        error_message: Seq::empty(),
        file_path: state.destination,
        bytes_written: state.bytes_written,
    }
}

/// The answer that ends an upload whose sink the backend refused with `e`.
pub open spec fn upload_refusal(e: StorageErrorView) -> UploadFileResponseView {
    UploadFileResponseView {
        success: false,
        error_message: e.message(),
        file_path: Seq::empty(),
        bytes_written: 0,
    }
}

impl Upload {
    /// Starts an upload from the first item of the stream.
    pub fn begin(first: Option<Result<UploadFileRequest, Fault>>) -> (r: Result<
        (Upload, OpenSink),
        Fault,
    >)
        ensures
            match upload_start(
                match first {
                    Some(item) => Some(item_view(item)),
                    None => None,
                },
            ) {
                Ok((state, path, overwrite)) => r matches Ok((upload, sink)) && upload@ == state
                    && sink.path@ == path && sink.overwrite == overwrite,
                Err(fault) => r matches Err(f) && f@ == fault,
            },
    {
        match first {
            None => Err(Fault::invalid_argument("Пустой стрим")),
            Some(Err(fault)) => Err(fault),
            Some(Ok(frame)) => match frame.data {
                Some(UploadData::Metadata(m)) => {
                    let destination = concat3(
                        m.destination_path.as_str(),
                        "/",
                        m.filename.as_str(),
                    );
                    let path = destination.clone();
                    Ok(
                        (
                            Upload { destination, bytes_written: 0 },
                            OpenSink { path, overwrite: m.overwrite },
                        ),
                    )
                },
                _ => Err(Fault::invalid_argument("Первое сообщение должно содержать метаданные")),
            },
        }
    }

    /// Takes what became of opening the sink: an upload that may go on, or
    /// the answer that ends it. A sink that the backend refused, because
    /// the file exists and is not to be replaced or for another reason of
    /// its own, is no fault of the call: the answer reports the failure in
    /// the backend's words, and nothing was written.
    pub fn opened(self, outcome: Result<(), StorageError>) -> (r: Result<Upload, UploadFileResponse>)
        ensures
            match outcome {
                Ok(_) => (r matches Ok(upload) && upload@ == self@),
                Err(e) => (r matches Err(resp) && resp@ == upload_refusal(e@)),
            },
    {
        match outcome {
            Ok(_) => Ok(self),
            Err(e) => Err(
                UploadFileResponse {
                    success: false,
                    error_message: e.message(),
                    file_path: String::new(),
                    bytes_written: 0,
                },
            ),
        }
    }

    /// The number of bytes handed to the sink so far.
    pub fn bytes_written(&self) -> (r: u64)
        ensures
            r == self@.bytes_written,
    {
        self.bytes_written
    }

    /// Whether the upload can take an item that carries `len` bytes without
    /// its count of bytes leaving the range of 64 bits.
    pub fn can_take(&self, len: usize) -> (r: bool)
        ensures
            r == (self@.bytes_written + len <= u64::MAX),
    {
        len as u64 <= u64::MAX - self.bytes_written
    }

    /// Takes one item that follows the opening frame. A fragment is to be
    /// written and is counted; any other frame is passed over; a fault ends
    /// the upload.
    pub fn frame(&mut self, item: Result<UploadFileRequest, Fault>) -> (r: UploadStep)
        requires
            old(self)@.bytes_written + fragment_of(item_view(item)).len() <= u64::MAX,
        ensures
            r@ == upload_step(item_view(item)),
            final(self)@.destination == old(self)@.destination,
            final(self)@.bytes_written == old(self)@.bytes_written + fragment_of(
                item_view(item),
            ).len(),
    {
        match item {
            Err(fault) => UploadStep::Fail(fault),
            Ok(frame) => match frame.data {
                Some(UploadData::Chunk(bytes)) => {
                    self.bytes_written = self.bytes_written + bytes.len() as u64;
                    UploadStep::Write(bytes)
                },
                _ => UploadStep::Ignore,
            },
        }
    }

    /// The internal fault that ends an upload when the sink refused bytes or
    /// could not be flushed; `text` is the sink's own report.
    pub fn sink_failed(text: String) -> (r: Fault)
        ensures
            r@ == internal_text(text@),
    {
        Fault::internal(text)
    }

    /// Ends the upload after the stream ended and the sink was flushed: the
    /// answer names the file and the number of bytes written.
    pub fn finish(self, flushed: Result<(), String>) -> (r: Result<UploadFileResponse, Fault>)
        ensures
            match flushed {
                Ok(_) => r matches Ok(resp) && resp@ == upload_answer(self@),
                Err(text) => r matches Err(f) && f@ == internal_text(text@),
            },
    {
        match flushed {
            Err(text) => Err(Fault::internal(text)),
            Ok(_) => Ok(
                UploadFileResponse {
                    success: true,
                    error_message: String::new(),
                    file_path: self.destination,
                    bytes_written: self.bytes_written,
                },
            ),
        }
    }
}

/// What a run of items after the opening frame leaves in the file: the
/// fragments of the items before the first fault, joined in order.
pub open spec fn upload_content(items: Seq<Result<UploadFileRequestView, FaultView>>) -> Seq<u8>
    decreases items.len(),
{
    if items.len() == 0 {
        Seq::empty()
    } else if items[0] is Err {
        Seq::empty()
    } else {
        fragment_of(items[0]) + upload_content(items.drop_first())
    }
}

/// The frames that carry the fragments `chunks`, in order.
pub open spec fn fragment_frames(chunks: Seq<Seq<u8>>) -> Seq<Result<UploadFileRequestView, FaultView>> {
    Seq::new(
        chunks.len(),
        |i: int| Ok(UploadFileRequestView { data: Some(UploadDataView::Chunk(chunks[i])) }),
    )
}

// ---------------------------------------------------------------------
// Download
// ---------------------------------------------------------------------

/// A download whose source has been found to be a file.
pub struct Download {
    filename: String,
    total_size: u64,
    mime_type: String,
}

impl View for Download {
    type V = DownloadFileMetadataView;

    /// The opening frame of the download.
    closed spec fn view(&self) -> DownloadFileMetadataView {
        DownloadFileMetadataView {
            filename: self.filename@,
            total_size: self.total_size,
            mime_type: self.mime_type@,
        }
    }
}

/// What a download does after one read of the source.
pub enum DownloadStep {
    /// Send this frame, then read again.
    Send(DownloadFileResponse),
    /// The source is exhausted: close the stream.
    Close,
    /// The read failed: the stream ends with this fault.
    Fail(Fault),
}

/// A [`DownloadStep`] as a mathematical value.
pub enum DownloadStepView {
    Send(DownloadFileResponseView),
    Close,
    Fail(FaultView),
}

impl View for DownloadStep {
    type V = DownloadStepView;

    open spec fn view(&self) -> DownloadStepView {
        match self {
            DownloadStep::Send(f) => DownloadStepView::Send(f@),
            DownloadStep::Close => DownloadStepView::Close,
            DownloadStep::Fail(f) => DownloadStepView::Fail(f@),
        }
    }
}

/// How a download starts, given what the backend says of the path.
///
/// A path that cannot be described is reported as not found, in the
/// backend's words; a directory is refused as an invalid argument; for a
/// file the opening frame carries its name, size and media type.
pub open spec fn download_start(entry: Result<StorageEntryView, StorageErrorView>) -> Result<
    DownloadFileMetadataView,
    FaultView,
> {
    match entry {
        Err(e) => Err(FaultView { code: FaultCode::NotFound, message: e.message() }),
        Ok(entry) => if entry.is_directory {
            Err(invalid_argument("Путь является директорией"@))
        } else {
            Ok(
                DownloadFileMetadataView {
                    filename: entry.name,
                    total_size: entry.size,
                    mime_type: entry.mime_type,
                },
            )
        },
    }
}

/// The frame that carries the fragment `bytes`.
pub open spec fn fragment_frame(bytes: Seq<u8>) -> DownloadFileResponseView {
    DownloadFileResponseView { data: Some(DownloadDataView::Chunk(bytes)) }
}

/// The frame that opens a download.
pub open spec fn opening_frame(m: DownloadFileMetadataView) -> DownloadFileResponseView {
    DownloadFileResponseView { data: Some(DownloadDataView::Metadata(m)) }
}

/// What a download does after a read that gave `block`: an empty block
/// means that the source is exhausted.
pub open spec fn download_step(block: Result<Seq<u8>, FaultView>) -> DownloadStepView {
    match block {
        Err(fault) => DownloadStepView::Fail(fault),
        Ok(bytes) => if bytes.len() == 0 {
            DownloadStepView::Close
        } else {
            DownloadStepView::Send(fragment_frame(bytes))
        },
    }
}

impl Download {
    /// Starts a download from what the backend says of the path.
    pub fn begin(entry: Result<StorageEntry, StorageError>) -> (r: Result<Download, Fault>)
        ensures
            match download_start(crate::storage::error::outcome_view(entry)) {
                Ok(m) => r matches Ok(d) && d@ == m,
                Err(fault) => r matches Err(f) && f@ == fault,
            },
    {
        match entry {
            Err(e) => Err(Fault::not_found(e.message())),
            Ok(entry) => {
                if entry.is_directory {
                    Err(Fault::invalid_argument("Путь является директорией"))
                } else {
                    Ok(
                        Download {
                            filename: entry.name,
                            total_size: entry.size,
                            mime_type: entry.mime_type,
                        },
                    )
                }
            },
        }
    }

    /// Takes what became of opening the source: the opening frame to send,
    /// or the internal fault that reports why the source could not be
    /// opened.
    pub fn opened(self, outcome: Result<(), StorageError>) -> (r: Result<
        DownloadFileResponse,
        Fault,
    >)
        ensures
            match outcome {
                Ok(_) => r matches Ok(frame) && frame@ == opening_frame(self@),
                Err(e) => r matches Err(f) && f@ == internal_error(e@),
            },
    {
        match outcome {
            Err(e) => Err(Fault::internal(e.message())),
            Ok(_) => Ok(
                DownloadFileResponse {
                    data: Some(
                        DownloadData::Metadata(
                            DownloadFileMetadata {
                                filename: self.filename,
                                total_size: self.total_size,
                                mime_type: self.mime_type,
                            },
                        ),
                    ),
                },
            ),
        }
    }

    /// Takes the outcome of one read of at most [`BLOCK_SIZE`] bytes. A
    /// fragment that is sent holds what was read: at least one byte and at
    /// most [`BLOCK_SIZE`].
    pub fn block(read: Result<Vec<u8>, Fault>) -> (r: DownloadStep)
        requires
            read matches Ok(bytes) ==> bytes@.len() <= BLOCK_SIZE,
        ensures
            r@ == download_step(
                match read {
                    Ok(bytes) => Ok(bytes@),
                    Err(f) => Err(f@),
                },
            ),
            r@ matches DownloadStepView::Send(frame) ==> (read matches Ok(bytes) && frame
                == fragment_frame(bytes@) && 1 <= bytes@.len() <= BLOCK_SIZE),
    {
        match read {
            Err(fault) => DownloadStep::Fail(fault),
            Ok(bytes) => {
                if bytes.len() == 0 {
                    DownloadStep::Close
                } else {
                    DownloadStep::Send(DownloadFileResponse { data: Some(DownloadData::Chunk(bytes)) })
                }
            },
        }
    }
}

/// The frames of a download whose reads gave `blocks`, one after the other,
/// before the source was exhausted: the opening frame, then one fragment for
/// each block.
pub open spec fn download_frames(m: DownloadFileMetadataView, blocks: Seq<Seq<u8>>) -> Seq<
    DownloadFileResponseView,
> {
    seq![opening_frame(m)] + Seq::new(blocks.len(), |i: int| fragment_frame(blocks[i]))
}

/// The content that the frames of a download carry: their fragments, joined
/// in order.
pub open spec fn download_content(frames: Seq<DownloadFileResponseView>) -> Seq<u8>
    decreases frames.len(),
{
    if frames.len() == 0 {
        Seq::empty()
    } else {
        download_content(frames.drop_last()) + (match frames.last().data {
            Some(DownloadDataView::Chunk(bytes)) => bytes,
            _ => Seq::empty(),
        })
    }
}

/// The views of a list of incoming items, in order.
pub open spec fn item_views(items: Seq<Result<UploadFileRequest, Fault>>) -> Seq<
    Result<UploadFileRequestView, FaultView>,
> {
    Seq::new(items.len(), |i: int| item_view(items[i]))
}

/// The items that follow the first.
pub open spec fn after_first(items: Seq<Result<UploadFileRequestView, FaultView>>) -> Seq<
    Result<UploadFileRequestView, FaultView>,
> {
    if items.len() == 0 {
        items
    } else {
        items.subrange(1, items.len() as int)
    }
}

/// The fault that breaks a run of items: that of the first item that is one.
pub open spec fn first_fault(items: Seq<Result<UploadFileRequestView, FaultView>>) -> Option<
    FaultView,
>
    decreases items.len(),
{
    if items.len() == 0 {
        None
    } else {
        match items[0] {
            Err(fault) => Some(fault),
            Ok(_) => first_fault(items.drop_first()),
        }
    }
}

/// What a whole upload writes and ends with, given all its items, what
/// became of opening the sink, and what became of flushing it.
///
/// The first item must open the upload, else nothing is written and the
/// upload fails. A sink that the backend refused is answered as a failure,
/// and nothing is written. Else the fragments of the items before the first
/// fault are written in order. A fault fails the upload; a flush that failed
/// does too; else the answer names the file and the number of bytes
/// written, whatever size the opening frame announced.
pub open spec fn upload_outcome(
    items: Seq<Result<UploadFileRequestView, FaultView>>,
    opened: Result<(), StorageErrorView>,
    flushed: Result<(), Seq<char>>,
) -> (Seq<u8>, Result<UploadFileResponseView, FaultView>) {
    match upload_start(
        if items.len() == 0 {
            None
        } else {
            Some(items[0])
        },
    ) {
        Err(fault) => (Seq::empty(), Err(fault)),
        Ok((state, path, overwrite)) => match opened {
            Err(e) => (Seq::empty(), Ok(upload_refusal(e))),
            Ok(_) => {
                let written = upload_content(after_first(items));
                match first_fault(after_first(items)) {
                    Some(fault) => (written, Err(fault)),
                    None => match flushed {
                        Err(text) => (written, Err(internal_text(text))),
                        Ok(_) => (
                            written,
                            Ok(
                                upload_answer(
                                    UploadView {
                                        destination: state.destination,
                                        bytes_written: written.len() as u64,
                                    },
                                ),
                            ),
                        ),
                    },
                }
            },
        },
    }
}

/// Runs a whole upload whose items are at hand, as an upload that takes
/// them one by one runs it: what is written to the sink, and the answer or
/// the fault that ends the upload.
#[verifier::loop_isolation(false)]
pub fn upload_file(
    items: Vec<Result<UploadFileRequest, Fault>>,
    opened: Result<(), StorageError>,
    flushed: Result<(), String>,
) -> (r: (Vec<u8>, Result<UploadFileResponse, Fault>))
    requires
        upload_content(after_first(item_views(items@))).len() <= u64::MAX,
    ensures
        (r.0@, crate::fault::ending_view(r.1)) == upload_outcome(
            item_views(items@),
            crate::storage::provider::verdict_view(opened),
            match flushed {
                Ok(_) => Ok(()),
                Err(text) => Err(text@),
            },
        ),
{
    let ghost all = item_views(items@);
    let mut items = items;
    let first = if items.len() == 0 {
        None
    } else {
        Some(items.remove(0))
    };
    let ghost rest = item_views(items@);
    assert(rest =~= after_first(all));
    let upload = match Upload::begin(first) {
        Ok((upload, _)) => upload,
        Err(fault) => {
            return (Vec::new(), Err(fault));
        },
    };
    let mut upload = match upload.opened(opened) {
        Ok(upload) => upload,
        Err(answer) => {
            return (Vec::new(), Ok(answer));
        },
    };
    let ghost destination = upload@.destination;
    let mut written: Vec<u8> = Vec::new();
    assert(rest.take(0) =~= Seq::empty());
    for item in it: items.into_iter()
        invariant
            it.seq().len() == rest.len(),
            forall|k: int| 0 <= k < rest.len() ==> item_view(#[trigger] it.seq()[k]) == rest[k],
            forall|k: int| 0 <= k < it.index() ==> (#[trigger] rest[k]) is Ok,
            written@ == upload_content(rest.take(it.index() as int)),
            upload@.bytes_written == written@.len(),
            upload@.destination == destination,
            upload_content(rest).len() <= u64::MAX,
    {
        let ghost i = it.index() as int;
        proof {
            assert(rest.take(i).push(rest[i]) =~= rest.take(i + 1));
            assert forall|k: int| 0 <= k < rest.take(i).len() implies (#[trigger] rest.take(
                i,
            )[k]) is Ok by {
                assert(rest.take(i)[k] == rest[k]);
            }
            lemma_upload_appends(rest.take(i), rest[i]);
            lemma_upload_splits(rest, i);
            assert(rest.skip(i)[0] == rest[i]);
            if rest[i] is Ok {
                lemma_upload_splits(rest, i + 1);
            } else {
                assert(upload_content(rest.skip(i)) =~= Seq::<u8>::empty());
                assert(first_fault(rest.skip(i)) == Some(rest[i]->Err_0));
            }
        }
        match upload.frame(item) {
            UploadStep::Write(bytes) => {
                let mut bytes = bytes;
                written.append(&mut bytes);
            },
            UploadStep::Ignore => {},
            UploadStep::Fail(fault) => {
                proof {
                    assert(written@ =~= upload_content(rest));
                    assert(first_fault(rest) == Some(fault@));
                }
                return (written, Err(fault));
            },
        }
        assert(written@ =~= upload_content(rest.take(i + 1)));
    }
    proof {
        assert(rest.take(rest.len() as int) =~= rest);
        lemma_upload_splits(rest, rest.len() as int);
    }
    let answer = upload.finish(flushed);
    (written, answer)
}

/// The blocks in which a download reads a source that holds `data`: each of
/// [`BLOCK_SIZE`] bytes, but for the last, which holds what is left. A
/// source that holds nothing gives no block.
pub open spec fn blocks_of(data: Seq<u8>) -> Seq<Seq<u8>> {
    Seq::new(
        ((data.len() + BLOCK_SIZE - 1) / (BLOCK_SIZE as int)) as nat,
        |i: int|
            data.subrange(
                i * BLOCK_SIZE,
                if (i + 1) * BLOCK_SIZE <= data.len() {
                    (i + 1) * BLOCK_SIZE
                } else {
                    data.len() as int
                },
            ),
    )
}

/// Whether `frames` have the shape of a download of `len` bytes that opens
/// with `m`: the opening frame first and fragments alone behind it, each
/// with at least one byte and at most [`BLOCK_SIZE`]; no fragment for an
/// empty content, and at least two for one that exceeds a block.
pub open spec fn sent_in_blocks(
    frames: Seq<DownloadFileResponseView>,
    m: DownloadFileMetadataView,
    len: nat,
) -> bool {
    &&& frames.len() >= 1
    &&& frames[0] == opening_frame(m)
    &&& forall|i: int|
        1 <= i < frames.len() ==> ((#[trigger] frames[i]).data matches Some(
            DownloadDataView::Chunk(bytes),
        ) && 1 <= bytes.len() <= BLOCK_SIZE)
    &&& len == 0 ==> frames.len() == 1
    &&& len > BLOCK_SIZE ==> frames.len() >= 3
}

/// The views of a list of frames, in order.
pub open spec fn frame_views(frames: Seq<DownloadFileResponse>) -> Seq<DownloadFileResponseView> {
    Seq::new(frames.len(), |i: int| frames[i]@)
}

/// Downloads a file whose content is at hand: all frames at once, as a
/// download that reads the content block by block sends them one by one.
///
/// A path that cannot be described is reported as not found, a directory is
/// refused, and a source that cannot be opened fails the download. Else the
/// frames are the opening frame with the file's name, size and media type,
/// and one fragment for each block of the content, in order: each fragment
/// holds between one byte and [`BLOCK_SIZE`] bytes, and together they hold
/// the content byte for byte.
pub fn download_file(
    entry: Result<StorageEntry, StorageError>,
    opened: Result<(), StorageError>,
    content: &Vec<u8>,
) -> (r: Result<Vec<DownloadFileResponse>, Fault>)
    ensures
        match download_start(crate::storage::error::outcome_view(entry)) {
            Err(fault) => (r matches Err(f) && f@ == fault),
            Ok(m) => match opened {
                Err(e) => (r matches Err(f) && f@ == internal_error(e@)),
                Ok(_) => (r matches Ok(frames) && frame_views(frames@) == download_frames(
                    m,
                    blocks_of(content@),
                ) && download_content(frame_views(frames@)) == content@ && sent_in_blocks(
                    frame_views(frames@),
                    m,
                    content@.len(),
                )),
            },
        },
{
    let download = match Download::begin(entry) {
        Ok(download) => download,
        Err(fault) => {
            return Err(fault);
        },
    };
    let ghost m = download@;
    let first = match download.opened(opened) {
        Ok(frame) => frame,
        Err(fault) => {
            return Err(fault);
        },
    };
    let ghost blocks = blocks_of(content@);
    let mut frames: Vec<DownloadFileResponse> = Vec::new();
    frames.push(first);
    let len = content.len();
    let mut at: usize = 0;
    let ghost mut i: int = 0;
    assert(frame_views(frames@) =~= download_frames(m, blocks.take(0)));
    while at < len
        invariant
            len == content@.len(),
            blocks == blocks_of(content@),
            0 <= i <= blocks.len(),
            at == (if i * BLOCK_SIZE <= len {
                i * BLOCK_SIZE
            } else {
                len as int
            }),
            frame_views(frames@) == download_frames(m, blocks.take(i)),
        decreases len - at,
    {
        let end = if len - at > BLOCK_SIZE {
            at + BLOCK_SIZE
        } else {
            len
        };
        let block = vstd::slice::slice_to_vec(
            vstd::slice::slice_subrange(content.as_slice(), at, end),
        );
        assert(i < blocks.len());
        assert(block@ == blocks[i]);
        let ghost before = frame_views(frames@);
        match Download::block(Ok(block)) {
            DownloadStep::Send(frame) => {
                frames.push(frame);
            },
            DownloadStep::Close => {
                assert(false);
            },
            DownloadStep::Fail(_) => {
                assert(false);
            },
        }
        proof {
            assert(frame_views(frames@) =~= before.push(fragment_frame(blocks[i])));
            assert(download_frames(m, blocks.take(i + 1)) =~= download_frames(
                m,
                blocks.take(i),
            ).push(fragment_frame(blocks[i])));
            i = i + 1;
        }
        at = end;
    }
    proof {
        assert(i == blocks.len());
        assert(blocks.take(i) =~= blocks);
        lemma_download_sends_blocks(m, blocks);
        lemma_blocks_hold_the_content(content@);
        let sent = frame_views(frames@);
        assert forall|k: int| 1 <= k < sent.len() implies ((#[trigger] sent[k]).data matches Some(
            DownloadDataView::Chunk(bytes),
        ) && 1 <= bytes.len() <= BLOCK_SIZE) by {
            assert(sent[k] == fragment_frame(blocks[k - 1]));
        }
    }
    Ok(frames)
}

// ---------------------------------------------------------------------
// Laws
// ---------------------------------------------------------------------

/// An upload of the fragments `chunks` leaves their bytes in the file, joined
/// in order.
pub proof fn lemma_upload_writes_fragments(chunks: Seq<Seq<u8>>)
    ensures
        upload_content(fragment_frames(chunks)) == joined(chunks),
    decreases chunks.len(),
{
    let items = fragment_frames(chunks);
    if chunks.len() == 0 {
    } else {
        lemma_joined_front(chunks);
        lemma_upload_writes_fragments(chunks.drop_first());
        assert(items.drop_first() =~= fragment_frames(chunks.drop_first()));
        assert(fragment_of(items[0]) == chunks[0]);
    }
}

/// Joining parts is the first part followed by the join of the others.
pub proof fn lemma_joined_front(parts: Seq<Seq<u8>>)
    requires
        parts.len() > 0,
    ensures
        joined(parts) == parts[0] + joined(parts.drop_first()),
    decreases parts.len(),
{
    if parts.len() == 1 {
        reveal_with_fuel(joined, 2);
        assert(parts.drop_last().len() == 0);
        assert(parts.drop_first().len() == 0);
        assert(joined(parts) =~= parts[0] + joined(parts.drop_first()));
    } else {
        lemma_joined_front(parts.drop_last());
        assert(parts.drop_last().drop_first() =~= parts.drop_first().drop_last());
        assert(parts.drop_last()[0] == parts[0]);
        assert(parts.drop_first().last() == parts.last());
        assert(joined(parts) =~= parts[0] + joined(parts.drop_first()));
    }
}

/// The frames of a download carry the blocks that were read, joined in
/// order.
pub proof fn lemma_download_sends_blocks(m: DownloadFileMetadataView, blocks: Seq<Seq<u8>>)
    ensures
        download_content(download_frames(m, blocks)) == joined(blocks),
    decreases blocks.len(),
{
    let frames = download_frames(m, blocks);
    if blocks.len() == 0 {
        reveal_with_fuel(download_content, 2);
        assert(frames.drop_last().len() == 0);
        assert(download_content(frames) =~= Seq::<u8>::empty());
    } else {
        lemma_download_sends_blocks(m, blocks.drop_last());
        assert(frames.drop_last() =~= download_frames(m, blocks.drop_last()));
        assert(frames.last() == fragment_frame(blocks.last()));
    }
}

/// Each item of an unbroken upload adds its fragment behind what the items
/// before it left: the file grows in the order of arrival, and the count of
/// an upload, which grows by the length of each fragment, is the length of
/// what was written.
pub proof fn lemma_upload_appends(
    items: Seq<Result<UploadFileRequestView, FaultView>>,
    item: Result<UploadFileRequestView, FaultView>,
)
    requires
        forall|i: int| 0 <= i < items.len() ==> (#[trigger] items[i]) is Ok,
    ensures
        upload_content(items.push(item)) == upload_content(items) + fragment_of(item),
    decreases items.len(),
{
    let all = items.push(item);
    if items.len() == 0 {
        reveal_with_fuel(upload_content, 2);
        assert(all.drop_first().len() == 0);
        assert(upload_content(all) =~= upload_content(items) + fragment_of(item));
    } else {
        let rest = items.drop_first();
        assert forall|i: int| 0 <= i < rest.len() implies (#[trigger] rest[i]) is Ok by {
            assert(rest[i] == items[i + 1]);
        }
        lemma_upload_appends(rest, item);
        assert(all.drop_first() =~= rest.push(item));
        assert(all[0] == items[0]);
        assert(items[0] is Ok);
        assert(upload_content(all) =~= upload_content(items) + fragment_of(item));
    }
}

/// Where the first `k` items of a run are frames, the run writes what
/// those write and then what the others write, and a fault that breaks it
/// is one that breaks the others.
pub proof fn lemma_upload_splits(items: Seq<Result<UploadFileRequestView, FaultView>>, k: int)
    requires
        0 <= k <= items.len(),
        forall|i: int| 0 <= i < k ==> (#[trigger] items[i]) is Ok,
    ensures
        upload_content(items) == upload_content(items.take(k)) + upload_content(items.skip(k)),
        first_fault(items) == first_fault(items.skip(k)),
        first_fault(items.take(k)) is None,
    decreases k,
{
    if k == 0 {
        assert(items.take(0).len() == 0);
        assert(items.skip(0) =~= items);
        assert(upload_content(items) =~= upload_content(items.take(k)) + upload_content(
            items.skip(k),
        ));
    } else {
        let rest = items.drop_first();
        assert forall|i: int| 0 <= i < k - 1 implies (#[trigger] rest[i]) is Ok by {
            assert(rest[i] == items[i + 1]);
        }
        lemma_upload_splits(rest, k - 1);
        assert(items[0] is Ok);
        assert(items.take(k).drop_first() =~= rest.take(k - 1));
        assert(items.take(k)[0] == items[0]);
        assert(rest.skip(k - 1) =~= items.skip(k));
        assert(upload_content(items) =~= upload_content(items.take(k)) + upload_content(
            items.skip(k),
        ));
    }
}

/// The first `k` blocks of a content hold its first bytes, `BLOCK_SIZE` for
/// each block, up to its end.
proof fn lemma_blocks_prefix(data: Seq<u8>, k: int)
    requires
        0 <= k <= blocks_of(data).len(),
    ensures
        joined(blocks_of(data).take(k)) == data.take(
            if k * BLOCK_SIZE <= data.len() {
                k * BLOCK_SIZE
            } else {
                data.len() as int
            },
        ),
    decreases k,
{
    let blocks = blocks_of(data);
    if k == 0 {
        assert(blocks.take(0).len() == 0);
        assert(joined(blocks.take(0)) =~= data.take(0));
    } else {
        lemma_blocks_prefix(data, k - 1);
        assert(blocks.take(k).drop_last() =~= blocks.take(k - 1));
        assert(blocks.take(k).last() == blocks[k - 1]);
        let end = if k * BLOCK_SIZE <= data.len() {
            k * BLOCK_SIZE
        } else {
            data.len() as int
        };
        assert(data.take((k - 1) * BLOCK_SIZE) + blocks[k - 1] =~= data.take(end));
    }
}

/// The blocks of a content hold the content byte for byte, each block holds
/// between one byte and [`BLOCK_SIZE`] bytes, and a content of more than
/// [`BLOCK_SIZE`] bytes has at least two blocks.
pub proof fn lemma_blocks_hold_the_content(data: Seq<u8>)
    ensures
        joined(blocks_of(data)) == data,
        forall|i: int|
            0 <= i < blocks_of(data).len() ==> 1 <= (#[trigger] blocks_of(data)[i]).len()
                <= BLOCK_SIZE,
        data.len() > BLOCK_SIZE ==> blocks_of(data).len() >= 2,
        data.len() == 0 ==> blocks_of(data).len() == 0,
{
    let blocks = blocks_of(data);
    lemma_blocks_prefix(data, blocks.len() as int);
    assert(blocks.take(blocks.len() as int) =~= blocks);
    assert(data.take(data.len() as int) =~= data);
}

/// The frames of a download are one opening frame followed by fragments
/// alone.
pub proof fn lemma_download_frame_sequence(m: DownloadFileMetadataView, blocks: Seq<Seq<u8>>)
    ensures
        download_frames(m, blocks).len() == blocks.len() + 1,
        download_frames(m, blocks)[0] == opening_frame(m),
        forall|i: int|
            1 <= i <= blocks.len() ==> #[trigger] download_frames(m, blocks)[i] == fragment_frame(
                blocks[i - 1],
            ),
{
}

/// The frames of an upload of the fragments `chunks` into the file that `m`
/// names: the opening frame, then the fragments.
pub open spec fn upload_frames(m: UploadFileMetadataView, chunks: Seq<Seq<u8>>) -> Seq<
    Result<UploadFileRequestView, FaultView>,
> {
    seq![Ok(UploadFileRequestView { data: Some(UploadDataView::Metadata(m)) })] + fragment_frames(
        chunks,
    )
}

/// Byte for byte, what is uploaded is what a download sends: an upload of
/// any fragments that is neither refused nor broken writes their bytes in
/// order and reports their number, and a download of what it wrote, read in
/// blocks, carries those bytes, whatever the size and however they were cut.
pub proof fn lemma_upload_then_download(
    up: UploadFileMetadataView,
    chunks: Seq<Seq<u8>>,
    down: DownloadFileMetadataView,
)
    ensures
        upload_outcome(upload_frames(up, chunks), Ok(()), Ok(())).0 == joined(chunks),
        upload_outcome(upload_frames(up, chunks), Ok(()), Ok(())).1 == Ok::<
            UploadFileResponseView,
            FaultView,
        >(
            upload_answer(
                UploadView {
                    destination: upload_destination(up),
                    bytes_written: joined(chunks).len() as u64,
                },
            ),
        ),
        download_content(download_frames(down, blocks_of(joined(chunks)))) == joined(chunks),
{
    let items = upload_frames(up, chunks);
    let rest = fragment_frames(chunks);
    assert(after_first(items) =~= rest);
    lemma_upload_writes_fragments(chunks);
    lemma_upload_splits(rest, rest.len() as int);
    assert(rest.skip(rest.len() as int).len() == 0);
    lemma_blocks_hold_the_content(joined(chunks));
    lemma_download_sends_blocks(down, blocks_of(joined(chunks)));
}

/// What was uploaded comes back: where a file holds what an upload of
/// `chunks` wrote, and a download reads it in the blocks `blocks`, whatever
/// their sizes, the fragments of the download carry the bytes of the upload.
pub proof fn lemma_transfer_round_trip(
    chunks: Seq<Seq<u8>>,
    m: DownloadFileMetadataView,
    blocks: Seq<Seq<u8>>,
)
    requires
        joined(blocks) == upload_content(fragment_frames(chunks)),
    ensures
        download_content(download_frames(m, blocks)) == joined(chunks),
{
    lemma_upload_writes_fragments(chunks);
    lemma_download_sends_blocks(m, blocks);
}

} // verus!
