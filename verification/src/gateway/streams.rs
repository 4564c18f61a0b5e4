//! Transfers through the gateway. Every frame of a transfer is handed on in
//! the other service's shape as it arrives: an opening frame as an opening
//! frame, a fragment as a fragment, in the order of arrival. Nothing is held
//! back, so the gateway never has a whole file in memory. A frame without a
//! payload is dropped. A fault on the incoming side ends the transfer and is
//! reported as the transfer's failure.

use crate::fault::{ending_view, internal_fault, reply_view, Fault, FaultView};
use crate::gateway::projects::storage_prefix;
use crate::wire::gateway as outer;
use crate::wire::storage as inner;
use vstd::prelude::*;

verus! {

/// What becomes of one incoming item of a transfer.
pub enum Relay<T> {
    /// The frame goes out, in the other service's shape.
    Forward(T),
    /// The frame carried nothing and is dropped.
    Skip,
    /// The incoming side failed: the transfer ends with this fault.
    Fail(Fault),
}

/// A [`Relay`] as a mathematical value.
pub enum RelayView<V> {
    Forward(V),
    Skip,
    Fail(FaultView),
}

impl<T: View> View for Relay<T> {
    type V = RelayView<T::V>;

    open spec fn view(&self) -> RelayView<T::V> {
        match self {
            Relay::Forward(x) => RelayView::Forward(x@),
            Relay::Skip => RelayView::Skip,
            Relay::Fail(f) => RelayView::Fail(f@),
        }
    }
}

/// The words that open the message of a fault on the incoming side of a
/// transfer.
pub open spec fn stream_prefix() -> Seq<char> {
    "Stream error: "@
}

/// A frame of an upload in the storage service's shape; `None` for a frame
/// without a payload.
pub open spec fn upload_frame_of(f: outer::UploadFileRequestView) -> Option<
    inner::UploadFileRequestView,
> {
    match f.data {
        None => None,
        Some(outer::UploadDataView::Metadata(m)) => Some(
            inner::UploadFileRequestView {
                data: Some(
                    inner::UploadDataView::Metadata(
                        inner::UploadFileMetadataView {
                            destination_path: m.destination_path,
                            filename: m.filename,
                            total_size: m.total_size,
                            overwrite: m.overwrite,
                        },
                    ),
                ),
            },
        ),
        Some(outer::UploadDataView::Chunk(c)) => Some(
            inner::UploadFileRequestView { data: Some(inner::UploadDataView::Chunk(c)) },
        ),
    }
}

/// A frame of a download in the gateway's shape; `None` for a frame without
/// a payload.
pub open spec fn download_frame_of(f: inner::DownloadFileResponseView) -> Option<
    outer::DownloadFileResponseView,
> {
    match f.data {
        None => None,
        Some(inner::DownloadDataView::Metadata(m)) => Some(
            outer::DownloadFileResponseView {
                data: Some(
                    outer::DownloadDataView::Metadata(
                        outer::DownloadFileMetadataView {
                            filename: m.filename,
                            total_size: m.total_size,
                            mime_type: m.mime_type,
                        },
                    ),
                ),
            },
        ),
        Some(inner::DownloadDataView::Chunk(c)) => Some(
            outer::DownloadFileResponseView { data: Some(outer::DownloadDataView::Chunk(c)) },
        ),
    }
}

/// What becomes of one incoming item of an upload.
pub open spec fn relay_upload_of(item: Result<outer::UploadFileRequestView, Seq<char>>) -> RelayView<
    inner::UploadFileRequestView,
> {
    match item {
        Err(text) => RelayView::Fail(internal_fault(stream_prefix(), text)),
        Ok(f) => match upload_frame_of(f) {
            Some(g) => RelayView::Forward(g),
            None => RelayView::Skip,
        },
    }
}

/// What becomes of one incoming item of a download.
pub open spec fn relay_download_of(
    item: Result<inner::DownloadFileResponseView, Seq<char>>,
) -> RelayView<outer::DownloadFileResponseView> {
    match item {
        Err(text) => RelayView::Fail(internal_fault(stream_prefix(), text)),
        Ok(f) => match download_frame_of(f) {
            Some(g) => RelayView::Forward(g),
            None => RelayView::Skip,
        },
    }
}

/// Hands on one item of an upload: a frame from the caller, or the text of
/// the fault that ended the caller's stream.
pub fn relay_upload(item: Result<outer::UploadFileRequest, String>) -> (r: Relay<
    inner::UploadFileRequest,
>)
    ensures
        r@ == relay_upload_of(reply_view(item)),
{
    match item {
        Err(text) => Relay::Fail(Fault::from_backend("Stream error: ", text.as_str())),
        Ok(frame) => match frame.data {
            None => Relay::Skip,
            Some(outer::UploadData::Metadata(m)) => Relay::Forward(
                inner::UploadFileRequest {
                    data: Some(
                        inner::UploadData::Metadata(
                            inner::UploadFileMetadata {
                                destination_path: m.destination_path,
                                filename: m.filename,
                                total_size: m.total_size,
                                overwrite: m.overwrite,
                            },
                        ),
                    ),
                },
            ),
            Some(outer::UploadData::Chunk(c)) => Relay::Forward(
                inner::UploadFileRequest { data: Some(inner::UploadData::Chunk(c)) },
            ),
        },
    }
}

/// Hands on one item of a download: a frame from the storage service, or the
/// text of the fault that ended its stream.
pub fn relay_download(item: Result<inner::DownloadFileResponse, String>) -> (r: Relay<
    outer::DownloadFileResponse,
>)
    ensures
        r@ == relay_download_of(reply_view(item)),
{
    match item {
        Err(text) => Relay::Fail(Fault::from_backend("Stream error: ", text.as_str())),
        Ok(frame) => match frame.data {
            None => Relay::Skip,
            Some(inner::DownloadData::Metadata(m)) => Relay::Forward(
                outer::DownloadFileResponse {
                    data: Some(
                        outer::DownloadData::Metadata(
                            outer::DownloadFileMetadata {
                                filename: m.filename,
                                total_size: m.total_size,
                                mime_type: m.mime_type,
                            },
                        ),
                    ),
                },
            ),
            Some(inner::DownloadData::Chunk(c)) => Relay::Forward(
                outer::DownloadFileResponse { data: Some(outer::DownloadData::Chunk(c)) },
            ),
        },
    }
}

/// The outcome of an upload in the gateway's shape.
pub open spec fn uploaded_of(resp: inner::UploadFileResponseView) -> outer::UploadFileResponseView {
    outer::UploadFileResponseView {
        success: resp.success,
        error_message: resp.error_message,
        file_path: resp.file_path,
        bytes_written: resp.bytes_written,
    }
}

/// What an upload through the gateway ends with. `broken` is the fault that
/// ended the caller's stream, if one did: the upload then failed with it,
/// whatever the storage service made of the frames that reached it.
pub open spec fn upload_ending(
    broken: Option<FaultView>,
    outcome: Result<inner::UploadFileResponseView, Seq<char>>,
) -> Result<outer::UploadFileResponseView, FaultView> {
    match broken {
        Some(fault) => Err(fault),
        None => match outcome {
            Ok(resp) => Ok(uploaded_of(resp)),
            Err(text) => Err(internal_fault(storage_prefix(), text)),
        },
    }
}

/// Ends an upload through the gateway, given the fault that ended the
/// caller's stream, if any, and what the storage service answered.
pub fn finish_upload(broken: Option<Fault>, outcome: Result<inner::UploadFileResponse, String>) -> (r:
    Result<outer::UploadFileResponse, Fault>)
    ensures
        ending_view(r) == upload_ending(
            match broken {
                Some(f) => Some(f@),
                None => None,
            },
            reply_view(outcome),
        ),
{
    match broken {
        Some(fault) => Err(fault),
        None => match outcome {
            Err(text) => Err(Fault::from_backend("FileGateway error: ", text.as_str())),
            Ok(resp) => Ok(
                outer::UploadFileResponse {
                    success: resp.success,
                    error_message: resp.error_message,
                    file_path: resp.file_path,
                    bytes_written: resp.bytes_written,
                },
            ),
        },
    }
}

/// What a download through the gateway opens with: the stream of frames, or
/// an internal fault where the storage service refused the request.
pub fn open_download(opened: Result<(), String>) -> (r: Result<(), Fault>)
    ensures
        match opened {
            Ok(_) => r is Ok,
            Err(text) => r matches Err(f) && f@ == internal_fault(storage_prefix(), text@),
        },
{
    match opened {
        Ok(_) => Ok(()),
        Err(text) => Err(Fault::from_backend("FileGateway error: ", text.as_str())),
    }
}

/// The bytes that a frame of an upload carries on the caller's side: those
/// of a fragment, none for anything else.
pub open spec fn carried(f: outer::UploadFileRequestView) -> Seq<u8> {
    match f.data {
        Some(outer::UploadDataView::Chunk(bytes)) => bytes,
        _ => Seq::empty(),
    }
}

/// A frame reaches the storage service with the bytes that it carried, and a
/// frame that is dropped carried none: the gateway neither adds to the
/// content of an upload nor takes from it.
pub proof fn lemma_relay_keeps_bytes(f: outer::UploadFileRequestView)
    ensures
        match upload_frame_of(f) {
            Some(g) => crate::service::transfer::fragment_of(Ok(g)) == carried(f),
            None => carried(f) == Seq::<u8>::empty(),
        },
{
}

/// What a whole stream of incoming items becomes: the frames that go out, in
/// order, and the fault that ended the transfer, if one did. Items after a
/// fault are not looked at.
pub open spec fn relayed<A, B>(items: Seq<A>, step: spec_fn(A) -> RelayView<B>) -> (Seq<B>, Option<
    FaultView,
>)
    decreases items.len(),
{
    if items.len() == 0 {
        (Seq::empty(), None)
    } else {
        match step(items[0]) {
            RelayView::Fail(f) => (Seq::empty(), Some(f)),
            RelayView::Skip => relayed(items.drop_first(), step),
            RelayView::Forward(x) => {
                let rest = relayed(items.drop_first(), step);
                (seq![x] + rest.0, rest.1)
            },
        }
    }
}

/// A stream in which every item is a frame with a payload goes out frame for
/// frame: as many frames as came in, each the image of the frame at the same
/// place, and the transfer does not fail.
pub proof fn lemma_relay_keeps_frames_and_order<A, B>(
    items: Seq<A>,
    step: spec_fn(A) -> RelayView<B>,
)
    requires
        forall|i: int| 0 <= i < items.len() ==> step(#[trigger] items[i]) is Forward,
    ensures
        relayed(items, step).1 is None,
        relayed(items, step).0.len() == items.len(),
        forall|i: int|
            0 <= i < items.len() ==> step(#[trigger] items[i]) == RelayView::Forward(
                relayed(items, step).0[i],
            ),
    decreases items.len(),
{
    if items.len() > 0 {
        let rest = items.drop_first();
        assert forall|i: int| 0 <= i < rest.len() implies step(#[trigger] rest[i]) is Forward by {
            assert(rest[i] == items[i + 1]);
        }
        lemma_relay_keeps_frames_and_order(rest, step);
        assert(step(items[0]) is Forward);
        assert forall|i: int| 0 <= i < items.len() implies step(#[trigger] items[i])
            == RelayView::Forward(relayed(items, step).0[i]) by {
            if i > 0 {
                assert(rest[i - 1] == items[i]);
            }
        }
    }
}

/// A transfer fails exactly when an incoming item is a fault; it then fails
/// with the first one, and what goes out is what the items before it give.
pub proof fn lemma_relay_ends_at_first_fault<A, B>(
    items: Seq<A>,
    step: spec_fn(A) -> RelayView<B>,
    k: int,
)
    requires
        0 <= k < items.len(),
        step(items[k]) is Fail,
        forall|i: int| 0 <= i < k ==> !(step(#[trigger] items[i]) is Fail),
    ensures
        relayed(items, step).1 == Some(step(items[k])->Fail_0),
        relayed(items, step).0 == relayed(items.take(k), step).0,
        relayed(items.take(k), step).1 is None,
    decreases items.len(),
{
    if k == 0 {
        assert(items.take(0).len() == 0);
    } else {
        let rest = items.drop_first();
        assert(rest[k - 1] == items[k]);
        assert forall|i: int| 0 <= i < k - 1 implies !(step(#[trigger] rest[i]) is Fail) by {
            assert(rest[i] == items[i + 1]);
        }
        lemma_relay_ends_at_first_fault(rest, step, k - 1);
        assert(items.take(k).drop_first() =~= rest.take(k - 1));
        assert(items.take(k)[0] == items[0]);
        assert(!(step(items[0]) is Fail));
    }
}

/// A stream without a fault does not fail.
pub proof fn lemma_relay_without_fault<A, B>(items: Seq<A>, step: spec_fn(A) -> RelayView<B>)
    requires
        forall|i: int| 0 <= i < items.len() ==> !(step(#[trigger] items[i]) is Fail),
    ensures
        relayed(items, step).1 is None,
    decreases items.len(),
{
    if items.len() > 0 {
        let rest = items.drop_first();
        assert forall|i: int| 0 <= i < rest.len() implies !(step(#[trigger] rest[i]) is Fail) by {
            assert(rest[i] == items[i + 1]);
        }
        lemma_relay_without_fault(rest, step);
        assert(!(step(items[0]) is Fail));
    }
}

} // verus!
