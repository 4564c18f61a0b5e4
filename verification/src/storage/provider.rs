//! The operations that every backend has for free, because they are made of
//! others: a copy is a download followed by an upload, and a rename is a
//! copy followed by the removal of the source.
//!
//! Neither is atomic. A copy holds the whole content in memory, so it is
//! not fit for very large files. A rename removes the source only after the
//! copy succeeded; where the removal then fails both files remain, and the
//! caller has to reconcile them.

use crate::storage::error::{StorageError, StorageErrorView};
use crate::outside::bytes_of;
use crate::storage::types::UploadResult;
use crate::text::owned;
use vstd::prelude::*;

verus! {

/// What a copy does after the download of its source.
pub enum CopyStep {
    /// Upload the content to the destination; a file already there is not
    /// replaced.
    Upload { destination: String, data: bytes::Bytes, overwrite: bool },
    /// The copy is over.
    Done(Result<(), StorageError>),
}

/// A [`CopyStep`] as a mathematical value.
pub enum CopyStepView {
    Upload { destination: Seq<char>, data: Seq<u8>, overwrite: bool },
    Done(Result<(), StorageErrorView>),
}

/// The view of an outcome that carries no value.
pub open spec fn verdict_view(r: Result<(), StorageError>) -> Result<(), StorageErrorView> {
    match r {
        Ok(_) => Ok(()),
        Err(e) => Err(e@),
    }
}

impl View for CopyStep {
    type V = CopyStepView;

    open spec fn view(&self) -> CopyStepView {
        match self {
            CopyStep::Upload { destination, data, overwrite } => CopyStepView::Upload {
                destination: destination@,
                data: bytes_of(*data),
                overwrite: *overwrite,
            },
            CopyStep::Done(r) => CopyStepView::Done(verdict_view(*r)),
        }
    }
}

/// What a rename does after the copy.
pub enum RenameStep {
    /// The copy stands: remove the source.
    DeleteSource(String),
    /// The rename is over.
    Done(Result<(), StorageError>),
}

/// A [`RenameStep`] as a mathematical value.
pub enum RenameStepView {
    DeleteSource(Seq<char>),
    Done(Result<(), StorageErrorView>),
}

impl View for RenameStep {
    type V = RenameStepView;

    open spec fn view(&self) -> RenameStepView {
        match self {
            RenameStep::DeleteSource(source) => RenameStepView::DeleteSource(source@),
            RenameStep::Done(r) => RenameStepView::Done(verdict_view(*r)),
        }
    }
}

/// The step of a copy to `destination` that follows the download of the
/// source: the content is uploaded as it was downloaded, without
/// overwriting; a download that failed ends the copy with its error.
pub fn copy_downloaded(destination: &str, downloaded: Result<bytes::Bytes, StorageError>) -> (r:
    CopyStep)
    ensures
        match downloaded {
            Ok(data) => r@ == (CopyStepView::Upload {
                destination: destination@,
                data: bytes_of(data),
                overwrite: false,
            }),
            Err(e) => r@ == CopyStepView::Done(Err(e@)),
        },
{
    match downloaded {
        Ok(data) => CopyStep::Upload { destination: owned(destination), data, overwrite: false },
        Err(e) => CopyStep::Done(Err(e)),
    }
}

/// What a copy ends with, given what became of the upload.
pub fn copy_uploaded(uploaded: Result<UploadResult, StorageError>) -> (r: Result<(), StorageError>)
    ensures
        match uploaded {
            Ok(_) => r is Ok,
            Err(e) => verdict_view(r) == Err::<(), StorageErrorView>(e@),
        },
{
    match uploaded {
        Ok(_) => Ok(()),
        Err(e) => Err(e),
    }
}

/// The step of a rename of `source` that follows the copy: the source is
/// removed exactly when the copy succeeded.
pub fn rename_copied(source: &str, copied: Result<(), StorageError>) -> (r: RenameStep)
    ensures
        match copied {
            Ok(_) => r@ == RenameStepView::DeleteSource(source@),
            Err(e) => r@ == RenameStepView::Done(Err(e@)),
        },
{
    match copied {
        Ok(_) => RenameStep::DeleteSource(owned(source)),
        Err(e) => RenameStep::Done(Err(e)),
    }
}

/// What a rename ends with, given what became of the removal of the
/// source: the removal's own outcome.
pub fn rename_deleted(deleted: Result<(), StorageError>) -> (r: Result<(), StorageError>)
    ensures
        verdict_view(r) == verdict_view(deleted),
{
    deleted
}

} // verus!
