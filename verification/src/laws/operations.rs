//! What the operations of a backend ask for, and what the answers mean.
use std::path::PathBuf;

use vstd::prelude::*;

use crate::backend::{
    all_bytes, commit_trace, law_committed_data_is_what_was_written, stages_apart, staged_data,
    visible, write_trace, written, World,
};
use crate::error::{opendal_failure, ErrorClass, ErrorView, FailureView, OpendalErrorView};
use crate::staged::{CommitPhase, CommitView, StagedInner, StagedView, StagingView};
use crate::storage::{existence, reader_opened, UploadView, WriterRequest};
use crate::store::StoreView;

verus! {

/// An object exists if and only if it has at least one byte: one of any length above zero does, an
/// empty one does not. One that is not found does not exist; any other failure leaves the question
/// open, and is reported.
pub proof fn law_objects_with_data_exist(key: Seq<char>, length: u64, failure: OpendalErrorView)
    ensures
        existence(key, Ok(length)) == Ok::<bool, ErrorView>(length >= 1),
        existence(key, Err(failure)) is Ok <==> failure.kind is NotFound,
        failure.kind is NotFound ==> existence(key, Err(failure)) == Ok::<bool, ErrorView>(false),
        !(failure.kind is NotFound) ==> existence(key, Err(failure)) == Err::<bool, ErrorView>(
            opendal_failure(failure, "Failed to check existence of "@ + key),
        ),
{
}

/// The length of what a reader finds, if it can be told.
pub open spec fn length_of(found: Option<Seq<u8>>, missing: OpendalErrorView) -> Result<
    u64,
    OpendalErrorView,
> {
    match found {
        Some(data) => Ok(data.len() as u64),
        None => Err(missing),
    }
}

/// An object to which data was written and committed exists, if that data was not empty.
pub proof fn law_committed_data_exists(
    key: Seq<char>,
    opened: StagedView,
    chunks: Seq<Seq<u8>>,
    oks: Seq<bool>,
    writing: Seq<World>,
    outcomes: Seq<Result<(), FailureView>>,
    committing: Seq<World>,
    count: u64,
    missing: OpendalErrorView,
)
    requires
        stages_apart(opened),
        opened.bytes_written == 0,
        all_bytes(chunks).len() <= u64::MAX,
        write_trace(opened, chunks, oks, writing),
        staged_data(writing[0], opened) == Some(Seq::<u8>::empty()),
        forall|i: int| 0 <= i < oks.len() ==> oks[i],
        commit_trace(written(opened, chunks), outcomes, committing),
        committing[0] == writing.last(),
        CommitView::start(written(opened, chunks)).after_all(outcomes).phase
            == CommitPhase::Finished::<ErrorView>(Ok(count)),
    ensures
        existence(key, length_of(visible(committing.last(), opened), missing)) == Ok::<
            bool,
            ErrorView,
        >(all_bytes(chunks).len() > 0),
{
    law_committed_data_is_what_was_written(
        opened,
        chunks,
        oks,
        writing,
        outcomes,
        committing,
        count,
    );
}

/// A reader is opened if and only if the backend opens it; else the error says which key.
pub proof fn law_readers_open_as_the_backend_says(key: Seq<char>, failure: OpendalErrorView)
    ensures
        reader_opened(key, Ok(())) == Ok::<(), ErrorView>(()),
        reader_opened(key, Err(failure)) == Err::<(), ErrorView>(
            opendal_failure(failure, "Failed to open reader for "@ + key),
        ),
{
}

/// An upload is opened if and only if the backend opens it, and is then a writer for the object to
/// which nothing was written; else the error says which key.
pub proof fn law_uploads_open_as_the_backend_says(upload: UploadView, failure: OpendalErrorView)
    ensures
        upload.opened(Ok(())) == Ok::<StagedView, ErrorView>(
            StagedView {
                inner: StagedInner::AtomicOnClose,
                object: upload.object,
                bytes_written: 0,
            },
        ),
        upload.opened(Err(failure)) == Err::<StagedView, ErrorView>(
            opendal_failure(failure, "Failed to open writer for "@ + upload.key),
        ),
{
}

/// A staged write goes through an upload under the key of the object wherever writes are atomic, in
/// parts of 8 MiB unless the backend is a filesystem, and through a staged file below the root
/// elsewhere. A backend that is not writable supports none.
pub proof fn law_how_a_write_is_staged(store: StoreView, object: Seq<char>, root: PathBuf)
    ensures
        !store.writable ==> store.staged_writer(object) == Err::<
            WriterRequest<UploadView, StagingView>,
            ErrorView,
        >(ErrorView { class: ErrorClass::Fatal, message: "Write not supported by this backend"@ }),
        store.writable && store.atomic_writes ==> store.staged_writer(object) == Ok::<
            WriterRequest<UploadView, StagingView>,
            ErrorView,
        >(
            WriterRequest::Upload(
                UploadView {
                    key: store.key(object),
                    chunk_size: if store.root_path is Some {
                        None
                    } else {
                        Some(0x80_0000usize)
                    },
                    object,
                },
            ),
        ),
        store.writable && !store.atomic_writes && store.root_path == Some(root)
            ==> store.staged_writer(object) == Ok::<
            WriterRequest<UploadView, StagingView>,
            ErrorView,
        >(WriterRequest::Stage(StagingView::below(root, object))),
        store.writable && !store.atomic_writes && store.root_path is None ==> store.staged_writer(
            object,
        ) == Err::<WriterRequest<UploadView, StagingView>, ErrorView>(
            ErrorView {
                class: ErrorClass::Fatal,
                message: "Non-atomic backend without a filesystem root cannot stage writes"@,
            },
        ),
{
}

} // verus!
