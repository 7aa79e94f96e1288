//! The operations of a storage backend: what each of them asks of the backend, and what the answer
//! means.
use std::path::PathBuf;

use vstd::prelude::*;

use crate::backend::{
    destination, is_staging_place, law_writes_stay_invisible, object_at, opens,
    same_outside_staging, stages_apart, visible, write_trace, Place, World,
};
use crate::error::{
    fatal_error, opendal_failure, result_view, Error, ErrorView, IoErrorView, OpendalError,
    OpendalErrorKind, OpendalErrorView,
};
use crate::staged::{FsStaging, StagedView, StagedWriter, StagingPhase, StagingView};
use crate::store::{OpendalStore, StoreView};
use crate::text::join2;
use crate::transfer::{stream_view, CopyRun, CopyView, WriteRun, WriteView};

verus! {

/// Upload part/block size for object-store writes. Meets every backend's minimum part size (5 MiB
/// on S3/GCS/B2), keeps large files under per-object part-count caps (50,000 blocks on Azure,
/// 10,000 parts elsewhere), and bounds per-writer buffering.
pub const OBJECT_STORE_WRITE_CHUNK_SIZE: usize = 8_388_608;

/// A reader to open.
#[derive(Debug)]
pub struct ReaderRequest {
    pub key: String,
}

impl ReaderRequest {
    /// What it means that the backend opened the reader, or did not.
    pub fn answer(&self, opened: Result<(), OpendalError>) -> (result: Result<(), Error>)
        ensures
            result_view(result) == reader_opened(self.key@, stream_view(opened)),
    {
        match opened {
            Ok(_) => Ok(()),
            Err(error) => {
                let context = join2("Failed to open reader for ", self.key.as_str());
                Err(error.in_context(context.as_str()))
            },
        }
    }
}

/// The result of opening a reader.
pub open spec fn reader_opened(key: Seq<char>, opened: Result<(), OpendalErrorView>) -> Result<
    (),
    ErrorView,
> {
    match opened {
        Ok(_) => Ok(()),
        Err(error) => Err(opendal_failure(error, "Failed to open reader for "@ + key)),
    }
}

/// An object to look for.
#[derive(Debug)]
pub struct ExistsRequest {
    pub key: String,
}

/// The length of an object, or why it could not be had.
pub open spec fn length_view(length: Result<u64, OpendalError>) -> Result<u64, OpendalErrorView> {
    match length {
        Ok(length) => Ok(length),
        Err(error) => Err(error@),
    }
}

/// Whether an object exists, given its length or why that could not be had. An empty object is
/// treated as one that does not exist.
pub open spec fn existence(key: Seq<char>, length: Result<u64, OpendalErrorView>) -> Result<
    bool,
    ErrorView,
> {
    match length {
        Ok(length) => Ok(length != 0),
        Err(error) => if error.kind == OpendalErrorKind::NotFound {
            Ok(false)
        } else {
            Err(opendal_failure(error, "Failed to check existence of "@ + key))
        },
    }
}

impl ExistsRequest {
    /// Whether the object exists, given its length or why that could not be had. An empty object
    /// is treated as one that does not exist.
    pub fn answer(&self, length: Result<u64, OpendalError>) -> (exists_there: Result<bool, Error>)
        ensures
            result_view(exists_there) == existence(self.key@, length_view(length)),
            length matches Ok(size) ==> (exists_there matches Ok(there) && there == (size >= 1)),
    {
        match length {
            Ok(length) => Ok(length != 0),
            Err(error) => if error.kind == OpendalErrorKind::NotFound {
                Ok(false)
            } else {
                let context = join2("Failed to check existence of ", self.key.as_str());
                Err(error.in_context(context.as_str()))
            },
        }
    }
}

/// An upload to open.
#[derive(Debug)]
pub struct UploadRequest {
    pub key: String,
    /// The size of the parts, where the backend does not stream the data through unchanged.
    pub chunk_size: Option<usize>,
    /// The object, for error messages.
    pub object: String,
}

/// The mathematical counterpart of [`UploadRequest`].
pub struct UploadView {
    pub key: Seq<char>,
    pub chunk_size: Option<usize>,
    pub object: Seq<char>,
}

impl View for UploadRequest {
    type V = UploadView;

    open spec fn view(&self) -> UploadView {
        UploadView { key: self.key@, chunk_size: self.chunk_size, object: self.object@ }
    }
}

/// A staged writer, or why there is none.
pub open spec fn writer_view(writer: Result<StagedWriter, Error>) -> Result<StagedView, ErrorView> {
    match writer {
        Ok(writer) => Ok(writer@),
        Err(error) => Err(error@),
    }
}

impl UploadView {
    /// The result of opening the upload.
    pub open spec fn opened(self, opened: Result<(), OpendalErrorView>) -> Result<
        StagedView,
        ErrorView,
    > {
        match opened {
            Ok(_) => Ok(StagedView::atomic_on_close(self.object)),
            Err(error) => Err(opendal_failure(error, "Failed to open writer for "@ + self.key)),
        }
    }
}

impl UploadRequest {
    /// The staged writer, given that the backend opened the upload, or did not.
    pub fn answer(self, opened: Result<(), OpendalError>) -> (writer: Result<StagedWriter, Error>)
        ensures
            writer_view(writer) == self@.opened(stream_view(opened)),
    {
        match opened {
            Ok(_) => Ok(StagedWriter::atomic_on_close(self.object.as_str())),
            Err(error) => {
                let context = join2("Failed to open writer for ", self.key.as_str());
                Err(error.in_context(context.as_str()))
            },
        }
    }
}

/// How a staged writer is opened: `U` is the type of uploads, `F` that of staged files.
#[derive(Debug)]
pub enum WriterRequest<U, F> {
    /// Through an upload that commits atomically on close.
    Upload(U),
    /// Through a staged file.
    Stage(F),
}

impl View for WriterRequest<UploadRequest, FsStaging> {
    type V = WriterRequest<UploadView, StagingView>;

    open spec fn view(&self) -> WriterRequest<UploadView, StagingView> {
        match *self {
            WriterRequest::Upload(upload) => WriterRequest::Upload(upload@),
            WriterRequest::Stage(staging) => WriterRequest::Stage(staging@),
        }
    }
}

/// How a staged writer is opened, or why it cannot be.
pub open spec fn request_view(request: Result<WriterRequest<UploadRequest, FsStaging>, Error>) -> Result<
    WriterRequest<UploadView, StagingView>,
    ErrorView,
> {
    match request {
        Ok(request) => Ok(request@),
        Err(error) => Err(error@),
    }
}

/// The error for a write to a backend that does not support it.
pub open spec fn write_not_supported() -> ErrorView {
    fatal_error("Write not supported by this backend"@)
}

/// Core unified storage trait for all backends.
pub trait Storage {
    /// Asks for a reader of the object. There are no automatic retries: they are handled at the
    /// pipeline level.
    fn open_reader(&self, object: &str) -> (request: ReaderRequest);

    /// Asks whether the object exists. There are no automatic retries: they are handled at the
    /// pipeline level.
    fn object_exists(&self, object: &str) -> (request: ExistsRequest);

    /// Asks for a staged write to `object`: bytes become visible at the final path only on commit.
    /// Only supported by writable backends.
    fn open_staged_writer(&self, _object: &str) -> (request: Result<
        WriterRequest<UploadRequest, FsStaging>,
        Error,
    >)
        default_ensures
            request_view(request) == Err::<WriterRequest<UploadView, StagingView>, ErrorView>(
                write_not_supported(),
            ),
    {
        Err(Error::fatal("Write not supported by this backend"))
    }

    /// Starts to write an entire buffer to an object.
    /// Only supported by writable backends (filesystem and cloud object stores).
    fn write(&self, object: &str) -> (run: WriteRun)
        default_ensures
            run@ == WriteView::start(object@),
    {
        WriteRun::start(object)
    }

    /// Starts to copy data from a source reader to a destination object, streaming in chunks.
    /// Nothing is visible at the destination on failure.
    /// Only supported by writable backends (filesystem and cloud object stores).
    fn copy_from_reader(&self, object: &str) -> (run: CopyRun)
        default_ensures
            run@ == CopyView::start(object@),
    {
        CopyRun::start(object)
    }

    /// Whether this backend supports write operations.
    fn supports_writes(&self) -> (supported: bool)
        default_ensures
            !supported,
    {
        false
    }

    /// The base filesystem path if this is a filesystem backend.
    /// Introspection only: production write paths never consult this.
    fn get_base_path(&self) -> (path: Option<&PathBuf>)
        default_ensures
            path is None,
    {
        None
    }
}

impl StoreView {
    /// The upload that a staged write to `object` goes through.
    pub open spec fn upload(self, object: Seq<char>) -> UploadView {
        UploadView {
            key: self.key(object),
            chunk_size: if self.root_path is None {
                Some(OBJECT_STORE_WRITE_CHUNK_SIZE)
            } else {
                None
            },
            object,
        }
    }

    /// How a staged writer for `object` is opened, or why it cannot be.
    pub open spec fn staged_writer(self, object: Seq<char>) -> Result<
        WriterRequest<UploadView, StagingView>,
        ErrorView,
    > {
        if !self.writable {
            Err(write_not_supported())
        } else if self.atomic_writes {
            Ok(WriterRequest::Upload(self.upload(object)))
        } else {
            match self.root_path {
                Some(root) => Ok(WriterRequest::Stage(StagingView::below(root, object))),
                None => Err(
                    fatal_error(
                        "Non-atomic backend without a filesystem root cannot stage writes"@,
                    ),
                ),
            }
        }
    }
}

/// The writer that a request ends in.
pub open spec fn requested_writer(request: WriterRequest<UploadView, StagingView>) -> StagedView {
    match request {
        WriterRequest::Upload(upload) => StagedView::atomic_on_close(upload.object),
        WriterRequest::Stage(staging) => staging.writer(),
    }
}

/// A staged file that a request asks for is another than the final one wherever that has a file
/// name. It holds of every request that `open_staged_writer` makes.
pub open spec fn adds_extension(request: WriterRequest<UploadView, StagingView>) -> bool {
    match request {
        WriterRequest::Upload(_) => true,
        WriterRequest::Stage(staging) => staging.adds_extension(),
    }
}

impl Storage for OpendalStore {
    fn open_reader(&self, object: &str) -> (request: ReaderRequest)
        ensures
            request.key@ == self@.key(object@),
    {
        ReaderRequest { key: self.object_to_key(object) }
    }

    fn object_exists(&self, object: &str) -> (request: ExistsRequest)
        ensures
            request.key@ == self@.key(object@),
    {
        ExistsRequest { key: self.object_to_key(object) }
    }

    fn open_staged_writer(&self, object: &str) -> (request: Result<
        WriterRequest<UploadRequest, FsStaging>,
        Error,
    >)
        ensures
            request_view(request) == self@.staged_writer(object@),
            request matches Ok(request) ==> adds_extension(request@),
    {
        if !self.writable {
            return Err(Error::fatal("Write not supported by this backend"));
        }
        if self.atomic_writes {
            // Object stores need an explicit chunk size: without one, every incoming stream chunk
            // becomes its own upload part, and azblob (no service-declared minimum) would exceed
            // Azure's 50,000-block cap on large files. Filesystem writers stream through
            // unchanged.
            let chunk_size: Option<usize> = match self.root_path {
                None => Some(OBJECT_STORE_WRITE_CHUNK_SIZE),
                Some(_) => None,
            };
            Ok(
                WriterRequest::Upload(
                    UploadRequest {
                        key: self.object_to_key(object),
                        chunk_size,
                        object: object.to_owned(),
                    },
                ),
            )
        } else {
            // Plain fs is the only non-atomic writable backend; it always has a root.
            match &self.root_path {
                Some(root) => Ok(
                    WriterRequest::Stage(StagedWriter::fs_staged(root, object)),
                ),
                None => Err(
                    Error::fatal("Non-atomic backend without a filesystem root cannot stage writes"),
                ),
            }
        }
    }

    fn supports_writes(&self) -> (supported: bool)
        ensures
            supported == self@.writable,
    {
        self.writable
    }

    fn get_base_path(&self) -> (path: Option<&PathBuf>)
        ensures
            match path {
                Some(path) => self@.root_path == Some(*path),
                None => self@.root_path is None,
            },
    {
        self.root_path.as_ref()
    }
}

// ===== What the operations guarantee =====

/// A well-formed store can stage a write if and only if it is writable; else it rejects the write
/// as not supported.
pub proof fn law_staging_needs_a_writable_store(store: StoreView, object: Seq<char>)
    requires
        store.wf(),
    ensures
        store.staged_writer(object) is Ok <==> store.writable,
        store.staged_writer(object) matches Err(error) ==> error == write_not_supported(),
{
}

/// The spelling of an object with or without a leading slash does not matter for where a write to
/// it goes.
pub proof fn law_leading_slash_does_not_matter_for_writes(store: StoreView, object: Seq<char>)
    ensures
        match (store.staged_writer(seq!['/'] + object), store.staged_writer(object)) {
            (Ok(first), Ok(second)) => destination(requested_writer(first)) == destination(
                requested_writer(second),
            ),
            (Err(first), Err(second)) => first == second,
            _ => false,
        },
{
    assert((seq!['/'] + object).drop_first() == object);
}

/// The staged data of a writer that could be opened is kept apart from its final path.
pub proof fn law_opened_writer_stages_apart(
    request: WriterRequest<UploadView, StagingView>,
    before: World,
    after: World,
)
    requires
        adds_extension(request),
        opens(before, requested_writer(request), true, after),
    ensures
        stages_apart(requested_writer(request)),
{
}

/// A write that is opened and then dropped without a commit, whatever was written to it, leaves
/// what a reader finds everywhere but where the data is staged, and so at its final path, as it
/// was.
pub proof fn law_dropped_write_leaves_unchanged(
    request: WriterRequest<UploadView, StagingView>,
    before: World,
    chunks: Seq<Seq<u8>>,
    oks: Seq<bool>,
    worlds: Seq<World>,
)
    requires
        adds_extension(request),
        opens(before, requested_writer(request), true, worlds[0]),
        write_trace(requested_writer(request), chunks, oks, worlds),
    ensures
        visible(worlds.last(), requested_writer(request)) == visible(
            before,
            requested_writer(request),
        ),
        same_outside_staging(before, requested_writer(request), worlds.last()),
{
    let writer = requested_writer(request);
    law_opened_writer_stages_apart(request, before, worlds[0]);
    law_writes_stay_invisible(writer, chunks, oks, worlds);
    assert forall|place: Place| !is_staging_place(writer, place) implies #[trigger] object_at(
        worlds.last(),
        place,
    ) == object_at(before, place) by {
        assert(object_at(worlds[0], place) == object_at(before, place));
    }
}

/// Opening a staged file ends after at most two steps: with the writer if both succeed, else with
/// an error.
pub proof fn law_staging_ends(
    root: PathBuf,
    object: Seq<char>,
    first: Result<(), IoErrorView>,
    second: Result<(), IoErrorView>,
)
    ensures
        match StagingView::below(root, object).after(first).after(second).phase {
            StagingPhase::Staged => first is Ok,
            StagingPhase::Failed(_) => first is Err || second is Err,
            _ => false,
        },
        first is Ok && second is Ok ==> StagingView::below(root, object).after(first).after(
            second,
        ).phase is Staged,
{
}

} // verus!
