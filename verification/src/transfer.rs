//! Whole-object transfers: writing a buffer, copying from a reader, downloading into memory.
//!
//! Each transfer is a run: it says which step comes next, the caller performs that step on the
//! storage and answers with an event. An event that does not answer the current step changes
//! nothing.
use vstd::prelude::*;

use crate::error::{
    opendal_failure, result_view, Error, ErrorView, OpendalError, OpendalErrorView,
};
use crate::text::join2;

verus! {

/// A step of a transfer.
#[derive(Debug, Clone, Copy, PartialEq, Eq, Structural)]
pub enum TransferStep {
    /// Open the source for reading.
    OpenReader,
    /// Open a staged writer on the destination.
    OpenWriter,
    /// Start to stream the source.
    OpenStream,
    /// Read the next chunk of the source.
    ReadChunk,
    /// Write the current chunk to the staged writer.
    WriteChunk,
    /// Commit the staged writer.
    Commit,
    /// Abort the staged writer.
    Abort,
}

/// The answer to a step: `B` is the type of chunks, `F` that of OpenDAL's failures, `E` that of
/// errors.
#[derive(Debug)]
pub enum TransferEvent<B, F, E> {
    /// The reader or the writer was opened, or was not.
    Opened(Result<(), E>),
    /// The stream was started, or was not.
    StreamOpened(Result<(), F>),
    /// The next chunk was read, the stream has ended, or it has failed.
    Read(Option<Result<B, F>>),
    /// The chunk was written, or was not.
    Written(Result<(), E>),
    /// The commit has ended, with the number of bytes written or an error.
    Committed(Result<u64, E>),
    /// The writer was aborted.
    Aborted,
}

/// An answer as the library receives it.
pub type Event = TransferEvent<Vec<u8>, OpendalError, Error>;

/// The mathematical counterpart of [`Event`].
pub type EventView = TransferEvent<Seq<u8>, OpendalErrorView, ErrorView>;

/// What reading a chunk gave.
pub open spec fn read_view(read: Option<Result<Vec<u8>, OpendalError>>) -> Option<
    Result<Seq<u8>, OpendalErrorView>,
> {
    match read {
        Some(Ok(chunk)) => Some(Ok(chunk@)),
        Some(Err(error)) => Some(Err(error@)),
        None => None,
    }
}

/// What opening a stream gave.
pub open spec fn stream_view(opened: Result<(), OpendalError>) -> Result<(), OpendalErrorView> {
    match opened {
        Ok(_) => Ok(()),
        Err(error) => Err(error@),
    }
}

impl View for TransferEvent<Vec<u8>, OpendalError, Error> {
    type V = EventView;

    open spec fn view(&self) -> EventView {
        match *self {
            TransferEvent::Opened(opened) => TransferEvent::Opened(result_view(opened)),
            TransferEvent::StreamOpened(opened) => TransferEvent::StreamOpened(
                stream_view(opened),
            ),
            TransferEvent::Read(read) => TransferEvent::Read(read_view(read)),
            TransferEvent::Written(written) => TransferEvent::Written(result_view(written)),
            TransferEvent::Committed(result) => TransferEvent::Committed(result_view(result)),
            TransferEvent::Aborted => TransferEvent::Aborted,
        }
    }
}

// ===== Writing a buffer =====

/// How far the write of a buffer has come: `E` is the type of errors.
#[derive(Debug)]
pub enum WritePhase<E> {
    Opening,
    Writing,
    Committing,
    /// The writer is being aborted after a failed write.
    Aborting(E),
    Finished(Result<(), E>),
}

/// The write of an entire buffer to an object. Only supported by writable backends.
#[derive(Debug)]
pub struct WriteRun {
    pub object: String,
    pub phase: WritePhase<Error>,
}

/// The mathematical counterpart of [`WriteRun`].
pub struct WriteView {
    pub object: Seq<char>,
    pub phase: WritePhase<ErrorView>,
}

impl View for WriteRun {
    type V = WriteView;

    open spec fn view(&self) -> WriteView {
        WriteView {
            object: self.object@,
            phase: match self.phase {
                WritePhase::Opening => WritePhase::Opening,
                WritePhase::Writing => WritePhase::Writing,
                WritePhase::Committing => WritePhase::Committing,
                WritePhase::Aborting(error) => WritePhase::Aborting(error@),
                WritePhase::Finished(result) => WritePhase::Finished(result_view(result)),
            },
        }
    }
}

impl WriteView {
    /// A write at its start.
    pub open spec fn start(object: Seq<char>) -> WriteView {
        WriteView { object, phase: WritePhase::Opening }
    }

    /// The step to perform next, until the write has ended.
    pub open spec fn step(self) -> Option<TransferStep> {
        match self.phase {
            WritePhase::Opening => Some(TransferStep::OpenWriter),
            WritePhase::Writing => Some(TransferStep::WriteChunk),
            WritePhase::Committing => Some(TransferStep::Commit),
            WritePhase::Aborting(_) => Some(TransferStep::Abort),
            WritePhase::Finished(_) => None,
        }
    }

    /// The write after an event.
    pub open spec fn after(self, event: EventView) -> WriteView {
        let phase = match (self.phase, event) {
            (WritePhase::Opening, TransferEvent::Opened(Ok(_))) => WritePhase::Writing,
            (WritePhase::Opening, TransferEvent::Opened(Err(error))) => WritePhase::Finished(
                Err(error),
            ),
            (WritePhase::Writing, TransferEvent::Written(Ok(_))) => WritePhase::Committing,
            (WritePhase::Writing, TransferEvent::Written(Err(error))) => WritePhase::Aborting(
                error,
            ),
            (WritePhase::Committing, TransferEvent::Committed(Ok(_))) => WritePhase::Finished(
                Ok(()),
            ),
            (WritePhase::Committing, TransferEvent::Committed(Err(error))) => WritePhase::Finished(
                Err(error),
            ),
            (WritePhase::Aborting(error), TransferEvent::Aborted) => WritePhase::Finished(
                Err(error),
            ),
            (phase, _) => phase,
        };
        WriteView { phase, ..self }
    }

    /// The write after a sequence of events.
    pub open spec fn after_all(self, events: Seq<EventView>) -> WriteView
        decreases events.len(),
    {
        if events.len() == 0 {
            self
        } else {
            self.after_all(events.drop_last()).after(events.last())
        }
    }
}

impl WriteRun {
    /// Starts to write to `object`.
    pub fn start(object: &str) -> (run: Self)
        ensures
            run@ == WriteView::start(object@),
    {
        Self { object: object.to_owned(), phase: WritePhase::Opening }
    }

    /// The step to perform next, until the write has ended.
    pub fn step(&self) -> (step: Option<TransferStep>)
        ensures
            step == self@.step(),
    {
        match self.phase {
            WritePhase::Opening => Some(TransferStep::OpenWriter),
            WritePhase::Writing => Some(TransferStep::WriteChunk),
            WritePhase::Committing => Some(TransferStep::Commit),
            WritePhase::Aborting(_) => Some(TransferStep::Abort),
            WritePhase::Finished(_) => None,
        }
    }

    /// Goes on after an event.
    pub fn resume(self, event: Event) -> (next: Self)
        ensures
            next@ == self@.after(event@),
    {
        let phase = match (self.phase, event) {
            (WritePhase::Opening, TransferEvent::Opened(Ok(_))) => WritePhase::Writing,
            (WritePhase::Opening, TransferEvent::Opened(Err(error))) => WritePhase::Finished(
                Err(error),
            ),
            (WritePhase::Writing, TransferEvent::Written(Ok(_))) => WritePhase::Committing,
            (WritePhase::Writing, TransferEvent::Written(Err(error))) => WritePhase::Aborting(
                error,
            ),
            (WritePhase::Committing, TransferEvent::Committed(Ok(_))) => WritePhase::Finished(
                Ok(()),
            ),
            (WritePhase::Committing, TransferEvent::Committed(Err(error))) => WritePhase::Finished(
                Err(error),
            ),
            (WritePhase::Aborting(error), TransferEvent::Aborted) => WritePhase::Finished(
                Err(error),
            ),
            (phase, _) => phase,
        };
        Self { object: self.object, phase }
    }

    /// The result, once the write has ended.
    pub fn finish(self) -> (result: Option<Result<(), Error>>)
        ensures
            match self@.phase {
                WritePhase::Finished(expected) => result matches Some(r) && result_view(r)
                    == expected,
                _ => result is None,
            },
    {
        match self.phase {
            WritePhase::Finished(result) => Some(result),
            _ => None,
        }
    }
}

// ===== Copying from a reader =====

/// How far a copy has come: `B` is the type of chunks, `E` that of errors.
#[derive(Debug)]
pub enum CopyPhase<B, E> {
    Opening,
    OpeningStream,
    Reading,
    /// This chunk is being written.
    Writing(B),
    Committing,
    /// The writer is being aborted after a failure.
    Aborting(E),
    Finished(Result<u64, E>),
}

/// The copy of data from a source reader to a destination object, streaming in chunks. Nothing is
/// visible at the destination on failure. Only supported by writable backends.
#[derive(Debug)]
pub struct CopyRun {
    pub object: String,
    pub phase: CopyPhase<Vec<u8>, Error>,
}

/// The mathematical counterpart of [`CopyRun`].
pub struct CopyView {
    pub object: Seq<char>,
    pub phase: CopyPhase<Seq<u8>, ErrorView>,
}

impl View for CopyRun {
    type V = CopyView;

    open spec fn view(&self) -> CopyView {
        CopyView {
            object: self.object@,
            phase: match self.phase {
                CopyPhase::Opening => CopyPhase::Opening,
                CopyPhase::OpeningStream => CopyPhase::OpeningStream,
                CopyPhase::Reading => CopyPhase::Reading,
                CopyPhase::Writing(chunk) => CopyPhase::Writing(chunk@),
                CopyPhase::Committing => CopyPhase::Committing,
                CopyPhase::Aborting(error) => CopyPhase::Aborting(error@),
                CopyPhase::Finished(result) => CopyPhase::Finished(result_view(result)),
            },
        }
    }
}

impl CopyView {
    /// A copy at its start.
    pub open spec fn start(object: Seq<char>) -> CopyView {
        CopyView { object, phase: CopyPhase::Opening }
    }

    /// The step to perform next, until the copy has ended.
    pub open spec fn step(self) -> Option<TransferStep> {
        match self.phase {
            CopyPhase::Opening => Some(TransferStep::OpenWriter),
            CopyPhase::OpeningStream => Some(TransferStep::OpenStream),
            CopyPhase::Reading => Some(TransferStep::ReadChunk),
            CopyPhase::Writing(_) => Some(TransferStep::WriteChunk),
            CopyPhase::Committing => Some(TransferStep::Commit),
            CopyPhase::Aborting(_) => Some(TransferStep::Abort),
            CopyPhase::Finished(_) => None,
        }
    }

    /// The copy after an event.
    pub open spec fn after(self, event: EventView) -> CopyView {
        let phase = match (self.phase, event) {
            (CopyPhase::Opening, TransferEvent::Opened(Ok(_))) => CopyPhase::OpeningStream,
            (CopyPhase::Opening, TransferEvent::Opened(Err(error))) => CopyPhase::Finished(
                Err(error),
            ),
            (CopyPhase::OpeningStream, TransferEvent::StreamOpened(Ok(_))) => CopyPhase::Reading,
            (CopyPhase::OpeningStream, TransferEvent::StreamOpened(Err(failure))) =>
                CopyPhase::Aborting(
                opendal_failure(failure, "Failed to create stream for "@ + self.object),
            ),
            (CopyPhase::Reading, TransferEvent::Read(Some(Ok(chunk)))) => CopyPhase::Writing(chunk),
            (CopyPhase::Reading, TransferEvent::Read(Some(Err(failure)))) => CopyPhase::Aborting(
                opendal_failure(failure, "Failed to read data for "@ + self.object),
            ),
            (CopyPhase::Reading, TransferEvent::Read(None)) => CopyPhase::Committing,
            (CopyPhase::Writing(_), TransferEvent::Written(Ok(_))) => CopyPhase::Reading,
            (CopyPhase::Writing(_), TransferEvent::Written(Err(error))) => CopyPhase::Aborting(
                error,
            ),
            (CopyPhase::Committing, TransferEvent::Committed(result)) => CopyPhase::Finished(
                result,
            ),
            (CopyPhase::Aborting(error), TransferEvent::Aborted) => CopyPhase::Finished(Err(error)),
            (phase, _) => phase,
        };
        CopyView { phase, ..self }
    }

    /// The copy after a sequence of events.
    pub open spec fn after_all(self, events: Seq<EventView>) -> CopyView
        decreases events.len(),
    {
        if events.len() == 0 {
            self
        } else {
            self.after_all(events.drop_last()).after(events.last())
        }
    }
}

impl CopyRun {
    /// Starts to copy to `object`.
    pub fn start(object: &str) -> (run: Self)
        ensures
            run@ == CopyView::start(object@),
    {
        Self { object: object.to_owned(), phase: CopyPhase::Opening }
    }

    /// The step to perform next, until the copy has ended.
    pub fn step(&self) -> (step: Option<TransferStep>)
        ensures
            step == self@.step(),
    {
        match self.phase {
            CopyPhase::Opening => Some(TransferStep::OpenWriter),
            CopyPhase::OpeningStream => Some(TransferStep::OpenStream),
            CopyPhase::Reading => Some(TransferStep::ReadChunk),
            CopyPhase::Writing(_) => Some(TransferStep::WriteChunk),
            CopyPhase::Committing => Some(TransferStep::Commit),
            CopyPhase::Aborting(_) => Some(TransferStep::Abort),
            CopyPhase::Finished(_) => None,
        }
    }

    /// The chunk to write, where that is the next step.
    pub fn chunk(&self) -> (chunk: Option<&Vec<u8>>)
        ensures
            match self@.phase {
                CopyPhase::Writing(data) => chunk matches Some(c) && c@ == data,
                _ => chunk is None,
            },
    {
        match &self.phase {
            CopyPhase::Writing(chunk) => Some(chunk),
            _ => None,
        }
    }

    /// Goes on after an event.
    pub fn resume(self, event: Event) -> (next: Self)
        ensures
            next@ == self@.after(event@),
    {
        let phase = match (self.phase, event) {
            (CopyPhase::Opening, TransferEvent::Opened(Ok(_))) => CopyPhase::OpeningStream,
            (CopyPhase::Opening, TransferEvent::Opened(Err(error))) => CopyPhase::Finished(
                Err(error),
            ),
            (CopyPhase::OpeningStream, TransferEvent::StreamOpened(Ok(_))) => CopyPhase::Reading,
            (CopyPhase::OpeningStream, TransferEvent::StreamOpened(Err(failure))) => {
                let context = join2("Failed to create stream for ", self.object.as_str());
                CopyPhase::Aborting(failure.in_context(context.as_str()))
            },
            (CopyPhase::Reading, TransferEvent::Read(Some(Ok(chunk)))) => CopyPhase::Writing(chunk),
            (CopyPhase::Reading, TransferEvent::Read(Some(Err(failure)))) => {
                let context = join2("Failed to read data for ", self.object.as_str());
                CopyPhase::Aborting(failure.in_context(context.as_str()))
            },
            (CopyPhase::Reading, TransferEvent::Read(None)) => CopyPhase::Committing,
            (CopyPhase::Writing(_), TransferEvent::Written(Ok(_))) => CopyPhase::Reading,
            (CopyPhase::Writing(_), TransferEvent::Written(Err(error))) => CopyPhase::Aborting(
                error,
            ),
            (CopyPhase::Committing, TransferEvent::Committed(result)) => CopyPhase::Finished(
                result,
            ),
            (CopyPhase::Aborting(error), TransferEvent::Aborted) => CopyPhase::Finished(Err(error)),
            (phase, _) => phase,
        };
        Self { object: self.object, phase }
    }

    /// The number of bytes copied, or the error, once the copy has ended.
    pub fn finish(self) -> (result: Option<Result<u64, Error>>)
        ensures
            match self@.phase {
                CopyPhase::Finished(expected) => result matches Some(r) && result_view(r)
                    == expected,
                _ => result is None,
            },
    {
        match self.phase {
            CopyPhase::Finished(result) => Some(result),
            _ => None,
        }
    }
}

// ===== Downloading into memory =====

/// How far a download has come: `B` is the type of the data, `E` that of errors.
#[derive(Debug)]
pub enum DownloadPhase<B, E> {
    Opening,
    OpeningStream,
    /// This data has been read so far.
    Reading(B),
    Finished(Result<B, E>),
}

/// The download of a file into a buffer.
#[derive(Debug)]
pub struct DownloadRun {
    pub path: String,
    pub phase: DownloadPhase<Vec<u8>, Error>,
}

/// The mathematical counterpart of [`DownloadRun`].
pub struct DownloadView {
    pub path: Seq<char>,
    pub phase: DownloadPhase<Seq<u8>, ErrorView>,
}

/// The data of a download, or its error.
pub open spec fn data_view(data: Result<Vec<u8>, Error>) -> Result<Seq<u8>, ErrorView> {
    match data {
        Ok(bytes) => Ok(bytes@),
        Err(error) => Err(error@),
    }
}

impl View for DownloadRun {
    type V = DownloadView;

    open spec fn view(&self) -> DownloadView {
        DownloadView {
            path: self.path@,
            phase: match self.phase {
                DownloadPhase::Opening => DownloadPhase::Opening,
                DownloadPhase::OpeningStream => DownloadPhase::OpeningStream,
                DownloadPhase::Reading(data) => DownloadPhase::Reading(data@),
                DownloadPhase::Finished(result) => DownloadPhase::Finished(data_view(result)),
            },
        }
    }
}

impl DownloadView {
    /// A download at its start.
    pub open spec fn start(path: Seq<char>) -> DownloadView {
        DownloadView { path, phase: DownloadPhase::Opening }
    }

    /// The step to perform next, until the download has ended.
    pub open spec fn step(self) -> Option<TransferStep> {
        match self.phase {
            DownloadPhase::Opening => Some(TransferStep::OpenReader),
            DownloadPhase::OpeningStream => Some(TransferStep::OpenStream),
            DownloadPhase::Reading(_) => Some(TransferStep::ReadChunk),
            DownloadPhase::Finished(_) => None,
        }
    }

    /// The download after an event.
    pub open spec fn after(self, event: EventView) -> DownloadView {
        let phase = match (self.phase, event) {
            (DownloadPhase::Opening, TransferEvent::Opened(Ok(_))) => DownloadPhase::OpeningStream,
            (DownloadPhase::Opening, TransferEvent::Opened(Err(error))) => DownloadPhase::Finished(
                Err(error),
            ),
            (DownloadPhase::OpeningStream, TransferEvent::StreamOpened(Ok(_))) =>
                DownloadPhase::Reading(Seq::empty()),
            (DownloadPhase::OpeningStream, TransferEvent::StreamOpened(Err(failure))) =>
                DownloadPhase::Finished(Err(opendal_failure(failure, "Stream error"@))),
            (DownloadPhase::Reading(data), TransferEvent::Read(Some(Ok(chunk)))) =>
                DownloadPhase::Reading(data + chunk),
            (DownloadPhase::Reading(_), TransferEvent::Read(Some(Err(failure)))) =>
                DownloadPhase::Finished(Err(opendal_failure(failure, "Read error"@))),
            (DownloadPhase::Reading(data), TransferEvent::Read(None)) => DownloadPhase::Finished(
                Ok(data),
            ),
            (phase, _) => phase,
        };
        DownloadView { phase, ..self }
    }

    /// The download after a sequence of events.
    pub open spec fn after_all(self, events: Seq<EventView>) -> DownloadView
        decreases events.len(),
    {
        if events.len() == 0 {
            self
        } else {
            self.after_all(events.drop_last()).after(events.last())
        }
    }
}

/// Starts to download the file at `path` into a buffer.
pub fn download_buffer(path: &str) -> (run: DownloadRun)
    ensures
        run@ == DownloadView::start(path@),
{
    DownloadRun { path: path.to_owned(), phase: DownloadPhase::Opening }
}

impl DownloadRun {
    /// The step to perform next, until the download has ended.
    pub fn step(&self) -> (step: Option<TransferStep>)
        ensures
            step == self@.step(),
    {
        match self.phase {
            DownloadPhase::Opening => Some(TransferStep::OpenReader),
            DownloadPhase::OpeningStream => Some(TransferStep::OpenStream),
            DownloadPhase::Reading(_) => Some(TransferStep::ReadChunk),
            DownloadPhase::Finished(_) => None,
        }
    }

    /// Goes on after an event.
    pub fn resume(self, event: Event) -> (next: Self)
        ensures
            next@ == self@.after(event@),
    {
        let phase = match (self.phase, event) {
            (DownloadPhase::Opening, TransferEvent::Opened(Ok(_))) => DownloadPhase::OpeningStream,
            (DownloadPhase::Opening, TransferEvent::Opened(Err(error))) => DownloadPhase::Finished(
                Err(error),
            ),
            (DownloadPhase::OpeningStream, TransferEvent::StreamOpened(Ok(_))) =>
                DownloadPhase::Reading(Vec::new()),
            (DownloadPhase::OpeningStream, TransferEvent::StreamOpened(Err(failure))) =>
                DownloadPhase::Finished(Err(failure.in_context("Stream error"))),
            (DownloadPhase::Reading(data), TransferEvent::Read(Some(Ok(chunk)))) => {
                let mut data = data;
                let mut chunk = chunk;
                data.append(&mut chunk);
                DownloadPhase::Reading(data)
            },
            (DownloadPhase::Reading(_), TransferEvent::Read(Some(Err(failure)))) =>
                DownloadPhase::Finished(Err(failure.in_context("Read error"))),
            (DownloadPhase::Reading(data), TransferEvent::Read(None)) => DownloadPhase::Finished(
                Ok(data),
            ),
            (phase, _) => phase,
        };
        Self { path: self.path, phase }
    }

    /// The data, or the error, once the download has ended.
    pub fn finish(self) -> (result: Option<Result<Vec<u8>, Error>>)
        ensures
            match self@.phase {
                DownloadPhase::Finished(expected) => result matches Some(r) && data_view(r)
                    == expected,
                _ => result is None,
            },
    {
        match self.phase {
            DownloadPhase::Finished(result) => Some(result),
            _ => None,
        }
    }
}

} // verus!
