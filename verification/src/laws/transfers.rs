//! What transfers ask for, and how they end.
use vstd::prelude::*;

use crate::error::{opendal_failure, ErrorView, OpendalErrorView};
use crate::transfer::{
    CopyPhase, CopyView, DownloadPhase, DownloadView, EventView, TransferEvent, TransferStep,
    WritePhase, WriteView,
};

verus! {

/// An event answers a step.
pub open spec fn answers(step: TransferStep, event: EventView) -> bool {
    match step {
        TransferStep::OpenReader | TransferStep::OpenWriter => event is Opened,
        TransferStep::OpenStream => event is StreamOpened,
        TransferStep::ReadChunk => event is Read,
        TransferStep::WriteChunk => event is Written,
        TransferStep::Commit => event is Committed,
        TransferStep::Abort => event is Aborted,
    }
}

// ===== Writing a buffer =====

/// Writing a buffer opens a writer, writes, and commits. If all of that succeeds, so does the
/// write.
pub proof fn law_undisturbed_write_succeeds(object: Seq<char>, count: u64)
    ensures
        ({
            let opening = WriteView::start(object);
            let writing = opening.after(TransferEvent::Opened(Ok(())));
            let committing = writing.after(TransferEvent::Written(Ok(())));
            let ended = committing.after(TransferEvent::Committed(Ok(count)));
            &&& opening.object == object
            &&& opening.step() == Some(TransferStep::OpenWriter)
            &&& writing.step() == Some(TransferStep::WriteChunk)
            &&& committing.step() == Some(TransferStep::Commit)
            &&& ended.step() is None
            &&& ended.phase == WritePhase::Finished::<ErrorView>(Ok(()))
        }),
{
}

/// The error of the step that fails is the one that the write ends with; after a failed write to the
/// writer, the writer is aborted first.
pub proof fn law_failed_write_reports_its_error(run: WriteView, error: ErrorView)
    ensures
        run.step() == Some(TransferStep::OpenWriter) ==> run.after(
            TransferEvent::Opened(Err(error)),
        ).phase == WritePhase::Finished::<ErrorView>(Err(error)),
        run.step() == Some(TransferStep::WriteChunk) ==> {
            let aborting = run.after(TransferEvent::Written(Err(error)));
            &&& aborting.step() == Some(TransferStep::Abort)
            &&& aborting.after(TransferEvent::Aborted).phase == WritePhase::Finished::<ErrorView>(
                Err(error),
            )
        },
        run.step() == Some(TransferStep::Commit) ==> run.after(
            TransferEvent::Committed(Err(error)),
        ).phase == WritePhase::Finished::<ErrorView>(Err(error)),
{
}

/// A write is about one object; an event that does not answer its step, or that comes after its
/// end, changes nothing.
pub proof fn law_stray_events_do_not_disturb_a_write(run: WriteView, event: EventView)
    ensures
        run.after(event).object == run.object,
        run.step() matches Some(step) ==> (!answers(step, event) ==> run.after(event) == run),
        run.step() is None ==> run.after(event) == run,
        run.step() is None <==> run.phase is Finished,
{
}

// ===== Copying =====

/// A copy opens its writer, then its stream; every chunk read is written before the next one is
/// read; at the end of the stream the writer is committed, and the copy ends with what the commit
/// says.
pub proof fn law_steps_of_a_copy(
    object: Seq<char>,
    run: CopyView,
    chunk: Seq<u8>,
    committed: Result<u64, ErrorView>,
)
    ensures
        CopyView::start(object).object == object,
        CopyView::start(object).step() == Some(TransferStep::OpenWriter),
        run.step() == Some(TransferStep::OpenWriter) ==> run.after(
            TransferEvent::Opened(Ok(())),
        ).step() == Some(TransferStep::OpenStream),
        run.step() == Some(TransferStep::OpenStream) ==> run.after(
            TransferEvent::StreamOpened(Ok(())),
        ).step() == Some(TransferStep::ReadChunk),
        run.step() == Some(TransferStep::ReadChunk) ==> {
            let writing = run.after(TransferEvent::Read(Some(Ok(chunk))));
            &&& writing.step() == Some(TransferStep::WriteChunk)
            &&& writing.phase == CopyPhase::Writing::<Seq<u8>, ErrorView>(chunk)
            &&& writing.after(TransferEvent::Written(Ok(()))) == run
            &&& run.after(TransferEvent::Read(None)).step() == Some(TransferStep::Commit)
        },
        run.step() == Some(TransferStep::Commit) ==> {
            let ended = run.after(TransferEvent::Committed(committed));
            &&& ended.step() is None
            &&& ended.phase == CopyPhase::Finished::<Seq<u8>, ErrorView>(committed)
        },
{
}

/// The copy has failed with this error, and the abort of its writer is all that is left to do.
pub open spec fn copy_fails(run: CopyView, error: ErrorView) -> bool {
    &&& run.step() == Some(TransferStep::Abort)
    &&& run.after(TransferEvent::Aborted).step() is None
    &&& run.after(TransferEvent::Aborted).phase == CopyPhase::Finished::<Seq<u8>, ErrorView>(
        Err(error),
    )
}

/// How a failure of each step ends a copy: once the writer is open, it is aborted first.
pub proof fn law_failures_of_a_copy(run: CopyView, failure: OpendalErrorView, error: ErrorView)
    ensures
        run.step() == Some(TransferStep::OpenWriter) ==> run.after(
            TransferEvent::Opened(Err(error)),
        ).phase == CopyPhase::Finished::<Seq<u8>, ErrorView>(Err(error)),
        run.step() == Some(TransferStep::OpenStream) ==> copy_fails(
            run.after(TransferEvent::StreamOpened(Err(failure))),
            opendal_failure(failure, "Failed to create stream for "@ + run.object),
        ),
        run.step() == Some(TransferStep::ReadChunk) ==> copy_fails(
            run.after(TransferEvent::Read(Some(Err(failure)))),
            opendal_failure(failure, "Failed to read data for "@ + run.object),
        ),
        run.step() == Some(TransferStep::WriteChunk) ==> copy_fails(
            run.after(TransferEvent::Written(Err(error))),
            error,
        ),
{
}

/// A copy is about one object; an event that does not answer its step, or that comes after its end,
/// changes nothing.
pub proof fn law_stray_events_do_not_disturb_a_copy(run: CopyView, event: EventView)
    ensures
        run.after(event).object == run.object,
        run.step() matches Some(step) ==> (!answers(step, event) ==> run.after(event) == run),
        run.step() is None ==> run.after(event) == run,
        run.step() is None <==> run.phase is Finished,
{
}

// ===== Downloading =====

/// A download opens a reader, then its stream, and collects the chunks that it reads until the
/// stream ends.
pub proof fn law_steps_of_a_download(
    path: Seq<char>,
    run: DownloadView,
    data: Seq<u8>,
    chunk: Seq<u8>,
)
    ensures
        DownloadView::start(path).path == path,
        DownloadView::start(path).step() == Some(TransferStep::OpenReader),
        run.step() == Some(TransferStep::OpenReader) ==> run.after(
            TransferEvent::Opened(Ok(())),
        ).step() == Some(TransferStep::OpenStream),
        run.step() == Some(TransferStep::OpenStream) ==> {
            let reading = run.after(TransferEvent::StreamOpened(Ok(())));
            &&& reading.step() == Some(TransferStep::ReadChunk)
            &&& reading.after(TransferEvent::Read(None)).phase == DownloadPhase::Finished::<
                Seq<u8>,
                ErrorView,
            >(Ok(Seq::empty()))
        },
        run.step() == Some(TransferStep::ReadChunk) && run.after(TransferEvent::Read(None)).phase
            == DownloadPhase::Finished::<Seq<u8>, ErrorView>(Ok(data)) ==> {
            let more = run.after(TransferEvent::Read(Some(Ok(chunk))));
            &&& more.step() == Some(TransferStep::ReadChunk)
            &&& more.after(TransferEvent::Read(None)).phase == DownloadPhase::Finished::<
                Seq<u8>,
                ErrorView,
            >(Ok(data + chunk))
        },
        run.step() == Some(TransferStep::ReadChunk) ==> run.after(TransferEvent::Read(None)).phase
            is Finished,
{
}

/// How a failure of each step ends a download.
pub proof fn law_failures_of_a_download(
    run: DownloadView,
    failure: OpendalErrorView,
    error: ErrorView,
)
    ensures
        run.step() == Some(TransferStep::OpenReader) ==> run.after(
            TransferEvent::Opened(Err(error)),
        ).phase == DownloadPhase::Finished::<Seq<u8>, ErrorView>(Err(error)),
        run.step() == Some(TransferStep::OpenStream) ==> run.after(
            TransferEvent::StreamOpened(Err(failure)),
        ).phase == DownloadPhase::Finished::<Seq<u8>, ErrorView>(
            Err(opendal_failure(failure, "Stream error"@)),
        ),
        run.step() == Some(TransferStep::ReadChunk) ==> run.after(
            TransferEvent::Read(Some(Err(failure))),
        ).phase == DownloadPhase::Finished::<Seq<u8>, ErrorView>(
            Err(opendal_failure(failure, "Read error"@)),
        ),
{
}

/// A download is about one path; an event that does not answer its step, or that comes after its
/// end, changes nothing.
pub proof fn law_stray_events_do_not_disturb_a_download(run: DownloadView, event: EventView)
    ensures
        run.after(event).path == run.path,
        run.step() matches Some(step) ==> (!answers(step, event) ==> run.after(event) == run),
        run.step() is None ==> run.after(event) == run,
        run.step() is None <==> run.phase is Finished,
{
}

} // verus!
