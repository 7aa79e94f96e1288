//! What transfers leave at their destination: all of the data, or no change.
use vstd::prelude::*;

use crate::backend::{
    all_bytes, commit_trace, law_abort_leaves_unchanged, law_commit_publishes_or_leaves_unchanged,
    opens, performs, staged_data, stages_apart, visible, writes, World,
};
use crate::error::{ErrorView, FailureView};
use crate::staged::{CommitPhase, CommitView, StagedView};
use crate::transfer::{
    CopyPhase, CopyView, DownloadPhase, DownloadView, EventView, TransferEvent, TransferStep,
    WritePhase, WriteView,
};

verus! {

/// A destination: what a reader finds there, if anything, and the data that is staged for it, if
/// any.
pub struct Destination {
    pub visible: Option<Seq<u8>>,
    pub staged: Option<Seq<u8>>,
}

/// The destination of a staged write on a backend.
pub open spec fn destination_of(world: World, writer: StagedView) -> Destination {
    Destination { visible: visible(world, writer), staged: staged_data(world, writer) }
}

/// A step of a transfer, answered by `event`, can turn `before` into `after`, where `chunk` is the
/// data to write.
pub open spec fn carries_out(
    before: Destination,
    step: Option<TransferStep>,
    chunk: Seq<u8>,
    event: EventView,
    after: Destination,
) -> bool {
    match (step, event) {
        (Some(TransferStep::OpenWriter), TransferEvent::Opened(opened)) => {
            &&& after.visible == before.visible
            &&& opened is Ok ==> after.staged == Some(Seq::<u8>::empty())
        },
        (Some(TransferStep::WriteChunk), TransferEvent::Written(written)) => {
            &&& after.visible == before.visible
            &&& written is Ok ==> before.staged is Some && after.staged == Some(
                before.staged.unwrap() + chunk,
            )
        },
        (Some(TransferStep::Commit), TransferEvent::Committed(Ok(count))) => {
            &&& before.staged is Some
            &&& after.visible == before.staged
            &&& count == before.staged.unwrap().len()
        },
        (Some(TransferStep::Commit), TransferEvent::Committed(Err(_))) => after.visible
            == before.visible,
        (Some(TransferStep::Abort), TransferEvent::Aborted) => after.visible == before.visible,
        _ => after == before,
    }
}

// ===== The steps of a transfer on a backend =====

/// Opening a staged write does what a transfer expects of it.
pub proof fn law_opening_carries_out(writer: StagedView, before: World, ok: bool, after: World)
    requires
        stages_apart(writer),
        opens(before, writer, ok, after),
    ensures
        forall|opened: Result<(), ErrorView>|
            (opened is Ok) == ok ==> #[trigger] carries_out(
                destination_of(before, writer),
                Some(TransferStep::OpenWriter),
                Seq::empty(),
                TransferEvent::Opened(opened),
                destination_of(after, writer),
            ),
{
}

/// Writing a chunk to the staged data does what a transfer expects of it.
pub proof fn law_writing_carries_out(
    writer: StagedView,
    chunk: Seq<u8>,
    before: World,
    ok: bool,
    after: World,
)
    requires
        stages_apart(writer),
        writes(before, writer, chunk, ok, after),
    ensures
        forall|written: Result<(), ErrorView>|
            (written is Ok) == ok ==> #[trigger] carries_out(
                destination_of(before, writer),
                Some(TransferStep::WriteChunk),
                chunk,
                TransferEvent::Written(written),
                destination_of(after, writer),
            ),
{
}

/// A commit that has ended did what a transfer expects of it.
pub proof fn law_committing_carries_out(
    writer: StagedView,
    outcomes: Seq<Result<(), FailureView>>,
    worlds: Seq<World>,
    result: Result<u64, ErrorView>,
)
    requires
        stages_apart(writer),
        writer.bytes_written <= u64::MAX,
        commit_trace(writer, outcomes, worlds),
        staged_data(worlds[0], writer) is Some,
        staged_data(worlds[0], writer).unwrap().len() == writer.bytes_written,
        CommitView::start(writer).after_all(outcomes).phase == CommitPhase::Finished(result),
    ensures
        carries_out(
            destination_of(worlds[0], writer),
            Some(TransferStep::Commit),
            Seq::empty(),
            TransferEvent::Committed(result),
            destination_of(worlds.last(), writer),
        ),
{
    law_commit_publishes_or_leaves_unchanged(writer, outcomes, worlds);
}

/// An abort does what a transfer expects of it, whatever its step reports.
pub proof fn law_aborting_carries_out(writer: StagedView, before: World, ok: bool, after: World)
    requires
        stages_apart(writer),
        performs(before, writer, writer.cleanup(), ok, after),
    ensures
        carries_out(
            destination_of(before, writer),
            Some(TransferStep::Abort),
            Seq::empty(),
            TransferEvent::Aborted,
            destination_of(after, writer),
        ),
{
    law_abort_leaves_unchanged(writer, before, ok, after);
}

// ===== Writing a buffer =====

/// `states` are what the destination goes through while `data` is written, with `events` the
/// answers to the steps.
pub open spec fn write_states(
    object: Seq<char>,
    data: Seq<u8>,
    events: Seq<EventView>,
    states: Seq<Destination>,
) -> bool
    decreases events.len(),
{
    &&& states.len() == events.len() + 1
    &&& events.len() > 0 ==> {
        &&& write_states(object, data, events.drop_last(), states.drop_last())
        &&& carries_out(
            states.drop_last().last(),
            WriteView::start(object).after_all(events.drop_last()).step(),
            data,
            events.last(),
            states.last(),
        )
    }
}

proof fn lemma_write(
    object: Seq<char>,
    data: Seq<u8>,
    events: Seq<EventView>,
    states: Seq<Destination>,
)
    requires
        write_states(object, data, events, states),
    ensures
        match WriteView::start(object).after_all(events).phase {
            WritePhase::Finished(Ok(_)) => states.last().visible == Some(data),
            phase => {
                &&& states.last().visible == states[0].visible
                &&& phase is Writing ==> states.last().staged == Some(Seq::<u8>::empty())
                &&& phase is Committing ==> states.last().staged == Some(data)
            },
        },
    decreases events.len(),
{
    if events.len() > 0 {
        lemma_write(object, data, events.drop_last(), states.drop_last());
        assert(Seq::<u8>::empty() + data == data);
    }
}

/// Writing a buffer makes exactly that buffer visible if it ends well; until then, and if it ends
/// with an error, what is visible at the destination stays as it was.
pub proof fn law_write_delivers_all_or_nothing(
    object: Seq<char>,
    data: Seq<u8>,
    events: Seq<EventView>,
    states: Seq<Destination>,
)
    requires
        write_states(object, data, events, states),
    ensures
        match WriteView::start(object).after_all(events).phase {
            WritePhase::Finished(Ok(_)) => states.last().visible == Some(data),
            _ => states.last().visible == states[0].visible,
        },
{
    lemma_write(object, data, events, states);
}

// ===== Copying from a reader =====

/// The data that a copy writes in its current step.
pub open spec fn current_chunk(run: CopyView) -> Seq<u8> {
    match run.phase {
        CopyPhase::Writing(chunk) => chunk,
        _ => Seq::empty(),
    }
}

/// The data that a copy has read so far.
pub open spec fn data_read(object: Seq<char>, events: Seq<EventView>) -> Seq<u8>
    decreases events.len(),
{
    if events.len() == 0 {
        Seq::empty()
    } else {
        let before = data_read(object, events.drop_last());
        match (CopyView::start(object).after_all(events.drop_last()).phase, events.last()) {
            (CopyPhase::Reading, TransferEvent::Read(Some(Ok(chunk)))) => before + chunk,
            _ => before,
        }
    }
}

/// The stream that a copy reads has ended without a failure.
pub open spec fn read_to_end(object: Seq<char>, events: Seq<EventView>) -> bool {
    exists|i: int|
        0 <= i < events.len() && (#[trigger] events[i]) is Read && events[i]->Read_0 is None
            && CopyView::start(object).after_all(events.take(i)).phase is Reading
}

/// `states` are what the destination goes through during a copy, with `events` the answers to the
/// steps.
pub open spec fn copy_states(
    object: Seq<char>,
    events: Seq<EventView>,
    states: Seq<Destination>,
) -> bool
    decreases events.len(),
{
    &&& states.len() == events.len() + 1
    &&& events.len() > 0 ==> {
        let run = CopyView::start(object).after_all(events.drop_last());
        &&& copy_states(object, events.drop_last(), states.drop_last())
        &&& carries_out(
            states.drop_last().last(),
            run.step(),
            current_chunk(run),
            events.last(),
            states.last(),
        )
    }
}

spec fn copy_inv(
    run: CopyView,
    read: Seq<u8>,
    ended: bool,
    first: Destination,
    state: Destination,
) -> bool {
    match run.phase {
        CopyPhase::Opening => state.visible == first.visible && read == Seq::<u8>::empty(),
        CopyPhase::OpeningStream => state.visible == first.visible && read == Seq::<u8>::empty()
            && state.staged == Some(read),
        CopyPhase::Reading => state.visible == first.visible && state.staged == Some(read),
        CopyPhase::Writing(chunk) => state.visible == first.visible && state.staged is Some && read
            == state.staged.unwrap() + chunk,
        CopyPhase::Committing => state.visible == first.visible && state.staged == Some(read)
            && ended,
        CopyPhase::Aborting(_) => state.visible == first.visible,
        CopyPhase::Finished(Ok(count)) => state.visible == Some(read) && count == read.len()
            && ended,
        CopyPhase::Finished(Err(_)) => state.visible == first.visible,
    }
}

proof fn lemma_copy(object: Seq<char>, events: Seq<EventView>, states: Seq<Destination>)
    requires
        copy_states(object, events, states),
    ensures
        copy_inv(
            CopyView::start(object).after_all(events),
            data_read(object, events),
            read_to_end(object, events),
            states[0],
            states.last(),
        ),
    decreases events.len(),
{
    if events.len() > 0 {
        let before = events.drop_last();
        lemma_copy(object, before, states.drop_last());
        if read_to_end(object, before) {
            let i = choose|i: int|
                0 <= i < before.len() && (#[trigger] before[i]) is Read && before[i]->Read_0
                    is None && CopyView::start(object).after_all(before.take(i)).phase is Reading;
            assert(events[i] == before[i]);
            assert(events.take(i) == before.take(i));
        }
        if CopyView::start(object).after_all(before).phase is Reading && events.last() is Read
            && events.last()->Read_0 is None {
            let last = events.len() - 1;
            assert(events.take(last) == before);
            assert(events[last] is Read);
        }
    }
}

/// A copy that ends well has read its source to the end and has made exactly the data read visible,
/// with its length as the result; until then, and if the copy ends with an error, what is visible
/// at the destination stays as it was.
pub proof fn law_copy_delivers_all_or_nothing(
    object: Seq<char>,
    events: Seq<EventView>,
    states: Seq<Destination>,
)
    requires
        copy_states(object, events, states),
    ensures
        match CopyView::start(object).after_all(events).phase {
            CopyPhase::Finished(Ok(count)) => {
                &&& read_to_end(object, events)
                &&& states.last().visible == Some(data_read(object, events))
                &&& count == data_read(object, events).len()
            },
            _ => states.last().visible == states[0].visible,
        },
{
    lemma_copy(object, events, states);
}

/// A copy that has opened a writer ends only after the writer was committed or aborted.
pub proof fn law_copy_closes_its_writer(run: CopyView, event: EventView)
    requires
        !(run.phase is Opening),
        !(run.phase is Finished),
        run.after(event).phase is Finished,
    ensures
        run.step() == Some(TransferStep::Commit) && event is Committed || run.step() == Some(
            TransferStep::Abort,
        ) && event is Aborted,
{
}

/// The answers to a copy that opens its writer and its stream and then reads and writes these
/// chunks, without any failure.
pub open spec fn undisturbed(chunks: Seq<Seq<u8>>) -> Seq<EventView>
    decreases chunks.len(),
{
    if chunks.len() == 0 {
        Seq::<EventView>::empty().push(TransferEvent::Opened(Ok(()))).push(
            TransferEvent::StreamOpened(Ok(())),
        )
    } else {
        undisturbed(chunks.drop_last()).push(TransferEvent::Read(Some(Ok(chunks.last())))).push(
            TransferEvent::Written(Ok(())),
        )
    }
}

proof fn lemma_one_more(object: Seq<char>, events: Seq<EventView>, event: EventView)
    ensures
        CopyView::start(object).after_all(events.push(event)) == CopyView::start(object).after_all(
            events,
        ).after(event),
{
    assert(events.push(event).drop_last() == events);
}

proof fn lemma_undisturbed(object: Seq<char>, chunks: Seq<Seq<u8>>)
    ensures
        CopyView::start(object).after_all(undisturbed(chunks)) == (CopyView {
            object,
            phase: CopyPhase::Reading,
        }),
    decreases chunks.len(),
{
    if chunks.len() == 0 {
        let opened = Seq::<EventView>::empty().push(TransferEvent::Opened(Ok(())));
        lemma_one_more(object, Seq::empty(), TransferEvent::Opened(Ok(())));
        lemma_one_more(object, opened, TransferEvent::StreamOpened(Ok(())));
    } else {
        let before = undisturbed(chunks.drop_last());
        let read: EventView = TransferEvent::Read(Some(Ok(chunks.last())));
        lemma_undisturbed(object, chunks.drop_last());
        lemma_one_more(object, before, read);
        lemma_one_more(object, before.push(read), TransferEvent::Written(Ok(())));
    }
}

/// A copy of which no step fails ends well, with what its commit returned.
pub proof fn law_undisturbed_copy_succeeds(
    object: Seq<char>,
    chunks: Seq<Seq<u8>>,
    count: u64,
)
    ensures
        CopyView::start(object).after_all(
            undisturbed(chunks).push(TransferEvent::Read(None)).push(
                TransferEvent::Committed(Ok(count)),
            ),
        ).phase == CopyPhase::Finished::<Seq<u8>, ErrorView>(Ok(count)),
{
    lemma_undisturbed(object, chunks);
    let reading = undisturbed(chunks);
    lemma_one_more(object, reading, TransferEvent::Read(None));
    lemma_one_more(
        object,
        reading.push(TransferEvent::Read(None)),
        TransferEvent::Committed(Ok(count)),
    );
}

// ===== Downloading =====

/// The answers to a download that reads these chunks and then finds the end of the stream.
pub open spec fn reads(chunks: Seq<Seq<u8>>) -> Seq<EventView> {
    Seq::new(chunks.len(), |i: int| TransferEvent::Read(Some(Ok(chunks[i]))))
}

proof fn lemma_download_reads(path: Seq<char>, chunks: Seq<Seq<u8>>)
    ensures
        DownloadView::start(path).after_all(
            seq![TransferEvent::Opened(Ok(())), TransferEvent::StreamOpened(Ok(()))] + reads(
                chunks,
            ),
        ).phase == DownloadPhase::Reading::<Seq<u8>, ErrorView>(all_bytes(chunks)),
    decreases chunks.len(),
{
    let head: Seq<EventView> = seq![
        TransferEvent::Opened(Ok(())),
        TransferEvent::StreamOpened(Ok(())),
    ];
    let events = head + reads(chunks);
    if chunks.len() == 0 {
        reveal_with_fuel(DownloadView::after_all, 3);
        assert(events == head);
        assert(head.drop_last() == seq![head[0]]);
        assert(head.drop_last().drop_last() == Seq::<EventView>::empty());
    } else {
        lemma_download_reads(path, chunks.drop_last());
        assert(events.drop_last() == head + reads(chunks.drop_last()));
        assert(events.last() == reads(chunks).last());
    }
}

/// A download returns the chunks that were read, one after the other, and nothing else.
pub proof fn law_download_returns_what_was_read(path: Seq<char>, chunks: Seq<Seq<u8>>)
    ensures
        DownloadView::start(path).after_all(
            (seq![TransferEvent::Opened(Ok(())), TransferEvent::StreamOpened(Ok(()))] + reads(
                chunks,
            )).push(TransferEvent::Read(None)),
        ).phase == DownloadPhase::Finished::<Seq<u8>, ErrorView>(Ok(all_bytes(chunks))),
{
    lemma_download_reads(path, chunks);
    let events: Seq<EventView> = seq![
        TransferEvent::Opened(Ok(())),
        TransferEvent::StreamOpened(Ok(())),
    ] + reads(chunks);
    assert(events.push(TransferEvent::Read(None)).drop_last() == events);
}

/// What was written to an object is what a download of it gives back, in whatever chunks it is
/// read.
pub proof fn law_download_gives_back_what_was_written(
    object: Seq<char>,
    data: Seq<u8>,
    events: Seq<EventView>,
    states: Seq<Destination>,
    chunks: Seq<Seq<u8>>,
)
    requires
        write_states(object, data, events, states),
        WriteView::start(object).after_all(events).phase == WritePhase::Finished::<ErrorView>(
            Ok(()),
        ),
        states.last().visible == Some(all_bytes(chunks)),
    ensures
        DownloadView::start(object).after_all(
            (seq![TransferEvent::Opened(Ok(())), TransferEvent::StreamOpened(Ok(()))] + reads(
                chunks,
            )).push(TransferEvent::Read(None)),
        ).phase == DownloadPhase::Finished::<Seq<u8>, ErrorView>(Ok(data)),
{
    law_write_delivers_all_or_nothing(object, data, events, states);
    law_download_returns_what_was_read(object, chunks);
}

} // verus!
