//! What the steps of a staged write do to the data that a backend holds, and what follows for the
//! final object path.
//!
//! The model: closing an upload publishes all of its data or none of it, a rename replaces its
//! target by its source or changes nothing, a failed write may leave anything in the staged file,
//! but nowhere else, and a file can be created only at a path that ends in a file name.
use std::path::PathBuf;

use vstd::prelude::*;

use crate::error::FailureView;
use crate::paths::has_file_name;
use crate::staged::{CommitPhase, CommitView, StagedInner, StagedStep, StagedView};
use crate::text::trimmed_start;

verus! {

/// Where data can be read: under the name of an object, given without leading slashes, or in a
/// file.
pub enum Place {
    Object(Seq<char>),
    File(PathBuf),
}

/// The data that a backend holds: the data that can be read, and the upload in progress.
pub struct World {
    pub objects: Map<Place, Seq<u8>>,
    pub upload: Seq<u8>,
}

/// The final path of a staged write.
pub open spec fn destination(writer: StagedView) -> Place {
    match writer.inner {
        StagedInner::AtomicOnClose => Place::Object(trimmed_start(writer.object, '/')),
        StagedInner::FsStaged { final_path, .. } => Place::File(final_path),
    }
}

/// `place` is where the staged data is kept.
pub open spec fn is_staging_place(writer: StagedView, place: Place) -> bool {
    writer.inner matches StagedInner::FsStaged { tmp_path, .. } && place == Place::File(tmp_path)
}

/// The staged data is kept apart from the final path.
pub open spec fn stages_apart(writer: StagedView) -> bool {
    !is_staging_place(writer, destination(writer))
}

/// What a reader finds at a place, if anything.
pub open spec fn object_at(world: World, place: Place) -> Option<Seq<u8>> {
    if world.objects.contains_key(place) {
        Some(world.objects[place])
    } else {
        None
    }
}

/// What a reader finds at the final path of a staged write, if anything.
pub open spec fn visible(world: World, writer: StagedView) -> Option<Seq<u8>> {
    object_at(world, destination(writer))
}

/// The data that is staged so far, if the staged file exists.
pub open spec fn staged_data(world: World, writer: StagedView) -> Option<Seq<u8>> {
    match writer.inner {
        StagedInner::AtomicOnClose => Some(world.upload),
        StagedInner::FsStaged { tmp_path, .. } => object_at(world, Place::File(tmp_path)),
    }
}

/// No staged data is left.
pub open spec fn cleaned_up(world: World, writer: StagedView) -> bool {
    match writer.inner {
        StagedInner::AtomicOnClose => world.upload == Seq::<u8>::empty(),
        StagedInner::FsStaged { tmp_path, .. } => object_at(world, Place::File(tmp_path)) is None,
    }
}

/// The objects are the same everywhere but where the staged data is kept.
pub open spec fn same_outside_staging(before: World, writer: StagedView, after: World) -> bool {
    forall|place: Place|
        !is_staging_place(writer, place) ==> #[trigger] object_at(after, place) == object_at(
            before,
            place,
        )
}

/// Writing a chunk to the staged data can turn `before` into `after`.
pub open spec fn writes(
    before: World,
    writer: StagedView,
    chunk: Seq<u8>,
    ok: bool,
    after: World,
) -> bool {
    &&& same_outside_staging(before, writer, after)
    &&& ok ==> staged_data(before, writer) is Some && staged_data(after, writer) == Some(
        staged_data(before, writer).unwrap() + chunk,
    )
}

/// A step of a staged write can turn `before` into `after`.
pub open spec fn performs(
    before: World,
    writer: StagedView,
    step: StagedStep,
    ok: bool,
    after: World,
) -> bool {
    match (writer.inner, step) {
        (StagedInner::AtomicOnClose, StagedStep::CloseUpload) => if ok {
            after.objects == before.objects.insert(destination(writer), before.upload)
        } else {
            after.objects == before.objects
        },
        (StagedInner::AtomicOnClose, StagedStep::AbortUpload) => {
            &&& after.objects == before.objects
            &&& ok ==> after.upload == Seq::<u8>::empty()
        },
        (StagedInner::AtomicOnClose, _) => after.objects == before.objects,
        (StagedInner::FsStaged { tmp_path, .. }, StagedStep::CreateFile) => if ok {
            &&& has_file_name(tmp_path)
            &&& after.objects == before.objects.insert(Place::File(tmp_path), Seq::empty())
        } else {
            same_outside_staging(before, writer, after)
        },
        (StagedInner::FsStaged { tmp_path, final_path }, StagedStep::RenameFile) => if ok {
            &&& before.objects.contains_key(Place::File(tmp_path))
            &&& after.objects == before.objects.remove(Place::File(tmp_path)).insert(
                Place::File(final_path),
                before.objects[Place::File(tmp_path)],
            )
        } else {
            after == before
        },
        (StagedInner::FsStaged { tmp_path, .. }, StagedStep::RemoveFile) => if ok {
            after.objects == before.objects.remove(Place::File(tmp_path))
        } else {
            after == before
        },
        (StagedInner::FsStaged { .. }, _) => after == before,
    }
}

/// Opening a staged write can turn `before` into `after`: a new upload is empty, and a staged file
/// is created.
pub open spec fn opens(before: World, writer: StagedView, ok: bool, after: World) -> bool {
    match writer.inner {
        StagedInner::AtomicOnClose => after.objects == before.objects && (ok ==> after.upload
            == Seq::<u8>::empty()),
        StagedInner::FsStaged { .. } => performs(
            before,
            writer,
            StagedStep::CreateFile,
            ok,
            after,
        ),
    }
}

/// The chunks, one after the other.
pub open spec fn all_bytes(chunks: Seq<Seq<u8>>) -> Seq<u8>
    decreases chunks.len(),
{
    if chunks.len() == 0 {
        Seq::empty()
    } else {
        all_bytes(chunks.drop_last()) + chunks.last()
    }
}

/// `worlds` are the states that the backend goes through while the chunks are written, with `oks`
/// telling which of the writes succeed.
pub open spec fn write_trace(
    writer: StagedView,
    chunks: Seq<Seq<u8>>,
    oks: Seq<bool>,
    worlds: Seq<World>,
) -> bool
    decreases chunks.len(),
{
    &&& oks.len() == chunks.len()
    &&& worlds.len() == chunks.len() + 1
    &&& chunks.len() > 0 ==> {
        &&& write_trace(writer, chunks.drop_last(), oks.drop_last(), worlds.drop_last())
        &&& writes(
            worlds.drop_last().last(),
            writer,
            chunks.last(),
            oks.last(),
            worlds.last(),
        )
    }
}

/// One step of a commit, or the standstill after its end, can turn `before` into `after`.
pub open spec fn commits(
    before: World,
    run: CommitView,
    outcome: Result<(), FailureView>,
    after: World,
) -> bool {
    match run.step() {
        Some(step) => performs(before, run.writer, step, outcome is Ok, after),
        None => after == before,
    }
}

/// `worlds` are the states that the backend goes through while a commit runs, with `outcomes` what
/// its steps report.
pub open spec fn commit_trace(
    writer: StagedView,
    outcomes: Seq<Result<(), FailureView>>,
    worlds: Seq<World>,
) -> bool
    decreases outcomes.len(),
{
    &&& worlds.len() == outcomes.len() + 1
    &&& outcomes.len() > 0 ==> {
        &&& commit_trace(writer, outcomes.drop_last(), worlds.drop_last())
        &&& commits(
            worlds.drop_last().last(),
            CommitView::start(writer).after_all(outcomes.drop_last()),
            outcomes.last(),
            worlds.last(),
        )
    }
}

/// A write to a staged writer, whether it succeeds or not, leaves what a reader finds at the final
/// path as it was. If it succeeds, the chunk is appended to the staged data. Counting its bytes
/// changes neither where the data is staged nor where it goes.
pub proof fn law_write_appends_unseen(
    writer: StagedView,
    chunk: Seq<u8>,
    before: World,
    ok: bool,
    after: World,
)
    requires
        stages_apart(writer),
        writes(before, writer, chunk, ok, after),
    ensures
        visible(after, writer) == visible(before, writer),
        same_outside_staging(before, writer, after),
        ok ==> staged_data(before, writer) is Some && staged_data(after, writer) == Some(
            staged_data(before, writer).unwrap() + chunk,
        ),
        ({
            let count = writer.bytes_written + chunk.len();
            let counted = StagedView { bytes_written: count, ..writer };
            &&& destination(counted) == destination(writer)
            &&& stages_apart(counted)
            &&& staged_data(after, counted) == staged_data(after, writer)
        }),
{
}

/// Writes to a staged writer, whether they succeed or not, change nothing that can be read outside
/// the place where its data is staged: in particular, dropping the writer without a commit leaves
/// the final path as it was.
pub proof fn law_writes_stay_invisible(
    writer: StagedView,
    chunks: Seq<Seq<u8>>,
    oks: Seq<bool>,
    worlds: Seq<World>,
)
    requires
        stages_apart(writer),
        write_trace(writer, chunks, oks, worlds),
    ensures
        visible(worlds.last(), writer) == visible(worlds[0], writer),
        same_outside_staging(worlds[0], writer, worlds.last()),
    decreases chunks.len(),
{
    if chunks.len() > 0 {
        law_writes_stay_invisible(writer, chunks.drop_last(), oks.drop_last(), worlds.drop_last());
    }
}

/// After writes that all succeeded, what is staged is the chunks, one after the other.
pub proof fn law_writes_accumulate(
    writer: StagedView,
    chunks: Seq<Seq<u8>>,
    oks: Seq<bool>,
    worlds: Seq<World>,
)
    requires
        write_trace(writer, chunks, oks, worlds),
        staged_data(worlds[0], writer) == Some(Seq::<u8>::empty()),
        forall|i: int| 0 <= i < oks.len() ==> oks[i],
    ensures
        staged_data(worlds.last(), writer) == Some(all_bytes(chunks)),
    decreases chunks.len(),
{
    if chunks.len() > 0 {
        law_writes_accumulate(writer, chunks.drop_last(), oks.drop_last(), worlds.drop_last());
    }
}

/// The final path holds what was staged at first, and nothing is staged in a file any more.
pub open spec fn published(first: World, writer: StagedView, world: World) -> bool {
    &&& visible(world, writer) == staged_data(first, writer)
    &&& writer.inner is FsStaged ==> staged_data(world, writer) is None
    &&& forall|place: Place|
        !is_staging_place(writer, place) && place != destination(writer) ==> #[trigger] object_at(
            world,
            place,
        ) == object_at(first, place)
}

/// What holds of the backend in each phase of a commit that started in `first`.
spec fn commit_inv(run: CommitView, writer: StagedView, first: World, world: World) -> bool {
    &&& run.writer == writer
    &&& match run.phase {
        CommitPhase::Closing => writer.inner is AtomicOnClose && world == first,
        CommitPhase::Discarding(_) => writer.inner is AtomicOnClose && same_outside_staging(
            first,
            writer,
            world,
        ),
        CommitPhase::Flushing | CommitPhase::Renaming => writer.inner is FsStaged && world
            == first,
        CommitPhase::Removing(_) => writer.inner is FsStaged && same_outside_staging(
            first,
            writer,
            world,
        ),
        CommitPhase::Finished(Ok(count)) => count == writer.bytes_written as u64 && published(
            first,
            writer,
            world,
        ),
        CommitPhase::Finished(Err(_)) => same_outside_staging(first, writer, world),
    }
}

/// One step of a commit keeps [`commit_inv`].
proof fn lemma_commit_step(
    run: CommitView,
    writer: StagedView,
    outcome: Result<(), FailureView>,
    first: World,
    before: World,
    after: World,
)
    requires
        stages_apart(writer),
        staged_data(first, writer) is Some,
        commit_inv(run, writer, first, before),
        commits(before, run, outcome, after),
    ensures
        commit_inv(run.after(outcome), writer, first, after),
{
    if run.phase is Discarding || run.phase is Removing {
        assert forall|place: Place| !is_staging_place(writer, place) implies #[trigger] object_at(
            after,
            place,
        ) == object_at(first, place) by {
            assert(object_at(before, place) == object_at(first, place));
        }
    }
}

/// A commit keeps [`commit_inv`] all along.
proof fn lemma_commit(
    writer: StagedView,
    outcomes: Seq<Result<(), FailureView>>,
    worlds: Seq<World>,
)
    requires
        stages_apart(writer),
        staged_data(worlds[0], writer) is Some,
        commit_trace(writer, outcomes, worlds),
    ensures
        commit_inv(
            CommitView::start(writer).after_all(outcomes),
            writer,
            worlds[0],
            worlds.last(),
        ),
    decreases outcomes.len(),
{
    if outcomes.len() > 0 {
        lemma_commit(writer, outcomes.drop_last(), worlds.drop_last());
        lemma_commit_step(
            CommitView::start(writer).after_all(outcomes.drop_last()),
            writer,
            outcomes.last(),
            worlds[0],
            worlds.drop_last().last(),
            worlds.last(),
        );
    }
}

/// A commit publishes at the final path exactly the data that was staged, and leaves no staged
/// file, if it ends well; until then, and if it ends with an error, the final path and everything
/// else but the staged data stays as it was.
pub proof fn law_commit_publishes_or_leaves_unchanged(
    writer: StagedView,
    outcomes: Seq<Result<(), FailureView>>,
    worlds: Seq<World>,
)
    requires
        stages_apart(writer),
        staged_data(worlds[0], writer) is Some,
        commit_trace(writer, outcomes, worlds),
    ensures
        match CommitView::start(writer).after_all(outcomes).phase {
            CommitPhase::Finished(Ok(count)) => count == writer.bytes_written as u64 && published(
                worlds[0],
                writer,
                worlds.last(),
            ),
            _ => visible(worlds.last(), writer) == visible(worlds[0], writer)
                && same_outside_staging(worlds[0], writer, worlds.last()),
        },
{
    lemma_commit(writer, outcomes, worlds);
}

/// A commit takes at most three steps.
pub proof fn law_commit_ends(writer: StagedView, outcomes: Seq<Result<(), FailureView>>)
    requires
        outcomes.len() >= 3,
    ensures
        CommitView::start(writer).after_all(outcomes).phase is Finished,
    decreases outcomes.len(),
{
    if outcomes.len() > 3 {
        law_commit_ends(writer, outcomes.drop_last());
    } else {
        reveal_with_fuel(CommitView::after_all, 4);
    }
}

/// What is written to a staged writer and then committed is what a reader finds at the final path:
/// the chunks, one after the other, with their total length as the result of the commit.
pub proof fn law_committed_data_is_what_was_written(
    opened: StagedView,
    chunks: Seq<Seq<u8>>,
    oks: Seq<bool>,
    writing: Seq<World>,
    outcomes: Seq<Result<(), FailureView>>,
    committing: Seq<World>,
    count: u64,
)
    requires
        stages_apart(opened),
        opened.bytes_written == 0,
        all_bytes(chunks).len() <= u64::MAX,
        write_trace(opened, chunks, oks, writing),
        staged_data(writing[0], opened) == Some(Seq::<u8>::empty()),
        forall|i: int| 0 <= i < oks.len() ==> oks[i],
        commit_trace(written(opened, chunks), outcomes, committing),
        committing[0] == writing.last(),
        CommitView::start(written(opened, chunks)).after_all(outcomes).phase
            == CommitPhase::Finished::<crate::error::ErrorView>(Ok(count)),
    ensures
        visible(committing.last(), opened) == Some(all_bytes(chunks)),
        count == all_bytes(chunks).len(),
{
    let writer = written(opened, chunks);
    law_writes_accumulate(opened, chunks, oks, writing);
    law_commit_publishes_or_leaves_unchanged(writer, outcomes, committing);
}

/// The writer after chunks were written to it.
pub open spec fn written(writer: StagedView, chunks: Seq<Seq<u8>>) -> StagedView {
    StagedView { bytes_written: writer.bytes_written + all_bytes(chunks).len(), ..writer }
}

/// An abort leaves the final path, and everything else but the staged data, as it was. Where its
/// step succeeds, the staged data is cleaned up: the upload is discarded, or the staged file is
/// gone.
pub proof fn law_abort_leaves_unchanged(
    writer: StagedView,
    before: World,
    ok: bool,
    after: World,
)
    requires
        stages_apart(writer),
        performs(before, writer, writer.cleanup(), ok, after),
    ensures
        visible(after, writer) == visible(before, writer),
        same_outside_staging(before, writer, after),
        ok ==> cleaned_up(after, writer),
{
}

/// A commit that fails cleans up before it ends with its error: where the step that does so
/// succeeds, no staged data is left.
pub proof fn law_failed_commit_cleans_up(
    writer: StagedView,
    outcomes: Seq<Result<(), FailureView>>,
    before: World,
    after: World,
)
    requires
        ({
            let run = CommitView::start(writer).after_all(outcomes);
            &&& run.phase is Discarding || run.phase is Removing
            &&& commits(before, run, Ok(()), after)
        }),
    ensures
        CommitView::start(writer).after_all(outcomes).after(Ok(())).phase matches
            CommitPhase::Finished(Err(_)),
        cleaned_up(after, writer),
{
    lemma_phases_fit_the_backend(writer, outcomes);
}

/// The phases of a commit are those of its backend.
proof fn lemma_phases_fit_the_backend(
    writer: StagedView,
    outcomes: Seq<Result<(), FailureView>>,
)
    ensures
        ({
            let run = CommitView::start(writer).after_all(outcomes);
            &&& run.writer == writer
            &&& match run.phase {
                CommitPhase::Closing | CommitPhase::Discarding(_) => writer.inner is AtomicOnClose,
                CommitPhase::Flushing | CommitPhase::Renaming | CommitPhase::Removing(_) =>
                    writer.inner is FsStaged,
                CommitPhase::Finished(_) => true,
            }
        }),
    decreases outcomes.len(),
{
    if outcomes.len() > 0 {
        lemma_phases_fit_the_backend(writer, outcomes.drop_last());
    }
}

} // verus!
