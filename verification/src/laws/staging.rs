//! What staged writes ask for, and how they end.
use std::path::PathBuf;

use vstd::prelude::*;

use crate::error::{failure_error, io_failure, ErrorView, FailureView, IoErrorView};
use crate::laws::texts::{law_trimming_the_start, run_of};
use crate::paths::{displayed, extended_path, joined_path, parent_path};
use crate::staged::{
    CommitPhase, CommitView, StagedInner, StagedStep, StagedView, StagingPhase, StagingView,
};

verus! {

/// The step that discards staged data discards the upload, or removes the staged file.
pub proof fn law_cleanup_discards_what_was_staged(writer: StagedView)
    ensures
        writer.inner is AtomicOnClose ==> writer.cleanup() == StagedStep::AbortUpload,
        writer.inner is FsStaged ==> writer.cleanup() == StagedStep::RemoveFile,
{
}

/// A failed write says what could not be written: the object, or the staged file.
pub proof fn law_failed_writes_say_where(writer: StagedView)
    ensures
        match writer.inner {
            StagedInner::AtomicOnClose => writer.write_context() == "Failed to write data to "@
                + writer.object,
            StagedInner::FsStaged { tmp_path, final_path } => writer.write_context()
                == "Failed to write to "@ + displayed(tmp_path),
        },
{
}

/// A chunk adds its length to the bytes written, however long it is, and changes nothing else of
/// the writer; it is written if and only if the backend takes it.
pub proof fn law_writes_are_counted(
    writer: StagedView,
    length: nat,
    outcome: Result<(), FailureView>,
)
    ensures
        writer.wrote(length).bytes_written == writer.bytes_written + length,
        writer.wrote(length).inner == writer.inner,
        writer.wrote(length).object == writer.object,
        writer.write_result(outcome) is Ok <==> outcome is Ok,
        outcome matches Err(failure) ==> writer.write_result(outcome) == Err::<(), ErrorView>(
            failure_error(failure, writer.write_context()),
        ),
{
}

/// The commit has failed with this error, and the step that cleans up, whatever it reports, is all
/// that is left to do.
pub open spec fn commit_fails(
    run: CommitView,
    step: StagedStep,
    error: ErrorView,
    cleaned: Result<(), FailureView>,
) -> bool {
    &&& run.step() == Some(step)
    &&& run.after(cleaned).step() is None
    &&& run.after(cleaned).phase == CommitPhase::Finished::<ErrorView>(Err(error))
}

/// The commit has ended well, with the number of bytes written.
pub open spec fn commit_succeeds(run: CommitView) -> bool {
    &&& run.step() is None
    &&& run.phase == CommitPhase::Finished::<ErrorView>(Ok(run.writer.bytes_written as u64))
}

/// A commit closes the upload, or flushes the staged file and then renames it. If that succeeds, so
/// does the commit, with the number of bytes written; else what was staged is discarded, and the
/// failure is what the commit ends with.
pub proof fn law_steps_of_a_commit(
    writer: StagedView,
    failure: FailureView,
    cleaned: Result<(), FailureView>,
)
    ensures
        ({
            let run = CommitView::start(writer);
            match writer.inner {
                StagedInner::AtomicOnClose => {
                    &&& run.step() == Some(StagedStep::CloseUpload)
                    &&& commit_succeeds(run.after(Ok(())))
                    &&& commit_fails(
                        run.after(Err(failure)),
                        StagedStep::AbortUpload,
                        failure_error(failure, "Failed to close writer for "@ + writer.object),
                        cleaned,
                    )
                },
                StagedInner::FsStaged { tmp_path, final_path } => {
                    &&& run.step() == Some(StagedStep::FlushFile)
                    &&& run.after(Ok(())).step() == Some(StagedStep::RenameFile)
                    &&& commit_succeeds(run.after(Ok(())).after(Ok(())))
                    &&& commit_fails(
                        run.after(Err(failure)),
                        StagedStep::RemoveFile,
                        failure_error(failure, "Failed to flush "@ + displayed(tmp_path)),
                        cleaned,
                    )
                    &&& commit_fails(
                        run.after(Ok(())).after(Err(failure)),
                        StagedStep::RemoveFile,
                        failure_error(
                            failure,
                            "Failed to rename "@ + displayed(tmp_path) + " to "@ + displayed(
                                final_path,
                            ),
                        ),
                        cleaned,
                    )
                },
            }
        }),
{
}

/// A commit is about one writer, and nothing changes once it has ended.
pub proof fn law_ended_commit_stays(run: CommitView, outcome: Result<(), FailureView>)
    ensures
        run.after(outcome).writer == run.writer,
        run.step() is None ==> run.after(outcome) == run,
        run.step() is None <==> run.phase is Finished,
{
}

/// An object goes to its path below the root, leading slashes aside, and is staged in a file beside
/// it, with the extension `tmp` added. The directory of the file is created first.
pub proof fn law_where_an_object_is_staged(root: PathBuf, object: Seq<char>, slashes: nat)
    requires
        object.len() > 0 ==> object[0] != '/',
    ensures
        ({
            let staging = StagingView::below(root, run_of('/', slashes) + object);
            &&& staging.final_path == joined_path(root, object)
            &&& staging.tmp_path == extended_path(staging.final_path, seq!['t', 'm', 'p'])
            &&& staging.object == run_of('/', slashes) + object
            &&& match parent_path(staging.final_path) {
                Some(parent) => {
                    &&& staging.step() == Some(StagedStep::CreateDirectory)
                    &&& staging.phase == StagingPhase::CreatingDirectory::<ErrorView>(parent)
                },
                None => staging.step() == Some(StagedStep::CreateFile),
            }
        }),
{
    law_trimming_the_start('/', slashes, object);
    reveal_strlit("tmp");
    assert("tmp"@ =~= seq!['t', 'm', 'p']);
}

/// Opening a staged file creates its directory, where it has one, and then the file; the failure of
/// either ends it. The writer is one on that file, to which nothing was written.
pub proof fn law_steps_of_opening_a_staged_file(
    tmp_path: PathBuf,
    final_path: PathBuf,
    parent: PathBuf,
    object: Seq<char>,
    failure: IoErrorView,
)
    ensures
        ({
            let with = StagingView::start(tmp_path, final_path, Some(parent), object);
            let without = StagingView::start(tmp_path, final_path, None, object);
            let no_directory = with.after(Err(failure));
            let no_file = without.after(Err(failure));
            &&& with.step() == Some(StagedStep::CreateDirectory)
            &&& with.after(Ok(())) == without
            &&& without.step() == Some(StagedStep::CreateFile)
            &&& without.after(Ok(())).step() is None
            &&& without.after(Ok(())).phase is Staged
            &&& without.after(Ok(())).writer() == (StagedView {
                inner: StagedInner::FsStaged { tmp_path, final_path },
                object,
                bytes_written: 0,
            })
            &&& no_directory.step() is None
            &&& no_directory.phase == StagingPhase::Failed::<ErrorView>(
                io_failure(failure, "Failed to create directory "@ + displayed(parent)),
            )
            &&& no_file.step() is None
            &&& no_file.phase == StagingPhase::Failed::<ErrorView>(
                io_failure(failure, "Failed to create temp file "@ + displayed(tmp_path)),
            )
        }),
{
}

/// Nothing changes once the opening of a staged file has ended, and its paths and its object never
/// change.
pub proof fn law_ended_opening_stays(run: StagingView, outcome: Result<(), IoErrorView>)
    ensures
        run.after(outcome).tmp_path == run.tmp_path,
        run.after(outcome).final_path == run.final_path,
        run.after(outcome).object == run.object,
        run.step() is None ==> run.after(outcome) == run,
        run.step() is None <==> run.phase is Staged || run.phase is Failed,
{
}

} // verus!
