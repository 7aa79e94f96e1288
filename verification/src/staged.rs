//! Staged writes: the data written is not visible at the final object path until the write is
//! committed.
//!
//! The library decides which step comes next and what the outcome of a step means; the caller
//! performs the steps on the backend.
use std::path::PathBuf;

use vstd::prelude::*;

use crate::error::{
    failure_error, io_failure, outcome_view, result_view, Error, ErrorView, Failure, FailureView,
    IoError, IoErrorView,
};
use crate::paths::{
    add_extension, display_of, displayed, extended_path, has_file_name, join_path, joined_path,
    parent_of, parent_path,
};
use crate::text::{join2, join4, trim_start, trimmed_start};

verus! {

/// How a backend stages the data of a write.
#[derive(Debug)]
pub enum StagedInner {
    /// The backend commits atomically when the upload is closed: object stores, and filesystems
    /// written through a directory of their own.
    AtomicOnClose,
    /// Plain filesystem: direct writes to a `.tmp` sibling, which is renamed on commit.
    FsStaged { tmp_path: PathBuf, final_path: PathBuf },
}

/// A staged write: the data being written is not visible at the final object path until the commit
/// succeeds; an abort (or dropping the writer) leaves the final path unchanged. Only an explicit
/// abort also cleans up staged data.
#[derive(Debug)]
pub struct StagedWriter {
    pub inner: StagedInner,
    /// Final object path (archive-relative), for error messages.
    pub object: String,
    pub bytes_written: u64,
}

/// The mathematical counterpart of [`StagedWriter`].
pub struct StagedView {
    pub inner: StagedInner,
    pub object: Seq<char>,
    pub bytes_written: nat,
}

impl View for StagedWriter {
    type V = StagedView;

    open spec fn view(&self) -> StagedView {
        StagedView {
            inner: self.inner,
            object: self.object@,
            bytes_written: self.bytes_written as nat,
        }
    }
}

/// A step that the backend performs for a staged write.
#[derive(Debug, Clone, Copy, PartialEq, Eq, Structural)]
pub enum StagedStep {
    /// Create the directory that the staged file goes to.
    CreateDirectory,
    /// Create the staged file, empty.
    CreateFile,
    /// Close the upload, which makes its data visible.
    CloseUpload,
    /// Discard the upload.
    AbortUpload,
    /// Flush the staged file and close it.
    FlushFile,
    /// Rename the staged file to its final path.
    RenameFile,
    /// Remove the staged file.
    RemoveFile,
}

impl StagedView {
    /// A writer on a backend that commits atomically on close.
    pub open spec fn atomic_on_close(object: Seq<char>) -> StagedView {
        StagedView { inner: StagedInner::AtomicOnClose, object, bytes_written: 0 }
    }

    /// The context of a failed write.
    pub open spec fn write_context(self) -> Seq<char> {
        match self.inner {
            StagedInner::AtomicOnClose => "Failed to write data to "@ + self.object,
            StagedInner::FsStaged { tmp_path, .. } => "Failed to write to "@ + displayed(tmp_path),
        }
    }

    /// The writer after a chunk of this length was handed to the backend.
    pub open spec fn wrote(self, length: nat) -> StagedView {
        StagedView { bytes_written: self.bytes_written + length, ..self }
    }

    /// What it means that the backend took a chunk, or did not.
    pub open spec fn write_result(self, outcome: Result<(), FailureView>) -> Result<(), ErrorView> {
        match outcome {
            Ok(_) => Ok(()),
            Err(failure) => Err(failure_error(failure, self.write_context())),
        }
    }

    /// The step that discards the staged data.
    pub open spec fn cleanup(self) -> StagedStep {
        match self.inner {
            StagedInner::AtomicOnClose => StagedStep::AbortUpload,
            StagedInner::FsStaged { .. } => StagedStep::RemoveFile,
        }
    }
}

impl StagedWriter {
    /// A writer on a backend that commits atomically on close.
    pub fn atomic_on_close(object: &str) -> (writer: Self)
        ensures
            writer@ == StagedView::atomic_on_close(object@),
    {
        Self { inner: StagedInner::AtomicOnClose, object: object.to_owned(), bytes_written: 0 }
    }

    /// Starts to stage at `<root>/<object>.tmp`, creating parent directories.
    pub fn fs_staged(root: &PathBuf, object: &str) -> (staging: FsStaging)
        ensures
            staging@ == StagingView::below(*root, object@),
            staging@.adds_extension(),
    {
        proof {
            reveal_strlit("tmp");
        }
        let object_rel = trim_start(object, '/');
        let final_path = join_path(root, object_rel.as_str());
        let tmp_path = add_extension(&final_path, "tmp");
        let parent = parent_of(&final_path);
        Self::fs_staged_at(tmp_path, final_path, parent, object)
    }

    /// Starts to stage at `tmp_path` what goes to `final_path`, creating `parent` where there is
    /// one.
    pub fn fs_staged_at(
        tmp_path: PathBuf,
        final_path: PathBuf,
        parent: Option<PathBuf>,
        object: &str,
    ) -> (staging: FsStaging)
        ensures
            staging@ == StagingView::start(tmp_path, final_path, parent, object@),
    {
        let phase = match parent {
            Some(parent) => StagingPhase::CreatingDirectory(parent),
            None => StagingPhase::CreatingFile,
        };
        FsStaging { tmp_path, final_path, object: object.to_owned(), phase }
    }

    /// Accounts for a chunk that was handed to the backend, and for what the backend reported.
    /// Nothing becomes visible at the final path. On `Err` the caller must abort (or drop) the
    /// writer.
    pub fn write(&mut self, buffer: &[u8], outcome: Result<(), Failure>) -> (written: Result<
        (),
        Error,
    >)
        requires
            old(self).bytes_written + buffer@.len() <= u64::MAX,
        ensures
            final(self)@ == (StagedView {
                bytes_written: old(self)@.bytes_written + buffer@.len(),
                ..old(self)@
            }),
            result_view(written) == (match outcome_view(outcome) {
                Ok(_) => Ok::<(), ErrorView>(()),
                Err(failure) => Err(failure_error(failure, old(self)@.write_context())),
            }),
            final(self)@ == old(self)@.wrote(buffer@.len()),
            result_view(written) == old(self)@.write_result(outcome_view(outcome)),
    {
        self.bytes_written = self.bytes_written + buffer.len() as u64;
        match outcome {
            Ok(_) => Ok(()),
            Err(failure) => {
                let context = match &self.inner {
                    StagedInner::AtomicOnClose => join2(
                        "Failed to write data to ",
                        self.object.as_str(),
                    ),
                    StagedInner::FsStaged { tmp_path, .. } => join2(
                        "Failed to write to ",
                        display_of(tmp_path).as_str(),
                    ),
                };
                Err(failure.in_context(context.as_str()))
            },
        }
    }

    /// Starts to make the staged data visible at the final path.
    pub fn commit(self) -> (run: CommitRun)
        ensures
            run@ == CommitView::start(self@),
    {
        let phase = match &self.inner {
            StagedInner::AtomicOnClose => CommitPhase::Closing,
            StagedInner::FsStaged { .. } => CommitPhase::Flushing,
        };
        CommitRun { writer: self, phase }
    }

    /// Discards the staged data, leaving the final path unchanged, by the step returned.
    /// Best-effort: the outcome of that step does not matter.
    pub fn abort(self) -> (step: StagedStep)
        ensures
            step == self@.cleanup(),
    {
        match self.inner {
            StagedInner::AtomicOnClose => StagedStep::AbortUpload,
            StagedInner::FsStaged { .. } => StagedStep::RemoveFile,
        }
    }
}

// ===== Opening a staged file =====

/// How far the opening of a staged file has come: `E` is the type of errors.
#[derive(Debug)]
pub enum StagingPhase<E> {
    /// The directory with this path is being created.
    CreatingDirectory(PathBuf),
    /// The staged file is being created.
    CreatingFile,
    /// The opening has failed.
    Failed(E),
    /// The file is ready for writes.
    Staged,
}

/// The opening of a staged file.
#[derive(Debug)]
pub struct FsStaging {
    pub tmp_path: PathBuf,
    pub final_path: PathBuf,
    pub object: String,
    pub phase: StagingPhase<Error>,
}

/// The mathematical counterpart of [`FsStaging`].
pub struct StagingView {
    pub tmp_path: PathBuf,
    pub final_path: PathBuf,
    pub object: Seq<char>,
    pub phase: StagingPhase<ErrorView>,
}

impl View for FsStaging {
    type V = StagingView;

    open spec fn view(&self) -> StagingView {
        StagingView {
            tmp_path: self.tmp_path,
            final_path: self.final_path,
            object: self.object@,
            phase: match self.phase {
                StagingPhase::CreatingDirectory(parent) => StagingPhase::CreatingDirectory(parent),
                StagingPhase::CreatingFile => StagingPhase::CreatingFile,
                StagingPhase::Failed(error) => StagingPhase::Failed(error@),
                StagingPhase::Staged => StagingPhase::Staged,
            },
        }
    }
}

/// What a filesystem step reported.
pub open spec fn io_outcome_view(outcome: Result<(), IoError>) -> Result<(), IoErrorView> {
    match outcome {
        Ok(_) => Ok(()),
        Err(error) => Err(error@),
    }
}

impl StagingView {
    /// The opening of the staged file for `object`, at its start.
    pub open spec fn start(
        tmp_path: PathBuf,
        final_path: PathBuf,
        parent: Option<PathBuf>,
        object: Seq<char>,
    ) -> StagingView {
        StagingView {
            tmp_path,
            final_path,
            object,
            phase: match parent {
                Some(parent) => StagingPhase::CreatingDirectory(parent),
                None => StagingPhase::CreatingFile,
            },
        }
    }

    /// The opening of the staged file for `object` below `root`, at its start: the staged file is
    /// the final one with `tmp` added as an extension.
    pub open spec fn below(root: PathBuf, object: Seq<char>) -> StagingView {
        let final_path = joined_path(root, trimmed_start(object, '/'));
        StagingView::start(
            extended_path(final_path, "tmp"@),
            final_path,
            parent_path(final_path),
            object,
        )
    }

    /// The staged file is another than the final one wherever that has a file name.
    pub open spec fn adds_extension(self) -> bool {
        self.tmp_path == self.final_path <==> !has_file_name(self.final_path)
    }

    /// The writer on the staged file.
    pub open spec fn writer(self) -> StagedView {
        StagedView {
            inner: StagedInner::FsStaged { tmp_path: self.tmp_path, final_path: self.final_path },
            object: self.object,
            bytes_written: 0,
        }
    }

    /// The step to perform next, until the file is staged or the opening has failed.
    pub open spec fn step(self) -> Option<StagedStep> {
        match self.phase {
            StagingPhase::CreatingDirectory(_) => Some(StagedStep::CreateDirectory),
            StagingPhase::CreatingFile => Some(StagedStep::CreateFile),
            _ => None,
        }
    }

    /// The opening after its current step reported `outcome`.
    pub open spec fn after(self, outcome: Result<(), IoErrorView>) -> StagingView {
        let phase = match (self.phase, outcome) {
            (StagingPhase::CreatingDirectory(_), Ok(_)) => StagingPhase::CreatingFile,
            (StagingPhase::CreatingDirectory(parent), Err(error)) => StagingPhase::Failed(
                io_failure(error, "Failed to create directory "@ + displayed(parent)),
            ),
            (StagingPhase::CreatingFile, Ok(_)) => StagingPhase::Staged,
            (StagingPhase::CreatingFile, Err(error)) => StagingPhase::Failed(
                io_failure(error, "Failed to create temp file "@ + displayed(self.tmp_path)),
            ),
            (phase, _) => phase,
        };
        StagingView { phase, ..self }
    }
}

impl FsStaging {
    /// The step to perform next, until the file is staged or the opening has failed.
    pub fn step(&self) -> (step: Option<StagedStep>)
        ensures
            step == self@.step(),
    {
        match self.phase {
            StagingPhase::CreatingDirectory(_) => Some(StagedStep::CreateDirectory),
            StagingPhase::CreatingFile => Some(StagedStep::CreateFile),
            _ => None,
        }
    }

    /// Goes on after the current step reported `outcome`. Once the opening has ended, nothing
    /// changes any more.
    pub fn resume(self, outcome: Result<(), IoError>) -> (next: Self)
        ensures
            next@ == self@.after(io_outcome_view(outcome)),
    {
        let phase = match (self.phase, outcome) {
            (StagingPhase::CreatingDirectory(_), Ok(_)) => StagingPhase::CreatingFile,
            (StagingPhase::CreatingDirectory(parent), Err(error)) => {
                let context = join2("Failed to create directory ", display_of(&parent).as_str());
                StagingPhase::Failed(error.in_context(context.as_str()))
            },
            (StagingPhase::CreatingFile, Ok(_)) => StagingPhase::Staged,
            (StagingPhase::CreatingFile, Err(error)) => {
                let tmp_path = display_of(&self.tmp_path);
                let context = join2("Failed to create temp file ", tmp_path.as_str());
                StagingPhase::Failed(error.in_context(context.as_str()))
            },
            (phase, _) => phase,
        };
        Self {
            tmp_path: self.tmp_path,
            final_path: self.final_path,
            object: self.object,
            phase,
        }
    }

    /// The writer, or the error, once the opening has ended.
    pub fn finish(self) -> (writer: Option<Result<StagedWriter, Error>>)
        ensures
            match self@.phase {
                StagingPhase::Staged => writer matches Some(Ok(w)) && w@ == self@.writer(),
                StagingPhase::Failed(error) => writer matches Some(Err(e)) && e@ == error,
                _ => writer is None,
            },
    {
        match self.phase {
            StagingPhase::Staged => Some(
                Ok(
                    StagedWriter {
                        inner: StagedInner::FsStaged {
                            tmp_path: self.tmp_path,
                            final_path: self.final_path,
                        },
                        object: self.object,
                        bytes_written: 0,
                    },
                ),
            ),
            StagingPhase::Failed(error) => Some(Err(error)),
            _ => None,
        }
    }
}

// ===== Commit =====

/// How far a commit has come: `E` is the type of errors.
#[derive(Debug)]
pub enum CommitPhase<E> {
    /// The upload is being closed.
    Closing,
    /// The upload is being discarded after its close failed.
    Discarding(E),
    /// The staged file is being flushed.
    Flushing,
    /// The staged file is being renamed.
    Renaming,
    /// The staged file is being removed after a failure.
    Removing(E),
    /// The commit has ended, with the number of bytes written or an error.
    Finished(Result<u64, E>),
}

/// The commit of a staged write.
#[derive(Debug)]
pub struct CommitRun {
    pub writer: StagedWriter,
    pub phase: CommitPhase<Error>,
}

/// The mathematical counterpart of [`CommitRun`].
pub struct CommitView {
    pub writer: StagedView,
    pub phase: CommitPhase<ErrorView>,
}

impl View for CommitRun {
    type V = CommitView;

    open spec fn view(&self) -> CommitView {
        CommitView {
            writer: self.writer@,
            phase: match self.phase {
                CommitPhase::Closing => CommitPhase::Closing,
                CommitPhase::Discarding(error) => CommitPhase::Discarding(error@),
                CommitPhase::Flushing => CommitPhase::Flushing,
                CommitPhase::Renaming => CommitPhase::Renaming,
                CommitPhase::Removing(error) => CommitPhase::Removing(error@),
                CommitPhase::Finished(result) => CommitPhase::Finished(result_view(result)),
            },
        }
    }
}

impl CommitView {
    /// The commit of a writer, at its start.
    pub open spec fn start(writer: StagedView) -> CommitView {
        CommitView {
            writer,
            phase: match writer.inner {
                StagedInner::AtomicOnClose => CommitPhase::Closing,
                StagedInner::FsStaged { .. } => CommitPhase::Flushing,
            },
        }
    }

    /// The step to perform next, until the commit has ended.
    pub open spec fn step(self) -> Option<StagedStep> {
        match self.phase {
            CommitPhase::Closing => Some(StagedStep::CloseUpload),
            CommitPhase::Discarding(_) => Some(StagedStep::AbortUpload),
            CommitPhase::Flushing => Some(StagedStep::FlushFile),
            CommitPhase::Renaming => Some(StagedStep::RenameFile),
            CommitPhase::Removing(_) => Some(StagedStep::RemoveFile),
            CommitPhase::Finished(_) => None,
        }
    }

    /// The context of a failure of the current step.
    pub open spec fn context(self) -> Seq<char> {
        match (self.phase, self.writer.inner) {
            (CommitPhase::Flushing, StagedInner::FsStaged { tmp_path, .. }) => "Failed to flush "@
                + displayed(tmp_path),
            (CommitPhase::Renaming, StagedInner::FsStaged { tmp_path, final_path }) =>
                "Failed to rename "@ + displayed(tmp_path) + " to "@ + displayed(final_path),
            _ => "Failed to close writer for "@ + self.writer.object,
        }
    }

    /// The commit after its current step reported `outcome`. The first failure is the one that the
    /// commit ends with; the step that cleans up after it is best-effort.
    pub open spec fn after(self, outcome: Result<(), FailureView>) -> CommitView {
        let phase = match (self.phase, outcome) {
            (CommitPhase::Closing | CommitPhase::Renaming, Ok(_)) => CommitPhase::Finished(
                Ok(self.writer.bytes_written as u64),
            ),
            (CommitPhase::Flushing, Ok(_)) => CommitPhase::Renaming,
            (CommitPhase::Closing, Err(failure)) => CommitPhase::Discarding(
                failure_error(failure, self.context()),
            ),
            (CommitPhase::Flushing | CommitPhase::Renaming, Err(failure)) => CommitPhase::Removing(
                failure_error(failure, self.context()),
            ),
            (CommitPhase::Discarding(error) | CommitPhase::Removing(error), _) =>
                CommitPhase::Finished(Err(error)),
            (CommitPhase::Finished(result), _) => CommitPhase::Finished(result),
        };
        CommitView { phase, ..self }
    }

    /// The commit after a sequence of steps and their outcomes.
    pub open spec fn after_all(self, outcomes: Seq<Result<(), FailureView>>) -> CommitView
        decreases outcomes.len(),
    {
        if outcomes.len() == 0 {
            self
        } else {
            self.after_all(outcomes.drop_last()).after(outcomes.last())
        }
    }
}

impl CommitRun {
    /// The step to perform next, until the commit has ended.
    pub fn step(&self) -> (step: Option<StagedStep>)
        ensures
            step == self@.step(),
    {
        match self.phase {
            CommitPhase::Closing => Some(StagedStep::CloseUpload),
            CommitPhase::Discarding(_) => Some(StagedStep::AbortUpload),
            CommitPhase::Flushing => Some(StagedStep::FlushFile),
            CommitPhase::Renaming => Some(StagedStep::RenameFile),
            CommitPhase::Removing(_) => Some(StagedStep::RemoveFile),
            CommitPhase::Finished(_) => None,
        }
    }

    /// The context of a failure of the current step.
    fn context(&self) -> (context: String)
        ensures
            context@ == self@.context(),
    {
        match (&self.phase, &self.writer.inner) {
            (CommitPhase::Flushing, StagedInner::FsStaged { tmp_path, .. }) => join2(
                "Failed to flush ",
                display_of(tmp_path).as_str(),
            ),
            (CommitPhase::Renaming, StagedInner::FsStaged { tmp_path, final_path }) => join4(
                "Failed to rename ",
                display_of(tmp_path).as_str(),
                " to ",
                display_of(final_path).as_str(),
            ),
            _ => join2("Failed to close writer for ", self.writer.object.as_str()),
        }
    }

    /// Goes on after the current step reported `outcome`. Once the commit has ended, nothing
    /// changes any more.
    pub fn resume(self, outcome: Result<(), Failure>) -> (next: Self)
        ensures
            next@ == self@.after(outcome_view(outcome)),
    {
        let context = self.context();
        let phase = match (self.phase, outcome) {
            (CommitPhase::Closing, Ok(_)) | (CommitPhase::Renaming, Ok(_)) => CommitPhase::Finished(
                Ok(self.writer.bytes_written),
            ),
            (CommitPhase::Flushing, Ok(_)) => CommitPhase::Renaming,
            (CommitPhase::Closing, Err(failure)) => CommitPhase::Discarding(
                failure.in_context(context.as_str()),
            ),
            (CommitPhase::Flushing, Err(failure)) | (CommitPhase::Renaming, Err(failure)) =>
                CommitPhase::Removing(failure.in_context(context.as_str())),
            (CommitPhase::Discarding(error), _) | (CommitPhase::Removing(error), _) =>
                CommitPhase::Finished(Err(error)),
            (CommitPhase::Finished(result), _) => CommitPhase::Finished(result),
        };
        Self { writer: self.writer, phase }
    }

    /// The number of bytes written, or the error, once the commit has ended.
    pub fn finish(self) -> (result: Option<Result<u64, Error>>)
        ensures
            match self@.phase {
                CommitPhase::Finished(expected) => result matches Some(r) && result_view(r)
                    == expected,
                _ => result is None,
            },
    {
        match self.phase {
            CommitPhase::Finished(result) => Some(result),
            _ => None,
        }
    }
}

} // verus!
