//! Bucket file verification.
//!
//! The hash of a bucket is embedded in its file name and verified against the decompressed
//! content. The compressed bytes go to the hash task, which decompresses and hashes them, and, in a
//! verified write, to a staged writer as well.
use vstd::prelude::*;

use crate::error::{
    fatal_error, opendal_failure, result_view, retry_error, Error, ErrorView, OpendalError,
    OpendalErrorView,
};
use crate::delivery::{carries_out, Destination};
use crate::hashing::{hex, sha256};
use crate::history_format::{
    bucket_hash, bucket_hash_from_path, law_bucket_hash_is_the_one_named, names_bucket,
};
use crate::text::{join2, join4, same};
use crate::transfer::{read_view, stream_view, TransferEvent, TransferStep};
use crate::url::opt_chars;

verus! {

/// A step of a verification.
#[derive(Debug, Clone, Copy, PartialEq, Eq, Structural)]
pub enum BucketStep {
    /// Open a staged writer on the destination.
    OpenWriter,
    /// Start to stream the bucket.
    OpenStream,
    /// Read the next chunk of the bucket.
    ReadChunk,
    /// Write the current chunk to the staged writer.
    WriteChunk,
    /// Hand the current chunk to the hash task.
    HashChunk,
    /// Tell the hash task that there are no more chunks, and wait for its outcome.
    AwaitHash,
    /// Commit the staged writer.
    Commit,
    /// Abort the staged writer.
    Abort,
}

/// How the hash task ended: `S` is the type of texts.
#[derive(Debug)]
pub enum HashOutcome<S> {
    /// The hash of the decompressed content in hexadecimal form, and its number of bytes.
    Hashed { hash: S, decompressed_bytes: u64 },
    /// The content could not be decompressed, for this reason.
    Undecodable(S),
    /// The task panicked or was cancelled, for this reason.
    Panicked(S),
}

/// The answer to a step: `S` is the type of texts, `B` that of chunks, `F` that of OpenDAL's
/// failures, `E` that of errors.
#[derive(Debug)]
pub enum BucketEvent<S, B, F, E> {
    /// The writer was opened, or was not.
    Opened(Result<(), E>),
    /// The stream was started, or was not.
    StreamOpened(Result<(), F>),
    /// The next chunk was read, the stream has ended, or it has failed.
    Read(Option<Result<B, F>>),
    /// The chunk was written, or was not.
    Written(Result<(), E>),
    /// Whether the hash task took the chunk.
    Sent(bool),
    /// The hash task has ended.
    HashEnded(HashOutcome<S>),
    /// The commit has ended, with the number of bytes written or an error.
    Committed(Result<u64, E>),
    /// The writer was aborted.
    Aborted,
}

/// An answer as the library receives it.
pub type Event = BucketEvent<String, Vec<u8>, OpendalError, Error>;

/// The mathematical counterpart of [`Event`].
pub type EventView = BucketEvent<Seq<char>, Seq<u8>, OpendalErrorView, ErrorView>;

impl View for HashOutcome<String> {
    type V = HashOutcome<Seq<char>>;

    open spec fn view(&self) -> HashOutcome<Seq<char>> {
        match *self {
            HashOutcome::Hashed { hash, decompressed_bytes } => HashOutcome::Hashed {
                hash: hash@,
                decompressed_bytes,
            },
            HashOutcome::Undecodable(reason) => HashOutcome::Undecodable(reason@),
            HashOutcome::Panicked(reason) => HashOutcome::Panicked(reason@),
        }
    }
}

impl View for BucketEvent<String, Vec<u8>, OpendalError, Error> {
    type V = EventView;

    open spec fn view(&self) -> EventView {
        match *self {
            BucketEvent::Opened(opened) => BucketEvent::Opened(result_view(opened)),
            BucketEvent::StreamOpened(opened) => BucketEvent::StreamOpened(stream_view(opened)),
            BucketEvent::Read(read) => BucketEvent::Read(read_view(read)),
            BucketEvent::Written(written) => BucketEvent::Written(result_view(written)),
            BucketEvent::Sent(sent) => BucketEvent::Sent(sent),
            BucketEvent::HashEnded(outcome) => BucketEvent::HashEnded(outcome@),
            BucketEvent::Committed(result) => BucketEvent::Committed(result_view(result)),
            BucketEvent::Aborted => BucketEvent::Aborted,
        }
    }
}

/// How far a verification has come: `B` is the type of chunks, `E` that of errors.
#[derive(Debug)]
pub enum BucketPhase<B, E> {
    Opening,
    OpeningStream,
    Reading,
    /// This chunk is being written.
    Writing(B),
    /// This chunk is being handed to the hash task.
    Hashing(B),
    /// The stream has ended, and the hash is awaited.
    Awaiting,
    /// The hash is right, and the writer is being committed; the number is that of the
    /// decompressed bytes.
    Committing(u64),
    /// The writer is being aborted after a failure.
    Aborting(E),
    /// The verification has ended, with the number of decompressed bytes or an error.
    Finished(Result<u64, E>),
}

/// The verification of a bucket file, with or without writing it.
#[derive(Debug)]
pub struct BucketRun {
    pub path: String,
    /// The hash that the path names.
    pub expected: Option<String>,
    /// Whether the bucket is written to a staged writer while it is verified.
    pub staged: bool,
    pub phase: BucketPhase<Vec<u8>, Error>,
}

/// The mathematical counterpart of [`BucketRun`].
pub struct BucketView {
    pub path: Seq<char>,
    pub expected: Option<Seq<char>>,
    pub staged: bool,
    pub phase: BucketPhase<Seq<u8>, ErrorView>,
}

/// The mathematical counterpart of a phase.
pub open spec fn phase_view(phase: BucketPhase<Vec<u8>, Error>) -> BucketPhase<
    Seq<u8>,
    ErrorView,
> {
    match phase {
        BucketPhase::Opening => BucketPhase::Opening,
        BucketPhase::OpeningStream => BucketPhase::OpeningStream,
        BucketPhase::Reading => BucketPhase::Reading,
        BucketPhase::Writing(chunk) => BucketPhase::Writing(chunk@),
        BucketPhase::Hashing(chunk) => BucketPhase::Hashing(chunk@),
        BucketPhase::Awaiting => BucketPhase::Awaiting,
        BucketPhase::Committing(size) => BucketPhase::Committing(size),
        BucketPhase::Aborting(error) => BucketPhase::Aborting(error@),
        BucketPhase::Finished(result) => BucketPhase::Finished(result_view(result)),
    }
}

impl View for BucketRun {
    type V = BucketView;

    open spec fn view(&self) -> BucketView {
        BucketView {
            path: self.path@,
            expected: opt_chars(self.expected),
            staged: self.staged,
            phase: phase_view(self.phase),
        }
    }
}

/// The phase after a failure: a staged writer is aborted first.
pub open spec fn failed(staged: bool, error: ErrorView) -> BucketPhase<Seq<u8>, ErrorView> {
    if staged {
        BucketPhase::Aborting(error)
    } else {
        BucketPhase::Finished(Err(error))
    }
}

/// The phase in which a verification of `path` starts to read: one that names no hash fails.
pub open spec fn begun(staged: bool, path: Seq<char>, expected: Option<Seq<char>>) -> BucketPhase<
    Seq<u8>,
    ErrorView,
> {
    match expected {
        Some(_) => BucketPhase::OpeningStream,
        None => failed(staged, fatal_error("Invalid bucket path: "@ + path)),
    }
}

/// The phase after the hash task has ended.
pub open spec fn judged(
    staged: bool,
    path: Seq<char>,
    expected: Option<Seq<char>>,
    outcome: HashOutcome<Seq<char>>,
) -> BucketPhase<Seq<u8>, ErrorView> {
    match outcome {
        HashOutcome::Panicked(reason) => failed(
            staged,
            fatal_error("Hash task panicked for "@ + path + ": "@ + reason),
        ),
        HashOutcome::Undecodable(reason) => failed(
            staged,
            retry_error("Failed to decompress "@ + path + ": "@ + reason),
        ),
        HashOutcome::Hashed { hash, decompressed_bytes } => if expected != Some(hash) {
            failed(staged, fatal_error("Hash mismatch: got "@ + hash))
        } else if staged {
            BucketPhase::Committing(decompressed_bytes)
        } else {
            BucketPhase::Finished(Ok(decompressed_bytes))
        },
    }
}

impl BucketView {
    /// A verification of the bucket at `path`, at its start.
    pub open spec fn start(path: Seq<char>, staged: bool) -> BucketView {
        let expected = bucket_hash(path);
        BucketView {
            path,
            expected,
            staged,
            phase: if staged {
                BucketPhase::Opening
            } else {
                begun(staged, path, expected)
            },
        }
    }

    /// The step to perform next, until the verification has ended.
    pub open spec fn step(self) -> Option<BucketStep> {
        match self.phase {
            BucketPhase::Opening => Some(BucketStep::OpenWriter),
            BucketPhase::OpeningStream => Some(BucketStep::OpenStream),
            BucketPhase::Reading => Some(BucketStep::ReadChunk),
            BucketPhase::Writing(_) => Some(BucketStep::WriteChunk),
            BucketPhase::Hashing(_) => Some(BucketStep::HashChunk),
            BucketPhase::Awaiting => Some(BucketStep::AwaitHash),
            BucketPhase::Committing(_) => Some(BucketStep::Commit),
            BucketPhase::Aborting(_) => Some(BucketStep::Abort),
            BucketPhase::Finished(_) => None,
        }
    }

    /// The verification after an event.
    pub open spec fn after(self, event: EventView) -> BucketView {
        let phase = match (self.phase, event) {
            (BucketPhase::Opening, BucketEvent::Opened(Ok(_))) => begun(
                self.staged,
                self.path,
                self.expected,
            ),
            (BucketPhase::Opening, BucketEvent::Opened(Err(error))) => BucketPhase::Finished(
                Err(error),
            ),
            (BucketPhase::OpeningStream, BucketEvent::StreamOpened(Ok(_))) => BucketPhase::Reading,
            (BucketPhase::OpeningStream, BucketEvent::StreamOpened(Err(failure))) => failed(
                self.staged,
                opendal_failure(failure, "Failed to create stream for "@ + self.path),
            ),
            (BucketPhase::Reading, BucketEvent::Read(Some(Ok(chunk)))) => if self.staged {
                BucketPhase::Writing(chunk)
            } else {
                BucketPhase::Hashing(chunk)
            },
            (BucketPhase::Reading, BucketEvent::Read(Some(Err(failure)))) => failed(
                self.staged,
                opendal_failure(failure, "Failed to read from "@ + self.path),
            ),
            (BucketPhase::Reading, BucketEvent::Read(None)) => BucketPhase::Awaiting,
            (BucketPhase::Writing(chunk), BucketEvent::Written(Ok(_))) => BucketPhase::Hashing(
                chunk,
            ),
            (BucketPhase::Writing(_), BucketEvent::Written(Err(error))) => failed(
                self.staged,
                error,
            ),
            (BucketPhase::Hashing(_), BucketEvent::Sent(true)) => BucketPhase::Reading,
            (BucketPhase::Hashing(_), BucketEvent::Sent(false)) => failed(
                self.staged,
                fatal_error("Hash channel closed unexpectedly"@),
            ),
            (BucketPhase::Awaiting, BucketEvent::HashEnded(outcome)) => judged(
                self.staged,
                self.path,
                self.expected,
                outcome,
            ),
            (BucketPhase::Committing(size), BucketEvent::Committed(Ok(_))) => BucketPhase::Finished(
                Ok(size),
            ),
            (BucketPhase::Committing(_), BucketEvent::Committed(Err(error))) =>
                BucketPhase::Finished(Err(error)),
            (BucketPhase::Aborting(error), BucketEvent::Aborted) => BucketPhase::Finished(
                Err(error),
            ),
            (phase, _) => phase,
        };
        BucketView { phase, ..self }
    }

    /// The verification after a sequence of events.
    pub open spec fn after_all(self, events: Seq<EventView>) -> BucketView
        decreases events.len(),
    {
        if events.len() == 0 {
            self
        } else {
            self.after_all(events.drop_last()).after(events.last())
        }
    }
}

/// The phase after a failure: a staged writer is aborted first.
fn fail(staged: bool, error: Error) -> (phase: BucketPhase<Vec<u8>, Error>)
    ensures
        phase_view(phase) == failed(staged, error@),
{
    if staged {
        BucketPhase::Aborting(error)
    } else {
        BucketPhase::Finished(Err(error))
    }
}

/// The phase in which a verification of `path` starts to read: one that names no hash fails.
fn begin(staged: bool, path: &str, expected: &Option<String>) -> (phase: BucketPhase<
    Vec<u8>,
    Error,
>)
    ensures
        phase_view(phase) == begun(staged, path@, opt_chars(*expected)),
{
    match expected {
        Some(_) => BucketPhase::OpeningStream,
        None => fail(staged, Error::fatal(join2("Invalid bucket path: ", path))),
    }
}

/// The phase after the hash task has ended.
fn judge(
    staged: bool,
    path: &str,
    expected: &Option<String>,
    outcome: HashOutcome<String>,
) -> (phase: BucketPhase<Vec<u8>, Error>)
    ensures
        phase_view(phase) == judged(staged, path@, opt_chars(*expected), outcome@),
{
    match outcome {
        HashOutcome::Panicked(reason) => fail(
            staged,
            Error::fatal(join4("Hash task panicked for ", path, ": ", reason.as_str())),
        ),
        HashOutcome::Undecodable(reason) => fail(
            staged,
            Error::retry(join4("Failed to decompress ", path, ": ", reason.as_str())),
        ),
        HashOutcome::Hashed { hash, decompressed_bytes } => {
            let matches_path = match expected {
                Some(expected) => same(expected.as_str(), hash.as_str()),
                None => false,
            };
            if !matches_path {
                fail(staged, Error::fatal(join2("Hash mismatch: got ", hash.as_str())))
            } else if staged {
                BucketPhase::Committing(decompressed_bytes)
            } else {
                BucketPhase::Finished(Ok(decompressed_bytes))
            }
        },
    }
}

/// Starts to verify a bucket file's hash, without writing it.
pub fn verify_bucket_stream(path: &str) -> (run: BucketRun)
    ensures
        run@ == BucketView::start(path@, false),
{
    let expected = bucket_hash_from_path(path);
    let phase = begin(false, path, &expected);
    BucketRun { path: path.to_owned(), expected, staged: false, phase }
}

/// Starts to verify and write a bucket file. The staged write is committed only after the hash
/// verifies; on any failure it is aborted, so nothing becomes visible at the destination path.
pub fn verify_and_write_bucket(path: &str) -> (run: BucketRun)
    ensures
        run@ == BucketView::start(path@, true),
{
    let expected = bucket_hash_from_path(path);
    BucketRun { path: path.to_owned(), expected, staged: true, phase: BucketPhase::Opening }
}

impl BucketRun {
    /// The step to perform next, until the verification has ended.
    pub fn step(&self) -> (step: Option<BucketStep>)
        ensures
            step == self@.step(),
    {
        match self.phase {
            BucketPhase::Opening => Some(BucketStep::OpenWriter),
            BucketPhase::OpeningStream => Some(BucketStep::OpenStream),
            BucketPhase::Reading => Some(BucketStep::ReadChunk),
            BucketPhase::Writing(_) => Some(BucketStep::WriteChunk),
            BucketPhase::Hashing(_) => Some(BucketStep::HashChunk),
            BucketPhase::Awaiting => Some(BucketStep::AwaitHash),
            BucketPhase::Committing(_) => Some(BucketStep::Commit),
            BucketPhase::Aborting(_) => Some(BucketStep::Abort),
            BucketPhase::Finished(_) => None,
        }
    }

    /// The chunk to write or to hash, where that is the next step.
    pub fn chunk(&self) -> (chunk: Option<&Vec<u8>>)
        ensures
            match self@.phase {
                BucketPhase::Writing(data) | BucketPhase::Hashing(data) => chunk matches Some(c)
                    && c@ == data,
                _ => chunk is None,
            },
    {
        match &self.phase {
            BucketPhase::Writing(chunk) => Some(chunk),
            BucketPhase::Hashing(chunk) => Some(chunk),
            _ => None,
        }
    }

    /// Goes on after an event. One that does not answer the current step changes nothing.
    pub fn resume(self, event: Event) -> (next: Self)
        ensures
            next@ == self@.after(event@),
    {
        let staged = self.staged;
        let phase = match (self.phase, event) {
            (BucketPhase::Opening, BucketEvent::Opened(Ok(_))) => begin(
                staged,
                self.path.as_str(),
                &self.expected,
            ),
            (BucketPhase::Opening, BucketEvent::Opened(Err(error))) => BucketPhase::Finished(
                Err(error),
            ),
            (BucketPhase::OpeningStream, BucketEvent::StreamOpened(Ok(_))) => BucketPhase::Reading,
            (BucketPhase::OpeningStream, BucketEvent::StreamOpened(Err(failure))) => {
                let context = join2("Failed to create stream for ", self.path.as_str());
                fail(staged, failure.in_context(context.as_str()))
            },
            (BucketPhase::Reading, BucketEvent::Read(Some(Ok(chunk)))) => if staged {
                BucketPhase::Writing(chunk)
            } else {
                BucketPhase::Hashing(chunk)
            },
            (BucketPhase::Reading, BucketEvent::Read(Some(Err(failure)))) => {
                let context = join2("Failed to read from ", self.path.as_str());
                fail(staged, failure.in_context(context.as_str()))
            },
            (BucketPhase::Reading, BucketEvent::Read(None)) => BucketPhase::Awaiting,
            (BucketPhase::Writing(chunk), BucketEvent::Written(Ok(_))) => BucketPhase::Hashing(
                chunk,
            ),
            (BucketPhase::Writing(_), BucketEvent::Written(Err(error))) => fail(staged, error),
            (BucketPhase::Hashing(_), BucketEvent::Sent(true)) => BucketPhase::Reading,
            (BucketPhase::Hashing(_), BucketEvent::Sent(false)) => fail(
                staged,
                Error::fatal("Hash channel closed unexpectedly"),
            ),
            (BucketPhase::Awaiting, BucketEvent::HashEnded(outcome)) => judge(
                staged,
                self.path.as_str(),
                &self.expected,
                outcome,
            ),
            (BucketPhase::Committing(size), BucketEvent::Committed(Ok(_))) => BucketPhase::Finished(
                Ok(size),
            ),
            (BucketPhase::Committing(_), BucketEvent::Committed(Err(error))) =>
                BucketPhase::Finished(Err(error)),
            (BucketPhase::Aborting(error), BucketEvent::Aborted) => BucketPhase::Finished(
                Err(error),
            ),
            (phase, _) => phase,
        };
        Self { path: self.path, expected: self.expected, staged, phase }
    }

    /// The number of decompressed bytes, or the error, once the verification has ended.
    pub fn finish(self) -> (result: Option<Result<u64, Error>>)
        ensures
            match self@.phase {
                BucketPhase::Finished(expected) => result matches Some(r) && result_view(r)
                    == expected,
                _ => result is None,
            },
    {
        match self.phase {
            BucketPhase::Finished(result) => Some(result),
            _ => None,
        }
    }
}

// ===== What a verification guarantees =====

/// The data that a verification has read so far.
pub open spec fn data_read(path: Seq<char>, staged: bool, events: Seq<EventView>) -> Seq<u8>
    decreases events.len(),
{
    if events.len() == 0 {
        Seq::empty()
    } else {
        let before = data_read(path, staged, events.drop_last());
        match (BucketView::start(path, staged).after_all(events.drop_last()).phase, events.last()) {
            (BucketPhase::Reading, BucketEvent::Read(Some(Ok(chunk)))) => before + chunk,
            _ => before,
        }
    }
}

/// The data that the hash task has taken so far.
pub open spec fn data_hashed(path: Seq<char>, staged: bool, events: Seq<EventView>) -> Seq<u8>
    decreases events.len(),
{
    if events.len() == 0 {
        Seq::empty()
    } else {
        let before = data_hashed(path, staged, events.drop_last());
        match (BucketView::start(path, staged).after_all(events.drop_last()).phase, events.last()) {
            (BucketPhase::Hashing(chunk), BucketEvent::Sent(true)) => before + chunk,
            _ => before,
        }
    }
}

/// After all the data was read, the hash task reported the hash that the path names, for content of
/// this size.
pub open spec fn hash_confirmed(
    path: Seq<char>,
    staged: bool,
    events: Seq<EventView>,
    size: u64,
) -> bool {
    exists|i: int|
        {
            &&& 0 <= i < events.len()
            &&& BucketView::start(path, staged).after_all(events.take(i)).phase is Awaiting
            &&& (#[trigger] events[i]) matches BucketEvent::HashEnded(
                HashOutcome::Hashed { hash, decompressed_bytes },
            )
            &&& bucket_hash(path) == Some(hash)
            &&& decompressed_bytes == size
        }
}

/// What a step of a verification is to its destination.
pub open spec fn destination_step(step: Option<BucketStep>) -> Option<TransferStep> {
    match step {
        Some(BucketStep::OpenWriter) => Some(TransferStep::OpenWriter),
        Some(BucketStep::WriteChunk) => Some(TransferStep::WriteChunk),
        Some(BucketStep::Commit) => Some(TransferStep::Commit),
        Some(BucketStep::Abort) => Some(TransferStep::Abort),
        _ => None,
    }
}

/// What an event of a verification is to its destination.
pub open spec fn destination_event(event: EventView) -> crate::transfer::EventView {
    match event {
        BucketEvent::Opened(opened) => TransferEvent::Opened(opened),
        BucketEvent::StreamOpened(opened) => TransferEvent::StreamOpened(opened),
        BucketEvent::Read(read) => TransferEvent::Read(read),
        BucketEvent::Written(written) => TransferEvent::Written(written),
        BucketEvent::Sent(_) | BucketEvent::HashEnded(_) => TransferEvent::Read(None),
        BucketEvent::Committed(result) => TransferEvent::Committed(result),
        BucketEvent::Aborted => TransferEvent::Aborted,
    }
}

/// The data that a verification writes in its current step.
pub open spec fn current_chunk(run: BucketView) -> Seq<u8> {
    match run.phase {
        BucketPhase::Writing(chunk) => chunk,
        _ => Seq::empty(),
    }
}

/// `states` are what the destination goes through while the bucket at `path` is verified and
/// written, with `events` the answers to the steps.
pub open spec fn bucket_states(
    path: Seq<char>,
    events: Seq<EventView>,
    states: Seq<Destination>,
) -> bool
    decreases events.len(),
{
    &&& states.len() == events.len() + 1
    &&& events.len() > 0 ==> {
        let run = BucketView::start(path, true).after_all(events.drop_last());
        &&& bucket_states(path, events.drop_last(), states.drop_last())
        &&& carries_out(
            states.drop_last().last(),
            destination_step(run.step()),
            current_chunk(run),
            destination_event(events.last()),
            states.last(),
        )
    }
}

spec fn hash_inv(
    run: BucketView,
    read: Seq<u8>,
    hashed: Seq<u8>,
    confirmed: spec_fn(u64) -> bool,
) -> bool {
    match run.phase {
        BucketPhase::Opening | BucketPhase::OpeningStream => read == Seq::<u8>::empty() && hashed
            == read,
        BucketPhase::Reading | BucketPhase::Awaiting => hashed == read,
        BucketPhase::Writing(chunk) | BucketPhase::Hashing(chunk) => read == hashed + chunk,
        BucketPhase::Committing(size) | BucketPhase::Finished(Ok(size)) => hashed == read
            && confirmed(size),
        BucketPhase::Aborting(_) | BucketPhase::Finished(Err(_)) => true,
    }
}

proof fn lemma_hash(path: Seq<char>, staged: bool, events: Seq<EventView>)
    ensures
        BucketView::start(path, staged).after_all(events).path == path,
        BucketView::start(path, staged).after_all(events).staged == staged,
        BucketView::start(path, staged).after_all(events).expected == bucket_hash(path),
        hash_inv(
            BucketView::start(path, staged).after_all(events),
            data_read(path, staged, events),
            data_hashed(path, staged, events),
            |size: u64| hash_confirmed(path, staged, events, size),
        ),
    decreases events.len(),
{
    if events.len() > 0 {
        let before = events.drop_last();
        let last = events.len() - 1;
        lemma_hash(path, staged, before);
        assert(events.take(last) == before);
        assert forall|size: u64| hash_confirmed(path, staged, before, size) implies hash_confirmed(
            path,
            staged,
            events,
            size,
        ) by {
            let i = choose|i: int|
                {
                    &&& 0 <= i < before.len()
                    &&& BucketView::start(path, staged).after_all(before.take(i)).phase is Awaiting
                    &&& (#[trigger] before[i]) matches BucketEvent::HashEnded(
                        HashOutcome::Hashed { hash, decompressed_bytes },
                    )
                    &&& bucket_hash(path) == Some(hash)
                    &&& decompressed_bytes == size
                };
            assert(events.take(i) == before.take(i));
            assert(events[i] == before[i]);
        }
        assert(events[last] == events.last());
    }
}

/// A verification succeeds only if the hash task has taken exactly the data that was read and has
/// then reported the hash that the path names.
pub proof fn law_success_means_the_hash_was_confirmed(
    path: Seq<char>,
    staged: bool,
    events: Seq<EventView>,
    size: u64,
)
    requires
        BucketView::start(path, staged).after_all(events).phase == BucketPhase::Finished::<
            Seq<u8>,
            ErrorView,
        >(Ok(size)),
    ensures
        hash_confirmed(path, staged, events, size),
        data_hashed(path, staged, events) == data_read(path, staged, events),
{
    lemma_hash(path, staged, events);
}

/// The commit of a verified write is asked for only after the hash was confirmed.
pub proof fn law_commit_comes_after_the_hash(path: Seq<char>, events: Seq<EventView>)
    requires
        BucketView::start(path, true).after_all(events).step() == Some(BucketStep::Commit),
    ensures
        exists|size: u64| hash_confirmed(path, true, events, size),
        data_hashed(path, true, events) == data_read(path, true, events),
{
    lemma_hash(path, true, events);
    if let BucketPhase::Committing(size) = BucketView::start(path, true).after_all(events).phase {
        assert(hash_confirmed(path, true, events, size));
    }
}

/// A verified write that has opened its writer ends only after the writer was committed or aborted.
pub proof fn law_write_closes_its_writer(run: BucketView, event: EventView)
    requires
        run.staged,
        !(run.phase is Opening),
        !(run.phase is Finished),
        run.after(event).phase is Finished,
    ensures
        run.step() == Some(BucketStep::Commit) && event is Committed || run.step() == Some(
            BucketStep::Abort,
        ) && event is Aborted,
{
}

spec fn delivery_inv(
    run: BucketView,
    read: Seq<u8>,
    first: Destination,
    state: Destination,
) -> bool {
    match run.phase {
        BucketPhase::Finished(Ok(_)) => state.visible == Some(read),
        phase => {
            &&& state.visible == first.visible
            &&& match phase {
                BucketPhase::OpeningStream
                | BucketPhase::Reading
                | BucketPhase::Hashing(_)
                | BucketPhase::Awaiting
                | BucketPhase::Committing(_) => state.staged == Some(read),
                BucketPhase::Writing(chunk) => state.staged is Some && read
                    == state.staged.unwrap() + chunk,
                _ => true,
            }
        },
    }
}

proof fn lemma_delivery(path: Seq<char>, events: Seq<EventView>, states: Seq<Destination>)
    requires
        bucket_states(path, events, states),
    ensures
        delivery_inv(
            BucketView::start(path, true).after_all(events),
            data_read(path, true, events),
            states[0],
            states.last(),
        ),
    decreases events.len(),
{
    if events.len() > 0 {
        lemma_delivery(path, events.drop_last(), states.drop_last());
        lemma_hash(path, true, events.drop_last());
    }
}

/// A verified write that ends well has made exactly the data read visible, and its hash was
/// confirmed; until then, and if it ends with an error, what is visible at the destination stays as
/// it was.
pub proof fn law_verified_write_delivers_all_or_nothing(
    path: Seq<char>,
    events: Seq<EventView>,
    states: Seq<Destination>,
)
    requires
        bucket_states(path, events, states),
    ensures
        match BucketView::start(path, true).after_all(events).phase {
            BucketPhase::Finished(Ok(size)) => {
                &&& states.last().visible == Some(data_read(path, true, events))
                &&& data_hashed(path, true, events) == data_read(path, true, events)
                &&& hash_confirmed(path, true, events, size)
            },
            _ => states.last().visible == states[0].visible,
        },
{
    lemma_delivery(path, events, states);
    lemma_hash(path, true, events);
}

/// The answers to a verified write that opens its writer and its stream and then reads, writes and
/// hashes these chunks, without any failure.
pub open spec fn undisturbed(chunks: Seq<Seq<u8>>) -> Seq<EventView>
    decreases chunks.len(),
{
    if chunks.len() == 0 {
        Seq::<EventView>::empty().push(BucketEvent::Opened(Ok(()))).push(
            BucketEvent::StreamOpened(Ok(())),
        )
    } else {
        undisturbed(chunks.drop_last()).push(BucketEvent::Read(Some(Ok(chunks.last())))).push(
            BucketEvent::Written(Ok(())),
        ).push(BucketEvent::Sent(true))
    }
}

proof fn lemma_one_more(path: Seq<char>, events: Seq<EventView>, event: EventView)
    ensures
        BucketView::start(path, true).after_all(events.push(event)) == BucketView::start(
            path,
            true,
        ).after_all(events).after(event),
{
    assert(events.push(event).drop_last() == events);
}

proof fn lemma_undisturbed(path: Seq<char>, chunks: Seq<Seq<u8>>)
    requires
        bucket_hash(path) is Some,
    ensures
        BucketView::start(path, true).after_all(undisturbed(chunks)) == (BucketView {
            phase: BucketPhase::Reading,
            ..BucketView::start(path, true)
        }),
    decreases chunks.len(),
{
    if chunks.len() == 0 {
        let opened = Seq::<EventView>::empty().push(BucketEvent::Opened(Ok(())));
        lemma_one_more(path, Seq::empty(), BucketEvent::Opened(Ok(())));
        lemma_one_more(path, opened, BucketEvent::StreamOpened(Ok(())));
    } else {
        let before = undisturbed(chunks.drop_last());
        let read: EventView = BucketEvent::Read(Some(Ok(chunks.last())));
        let written: EventView = BucketEvent::Written(Ok(()));
        lemma_undisturbed(path, chunks.drop_last());
        lemma_one_more(path, before, read);
        lemma_one_more(path, before.push(read), written);
        lemma_one_more(path, before.push(read).push(written), BucketEvent::Sent(true));
    }
}

/// A bucket whose content has the hash that its path names is written: where nothing fails, the
/// verified write ends well, with the size of the content.
pub proof fn law_right_bucket_is_written(
    path: Seq<char>,
    chunks: Seq<Seq<u8>>,
    content: Seq<u8>,
    count: u64,
)
    requires
        names_bucket(path, hex(sha256(content))),
        content.len() <= u64::MAX,
    ensures
        BucketView::start(path, true).after_all(
            undisturbed(chunks).push(BucketEvent::Read(None)).push(
                BucketEvent::HashEnded(
                    HashOutcome::Hashed {
                        hash: hex(sha256(content)),
                        decompressed_bytes: content.len() as u64,
                    },
                ),
            ).push(BucketEvent::Committed(Ok(count))),
        ).phase == BucketPhase::Finished::<Seq<u8>, ErrorView>(Ok(content.len() as u64)),
{
    law_bucket_hash_is_the_one_named(path, hex(sha256(content)));
    lemma_undisturbed(path, chunks);
    let reading = undisturbed(chunks);
    let ended: EventView = BucketEvent::HashEnded(
        HashOutcome::Hashed {
            hash: hex(sha256(content)),
            decompressed_bytes: content.len() as u64,
        },
    );
    lemma_one_more(path, reading, BucketEvent::Read(None));
    lemma_one_more(path, reading.push(BucketEvent::Read(None)), ended);
    lemma_one_more(
        path,
        reading.push(BucketEvent::Read(None)).push(ended),
        BucketEvent::Committed(Ok(count)),
    );
}

/// A bucket passes only if its path names the hash of its content: where the hash task reports
/// nothing but the hash and the size of `content`, a verification that succeeds proves that.
pub proof fn law_only_right_buckets_pass(
    path: Seq<char>,
    staged: bool,
    events: Seq<EventView>,
    size: u64,
    content: Seq<u8>,
)
    requires
        BucketView::start(path, staged).after_all(events).phase == BucketPhase::Finished::<
            Seq<u8>,
            ErrorView,
        >(Ok(size)),
        forall|i: int|
            0 <= i < events.len() ==> ((#[trigger] events[i]) matches BucketEvent::HashEnded(
                HashOutcome::Hashed { hash, decompressed_bytes },
            ) ==> hash == hex(sha256(content)) && decompressed_bytes == content.len()),
    ensures
        names_bucket(path, hex(sha256(content))),
        size == content.len(),
{
    law_success_means_the_hash_was_confirmed(path, staged, events, size);
    law_bucket_hash_is_the_one_named(path, hex(sha256(content)));
}

} // verus!
