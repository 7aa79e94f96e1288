//! What the verification of a bucket asks for, and how it ends.
use vstd::prelude::*;

use crate::error::{opendal_failure, ErrorClass, ErrorView, OpendalErrorView};
use crate::hashing::{hex, sha256};
use crate::history_format::bucket_hash;
use crate::text::occurs_at;
use crate::verify::{
    BucketEvent, BucketPhase, BucketStep, BucketView, EventView, HashOutcome,
};

verus! {

// ===== Paths =====

/// `hash` is 64 hexadecimal digits, of either case.
pub open spec fn is_hash_text(hash: Seq<char>) -> bool {
    &&& hash.len() == 64
    &&& forall|i: int|
        0 <= i < 64 ==> {
            let c = #[trigger] hash[i];
            ||| '0' <= c <= '9'
            ||| 'a' <= c <= 'f'
            ||| 'A' <= c <= 'F'
        }
}

/// The path of the bucket file with this hash in a directory, which is empty or ends in a slash.
pub open spec fn bucket_path(directory: Seq<char>, hash: Seq<char>) -> Seq<char> {
    directory + "bucket-"@ + hash + ".xdr.gz"@
}

/// `directory` is empty or ends in a slash.
pub open spec fn is_directory(directory: Seq<char>) -> bool {
    directory.len() > 0 ==> directory.last() == '/'
}

/// The path of a bucket file, in whatever directory, names the hash in the name of the file.
pub proof fn law_bucket_path_names_its_hash(directory: Seq<char>, hash: Seq<char>)
    requires
        is_directory(directory),
        is_hash_text(hash),
    ensures
        bucket_hash(bucket_path(directory, hash)) == Some(hash),
{
    reveal_strlit("bucket-");
    reveal_strlit(".xdr.gz");
    let path = bucket_path(directory, hash);
    let start = directory.len() as int;
    assert(path.len() == start + 78);
    assert(path.subrange(start, start + 7) =~= "bucket-"@);
    assert(path.subrange(start + 7, start + 71) =~= hash);
    assert(path.subrange(start + 71, start + 78) =~= ".xdr.gz"@);
    if start > 0 {
        assert(path[start - 1] == directory.last());
    }
}

/// Only the paths of bucket files name a hash.
pub proof fn law_only_bucket_paths_name_a_hash(path: Seq<char>, hash: Seq<char>)
    requires
        bucket_hash(path) == Some(hash),
    ensures
        is_hash_text(hash),
        path.len() >= 78,
        is_directory(path.take(path.len() - 78)),
        path == bucket_path(path.take(path.len() - 78), hash),
{
    reveal_strlit("bucket-");
    reveal_strlit(".xdr.gz");
    let start = path.len() - 78;
    let directory = path.take(start);
    assert(path =~= directory + path.subrange(start, start + 7) + path.subrange(
        start + 7,
        start + 71,
    ) + path.subrange(start + 71, start + 78));
    assert(occurs_at(path, "bucket-"@, start));
    assert(occurs_at(path, ".xdr.gz"@, path.len() - 7));
    assert forall|i: int| 0 <= i < 64 implies {
        let c = #[trigger] hash[i];
        ||| '0' <= c <= '9'
        ||| 'a' <= c <= 'f'
        ||| 'A' <= c <= 'F'
    } by {
        assert(crate::history_format::is_hex_digit(hash[i]));
    }
}

// ===== Steps =====

/// A verification starts with its writer, if it writes, or else with its stream. A path that names
/// no hash is a fatal error; a writer that was opened for it is aborted first.
pub proof fn law_start_of_a_verification(path: Seq<char>, staged: bool)
    ensures
        ({
            let run = BucketView::start(path, staged);
            let begun = if staged {
                run.after(BucketEvent::Opened(Ok(())))
            } else {
                run
            };
            &&& run.path == path && run.staged == staged && run.expected == bucket_hash(path)
            &&& staged ==> run.step() == Some(BucketStep::OpenWriter)
            &&& if bucket_hash(path) is Some {
                begun.step() == Some(BucketStep::OpenStream)
            } else {
                fails(
                    begun,
                    ErrorView {
                        class: ErrorClass::Fatal,
                        message: "Invalid bucket path: "@ + path,
                    },
                )
            }
        }),
{
}

/// The verification has failed with this error: it has ended, or the abort of its staged writer is
/// all that is left to do.
pub open spec fn fails(run: BucketView, error: ErrorView) -> bool {
    if run.staged {
        &&& run.step() == Some(BucketStep::Abort)
        &&& run.after(BucketEvent::Aborted).step() is None
        &&& run.after(BucketEvent::Aborted).phase == BucketPhase::Finished::<Seq<u8>, ErrorView>(
            Err(error),
        )
    } else {
        &&& run.step() is None
        &&& run.phase == BucketPhase::Finished::<Seq<u8>, ErrorView>(Err(error))
    }
}

/// The chunk at hand.
pub open spec fn chunk_of(run: BucketView) -> Option<Seq<u8>> {
    match run.phase {
        BucketPhase::Writing(chunk) | BucketPhase::Hashing(chunk) => Some(chunk),
        _ => None,
    }
}

/// Every chunk read is written, if the verification writes, and then handed to the hash task, before
/// the next one is read; at the end of the stream the hash is awaited.
pub proof fn law_every_chunk_is_written_and_hashed(run: BucketView, chunk: Seq<u8>)
    ensures
        run.step() == Some(BucketStep::OpenStream) ==> run.after(
            BucketEvent::StreamOpened(Ok(())),
        ).step() == Some(BucketStep::ReadChunk),
        run.step() == Some(BucketStep::ReadChunk) ==> {
            let next = run.after(BucketEvent::Read(Some(Ok(chunk))));
            let hashing = if run.staged {
                next.after(BucketEvent::Written(Ok(())))
            } else {
                next
            };
            &&& run.staged ==> next.step() == Some(BucketStep::WriteChunk) && chunk_of(next)
                == Some(chunk)
            &&& hashing.step() == Some(BucketStep::HashChunk) && chunk_of(hashing) == Some(chunk)
            &&& hashing.after(BucketEvent::Sent(true)) == run
            &&& run.after(BucketEvent::Read(None)).step() == Some(BucketStep::AwaitHash)
        },
{
}

/// How a failure of each step ends a verification.
pub proof fn law_failures_of_a_verification(
    run: BucketView,
    failure: OpendalErrorView,
    error: ErrorView,
)
    ensures
        run.step() == Some(BucketStep::OpenWriter) ==> run.after(
            BucketEvent::Opened(Err(error)),
        ).phase == BucketPhase::Finished::<Seq<u8>, ErrorView>(Err(error)),
        run.step() == Some(BucketStep::OpenStream) ==> fails(
            run.after(BucketEvent::StreamOpened(Err(failure))),
            opendal_failure(failure, "Failed to create stream for "@ + run.path),
        ),
        run.step() == Some(BucketStep::ReadChunk) ==> fails(
            run.after(BucketEvent::Read(Some(Err(failure)))),
            opendal_failure(failure, "Failed to read from "@ + run.path),
        ),
        run.step() == Some(BucketStep::WriteChunk) ==> fails(
            run.after(BucketEvent::Written(Err(error))),
            error,
        ),
        run.step() == Some(BucketStep::HashChunk) ==> fails(
            run.after(BucketEvent::Sent(false)),
            ErrorView {
                class: ErrorClass::Fatal,
                message: "Hash channel closed unexpectedly"@,
            },
        ),
        run.step() == Some(BucketStep::Commit) ==> run.after(
            BucketEvent::Committed(Err(error)),
        ).phase == BucketPhase::Finished::<Seq<u8>, ErrorView>(Err(error)),
{
}

/// How the outcome of the hash task ends a verification: with any other hash than the one that the
/// path names, it fails for good; content that could not be decompressed is worth another attempt;
/// a hash task that did not end is not. With the hash that the path names, a scan ends well, with
/// the number of decompressed bytes, whatever that is, and a write is committed.
pub proof fn law_hash_decides(run: BucketView, hash: Seq<char>, size: u64, count: u64)
    requires
        run.step() == Some(BucketStep::AwaitHash),
    ensures
        fails(
            run.after(BucketEvent::HashEnded(HashOutcome::Undecodable(hash))),
            ErrorView {
                class: ErrorClass::Retry,
                message: "Failed to decompress "@ + run.path + ": "@ + hash,
            },
        ),
        fails(
            run.after(BucketEvent::HashEnded(HashOutcome::Panicked(hash))),
            ErrorView {
                class: ErrorClass::Fatal,
                message: "Hash task panicked for "@ + run.path + ": "@ + hash,
            },
        ),
        ({
            let judged = run.after(
                BucketEvent::HashEnded(HashOutcome::Hashed { hash, decompressed_bytes: size }),
            );
            if run.expected != Some(hash) {
                fails(
                    judged,
                    ErrorView {
                        class: ErrorClass::Fatal,
                        message: "Hash mismatch: got "@ + hash,
                    },
                )
            } else if run.staged {
                &&& judged.step() == Some(BucketStep::Commit)
                &&& judged.after(BucketEvent::Committed(Ok(count))).step() is None
                &&& judged.after(BucketEvent::Committed(Ok(count))).phase
                    == BucketPhase::Finished::<Seq<u8>, ErrorView>(Ok(size))
            } else {
                &&& judged.step() is None
                &&& judged.phase == BucketPhase::Finished::<Seq<u8>, ErrorView>(Ok(size))
            }
        }),
{
}

/// An event answers a step.
pub open spec fn answers(step: BucketStep, event: EventView) -> bool {
    match step {
        BucketStep::OpenWriter => event is Opened,
        BucketStep::OpenStream => event is StreamOpened,
        BucketStep::ReadChunk => event is Read,
        BucketStep::WriteChunk => event is Written,
        BucketStep::HashChunk => event is Sent,
        BucketStep::AwaitHash => event is HashEnded,
        BucketStep::Commit => event is Committed,
        BucketStep::Abort => event is Aborted,
    }
}

/// A verification is about one path and keeps to its mode; an event that does not answer its step,
/// or that comes after its end, changes nothing.
pub proof fn law_stray_events_change_nothing(run: BucketView, event: EventView)
    ensures
        run.after(event).path == run.path,
        run.after(event).staged == run.staged,
        run.after(event).expected == run.expected,
        run.step() matches Some(step) ==> (!answers(step, event) ==> run.after(event) == run),
        run.step() is None ==> run.after(event) == run,
        run.step() is None <==> run.phase is Finished,
{
}

// ===== Whole verifications =====

/// The answers to a scan that opens its stream and then reads and hashes these chunks, without any
/// failure.
pub open spec fn scanned(chunks: Seq<Seq<u8>>) -> Seq<EventView>
    decreases chunks.len(),
{
    if chunks.len() == 0 {
        seq![BucketEvent::StreamOpened(Ok(()))]
    } else {
        scanned(chunks.drop_last()).push(BucketEvent::Read(Some(Ok(chunks.last())))).push(
            BucketEvent::Sent(true),
        )
    }
}

proof fn lemma_one_more(run: BucketView, events: Seq<EventView>, event: EventView)
    ensures
        run.after_all(events.push(event)) == run.after_all(events).after(event),
{
    assert(events.push(event).drop_last() == events);
}

proof fn lemma_scanned(path: Seq<char>, chunks: Seq<Seq<u8>>)
    requires
        bucket_hash(path) is Some,
    ensures
        BucketView::start(path, false).after_all(scanned(chunks)) == (BucketView {
            phase: BucketPhase::Reading,
            ..BucketView::start(path, false)
        }),
    decreases chunks.len(),
{
    let start = BucketView::start(path, false);
    if chunks.len() == 0 {
        let opened: EventView = BucketEvent::StreamOpened(Ok(()));
        assert(scanned(chunks) =~= Seq::<EventView>::empty().push(opened));
        lemma_one_more(start, Seq::empty(), opened);
    } else {
        let before = scanned(chunks.drop_last());
        let read: EventView = BucketEvent::Read(Some(Ok(chunks.last())));
        lemma_scanned(path, chunks.drop_last());
        lemma_one_more(start, before, read);
        lemma_one_more(start, before.push(read), BucketEvent::Sent(true));
    }
}

/// A bucket whose content, of any size and in whatever chunks it is read, has the hash that its path
/// names passes a scan of which no step fails, with the size of its content; one whose content has
/// another hash does not.
pub proof fn law_scan_tells_right_buckets_from_wrong_ones(
    directory: Seq<char>,
    named: Seq<char>,
    chunks: Seq<Seq<u8>>,
    content: Seq<u8>,
)
    requires
        is_directory(directory),
        is_hash_text(named),
        content.len() <= u64::MAX,
    ensures
        ({
            let outcome = HashOutcome::Hashed {
                hash: hex(sha256(content)),
                decompressed_bytes: content.len() as u64,
            };
            let end = BucketView::start(bucket_path(directory, named), false).after_all(
                scanned(chunks).push(BucketEvent::Read(None)).push(BucketEvent::HashEnded(outcome)),
            ).phase;
            if hex(sha256(content)) == named {
                end == BucketPhase::Finished::<Seq<u8>, ErrorView>(Ok(content.len() as u64))
            } else {
                end == BucketPhase::Finished::<Seq<u8>, ErrorView>(
                    Err(
                        ErrorView {
                            class: ErrorClass::Fatal,
                            message: "Hash mismatch: got "@ + hex(sha256(content)),
                        },
                    ),
                )
            }
        }),
{
    let path = bucket_path(directory, named);
    let start = BucketView::start(path, false);
    let outcome = HashOutcome::Hashed {
        hash: hex(sha256(content)),
        decompressed_bytes: content.len() as u64,
    };
    let reading = scanned(chunks);
    law_bucket_path_names_its_hash(directory, named);
    lemma_scanned(path, chunks);
    lemma_one_more(start, reading, BucketEvent::Read(None));
    lemma_one_more(
        start,
        reading.push(BucketEvent::Read(None)),
        BucketEvent::HashEnded(outcome),
    );
}

} // verus!
