//! Bucket verification.
use stellar_archivist::error::{Error, ErrorClass, OpendalError, OpendalErrorKind};
use stellar_archivist::hashing::{digest_of, BucketHasher, HashStep, MAX_HASHED_BYTES};
use stellar_archivist::history_format::bucket_hash_from_path;
use stellar_archivist::verify::{
    verify_and_write_bucket, verify_bucket_stream, BucketEvent, BucketRun, BucketStep, HashOutcome,
};

const ABC: &str = "ba7816bf8f01cfea414140de5dae2223b00361a396177a9cb410ff61f20015ad";

fn path_of(hash: &str) -> String {
    format!("bucket/ba/78/16/bucket-{hash}.xdr.gz")
}

fn hash_of(content: &[u8], read_size: usize) -> (String, u64) {
    let mut hasher = BucketHasher::new();
    for read in content.chunks(read_size) {
        hasher = match hasher.absorb(read) {
            HashStep::More(hasher) => hasher,
            done => panic!("ended early: {done:?}"),
        };
    }
    match hasher.absorb(&[]) {
        HashStep::Done {
            hash,
            decompressed_bytes,
        } => (hash, decompressed_bytes),
        more => panic!("did not end: {more:?}"),
    }
}

fn hashed(content: &[u8]) -> HashOutcome<String> {
    let (hash, decompressed_bytes) = hash_of(content, 7);
    HashOutcome::Hashed {
        hash,
        decompressed_bytes,
    }
}

fn failure() -> OpendalError {
    OpendalError {
        kind: OpendalErrorKind::Unexpected,
        text: "status: 503".to_string(),
    }
}

/// Reads the chunks, checks the steps of each, and returns the run once the hash is awaited.
fn read_all(mut run: BucketRun, chunks: &[&[u8]], staged: bool) -> BucketRun {
    assert_eq!(run.step(), Some(BucketStep::OpenStream));
    run = run.resume(BucketEvent::StreamOpened(Ok(())));
    for chunk in chunks {
        assert_eq!(run.step(), Some(BucketStep::ReadChunk));
        run = run.resume(BucketEvent::Read(Some(Ok(chunk.to_vec()))));
        if staged {
            assert_eq!(run.step(), Some(BucketStep::WriteChunk));
            assert_eq!(run.chunk().unwrap(), chunk);
            run = run.resume(BucketEvent::Written(Ok(())));
        }
        assert_eq!(run.step(), Some(BucketStep::HashChunk));
        assert_eq!(run.chunk().unwrap(), chunk);
        run = run.resume(BucketEvent::Sent(true));
    }
    assert_eq!(run.chunk(), None);
    run = run.resume(BucketEvent::Read(None));
    assert_eq!(run.step(), Some(BucketStep::AwaitHash));
    run
}

fn error_of(run: BucketRun) -> Error {
    run.finish().expect("ended").expect_err("failed")
}

#[test]
fn hashes_do_not_depend_on_the_reads() {
    assert_eq!(hash_of(b"abc", 1), (ABC.to_string(), 3));
    assert_eq!(hash_of(b"abc", 3), (ABC.to_string(), 3));
    assert_eq!(
        hash_of(b"", 1),
        (
            "e3b0c44298fc1c149afbf4c8996fb92427ae41e4649b934ca495991b7852b855".to_string(),
            0
        )
    );
    let digest = digest_of(b"abc");
    assert_eq!(digest.len(), 32);
    assert_eq!(digest[..4], [0xba, 0x78, 0x16, 0xbf]);
    assert_eq!(BucketHasher::new().capacity(), MAX_HASHED_BYTES);
}

#[test]
fn bucket_paths_name_their_hash() {
    assert_eq!(bucket_hash_from_path(&path_of(ABC)).as_deref(), Some(ABC));
    let bare = format!("bucket-{ABC}.xdr.gz");
    assert_eq!(bucket_hash_from_path(&bare).as_deref(), Some(ABC));
    for path in [
        "".to_string(),
        "bucket/ab/cd/ef/bucket-test.xdr.gz".to_string(),
        format!("bucket/x{bare}"),
        format!("{bare}.tmp"),
        format!("bucket-{}.xdr.gz", &ABC[1..]),
        format!("bucket-{}g.xdr.gz", &ABC[1..]),
        format!("bucket-{ABC}.xdr"),
        format!("BUCKET-{ABC}.xdr.gz"),
    ] {
        assert_eq!(bucket_hash_from_path(&path), None, "{path}");
    }
}

#[test]
fn a_right_bucket_verifies() {
    let run = verify_bucket_stream(&path_of(ABC));
    let run = read_all(run, &[b"comp", b"ressed"], false);
    let run = run.resume(BucketEvent::HashEnded(hashed(b"abc")));
    assert_eq!(run.step(), None);
    assert_eq!(run.finish().unwrap().unwrap(), 3);
}

#[test]
fn a_right_bucket_is_committed_after_its_hash() {
    let run = verify_and_write_bucket(&path_of(ABC));
    assert_eq!(run.step(), Some(BucketStep::OpenWriter));
    let run = run.resume(BucketEvent::Opened(Ok(())));
    let run = read_all(run, &[b"comp", b"ressed"], true);
    let run = run.resume(BucketEvent::HashEnded(hashed(b"abc")));
    assert_eq!(run.step(), Some(BucketStep::Commit));
    let run = run.resume(BucketEvent::Committed(Ok(10)));
    assert_eq!(run.finish().unwrap().unwrap(), 3);
}

#[test]
fn a_corrupt_bucket_is_aborted() {
    let run = verify_and_write_bucket(&path_of(ABC));
    let run = run.resume(BucketEvent::Opened(Ok(())));
    let run = read_all(run, &[b"comp"], true);
    let run = run.resume(BucketEvent::HashEnded(hashed(b"content actually delivered")));
    assert_eq!(run.step(), Some(BucketStep::Abort));
    let run = run.resume(BucketEvent::Aborted);
    let error = error_of(run);
    assert_eq!(error.class, ErrorClass::Fatal);
    let (actual, _) = hash_of(b"content actually delivered", 64);
    assert_eq!(error.message, format!("Hash mismatch: got {actual}"));
}

#[test]
fn paths_without_a_hash_are_refused() {
    let error = error_of(verify_bucket_stream("a/b"));
    assert_eq!(error.class, ErrorClass::Fatal);
    assert_eq!(error.message, "Invalid bucket path: a/b");
    let run = verify_and_write_bucket("a/b").resume(BucketEvent::Opened(Ok(())));
    assert_eq!(run.step(), Some(BucketStep::Abort));
    let error = error_of(run.resume(BucketEvent::Aborted));
    assert_eq!(error.message, "Invalid bucket path: a/b");
    let refused = Error::fatal("Write not supported by this backend");
    let run = verify_and_write_bucket("a/b").resume(BucketEvent::Opened(Err(refused)));
    assert_eq!(
        error_of(run).message,
        "Write not supported by this backend"
    );
}

#[test]
fn every_failure_ends_the_verification() {
    let path = path_of(ABC);
    let opened = || verify_bucket_stream(&path);
    let streaming = || opened().resume(BucketEvent::StreamOpened(Ok(())));
    let hashing = || streaming().resume(BucketEvent::Read(Some(Ok(b"x".to_vec()))));
    let awaiting = || streaming().resume(BucketEvent::Read(None));

    let error = error_of(opened().resume(BucketEvent::StreamOpened(Err(failure()))));
    assert_eq!(error.class, ErrorClass::Retry);
    assert_eq!(
        error.message,
        format!("Failed to create stream for {path}: status: 503")
    );
    let error = error_of(streaming().resume(BucketEvent::Read(Some(Err(failure())))));
    assert_eq!(
        error.message,
        format!("Failed to read from {path}: status: 503")
    );
    let error = error_of(hashing().resume(BucketEvent::Sent(false)));
    assert_eq!(error.class, ErrorClass::Fatal);
    assert_eq!(error.message, "Hash channel closed unexpectedly");
    let outcome = HashOutcome::Panicked("cancelled".to_string());
    let error = error_of(awaiting().resume(BucketEvent::HashEnded(outcome)));
    assert_eq!(error.class, ErrorClass::Fatal);
    assert_eq!(
        error.message,
        format!("Hash task panicked for {path}: cancelled")
    );
    let outcome = HashOutcome::Undecodable("bad gzip".to_string());
    let error = error_of(awaiting().resume(BucketEvent::HashEnded(outcome)));
    assert_eq!(error.class, ErrorClass::Retry);
    assert_eq!(
        error.message,
        format!("Failed to decompress {path}: bad gzip")
    );
}

#[test]
fn failures_of_a_verified_write_abort_it() {
    let reading = || {
        verify_and_write_bucket(&path_of(ABC))
            .resume(BucketEvent::Opened(Ok(())))
            .resume(BucketEvent::StreamOpened(Ok(())))
    };
    let writing = || reading().resume(BucketEvent::Read(Some(Ok(b"x".to_vec()))));
    for run in [
        reading().resume(BucketEvent::Read(Some(Err(failure())))),
        writing().resume(BucketEvent::Written(Err(Error::retry("full")))),
        writing()
            .resume(BucketEvent::Written(Ok(())))
            .resume(BucketEvent::Sent(false)),
    ] {
        assert_eq!(run.step(), Some(BucketStep::Abort));
        let run = run.resume(BucketEvent::Aborted);
        assert!(run.finish().unwrap().is_err());
    }
    let run = reading()
        .resume(BucketEvent::Read(None))
        .resume(BucketEvent::HashEnded(hashed(b"abc")))
        .resume(BucketEvent::Committed(Err(Error::retry("lost"))));
    assert_eq!(error_of(run).message, "lost");
}
