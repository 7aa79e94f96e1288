//! What the mathematical counterparts of values show of them: each part as it is.
use std::collections::BTreeMap;

use vstd::prelude::*;

use crate::error::{
    outcome_view, result_view, Error, ErrorView, Failure, FailureView, IoError, OpendalError,
    OpendalErrorView,
};
use crate::factory::Environment;
use crate::staged::{
    io_outcome_view, CommitPhase, CommitRun, FsStaging, StagedWriter, StagingPhase,
};
use crate::storage::{
    length_view, request_view, writer_view, UploadRequest, WriterRequest,
};
use crate::store::{opt_view, store_result, unit_view, OpendalStore, Service};
use crate::transfer::{
    data_view, read_view, stream_view, CopyPhase, CopyRun, DownloadPhase, DownloadRun,
    TransferEvent, WritePhase, WriteRun,
};
use crate::url::{opt_chars, path_result, UrlParts};
use crate::verify::{BucketEvent, BucketPhase, BucketRun, HashOutcome};
use crate::xdr_verify::{
    errors_view, opt_copy, recorded_view, Hash256, LedgerHeaderVerificationData, VerificationError,
};

verus! {

/// A text that is there is shown, one that is not is not.
pub proof fn law_optional_texts_are_shown(text: String, slice: &str)
    ensures
        opt_chars(Some(text)) == Some(text@),
        opt_chars(None) is None,
        opt_view(Some(slice)) == Some(slice@),
        opt_view(None) is None,
{
}

/// Results are shown as they are, their errors by class and message.
pub proof fn law_results_are_shown(
    error: Error,
    size: u64,
    flag: bool,
    data: Vec<u8>,
    text: String,
    path: std::path::PathBuf,
    store: OpendalStore,
    writer: StagedWriter,
)
    ensures
        error@.class == error.class,
        error@.message == error.message@,
        result_view(Ok::<u64, Error>(size)) == Ok::<u64, ErrorView>(size),
        result_view(Ok::<bool, Error>(flag)) == Ok::<bool, ErrorView>(flag),
        result_view(Ok::<(), Error>(())) == Ok::<(), ErrorView>(()),
        result_view(Err::<u64, Error>(error)) == Err::<u64, ErrorView>(error@),
        result_view(Err::<bool, Error>(error)) == Err::<bool, ErrorView>(error@),
        result_view(Err::<(), Error>(error)) == Err::<(), ErrorView>(error@),
        data_view(Ok(data)) == Ok::<Seq<u8>, ErrorView>(data@),
        data_view(Err(error)) == Err::<Seq<u8>, ErrorView>(error@),
        unit_view(Ok(())) == Ok::<(), Seq<char>>(()),
        unit_view(Err(text)) == Err::<(), Seq<char>>(text@),
        path_result(Ok(path)) == Ok::<std::path::PathBuf, ErrorView>(path),
        path_result(Err(error)) == Err::<std::path::PathBuf, ErrorView>(error@),
        store_result(Ok(store)) == Ok::<crate::store::StoreView, ErrorView>(store@),
        store_result(Err(error)) == Err::<crate::store::StoreView, ErrorView>(error@),
        writer_view(Ok(writer)) == Ok::<crate::staged::StagedView, ErrorView>(writer@),
        writer_view(Err(error)) == Err::<crate::staged::StagedView, ErrorView>(error@),
{
}

/// What was reported of a failure is shown: its kind and its text.
pub proof fn law_failures_are_shown(backend: OpendalError, file: IoError, size: u64)
    ensures
        backend@.kind == backend.kind && backend@.text == backend.text@,
        file@.kind == file.kind && file@.text == file.text@,
        Failure::Backend(backend)@ == FailureView::Backend(backend@),
        Failure::File(file)@ == FailureView::File(file@),
        outcome_view(Ok(())) == Ok::<(), FailureView>(()),
        outcome_view(Err(Failure::Backend(backend))) == Err::<(), FailureView>(
            FailureView::Backend(backend@),
        ),
        outcome_view(Err(Failure::File(file))) == Err::<(), FailureView>(FailureView::File(file@)),
        io_outcome_view(Ok(())) is Ok,
        io_outcome_view(Err(file)) == Err::<(), crate::error::IoErrorView>(file@),
        stream_view(Ok(())) is Ok,
        stream_view(Err(backend)) == Err::<(), OpendalErrorView>(backend@),
        length_view(Ok(size)) == Ok::<u64, OpendalErrorView>(size),
        length_view(Err(backend)) == Err::<u64, OpendalErrorView>(backend@),
{
}

/// What reading a chunk gave is shown.
pub proof fn law_reads_are_shown(chunk: Vec<u8>, failure: OpendalError)
    ensures
        read_view(None) is None,
        read_view(Some(Ok(chunk))) == Some(Ok::<Seq<u8>, OpendalErrorView>(chunk@)),
        read_view(Some(Err(failure))) == Some(Err::<Seq<u8>, OpendalErrorView>(failure@)),
{
}

/// The parts of a URL are shown.
pub proof fn law_urls_are_shown(url: UrlParts<String>)
    ensures
        url@.scheme == url.scheme@,
        url@.host == opt_chars(url.host),
        url@.port == url.port,
        url@.path == url.path@,
        url@.username == url.username@,
{
}

/// The variables of the environment are shown, each under its own name.
pub proof fn law_environments_are_shown(env: Environment<String>)
    ensures
        env@.aws_region == opt_chars(env.aws_region),
        env@.s3_endpoint == opt_chars(env.s3_endpoint),
        env@.aws_access_key_id == opt_chars(env.aws_access_key_id),
        env@.aws_secret_access_key == opt_chars(env.aws_secret_access_key),
        env@.google_application_credentials == opt_chars(env.google_application_credentials),
        env@.azure_storage_account == opt_chars(env.azure_storage_account),
        env@.azure_storage_key == opt_chars(env.azure_storage_key),
        env@.azure_storage_endpoint == opt_chars(env.azure_storage_endpoint),
        env@.b2_bucket_id == opt_chars(env.b2_bucket_id),
        env@.b2_application_key_id == opt_chars(env.b2_application_key_id),
        env@.b2_application_key == opt_chars(env.b2_application_key),
        env@.swift_endpoint == opt_chars(env.swift_endpoint),
        env@.swift_token == opt_chars(env.swift_token),
        env@.sftp_user == opt_chars(env.sftp_user),
        env@.sftp_key == opt_chars(env.sftp_key),
{
}

/// The settings of a service are shown, each under its own name.
pub proof fn law_services_are_shown(service: Service<String>)
    ensures
        match service {
            Service::Fs { root, atomic_write_dir } => service@ matches Service::Fs {
                root: r,
                atomic_write_dir: d,
            } && r == root@ && d == opt_chars(atomic_write_dir),
            Service::Http { endpoint, root } => service@ matches Service::Http {
                endpoint: e,
                root: r,
            } && e == endpoint@ && r == root@,
            Service::S3 { bucket, region, endpoint, access_key_id, secret_access_key } =>
                service@ matches Service::S3 {
                bucket: b,
                region: r,
                endpoint: e,
                access_key_id: id,
                secret_access_key: secret,
            } && b == bucket@ && r == opt_chars(region) && e == opt_chars(endpoint) && id
                == opt_chars(access_key_id) && secret == opt_chars(secret_access_key),
            Service::Gcs { bucket, credential, credential_path } => service@ matches Service::Gcs {
                bucket: b,
                credential: c,
                credential_path: p,
            } && b == bucket@ && c == opt_chars(credential) && p == opt_chars(credential_path),
            Service::Azblob { container, account_name, account_key, endpoint } =>
                service@ matches Service::Azblob {
                container: c,
                account_name: n,
                account_key: k,
                endpoint: e,
            } && c == container@ && n == opt_chars(account_name) && k == opt_chars(account_key)
                && e == opt_chars(endpoint),
            Service::B2 { bucket, bucket_id, application_key_id, application_key } =>
                service@ matches Service::B2 {
                bucket: b,
                bucket_id: i,
                application_key_id: id,
                application_key: k,
            } && b == bucket@ && i == bucket_id@ && id == application_key_id@ && k
                == application_key@,
            Service::Sftp { endpoint, user, key, root } => service@ matches Service::Sftp {
                endpoint: e,
                user: u,
                key: k,
                root: r,
            } && e == endpoint@ && u == opt_chars(user) && k == opt_chars(key) && r == opt_chars(
                root,
            ),
            Service::Swift { container, endpoint, token } => service@ matches Service::Swift {
                container: c,
                endpoint: e,
                token: t,
            } && c == container@ && e == endpoint@ && t == opt_chars(token),
        },
{
}

/// The parts of a store are shown.
pub proof fn law_stores_are_shown(store: OpendalStore)
    ensures
        store@.service == store.service@,
        store@.layers == store.layers,
        store@.prefix == store.prefix@,
        store@.root_path == store.root_path,
        store@.writable == store.writable,
        store@.atomic_writes == store.atomic_writes,
{
}

/// The parts of a request for a writer are shown.
pub proof fn law_requests_are_shown(upload: UploadRequest, staging: FsStaging, error: Error)
    ensures
        upload@.key == upload.key@,
        upload@.chunk_size == upload.chunk_size,
        upload@.object == upload.object@,
        WriterRequest::<UploadRequest, FsStaging>::Upload(upload)@ == WriterRequest::<
            crate::storage::UploadView,
            crate::staged::StagingView,
        >::Upload(upload@),
        WriterRequest::<UploadRequest, FsStaging>::Stage(staging)@ == WriterRequest::<
            crate::storage::UploadView,
            crate::staged::StagingView,
        >::Stage(staging@),
        request_view(Ok(WriterRequest::Stage(staging))) matches Ok(request) && request
            == WriterRequest::<
            crate::storage::UploadView,
            crate::staged::StagingView,
        >::Stage(staging@),
        request_view(Ok(WriterRequest::Upload(upload))) matches Ok(request) && request
            == WriterRequest::<
            crate::storage::UploadView,
            crate::staged::StagingView,
        >::Upload(upload@),
        request_view(Err(error)) matches Err(shown) && shown == error@,
{
}

/// The parts of a staged writer, of its opening and of its commit are shown.
pub proof fn law_staged_writes_are_shown(
    writer: StagedWriter,
    staging: FsStaging,
    commit: CommitRun,
)
    ensures
        writer@.inner == writer.inner,
        writer@.object == writer.object@,
        writer@.bytes_written == writer.bytes_written,
        staging@.tmp_path == staging.tmp_path,
        staging@.final_path == staging.final_path,
        staging@.object == staging.object@,
        match staging.phase {
            StagingPhase::CreatingDirectory(parent) => staging@.phase
                matches StagingPhase::CreatingDirectory(shown) && shown == parent,
            StagingPhase::CreatingFile => staging@.phase is CreatingFile,
            StagingPhase::Failed(error) => staging@.phase matches StagingPhase::Failed(shown)
                && shown == error@,
            StagingPhase::Staged => staging@.phase is Staged,
        },
        commit@.writer == commit.writer@,
        match commit.phase {
            CommitPhase::Closing => commit@.phase is Closing,
            CommitPhase::Discarding(error) => commit@.phase matches CommitPhase::Discarding(shown)
                && shown == error@,
            CommitPhase::Flushing => commit@.phase is Flushing,
            CommitPhase::Renaming => commit@.phase is Renaming,
            CommitPhase::Removing(error) => commit@.phase matches CommitPhase::Removing(shown)
                && shown == error@,
            CommitPhase::Finished(Ok(count)) => commit@.phase matches CommitPhase::Finished(
                Ok(shown),
            ) && shown == count,
            CommitPhase::Finished(Err(error)) => commit@.phase matches CommitPhase::Finished(
                Err(shown),
            ) && shown == error@,
        },
{
}

/// The parts of transfers are shown.
pub proof fn law_transfers_are_shown(write: WriteRun, copy: CopyRun, download: DownloadRun)
    ensures
        write@.object == write.object@,
        match write.phase {
            WritePhase::Opening => write@.phase is Opening,
            WritePhase::Writing => write@.phase is Writing,
            WritePhase::Committing => write@.phase is Committing,
            WritePhase::Aborting(error) => write@.phase matches WritePhase::Aborting(shown)
                && shown == error@,
            WritePhase::Finished(Ok(_)) => write@.phase matches WritePhase::Finished(Ok(_)),
            WritePhase::Finished(Err(error)) => write@.phase matches WritePhase::Finished(
                Err(shown),
            ) && shown == error@,
        },
        copy@.object == copy.object@,
        match copy.phase {
            CopyPhase::Opening => copy@.phase is Opening,
            CopyPhase::OpeningStream => copy@.phase is OpeningStream,
            CopyPhase::Reading => copy@.phase is Reading,
            CopyPhase::Writing(chunk) => copy@.phase matches CopyPhase::Writing(shown) && shown
                == chunk@,
            CopyPhase::Committing => copy@.phase is Committing,
            CopyPhase::Aborting(error) => copy@.phase matches CopyPhase::Aborting(shown) && shown
                == error@,
            CopyPhase::Finished(Ok(count)) => copy@.phase matches CopyPhase::Finished(Ok(shown))
                && shown == count,
            CopyPhase::Finished(Err(error)) => copy@.phase matches CopyPhase::Finished(Err(shown))
                && shown == error@,
        },
        download@.path == download.path@,
        match download.phase {
            DownloadPhase::Opening => download@.phase is Opening,
            DownloadPhase::OpeningStream => download@.phase is OpeningStream,
            DownloadPhase::Reading(data) => download@.phase matches DownloadPhase::Reading(shown)
                && shown == data@,
            DownloadPhase::Finished(Ok(data)) => download@.phase matches DownloadPhase::Finished(
                Ok(shown),
            ) && shown == data@,
            DownloadPhase::Finished(Err(error)) => download@.phase
                matches DownloadPhase::Finished(Err(shown)) && shown == error@,
        },
{
}

/// The answers to the steps of a transfer are shown.
pub proof fn law_transfer_events_are_shown(event: crate::transfer::Event)
    ensures
        match event {
            TransferEvent::Opened(opened) => event@ matches TransferEvent::Opened(shown) && shown
                == result_view(opened),
            TransferEvent::StreamOpened(opened) => event@ matches TransferEvent::StreamOpened(
                shown,
            ) && shown == stream_view(opened),
            TransferEvent::Read(read) => event@ matches TransferEvent::Read(shown) && shown
                == read_view(read),
            TransferEvent::Written(written) => event@ matches TransferEvent::Written(shown)
                && shown == result_view(written),
            TransferEvent::Committed(count) => event@ matches TransferEvent::Committed(shown)
                && shown == result_view(count),
            TransferEvent::Aborted => event@ is Aborted,
        },
{
}

/// The answers to the steps of a verification are shown.
pub proof fn law_bucket_events_are_shown(event: crate::verify::Event, outcome: HashOutcome<String>)
    ensures
        match event {
            BucketEvent::Opened(opened) => event@ matches BucketEvent::Opened(shown) && shown
                == result_view(opened),
            BucketEvent::StreamOpened(opened) => event@ matches BucketEvent::StreamOpened(shown)
                && shown == stream_view(opened),
            BucketEvent::Read(read) => event@ matches BucketEvent::Read(shown) && shown
                == read_view(read),
            BucketEvent::Written(written) => event@ matches BucketEvent::Written(shown) && shown
                == result_view(written),
            BucketEvent::Sent(sent) => event@ matches BucketEvent::Sent(shown) && shown == sent,
            BucketEvent::HashEnded(ended) => event@ matches BucketEvent::HashEnded(shown) && shown
                == ended@,
            BucketEvent::Committed(count) => event@ matches BucketEvent::Committed(shown) && shown
                == result_view(count),
            BucketEvent::Aborted => event@ is Aborted,
        },
        match outcome {
            HashOutcome::Hashed { hash, decompressed_bytes } => outcome@
                matches HashOutcome::Hashed { hash: h, decompressed_bytes: n } && h == hash@ && n
                == decompressed_bytes,
            HashOutcome::Undecodable(reason) => outcome@ matches HashOutcome::Undecodable(shown)
                && shown == reason@,
            HashOutcome::Panicked(reason) => outcome@ matches HashOutcome::Panicked(shown) && shown
                == reason@,
        },
{
}

/// The parts of a verification are shown.
pub proof fn law_verifications_are_shown(run: BucketRun)
    ensures
        run@.path == run.path@,
        run@.expected == opt_chars(run.expected),
        run@.staged == run.staged,
        match run.phase {
            BucketPhase::Opening => run@.phase is Opening,
            BucketPhase::OpeningStream => run@.phase is OpeningStream,
            BucketPhase::Reading => run@.phase is Reading,
            BucketPhase::Writing(chunk) => run@.phase matches BucketPhase::Writing(shown) && shown
                == chunk@,
            BucketPhase::Hashing(chunk) => run@.phase matches BucketPhase::Hashing(shown) && shown
                == chunk@,
            BucketPhase::Awaiting => run@.phase is Awaiting,
            BucketPhase::Committing(size) => run@.phase matches BucketPhase::Committing(shown)
                && shown == size,
            BucketPhase::Aborting(error) => run@.phase matches BucketPhase::Aborting(shown)
                && shown == error@,
            BucketPhase::Finished(Ok(size)) => run@.phase matches BucketPhase::Finished(Ok(shown))
                && shown == size,
            BucketPhase::Finished(Err(error)) => run@.phase matches BucketPhase::Finished(
                Err(shown),
            ) && shown == error@,
        },
{
}

/// The errors and the data of a verification of ledgers are shown.
pub proof fn law_ledger_data_is_shown(
    hash: Hash256,
    error: VerificationError,
    errors: Seq<VerificationError>,
    hashes: &BTreeMap<u32, Hash256>,
    header: &LedgerHeaderVerificationData,
    i: int,
)
    ensures
        hash@ == hash.0@,
        error@.kind == error.kind && error@.message == error.message@,
        errors_view(errors).len() == errors.len(),
        0 <= i < errors.len() ==> errors_view(errors)[i] == errors[i]@,
        recorded_view(Some(hashes)) == Some(hashes@),
        recorded_view(None) is None,
        opt_copy(Some(header)) == Some(*header),
        opt_copy(None::<&LedgerHeaderVerificationData>) is None,
{
}

} // verus!
