//! Staged writes and transfers, on a backend kept in memory.
use std::collections::BTreeMap;
use std::path::{Path, PathBuf};
use std::time::Duration;

use stellar_archivist::config::StorageConfig;
use stellar_archivist::error::{
    Error, ErrorClass, Failure, IoError, IoErrorKind, OpendalError, OpendalErrorKind,
};
use stellar_archivist::staged::{
    FsStaging, StagedInner, StagedStep, StagedWriter, StagingPhase,
};
use stellar_archivist::storage::{Storage, WriterRequest};
use stellar_archivist::store::{OpendalStore, Service};
use stellar_archivist::transfer::{
    download_buffer, CopyRun, Event, TransferEvent, TransferStep, WriteRun,
};

const OBJ: &str = "bucket/ab/cd/ef/bucket-test.xdr.gz";

fn config(atomic_file_writes: bool) -> StorageConfig {
    StorageConfig::new(
        3,
        Duration::from_millis(100),
        Duration::from_secs(30),
        64,
        Duration::from_secs(30),
        Duration::from_secs(300),
        0,
        atomic_file_writes,
    )
}

fn mock_object_store() -> OpendalStore {
    OpendalStore::from_operator(
        Service::Fs {
            root: "/root".to_string(),
            atomic_write_dir: Some("/root".to_string()),
        },
        OpendalStore::apply_layers(&config(false)),
        "",
        None,
        true,
        true,
    )
}

fn plain_fs_store() -> OpendalStore {
    OpendalStore::filesystem(&PathBuf::from("/root"), &config(false))
}

fn atomic_fs_store() -> OpendalStore {
    OpendalStore::filesystem(&PathBuf::from("/root"), &config(true))
}

fn io_failure() -> IoError {
    IoError {
        kind: IoErrorKind::PermissionDenied,
        text: "denied".to_string(),
    }
}

fn opendal_failure() -> OpendalError {
    OpendalError {
        kind: OpendalErrorKind::Unexpected,
        text: "status: 503".to_string(),
    }
}

fn final_path() -> PathBuf {
    Path::new("/root").join(OBJ)
}

/// Files and uploads by path, and the step that fails.
#[derive(Default)]
struct Backend {
    files: BTreeMap<PathBuf, Vec<u8>>,
    upload: Option<Vec<u8>>,
    failing: Option<StagedStep>,
}

impl Backend {
    fn failing_at(step: StagedStep) -> Self {
        Backend {
            failing: Some(step),
            ..Backend::default()
        }
    }

    fn stage(&mut self, mut staging: FsStaging) -> Result<StagedWriter, Error> {
        while let Some(step) = staging.step() {
            let outcome = if self.failing == Some(step) {
                Err(io_failure())
            } else {
                if step == StagedStep::CreateFile {
                    self.files.insert(staging.tmp_path.clone(), Vec::new());
                }
                Ok(())
            };
            staging = staging.resume(outcome);
        }
        staging.finish().unwrap()
    }

    fn open(&mut self, store: &OpendalStore) -> Result<StagedWriter, Error> {
        self.open_object(store, OBJ)
    }

    fn open_object(&mut self, store: &OpendalStore, object: &str) -> Result<StagedWriter, Error> {
        match store.open_staged_writer(object)? {
            WriterRequest::Upload(upload) => {
                self.upload = Some(Vec::new());
                upload.answer(Ok(()))
            }
            WriterRequest::Stage(staging) => self.stage(staging),
        }
    }

    fn write(&mut self, writer: &mut StagedWriter, chunk: &[u8]) -> Result<(), Error> {
        match &writer.inner {
            StagedInner::AtomicOnClose => self.upload.as_mut().unwrap().extend_from_slice(chunk),
            StagedInner::FsStaged { tmp_path, .. } => {
                self.files.get_mut(tmp_path).unwrap().extend_from_slice(chunk)
            }
        }
        writer.write(chunk, Ok(()))
    }

    fn perform(&mut self, writer: &StagedWriter, step: StagedStep) -> Result<(), Failure> {
        if self.failing == Some(step) {
            return Err(match &writer.inner {
                StagedInner::AtomicOnClose => Failure::Backend(opendal_failure()),
                StagedInner::FsStaged { .. } => Failure::File(io_failure()),
            });
        }
        match (&writer.inner, step) {
            (StagedInner::AtomicOnClose, StagedStep::CloseUpload) => {
                let data = self.upload.take().unwrap();
                let key = writer.object.trim_start_matches('/');
                self.files.insert(Path::new("/root").join(key), data);
            }
            (StagedInner::AtomicOnClose, StagedStep::AbortUpload) => self.upload = None,
            (StagedInner::FsStaged { .. }, StagedStep::FlushFile) => {}
            (StagedInner::FsStaged { tmp_path, final_path }, StagedStep::RenameFile) => {
                let data = self.files.remove(tmp_path).unwrap();
                self.files.insert(final_path.clone(), data);
            }
            (StagedInner::FsStaged { tmp_path, .. }, StagedStep::RemoveFile) => {
                self.files.remove(tmp_path);
            }
            (_, step) => panic!("unexpected step {step:?}"),
        }
        Ok(())
    }

    fn commit(&mut self, writer: StagedWriter) -> Result<u64, Error> {
        let mut run = writer.commit();
        while let Some(step) = run.step() {
            let outcome = self.perform(&run.writer, step);
            run = run.resume(outcome);
        }
        run.finish().unwrap()
    }

    fn abort(&mut self, writer: StagedWriter) {
        let copy = StagedWriter {
            inner: match &writer.inner {
                StagedInner::AtomicOnClose => StagedInner::AtomicOnClose,
                StagedInner::FsStaged { tmp_path, final_path } => StagedInner::FsStaged {
                    tmp_path: tmp_path.clone(),
                    final_path: final_path.clone(),
                },
            },
            object: writer.object.clone(),
            bytes_written: writer.bytes_written,
        };
        let step = writer.abort();
        let _ = self.perform(&copy, step);
    }

    fn visible(&self) -> Option<&Vec<u8>> {
        self.files.get(&final_path())
    }

    /// What is stored under a key, in chunks of at most four bytes.
    fn read(&self, key: &str) -> Result<Vec<Vec<u8>>, OpendalError> {
        match self.files.get(&Path::new("/root").join(key)) {
            Some(data) => Ok(data.chunks(4).map(<[u8]>::to_vec).collect()),
            None => Err(OpendalError {
                kind: OpendalErrorKind::NotFound,
                text: "no such key".to_string(),
            }),
        }
    }

    fn object_exists(&self, store: &OpendalStore, object: &str) -> bool {
        let request = store.object_exists(object);
        let length = self.read(&request.key).map(|chunks| chunks.concat().len() as u64);
        request.answer(length).unwrap()
    }

    fn download(&self, store: &OpendalStore, object: &str) -> Result<Vec<u8>, Error> {
        let request = store.open_reader(object);
        let mut chunks = Vec::new().into_iter();
        let mut run = download_buffer(object);
        while let Some(step) = run.step() {
            let event: Event = match step {
                TransferStep::OpenReader => {
                    let opened = self.read(&request.key).map(|read| chunks = read.into_iter());
                    TransferEvent::Opened(request.answer(opened))
                }
                TransferStep::OpenStream => TransferEvent::StreamOpened(Ok(())),
                TransferStep::ReadChunk => TransferEvent::Read(chunks.next().map(Ok)),
                step => panic!("unexpected step {step:?}"),
            };
            run = run.resume(event);
        }
        run.finish().unwrap()
    }

    fn write_run(&mut self, store: &OpendalStore, data: &[u8]) -> Result<(), Error> {
        let mut run: WriteRun = store.write(OBJ);
        let mut writer = None;
        while let Some(step) = run.step() {
            let event: Event = match step {
                TransferStep::OpenWriter => match self.open(store) {
                    Ok(opened) => {
                        writer = Some(opened);
                        TransferEvent::Opened(Ok(()))
                    }
                    Err(error) => TransferEvent::Opened(Err(error)),
                },
                TransferStep::WriteChunk => {
                    TransferEvent::Written(self.write(writer.as_mut().unwrap(), data))
                }
                TransferStep::Commit => {
                    TransferEvent::Committed(self.commit(writer.take().unwrap()))
                }
                TransferStep::Abort => {
                    self.abort(writer.take().unwrap());
                    TransferEvent::Aborted
                }
                step => panic!("unexpected step {step:?}"),
            };
            run = run.resume(event);
        }
        run.finish().unwrap()
    }

    fn copy_run(
        &mut self,
        store: &OpendalStore,
        stream: Result<Vec<Result<Vec<u8>, OpendalError>>, OpendalError>,
        failing_write: Option<usize>,
    ) -> Result<u64, Error> {
        let mut run: CopyRun = store.copy_from_reader(OBJ);
        let mut stream = Some(stream);
        let mut chunks = Vec::new().into_iter();
        let mut writer = None;
        let mut writes = 0;
        while let Some(step) = run.step() {
            let event: Event = match step {
                TransferStep::OpenWriter => match self.open(store) {
                    Ok(opened) => {
                        writer = Some(opened);
                        TransferEvent::Opened(Ok(()))
                    }
                    Err(error) => TransferEvent::Opened(Err(error)),
                },
                TransferStep::OpenStream => match stream.take().unwrap() {
                    Ok(opened) => {
                        chunks = opened.into_iter();
                        TransferEvent::StreamOpened(Ok(()))
                    }
                    Err(failure) => TransferEvent::StreamOpened(Err(failure)),
                },
                TransferStep::ReadChunk => TransferEvent::Read(chunks.next()),
                TransferStep::WriteChunk => {
                    let chunk = run.chunk().unwrap().clone();
                    let written = if failing_write == Some(writes) {
                        let failed = Err(Failure::File(io_failure()));
                        writer.as_mut().unwrap().write(&chunk, failed)
                    } else {
                        self.write(writer.as_mut().unwrap(), &chunk)
                    };
                    writes += 1;
                    TransferEvent::Written(written)
                }
                TransferStep::Commit => {
                    TransferEvent::Committed(self.commit(writer.take().unwrap()))
                }
                TransferStep::Abort => {
                    self.abort(writer.take().unwrap());
                    TransferEvent::Aborted
                }
                step => panic!("unexpected step {step:?}"),
            };
            run = run.resume(event);
        }
        assert!(writer.is_none(), "the writer was committed or aborted");
        run.finish().unwrap()
    }
}

#[test]
fn commit_makes_data_visible_on_all_writable_flavors() {
    for store_fn in [mock_object_store, plain_fs_store, atomic_fs_store] {
        let store = store_fn();
        let mut backend = Backend::default();
        let mut w = backend.open(&store).unwrap();
        backend.write(&mut w, b"hello ").unwrap();
        backend.write(&mut w, b"world").unwrap();
        assert_eq!(backend.visible(), None);
        let bytes = backend.commit(w).unwrap();
        assert_eq!(bytes, 11, "commit returns bytes written");
        assert_eq!(backend.download(&store, OBJ).unwrap(), b"hello world");
        assert!(backend.object_exists(&store, OBJ));
        assert_eq!(backend.files.len(), 1, "no stranded .tmp sibling after commit");
        assert!(backend.upload.is_none());
    }
}

#[test]
fn abort_leaves_nothing_at_final_path_on_all_writable_flavors() {
    for store_fn in [mock_object_store, plain_fs_store, atomic_fs_store] {
        let store = store_fn();
        let mut backend = Backend::default();
        let mut w = backend.open(&store).unwrap();
        backend.write(&mut w, b"partial garbage").unwrap();
        backend.abort(w);
        assert!(!backend.object_exists(&store, OBJ), "nothing visible after abort");
        assert!(backend.files.is_empty(), "abort leaves no staged data behind");
        assert!(backend.upload.is_none());
    }
}

#[test]
fn drop_without_commit_leaves_nothing_at_final_path() {
    for store_fn in [mock_object_store, plain_fs_store, atomic_fs_store] {
        let store = store_fn();
        let mut backend = Backend::default();
        {
            let mut w = backend.open(&store).unwrap();
            backend.write(&mut w, b"never committed").unwrap();
            // dropped here without commit()
        }
        assert!(!backend.object_exists(&store, OBJ));
        assert!(backend.download(&store, OBJ).is_err());
    }
}

#[test]
fn leading_slashes_name_the_same_object() {
    for store_fn in [mock_object_store, plain_fs_store, atomic_fs_store] {
        let store = store_fn();
        let spelled = format!("//{OBJ}");
        for (written, read) in [(spelled.as_str(), OBJ), (OBJ, spelled.as_str())] {
            let mut backend = Backend::default();
            let mut w = backend.open_object(&store, written).unwrap();
            backend.write(&mut w, b"data").unwrap();
            backend.commit(w).unwrap();
            assert_eq!(backend.download(&store, read).unwrap(), b"data");
            assert!(backend.object_exists(&store, read));
        }
    }
}

#[test]
fn writes_append_to_the_staged_data_alone() {
    let store = plain_fs_store();
    let mut backend = Backend::default();
    backend.files.insert(final_path(), b"old".to_vec());
    let mut w = backend.open(&store).unwrap();
    let tmp = Path::new("/root").join(format!("{OBJ}.tmp"));
    assert_ne!(tmp, final_path());
    for (chunk, staged) in [(&b"ab"[..], &b"ab"[..]), (b"", b"ab"), (b"c", b"abc")] {
        backend.write(&mut w, chunk).unwrap();
        assert_eq!(backend.files[&tmp], staged);
        assert_eq!(backend.download(&store, OBJ).unwrap(), b"old");
    }
    assert!(w.write(b"d", Err(Failure::File(io_failure()))).is_err());
    assert_eq!(w.bytes_written, 4);
    assert_eq!(backend.download(&store, OBJ).unwrap(), b"old");
}

#[test]
fn failed_commits_leave_the_final_path_unchanged() {
    let cases = [
        (StagedStep::FlushFile, "Failed to flush /root/OBJ.tmp: denied"),
        (
            StagedStep::RenameFile,
            "Failed to rename /root/OBJ.tmp to /root/OBJ: denied",
        ),
    ];
    for (step, message) in cases {
        let mut backend = Backend::failing_at(step);
        backend.files.insert(final_path(), b"old".to_vec());
        let mut w = backend.open(&plain_fs_store()).unwrap();
        backend.write(&mut w, b"new").unwrap();
        let error = backend.commit(w).unwrap_err();
        assert_eq!(error.class, ErrorClass::Fatal);
        assert_eq!(error.message, message.replace("OBJ", OBJ));
        assert_eq!(backend.visible().unwrap(), b"old");
        assert_eq!(backend.files.len(), 1, "the staged file is removed");
    }
    let mut backend = Backend::failing_at(StagedStep::CloseUpload);
    backend.files.insert(final_path(), b"old".to_vec());
    let mut w = backend.open(&mock_object_store()).unwrap();
    backend.write(&mut w, b"new").unwrap();
    let error = backend.commit(w).unwrap_err();
    assert_eq!(error.class, ErrorClass::Retry);
    assert_eq!(
        error.message,
        format!("Failed to close writer for {OBJ}: status: 503")
    );
    assert_eq!(backend.visible().unwrap(), b"old");
    assert!(backend.upload.is_none(), "the upload is discarded");
}

#[test]
fn failed_writes_say_where() {
    let mut atomic = StagedWriter::atomic_on_close("x");
    let error = atomic
        .write(b"abc", Err(Failure::Backend(opendal_failure())))
        .unwrap_err();
    assert_eq!(error.message, "Failed to write data to x: status: 503");
    assert_eq!(atomic.bytes_written, 3);
    let staging = StagedWriter::fs_staged(&PathBuf::from("/root"), "x");
    let mut staged = Backend::default().stage(staging).unwrap();
    let error = staged
        .write(b"abc", Err(Failure::File(io_failure())))
        .unwrap_err();
    assert_eq!(error.message, "Failed to write to /root/x.tmp: denied");
}

#[test]
fn staging_needs_a_directory_and_a_file() {
    let error = Backend::failing_at(StagedStep::CreateDirectory)
        .open(&plain_fs_store())
        .unwrap_err();
    assert_eq!(
        error.message,
        "Failed to create directory /root/bucket/ab/cd/ef: denied"
    );
    let error = Backend::failing_at(StagedStep::CreateFile)
        .open(&plain_fs_store())
        .unwrap_err();
    assert_eq!(
        error.message,
        format!("Failed to create temp file /root/{OBJ}.tmp: denied")
    );
    assert_eq!(error.class, ErrorClass::Fatal);
    let upload = match mock_object_store().open_staged_writer(OBJ).unwrap() {
        WriterRequest::Upload(upload) => upload,
        other => panic!("not an upload: {other:?}"),
    };
    let error = upload.answer(Err(opendal_failure())).unwrap_err();
    assert_eq!(
        error.message,
        format!("Failed to open writer for {OBJ}: status: 503")
    );
}

#[test]
fn outcomes_after_the_end_change_nothing() {
    let mut backend = Backend::default();
    let mut w = backend.open(&plain_fs_store()).unwrap();
    backend.write(&mut w, b"abc").unwrap();
    let mut run = w.commit();
    while let Some(step) = run.step() {
        let outcome = backend.perform(&run.writer, step);
        run = run.resume(outcome);
    }
    let run = run.resume(Err(Failure::File(io_failure())));
    assert_eq!(run.finish().unwrap().unwrap(), 3);
}

#[test]
fn paths_of_staged_files() {
    let cases = [
        ("/root", "a.xdr.gz", "/root/a.xdr.gz", "/root/a.xdr.gz.tmp", Some("/root")),
        ("/root/", "/a/b", "/root/a/b", "/root/a/b.tmp", Some("/root/a")),
        ("", "a", "a", "a.tmp", Some("")),
        ("/", "//a", "/a", "/a.tmp", Some("/")),
        ("/root", "a/", "/root/a/", "/root/a.tmp", Some("/root")),
        ("/root", "..", "/root/..", "/root/..", Some("/root")),
        ("/", "", "/", "/", None),
    ];
    for (root, object, final_path, tmp_path, parent) in cases {
        let staging = StagedWriter::fs_staged(&PathBuf::from(root), object);
        assert_eq!(staging.final_path, Path::new(final_path));
        assert_eq!(staging.tmp_path, Path::new(tmp_path));
        assert_eq!(staging.object, object);
        match (&staging.phase, parent) {
            (StagingPhase::CreatingDirectory(found), Some(parent)) => {
                assert_eq!(found, Path::new(parent))
            }
            (StagingPhase::CreatingFile, None) => {}
            other => panic!("{root} {object}: {other:?}"),
        }
    }
    let path = |text: &str| PathBuf::from(text);
    let staging = StagedWriter::fs_staged_at(path("t"), path("f"), None, "o");
    assert_eq!(staging.step(), Some(StagedStep::CreateFile));
    let staging = StagedWriter::fs_staged_at(path("t"), path("f"), Some(path("d")), "o");
    assert_eq!(staging.step(), Some(StagedStep::CreateDirectory));
}

#[test]
fn writes_deliver_all_or_nothing() {
    for store_fn in [mock_object_store, plain_fs_store, atomic_fs_store] {
        let mut backend = Backend::default();
        backend.write_run(&store_fn(), b"whole buffer").unwrap();
        assert_eq!(backend.visible().unwrap(), b"whole buffer");
    }
    let mut backend = Backend::failing_at(StagedStep::RenameFile);
    let error = backend.write_run(&plain_fs_store(), b"lost").unwrap_err();
    assert_eq!(error.class, ErrorClass::Fatal);
    assert!(backend.files.is_empty());
    let read_only = OpendalStore::http("http://example.org", &config(false)).unwrap();
    let error = Backend::default().write_run(&read_only, b"x").unwrap_err();
    assert_eq!(error.message, "Write not supported by this backend");
}

#[test]
fn a_failed_write_of_a_buffer_is_aborted() {
    let run = WriteRun::start("x");
    let run = run.resume(TransferEvent::Opened(Ok(())));
    let run = run.resume(TransferEvent::Written(Err(Error::retry("full"))));
    assert_eq!(run.step(), Some(TransferStep::Abort));
    // An event that answers another step changes nothing.
    let run = run.resume(TransferEvent::Written(Ok(())));
    assert_eq!(run.step(), Some(TransferStep::Abort));
    let run = run.resume(TransferEvent::Aborted);
    assert_eq!(run.step(), None);
    assert_eq!(run.finish().unwrap().unwrap_err().message, "full");
}

#[test]
fn copies_deliver_all_or_nothing() {
    let chunks = || vec![Ok(b"one ".to_vec()), Ok(b"two ".to_vec()), Ok(b"three".to_vec())];
    for store_fn in [mock_object_store, plain_fs_store, atomic_fs_store] {
        let store = store_fn();
        let mut backend = Backend::default();
        assert_eq!(backend.copy_run(&store, Ok(chunks()), None).unwrap(), 13);
        assert_eq!(backend.visible().unwrap(), b"one two three");

        let mut backend = Backend::default();
        let mut broken = chunks();
        broken[1] = Err(opendal_failure());
        let error = backend.copy_run(&store, Ok(broken), None).unwrap_err();
        assert_eq!(error.class, ErrorClass::Retry);
        assert_eq!(
            error.message,
            format!("Failed to read data for {OBJ}: status: 503")
        );
        assert!(backend.files.is_empty() && backend.upload.is_none());

        let mut backend = Backend::default();
        let error = backend
            .copy_run(&store, Err(opendal_failure()), None)
            .unwrap_err();
        assert_eq!(
            error.message,
            format!("Failed to create stream for {OBJ}: status: 503")
        );
        assert!(backend.files.is_empty() && backend.upload.is_none());

        let mut backend = Backend::default();
        let error = backend
            .copy_run(&store, Ok(chunks()), Some(2))
            .unwrap_err();
        assert!(error.message.ends_with(": denied"));
        assert!(backend.files.is_empty() && backend.upload.is_none());
    }
}

#[test]
fn downloads_collect_the_chunks() {
    let opened = || {
        let run = download_buffer("a/b");
        assert_eq!(run.path, "a/b");
        assert_eq!(run.step(), Some(TransferStep::OpenReader));
        let run = run.resume(TransferEvent::Opened(Ok(())));
        assert_eq!(run.step(), Some(TransferStep::OpenStream));
        run
    };
    let run = opened().resume(TransferEvent::StreamOpened(Ok(())));
    let run = run.resume(TransferEvent::Read(Some(Ok(b"ab".to_vec()))));
    let run = run.resume(TransferEvent::Read(Some(Ok(Vec::new()))));
    let run = run.resume(TransferEvent::Read(Some(Ok(b"c".to_vec()))));
    assert_eq!(run.step(), Some(TransferStep::ReadChunk));
    let run = run.resume(TransferEvent::Read(None));
    assert_eq!(run.finish().unwrap().unwrap(), b"abc");

    let run = opened().resume(TransferEvent::StreamOpened(Err(opendal_failure())));
    let error = run.finish().unwrap().unwrap_err();
    assert_eq!(error.message, "Stream error: status: 503");
    let run = opened().resume(TransferEvent::StreamOpened(Ok(())));
    let run = run.resume(TransferEvent::Read(Some(Ok(b"ab".to_vec()))));
    let run = run.resume(TransferEvent::Read(Some(Err(opendal_failure()))));
    let error = run.finish().unwrap().unwrap_err();
    assert_eq!(error.message, "Read error: status: 503");
    let run = download_buffer("x").resume(TransferEvent::Opened(Err(Error::not_found())));
    assert_eq!(
        run.finish().unwrap().unwrap_err().class,
        ErrorClass::NotFound
    );
    assert!(download_buffer("x").finish().is_none());
}
