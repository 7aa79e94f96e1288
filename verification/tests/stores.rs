//! Stores: what they are made of, where they keep objects, and which URL gives which.
use std::path::{Path, PathBuf};
use std::time::Duration;

use stellar_archivist::config::StorageConfig;
use stellar_archivist::error::{ErrorClass, OpendalError, OpendalErrorKind};
use stellar_archivist::factory::{
    from_url_with_config, remote_store_from_url, try_from_url, Environment, Features, Host,
};
use stellar_archivist::storage::{Storage, WriterRequest, OBJECT_STORE_WRITE_CHUNK_SIZE};
use stellar_archivist::store::{OpendalStore, Service, MAX_REDIRECTS, USER_AGENT};
use stellar_archivist::url::{choose_file_path, drive_url, normalize_url, rooted, UrlParts};

fn config() -> StorageConfig {
    config_with(0, false)
}

fn config_with(bandwidth_limit: u32, atomic_file_writes: bool) -> StorageConfig {
    StorageConfig::new(
        3,
        Duration::from_millis(100),
        Duration::from_secs(30),
        64,
        Duration::from_secs(30),
        Duration::from_secs(300),
        bandwidth_limit,
        atomic_file_writes,
    )
}

fn empty_env() -> Environment<String> {
    Environment {
        aws_region: None,
        s3_endpoint: None,
        aws_access_key_id: None,
        aws_secret_access_key: None,
        google_application_credentials: None,
        azure_storage_account: None,
        azure_storage_key: None,
        azure_storage_endpoint: None,
        b2_bucket_id: None,
        b2_application_key_id: None,
        b2_application_key: None,
        swift_endpoint: None,
        swift_token: None,
        sftp_user: None,
        sftp_key: None,
    }
}

fn all_features(on: bool) -> Features {
    Features {
        s3: on,
        gcs: on,
        azblob: on,
        b2: on,
        swift: on,
        sftp: on,
    }
}

fn host() -> Host {
    Host {
        os: "linux".to_string(),
        env: empty_env(),
        features: all_features(true),
    }
}

fn error_of(url: &str, host: &Host) -> String {
    let error = from_url_with_config(url, &config(), host).unwrap_err();
    assert_eq!(error.class, ErrorClass::Fatal);
    error.message
}

#[test]
fn config_keeps_what_it_is_given() {
    let config = config_with(7, true);
    assert_eq!(config.max_retries, 3);
    assert_eq!(config.retry_min_delay, Duration::from_millis(100));
    assert_eq!(config.retry_max_delay, Duration::from_secs(30));
    assert_eq!(config.timeout, Duration::from_secs(30));
    assert_eq!(config.io_timeout, Duration::from_secs(300));
    assert_eq!(config.max_concurrent, 64);
    assert_eq!(config.bandwidth_limit, 7);
    assert!(config.atomic_file_writes);
    assert_eq!(config.clone().io_timeout, Duration::from_secs(300));
}

#[test]
fn layers_follow_the_configuration() {
    let layers = OpendalStore::apply_layers(&config());
    assert_eq!(layers.timeout, Duration::from_secs(30));
    assert_eq!(layers.io_timeout, Duration::from_secs(300));
    assert_eq!(layers.max_concurrent, 64);
    assert!(layers.http_client.is_none());
    assert!(layers.throttle.is_none());
    let client = OpendalStore::create_http_client();
    assert_eq!(client.user_agent, "stellar-archivist/0.1.0");
    assert_eq!(client.max_redirects, 10);
    let config = config_with(1000, false);
    let layers = OpendalStore::apply_layers_with_http_client(&config, Some(client));
    assert_eq!(layers.http_client.unwrap().user_agent, USER_AGENT);
    let throttle = layers.throttle.unwrap();
    assert_eq!(throttle.bandwidth, 1000);
    assert_eq!(throttle.burst, 2000);
    let largest = OpendalStore::apply_layers(&config_with(u32::MAX / 2, false));
    assert_eq!(largest.throttle.unwrap().burst, u32::MAX - 1);
    for limit in [u32::MAX / 2 + 1, u32::MAX] {
        let throttle = OpendalStore::apply_layers(&config_with(limit, false)).throttle.unwrap();
        assert_eq!(throttle.bandwidth, limit);
        assert_eq!(throttle.burst, u32::MAX);
    }
}

#[test]
fn keys_join_prefix_and_object() {
    let store = |prefix: &str| OpendalStore::s3("b", None, None, None, None, prefix, &config());
    assert_eq!(store("").object_to_key("a/b"), "a/b");
    assert_eq!(store("").object_to_key("//a/b"), "a/b");
    assert_eq!(store("").object_to_key("/"), "");
    assert_eq!(store("some/prefix").object_to_key("a/b"), "some/prefix/a/b");
    assert_eq!(store("some/prefix//").object_to_key("/a/b"), "some/prefix/a/b");
    assert_eq!(store("/").object_to_key("a"), "/a");
}

#[test]
fn mock_object_store_is_writable_with_no_base_path() {
    let store = OpendalStore::from_operator(
        Service::Fs {
            root: "/tmp/mock".to_string(),
            atomic_write_dir: Some("/tmp/mock".to_string()),
        },
        OpendalStore::apply_layers(&config()),
        "",
        None,
        true,
        true,
    );
    assert!(store.supports_writes());
    assert!(store.get_base_path().is_none());
}

#[test]
fn s3_store_is_writable_with_no_base_path() {
    let store = OpendalStore::s3(
        "test-bucket",
        Some("us-east-1"),
        Some("http://127.0.0.1:9"), // never contacted; construction only
        Some("test-access-key"),
        Some("test-secret-key"),
        "some/prefix",
        &config(),
    );
    assert!(store.supports_writes());
    assert!(store.get_base_path().is_none());
    match &store.service {
        Service::S3 {
            bucket,
            region,
            endpoint,
            access_key_id,
            secret_access_key,
        } => {
            assert_eq!(bucket, "test-bucket");
            assert_eq!(region.as_deref(), Some("us-east-1"));
            assert_eq!(endpoint.as_deref(), Some("http://127.0.0.1:9"));
            assert_eq!(access_key_id.as_deref(), Some("test-access-key"));
            assert_eq!(secret_access_key.as_deref(), Some("test-secret-key"));
        }
        other => panic!("not S3: {other:?}"),
    }
}

#[test]
fn filesystem_roots_are_normalized() {
    let store = OpendalStore::filesystem(&PathBuf::from("/srv//archive/../data/./"), &config());
    assert_eq!(store.get_base_path(), Some(&PathBuf::from("/srv/data")));
    assert!(store.supports_writes());
    assert!(!store.atomic_writes);
    assert!(matches!(
        &store.service,
        Service::Fs { root, atomic_write_dir: None } if root == "/srv/data"
    ));
    let store = OpendalStore::filesystem(&PathBuf::from("/srv/data"), &config_with(0, true));
    assert!(store.atomic_writes);
    assert!(matches!(
        &store.service,
        Service::Fs { root, atomic_write_dir: Some(dir) } if root == dir && root == "/srv/data"
    ));
    assert_eq!(
        OpendalStore::filesystem(&PathBuf::from("."), &config()).get_base_path(),
        Some(&PathBuf::from("."))
    );
}

#[test]
fn http_urls_split_into_endpoint_and_root() {
    let store = OpendalStore::http("https://history.stellar.org:8443/prd/core-live", &config());
    let store = store.unwrap();
    assert!(matches!(
        &store.service,
        Service::Http { endpoint, root }
            if endpoint == "https://history.stellar.org:8443" && root == "/prd/core-live"
    ));
    let client = store.layers.http_client.unwrap();
    assert_eq!(client.user_agent, USER_AGENT);
    assert_eq!(client.max_redirects, MAX_REDIRECTS);
    assert!(!store.supports_writes());
    let store = OpendalStore::http("http://example.org:80", &config()).unwrap();
    assert!(matches!(
        &store.service,
        Service::Http { endpoint, root } if endpoint == "http://example.org" && root == "/"
    ));
    let parsed = UrlParts {
        scheme: "https".to_string(),
        host: None,
        port: Some(8080),
        path: "/p".to_string(),
        username: String::new(),
    };
    assert!(matches!(
        &OpendalStore::http_at(parsed, &config()).service,
        Service::Http { endpoint, root } if endpoint == "https://:8080" && root == "/p"
    ));
    let error = OpendalStore::http("not a url", &config()).unwrap_err();
    assert_eq!(error.class, ErrorClass::Fatal);
    assert!(error.message.starts_with("Invalid URL not a url: "));
}

#[test]
fn creation_failures_are_fatal() {
    let http = || OpendalStore::http("http://example.org/", &config()).unwrap();
    assert!(http().created(Ok(()), Ok(())).is_ok());
    let error = http().created(Err("no tls".to_string()), Ok(())).unwrap_err();
    assert_eq!(error.message, "Failed to create HTTP client: no tls");
    let error = http().created(Ok(()), Err("bad".to_string())).unwrap_err();
    assert_eq!(error.message, "Failed to create operator: bad");
    assert_eq!(error.class, ErrorClass::Fatal);
    let fs = OpendalStore::filesystem(&PathBuf::from("/srv"), &config());
    assert!(fs.created(Err("unused".to_string()), Ok(())).is_ok());
}

#[test]
fn read_only_backend_rejects_staged_writer() {
    let store = from_url_with_config("https://example.org/archive", &config(), &host()).unwrap();
    let Err(err) = store.open_staged_writer("bucket/ab/cd/ef/bucket-test.xdr.gz") else {
        panic!("HTTP must reject writes");
    };
    assert!(err.message.contains("not supported"), "got: {}", err.message);
    assert_eq!(err.message, "Write not supported by this backend");
    assert_eq!(err.class, ErrorClass::Fatal);
}

#[test]
fn staged_writers_fit_their_backend() {
    let s3 = OpendalStore::s3("b", None, None, None, None, "p", &config());
    match s3.open_staged_writer("/x/y").unwrap() {
        WriterRequest::Upload(upload) => {
            assert_eq!(upload.key, "p/x/y");
            assert_eq!(upload.chunk_size, Some(OBJECT_STORE_WRITE_CHUNK_SIZE));
            assert_eq!(upload.object, "/x/y");
        }
        other => panic!("not an upload: {other:?}"),
    }
    assert_eq!(OBJECT_STORE_WRITE_CHUNK_SIZE, 8 * 1024 * 1024);
    let atomic = OpendalStore::filesystem(&PathBuf::from("/srv"), &config_with(0, true));
    match atomic.open_staged_writer("x").unwrap() {
        WriterRequest::Upload(upload) => assert_eq!(upload.chunk_size, None),
        other => panic!("not an upload: {other:?}"),
    }
    let plain = OpendalStore::filesystem(&PathBuf::from("/srv"), &config());
    match plain.open_staged_writer("/x/y").unwrap() {
        WriterRequest::Stage(staging) => {
            assert_eq!(staging.final_path, Path::new("/srv/x/y"));
            assert_eq!(staging.tmp_path, Path::new("/srv/x/y.tmp"));
        }
        other => panic!("not a staged file: {other:?}"),
    }
    let rootless = OpendalStore::from_operator(
        Service::Fs {
            root: "/srv".to_string(),
            atomic_write_dir: None,
        },
        OpendalStore::apply_layers(&config()),
        "",
        None,
        true,
        false,
    );
    let error = rootless.open_staged_writer("x").unwrap_err();
    assert_eq!(
        error.message,
        "Non-atomic backend without a filesystem root cannot stage writes"
    );
}

fn failed(kind: OpendalErrorKind) -> OpendalError {
    OpendalError {
        kind,
        text: "no".to_string(),
    }
}

#[test]
fn readers_and_existence() {
    let store = OpendalStore::s3("b", None, None, None, None, "p", &config());
    let request = store.open_reader("/x");
    assert_eq!(request.key, "p/x");
    assert!(request.answer(Ok(())).is_ok());
    let error = request.answer(Err(failed(OpendalErrorKind::NotFound))).unwrap_err();
    assert_eq!(error.class, ErrorClass::NotFound);
    assert_eq!(error.message, "Failed to open reader for p/x: no");

    let request = store.object_exists("/x");
    assert_eq!(request.key, "p/x");
    assert!(request.answer(Ok(1)).unwrap());
    assert!(!request.answer(Ok(0)).unwrap(), "empty objects do not count");
    assert!(!request.answer(Err(failed(OpendalErrorKind::NotFound))).unwrap());
    let error = request.answer(Err(failed(OpendalErrorKind::PermissionDenied))).unwrap_err();
    assert_eq!(error.class, ErrorClass::Fatal);
    assert_eq!(error.message, "Failed to check existence of p/x: no");
}

struct ReadOnly;

impl Storage for ReadOnly {
    fn open_reader(&self, object: &str) -> stellar_archivist::storage::ReaderRequest {
        stellar_archivist::storage::ReaderRequest {
            key: object.to_string(),
        }
    }

    fn object_exists(&self, object: &str) -> stellar_archivist::storage::ExistsRequest {
        stellar_archivist::storage::ExistsRequest {
            key: object.to_string(),
        }
    }
}

#[test]
fn backends_are_read_only_by_default() {
    assert!(!ReadOnly.supports_writes());
    assert!(ReadOnly.get_base_path().is_none());
    let error = ReadOnly.open_staged_writer("x").unwrap_err();
    assert_eq!(error.message, "Write not supported by this backend");
    assert_eq!(ReadOnly.write("x").object, "x");
    assert_eq!(ReadOnly.copy_from_reader("y").object, "y");
}

#[test]
fn file_urls_give_filesystem_stores() {
    let store = from_url_with_config("file:///srv/archive/../data", &config(), &host()).unwrap();
    assert_eq!(store.get_base_path(), Some(&PathBuf::from("/srv/data")));
    let store = from_url_with_config("file://\\srv\\data", &config(), &host()).unwrap();
    assert_eq!(store.get_base_path(), Some(&PathBuf::from("/srv/data")));
    assert_eq!(
        error_of("file://server/share", &host()),
        "Invalid file URL 'file://server/share': unable to convert to filesystem path"
    );
    assert_eq!(normalize_url("file://a\\b"), "file://a/b");
    assert_eq!(normalize_url("s3://a\\b"), "s3://a\\b");
}

#[test]
fn drive_letters_on_windows() {
    let url = UrlParts {
        scheme: "file".to_string(),
        host: Some("c".to_string()),
        port: None,
        path: "/dir".to_string(),
        username: String::new(),
    };
    let text = "file://c/dir";
    let chosen = |native: Option<&str>, with_drive: Option<&str>, os| {
        let owned = |path: Option<&str>| path.map(PathBuf::from);
        choose_file_path(&url, text, os, owned(native), owned(with_drive))
    };
    let path = |text: &str| PathBuf::from(text);
    assert_eq!(chosen(Some("C:\\n"), Some("C:\\d"), "windows").unwrap(), path("C:\\n"));
    assert_eq!(chosen(None, Some("C:\\d"), "windows").unwrap(), path("C:\\d"));
    assert_eq!(chosen(None, None, "windows").unwrap(), path("c:/dir"));
    assert_eq!(
        chosen(None, Some("C:\\d"), "linux").unwrap_err().message,
        "Invalid file URL 'file://c/dir': unable to convert to filesystem path"
    );
    assert_eq!(drive_url(&url, "windows").unwrap(), "file:///c:/dir");
    assert_eq!(drive_url(&url, "linux"), None);
    let mut long = url;
    long.host = Some("cd".to_string());
    assert_eq!(drive_url(&long, "windows"), None);
}

#[test]
fn paths_without_a_root_on_windows() {
    let parts = |server: Option<&str>, path: &str| UrlParts {
        scheme: "file".to_string(),
        host: server.map(str::to_string),
        port: None,
        path: path.to_string(),
        username: String::new(),
    };
    for path in ["/C:", "/z:", "/C%3A", "/C%3a"] {
        assert!(!rooted(&parts(None, path), "windows"), "{path}");
        assert!(!rooted(&parts(Some("localhost"), path), "windows"), "{path}");
        assert!(rooted(&parts(None, path), "linux"), "{path}");
    }
    for path in ["", "/", "/x", "/1:", "/C|", "/C%3b", "/C:/", "/C:/dir", "//x"] {
        assert!(rooted(&parts(None, path), "windows"), "{path}");
    }
    for path in ["/", "", "//x", "/\\x", "/%2fx", "/%2Fx", "/%5cx", "/%5Cx"] {
        assert!(!rooted(&parts(Some("server"), path), "windows"), "{path}");
        assert!(rooted(&parts(Some("server"), path), "linux"), "{path}");
    }
    for path in ["/share", "/share/", "/%2", "/x/%2f"] {
        assert!(rooted(&parts(Some("server"), path), "windows"), "{path}");
        assert!(rooted(&parts(Some("c"), path), "windows"), "{path}");
    }
    let mut windows = host();
    windows.os = "windows".to_string();
    for url in ["file:///C:", "file://server/", "file://c/", "file:\\\\\\C:"] {
        assert!(try_from_url(url, &config(), &windows).is_none(), "{url}");
    }
    // Elsewhere, a drive is a name like any other.
    let store = from_url_with_config("file:///C:", &config(), &host()).unwrap();
    assert_eq!(store.get_base_path(), Some(&PathBuf::from("/C:")));
    let store = try_from_url("file:///C:", &config(), &host()).unwrap().unwrap();
    assert_eq!(store.get_base_path(), Some(&PathBuf::from("/C:")));
    let error = try_from_url("file://c/", &config(), &host()).unwrap().unwrap_err();
    assert_eq!(
        error.message,
        "Invalid file URL 'file://c/': unable to convert to filesystem path"
    );
    let error = try_from_url("ftp://c/", &config(), &windows).unwrap().unwrap_err();
    assert_eq!(error.message, "Unsupported URL scheme: ftp");
}

#[test]
fn paths_keep_bytes_that_are_not_unicode() {
    let store = from_url_with_config("file:///foo/ba%80r", &config_with(0, true), &host()).unwrap();
    let base = store.get_base_path().unwrap();
    assert_eq!(base.as_os_str().as_encoded_bytes(), b"/foo/ba\x80r");
    assert!(matches!(
        &store.service,
        Service::Fs { root, atomic_write_dir: Some(dir) }
            if root == "/foo/ba\u{fffd}r" && root == dir
    ));
    let store = from_url_with_config("file:///foo/ba%80r", &config(), &host()).unwrap();
    match store.open_staged_writer("x").unwrap() {
        WriterRequest::Stage(staging) => {
            let tmp = staging.tmp_path.as_os_str().as_encoded_bytes();
            assert_eq!(tmp, b"/foo/ba\x80r/x.tmp");
        }
        other => panic!("not a staged file: {other:?}"),
    }
}

#[test]
fn any_bandwidth_limit_is_accepted() {
    for limit in [0, 1, u32::MAX / 2, u32::MAX / 2 + 1, u32::MAX] {
        let config = config_with(limit, false);
        let message = |url: &str| from_url_with_config(url, &config, &host()).unwrap_err().message;
        assert_eq!(message("ftp://example.org/archive"), "Unsupported URL scheme: ftp");
        assert_eq!(
            message("/var/archive"),
            "Failed to parse URL '/var/archive': relative URL without a base"
        );
        let store = from_url_with_config("https://example.org", &config, &host()).unwrap();
        assert_eq!(store.layers.throttle.map(|t| t.bandwidth), Some(limit).filter(|l| *l > 0));
    }
}

#[test]
fn backslashes_of_file_urls_do_not_matter() {
    let backslashes = "file:///srv\\data\\x";
    let slashes = "file:///srv/data/x";
    assert_eq!(normalize_url(backslashes), normalize_url(slashes));
    let first = from_url_with_config(backslashes, &config(), &host()).unwrap();
    let second = from_url_with_config(slashes, &config(), &host()).unwrap();
    assert_eq!(first.get_base_path(), second.get_base_path());
    assert_eq!(first.supports_writes(), second.supports_writes());
    assert_eq!(
        error_of("file://server\\share", &host()),
        "Invalid file URL 'file://server\\share': unable to convert to filesystem path"
    );
    assert_eq!(
        error_of("file://a b\\c", &host()),
        "Failed to parse URL 'file://a b\\c': invalid international domain name"
    );
}

#[test]
fn object_stores_from_urls() {
    let mut host = host();
    host.env.aws_region = Some("us-east-1".to_string());
    host.env.google_application_credentials = Some("/creds.json".to_string());
    host.env.azure_storage_account = Some("account".to_string());
    host.env.b2_bucket_id = Some("id".to_string());
    host.env.b2_application_key_id = Some("key-id".to_string());
    host.env.b2_application_key = Some("SECRET-REDACTED".to_string());
    for url in [
        "s3://bucket/some/prefix",
        "gcs://bucket/some/prefix",
        "gs://bucket/some/prefix",
        "azblob://bucket/some/prefix",
        "azure://bucket/some/prefix",
        "b2://bucket/some/prefix",
    ] {
        let store = from_url_with_config(url, &config(), &host).unwrap();
        assert!(store.supports_writes(), "{url}");
        assert!(store.atomic_writes, "{url}");
        assert!(store.get_base_path().is_none(), "{url}");
        assert_eq!(store.prefix, "some/prefix", "{url}");
    }
    let s3 = from_url_with_config("s3://bucket/p", &config(), &host).unwrap();
    assert!(matches!(
        &s3.service,
        Service::S3 { bucket, region: Some(region), endpoint: None, .. }
            if bucket == "bucket" && region == "us-east-1"
    ));
    let gcs = from_url_with_config("gs://bucket", &config(), &host).unwrap();
    assert!(matches!(
        &gcs.service,
        Service::Gcs { credential: None, credential_path: Some(path), .. } if path == "/creds.json"
    ));
    let azure = from_url_with_config("azure://box", &config(), &host).unwrap();
    assert!(matches!(
        &azure.service,
        Service::Azblob { container, account_name: Some(name), account_key: None, .. }
            if container == "box" && name == "account"
    ));
    let b2 = from_url_with_config("b2://bucket", &config(), &host).unwrap();
    assert!(matches!(
        &b2.service,
        Service::B2 { bucket_id, application_key_id, .. }
            if bucket_id == "id" && application_key_id == "key-id"
    ));
}

#[test]
fn swift_and_sftp_are_read_only() {
    let mut host = host();
    host.env.swift_endpoint = Some("https://swift.example.org".to_string());
    host.env.sftp_user = Some("somebody".to_string());
    let swift = from_url_with_config("swift://box/p", &config(), &host).unwrap();
    assert!(!swift.supports_writes());
    assert_eq!(swift.prefix, "p");
    assert!(matches!(
        &swift.service,
        Service::Swift { container, endpoint, token: None }
            if container == "box" && endpoint == "https://swift.example.org"
    ));
    let sftp = from_url_with_config("sftp://example.org/dir", &config(), &host).unwrap();
    assert!(!sftp.supports_writes());
    assert_eq!(sftp.prefix, "");
    assert!(matches!(
        &sftp.service,
        Service::Sftp { endpoint, user: Some(user), key: None, root: Some(root) }
            if endpoint == "example.org:22" && user == "somebody" && root == "/dir"
    ));
    let sftp = from_url_with_config("sftp://me@example.org:2222", &config(), &host).unwrap();
    assert!(matches!(
        &sftp.service,
        Service::Sftp { endpoint, user: Some(user), root: None, .. }
            if endpoint == "example.org:2222" && user == "me"
    ));
}

#[test]
fn urls_that_name_no_store() {
    let host = host();
    assert!(error_of("no url", &host).starts_with("Failed to parse URL 'no url': "));
    assert_eq!(error_of("ftp://x/y", &host), "Unsupported URL scheme: ftp");
    assert_eq!(
        error_of("s3:/prefix", &host),
        "S3 URL must have a bucket name: s3:/prefix"
    );
    assert_eq!(
        error_of("gs:/prefix", &host),
        "GCS URL must have a bucket name: gs:/prefix"
    );
    assert_eq!(
        error_of("azure:/prefix", &host),
        "Azure Blob URL must have a container name: azure:/prefix"
    );
    assert_eq!(
        error_of("b2:/prefix", &host),
        "B2 URL must have a bucket name: b2:/prefix"
    );
    assert_eq!(
        error_of("swift:/prefix", &host),
        "Swift URL must have a container name: swift:/prefix"
    );
    assert_eq!(
        error_of("sftp:/prefix", &host),
        "SFTP URL must have a host: sftp:/prefix"
    );
}

#[test]
fn variables_that_are_needed() {
    let mut host = host();
    let missing = |name: &str| format!("{name} environment variable must be set");
    assert_eq!(error_of("swift://box", &host), missing("SWIFT_ENDPOINT"));
    assert_eq!(error_of("b2://bucket", &host), missing("B2_BUCKET_ID"));
    host.env.b2_bucket_id = Some("id".to_string());
    assert_eq!(error_of("b2://bucket", &host), missing("B2_APPLICATION_KEY_ID"));
    host.env.b2_application_key_id = Some("key-id".to_string());
    assert_eq!(error_of("b2://bucket", &host), missing("B2_APPLICATION_KEY"));
}

#[test]
fn backends_that_are_not_compiled_in() {
    let host = Host {
        os: "linux".to_string(),
        env: empty_env(),
        features: all_features(false),
    };
    let message = |name: &str, feature: &str, urls: &str| {
        format!("{name} support not compiled in. Enable the '{feature}' feature to use {urls} URLs.")
    };
    assert_eq!(error_of("s3://b", &host), message("S3", "opendal-s3", "S3"));
    assert_eq!(error_of("gs://b", &host), message("GCS", "opendal-gcs", "GCS"));
    assert_eq!(
        error_of("azure://b", &host),
        message("Azure Blob", "opendal-azblob", "Azure")
    );
    assert_eq!(error_of("b2://b", &host), message("B2", "opendal-b2", "B2"));
    assert_eq!(
        error_of("swift://b", &host),
        message("Swift", "opendal-swift", "Swift")
    );
    assert_eq!(
        error_of("sftp://b", &host),
        message("SFTP", "opendal-sftp", "SFTP")
    );
    assert!(from_url_with_config("https://example.org", &config(), &host).is_ok());
}

#[test]
fn parsed_urls_decide_the_store() {
    let url = UrlParts {
        scheme: "s3".to_string(),
        host: Some("bucket".to_string()),
        port: None,
        path: "//a/b/".to_string(),
        username: String::new(),
    };
    let store = remote_store_from_url(&url, "s3://bucket//a/b/", &config(), &host()).unwrap();
    assert_eq!(store.prefix, "a/b/");
    assert_eq!(store.object_to_key("c"), "a/b/c");
}
