//! Backends from URLs.
use vstd::prelude::*;
use vstd::string::*;

use crate::config::StorageConfig;
use crate::error::{fatal_error, Error, ErrorClass, ErrorView};
use crate::store::{
    filesystem_store, http_store, normalized_path, object_store, read_only_store, store_result,
    OpendalStore, Service, StoreView,
};
use crate::text::{
    decimal, join2, join4, occurs_at, push_decimal, replaced, same, trim_start, trimmed_start,
};
use crate::url::{
    file_url_path, file_url_to_path, invalid_file_url, is_rooted, normalize_url, normalized_url,
    opt_chars, parse_url, parsed_url, rooted, UrlParts,
};

verus! {

/// The environment variables that configure the cloud backends, each where it is set: `S` is the
/// type of their values.
#[derive(Debug)]
pub struct Environment<S> {
    /// `AWS_REGION`
    pub aws_region: Option<S>,
    /// `S3_ENDPOINT`
    pub s3_endpoint: Option<S>,
    /// `AWS_ACCESS_KEY_ID`
    pub aws_access_key_id: Option<S>,
    /// `AWS_SECRET_ACCESS_KEY`
    pub aws_secret_access_key: Option<S>,
    /// `GOOGLE_APPLICATION_CREDENTIALS`
    pub google_application_credentials: Option<S>,
    /// `AZURE_STORAGE_ACCOUNT`
    pub azure_storage_account: Option<S>,
    /// `AZURE_STORAGE_KEY`
    pub azure_storage_key: Option<S>,
    /// `AZURE_STORAGE_ENDPOINT`
    pub azure_storage_endpoint: Option<S>,
    /// `B2_BUCKET_ID`
    pub b2_bucket_id: Option<S>,
    /// `B2_APPLICATION_KEY_ID`
    pub b2_application_key_id: Option<S>,
    /// `B2_APPLICATION_KEY`
    pub b2_application_key: Option<S>,
    /// `SWIFT_ENDPOINT`
    pub swift_endpoint: Option<S>,
    /// `SWIFT_TOKEN`
    pub swift_token: Option<S>,
    /// `SFTP_USER`
    pub sftp_user: Option<S>,
    /// `SFTP_KEY`
    pub sftp_key: Option<S>,
}

impl View for Environment<String> {
    type V = Environment<Seq<char>>;

    open spec fn view(&self) -> Environment<Seq<char>> {
        Environment {
            aws_region: opt_chars(self.aws_region),
            s3_endpoint: opt_chars(self.s3_endpoint),
            aws_access_key_id: opt_chars(self.aws_access_key_id),
            aws_secret_access_key: opt_chars(self.aws_secret_access_key),
            google_application_credentials: opt_chars(self.google_application_credentials),
            azure_storage_account: opt_chars(self.azure_storage_account),
            azure_storage_key: opt_chars(self.azure_storage_key),
            azure_storage_endpoint: opt_chars(self.azure_storage_endpoint),
            b2_bucket_id: opt_chars(self.b2_bucket_id),
            b2_application_key_id: opt_chars(self.b2_application_key_id),
            b2_application_key: opt_chars(self.b2_application_key),
            swift_endpoint: opt_chars(self.swift_endpoint),
            swift_token: opt_chars(self.swift_token),
            sftp_user: opt_chars(self.sftp_user),
            sftp_key: opt_chars(self.sftp_key),
        }
    }
}

/// The cloud backends that are compiled in.
#[derive(Debug, Clone, Copy)]
pub struct Features {
    pub s3: bool,
    pub gcs: bool,
    pub azblob: bool,
    pub b2: bool,
    pub swift: bool,
    pub sftp: bool,
}

/// What a backend depends on besides its URL and configuration.
#[derive(Debug)]
pub struct Host {
    /// The operating system that the program runs on, as `std::env::consts::OS` names it. It
    /// decides which conventions paths follow.
    pub os: String,
    pub env: Environment<String>,
    pub features: Features,
}

/// The error for a URL of a backend that is not compiled in.
pub open spec fn not_compiled_in(name: Seq<char>, feature: Seq<char>, urls: Seq<char>) -> ErrorView {
    fatal_error(
        name + " support not compiled in. Enable the '"@ + feature + "' feature to use "@ + urls
            + " URLs."@,
    )
}

/// The error for an environment variable that is needed and not set.
pub open spec fn variable_not_set(name: Seq<char>) -> ErrorView {
    fatal_error(name + " environment variable must be set"@)
}

/// The prefix of an object store: the path of its URL without the leading slashes.
pub open spec fn prefix_of(url: UrlParts<Seq<char>>) -> Seq<char> {
    trimmed_start(url.path, '/')
}

/// The store for `s3://bucket/prefix`.
pub open spec fn s3_url_store(
    url: UrlParts<Seq<char>>,
    url_str: Seq<char>,
    config: StorageConfig,
    env: Environment<Seq<char>>,
    features: Features,
) -> Result<StoreView, ErrorView> {
    if !features.s3 {
        Err(not_compiled_in("S3"@, "opendal-s3"@, "S3"@))
    } else {
        match url.host {
            None => Err(fatal_error("S3 URL must have a bucket name: "@ + url_str)),
            Some(bucket) => Ok(
                object_store(
                    Service::S3 {
                        bucket,
                        region: env.aws_region,
                        endpoint: env.s3_endpoint,
                        access_key_id: env.aws_access_key_id,
                        secret_access_key: env.aws_secret_access_key,
                    },
                    prefix_of(url),
                    config,
                ),
            ),
        }
    }
}

/// The store for `gcs://bucket/prefix`.
pub open spec fn gcs_url_store(
    url: UrlParts<Seq<char>>,
    url_str: Seq<char>,
    config: StorageConfig,
    env: Environment<Seq<char>>,
    features: Features,
) -> Result<StoreView, ErrorView> {
    if !features.gcs {
        Err(not_compiled_in("GCS"@, "opendal-gcs"@, "GCS"@))
    } else {
        match url.host {
            None => Err(fatal_error("GCS URL must have a bucket name: "@ + url_str)),
            Some(bucket) => Ok(
                object_store(
                    Service::Gcs {
                        bucket,
                        credential: None,
                        credential_path: env.google_application_credentials,
                    },
                    prefix_of(url),
                    config,
                ),
            ),
        }
    }
}

/// The store for `azblob://container/prefix`.
pub open spec fn azblob_url_store(
    url: UrlParts<Seq<char>>,
    url_str: Seq<char>,
    config: StorageConfig,
    env: Environment<Seq<char>>,
    features: Features,
) -> Result<StoreView, ErrorView> {
    if !features.azblob {
        Err(not_compiled_in("Azure Blob"@, "opendal-azblob"@, "Azure"@))
    } else {
        match url.host {
            None => Err(fatal_error("Azure Blob URL must have a container name: "@ + url_str)),
            Some(container) => Ok(
                object_store(
                    Service::Azblob {
                        container,
                        account_name: env.azure_storage_account,
                        account_key: env.azure_storage_key,
                        endpoint: env.azure_storage_endpoint,
                    },
                    prefix_of(url),
                    config,
                ),
            ),
        }
    }
}

/// The store for `b2://bucket/prefix`. Its three variables are looked for in this order.
pub open spec fn b2_url_store(
    url: UrlParts<Seq<char>>,
    url_str: Seq<char>,
    config: StorageConfig,
    env: Environment<Seq<char>>,
    features: Features,
) -> Result<StoreView, ErrorView> {
    if !features.b2 {
        Err(not_compiled_in("B2"@, "opendal-b2"@, "B2"@))
    } else {
        match (url.host, env.b2_bucket_id, env.b2_application_key_id, env.b2_application_key) {
            (None, _, _, _) => Err(fatal_error("B2 URL must have a bucket name: "@ + url_str)),
            (_, None, _, _) => Err(variable_not_set("B2_BUCKET_ID"@)),
            (_, _, None, _) => Err(variable_not_set("B2_APPLICATION_KEY_ID"@)),
            (_, _, _, None) => Err(variable_not_set("B2_APPLICATION_KEY"@)),
            (Some(bucket), Some(bucket_id), Some(application_key_id), Some(application_key)) => Ok(
                object_store(
                    Service::B2 { bucket, bucket_id, application_key_id, application_key },
                    prefix_of(url),
                    config,
                ),
            ),
        }
    }
}

/// The store for `swift://container/prefix`: read-only.
pub open spec fn swift_url_store(
    url: UrlParts<Seq<char>>,
    url_str: Seq<char>,
    config: StorageConfig,
    env: Environment<Seq<char>>,
    features: Features,
) -> Result<StoreView, ErrorView> {
    if !features.swift {
        Err(not_compiled_in("Swift"@, "opendal-swift"@, "Swift"@))
    } else {
        match (url.host, env.swift_endpoint) {
            (None, _) => Err(fatal_error("Swift URL must have a container name: "@ + url_str)),
            (_, None) => Err(variable_not_set("SWIFT_ENDPOINT"@)),
            (Some(container), Some(endpoint)) => Ok(
                read_only_store(
                    Service::Swift { container, endpoint, token: env.swift_token },
                    prefix_of(url),
                    None,
                    config,
                ),
            ),
        }
    }
}

/// The port that SFTP servers listen on by default.
pub const SFTP_PORT: u16 = 22;

/// The store for `sftp://[user@]host[:port]/path`: read-only. The user of the URL takes precedence
/// over the one of the environment.
pub open spec fn sftp_url_store(
    url: UrlParts<Seq<char>>,
    url_str: Seq<char>,
    config: StorageConfig,
    env: Environment<Seq<char>>,
    features: Features,
) -> Result<StoreView, ErrorView> {
    if !features.sftp {
        Err(not_compiled_in("SFTP"@, "opendal-sftp"@, "SFTP"@))
    } else {
        match url.host {
            None => Err(fatal_error("SFTP URL must have a host: "@ + url_str)),
            Some(host) => {
                let port = match url.port {
                    Some(port) => port,
                    None => SFTP_PORT,
                };
                Ok(
                    read_only_store(
                        Service::Sftp {
                            endpoint: host + ":"@ + decimal(port as nat),
                            user: if url.username.len() == 0 {
                                env.sftp_user
                            } else {
                                Some(url.username)
                            },
                            key: env.sftp_key,
                            root: if url.path.len() == 0 {
                                None
                            } else {
                                Some(url.path)
                            },
                        },
                        ""@,
                        None,
                        config,
                    ),
                )
            },
        }
    }
}

/// The store for a URL of any scheme but `file`.
pub open spec fn remote_store(
    url: UrlParts<Seq<char>>,
    url_str: Seq<char>,
    config: StorageConfig,
    env: Environment<Seq<char>>,
    features: Features,
) -> Result<StoreView, ErrorView> {
    let scheme = url.scheme;
    if scheme == "http"@ || scheme == "https"@ {
        http_store(url_str, config)
    } else if scheme == "s3"@ {
        s3_url_store(url, url_str, config, env, features)
    } else if scheme == "gcs"@ || scheme == "gs"@ {
        gcs_url_store(url, url_str, config, env, features)
    } else if scheme == "azblob"@ || scheme == "azure"@ {
        azblob_url_store(url, url_str, config, env, features)
    } else if scheme == "b2"@ {
        b2_url_store(url, url_str, config, env, features)
    } else if scheme == "swift"@ {
        swift_url_store(url, url_str, config, env, features)
    } else if scheme == "sftp"@ {
        sftp_url_store(url, url_str, config, env, features)
    } else {
        Err(fatal_error("Unsupported URL scheme: "@ + scheme))
    }
}

/// The store for the `file` URL in `text`, given that `url` was parsed from it and the caller wrote
/// it as `url_str`: one below the path that the URL names, normalized.
pub open spec fn file_store(
    url: UrlParts<Seq<char>>,
    text: Seq<char>,
    url_str: Seq<char>,
    config: StorageConfig,
    os: Seq<char>,
) -> Result<StoreView, ErrorView> {
    match file_url_path(url, text, url_str, os) {
        Ok(path) => Ok(filesystem_store(normalized_path(path), config)),
        Err(error) => Err(error),
    }
}

/// The error for a text that is no URL.
pub open spec fn unparsable_url(url_str: Seq<char>, error: Seq<char>) -> ErrorView {
    fatal_error("Failed to parse URL '"@ + url_str + "': "@ + error)
}

/// The store for a URL that starts with `file://`.
pub open spec fn file_url_store(url_str: Seq<char>, config: StorageConfig, os: Seq<char>) -> Result<
    StoreView,
    ErrorView,
> {
    let text = normalized_url(url_str);
    match parsed_url(text) {
        Err(error) => Err(unparsable_url(url_str, error)),
        Ok(url) => file_store(url, text, url_str, config, os),
    }
}

/// The store for a URL of any scheme.
pub open spec fn url_store(
    url_str: Seq<char>,
    config: StorageConfig,
    os: Seq<char>,
    env: Environment<Seq<char>>,
    features: Features,
) -> Result<StoreView, ErrorView> {
    match parsed_url(normalized_url(url_str)) {
        Ok(url) if url.scheme != "file"@ => remote_store(url, url_str, config, env, features),
        _ => file_url_store(url_str, config, os),
    }
}

/// The URL is no `file` URL, or the platform can be asked for its path: on Windows, that cannot be
/// asked of one whose path would not be absolute.
pub open spec fn is_answered(url_str: Seq<char>, os: Seq<char>) -> bool {
    match parsed_url(normalized_url(url_str)) {
        Ok(url) => url.scheme == "file"@ ==> is_rooted(url, os),
        Err(_) => true,
    }
}

fn not_compiled_in_error(name: &str, feature: &str, urls: &str) -> (error: Error)
    ensures
        error@ == not_compiled_in(name@, feature@, urls@),
{
    let mut message = join4(
        name,
        " support not compiled in. Enable the '",
        feature,
        "' feature to use ",
    );
    message.append(urls);
    message.append(" URLs.");
    Error::fatal(message)
}

fn url_prefix(url: &UrlParts<String>) -> (prefix: String)
    ensures
        prefix@ == prefix_of(url@),
{
    trim_start(url.path.as_str(), '/')
}

fn as_text(s: &Option<String>) -> (text: Option<&str>)
    ensures
        crate::store::opt_view(text) == opt_chars(*s),
{
    match s {
        Some(s) => Some(s.as_str()),
        None => None,
    }
}

fn s3_from_url(url: &UrlParts<String>, url_str: &str, config: &StorageConfig, host: &Host) -> (store:
    Result<OpendalStore, Error>)
    ensures
        store_result(store) == s3_url_store(url@, url_str@, *config, host.env@, host.features),
{
    if !host.features.s3 {
        return Err(not_compiled_in_error("S3", "opendal-s3", "S3"));
    }
    match &url.host {
        None => Err(Error::fatal(join2("S3 URL must have a bucket name: ", url_str))),
        Some(bucket) => Ok(
            OpendalStore::s3(
                bucket.as_str(),
                as_text(&host.env.aws_region),
                as_text(&host.env.s3_endpoint),
                as_text(&host.env.aws_access_key_id),
                as_text(&host.env.aws_secret_access_key),
                url_prefix(url).as_str(),
                config,
            ),
        ),
    }
}

fn gcs_from_url(url: &UrlParts<String>, url_str: &str, config: &StorageConfig, host: &Host) -> (store:
    Result<OpendalStore, Error>)
    ensures
        store_result(store) == gcs_url_store(url@, url_str@, *config, host.env@, host.features),
{
    if !host.features.gcs {
        return Err(not_compiled_in_error("GCS", "opendal-gcs", "GCS"));
    }
    match &url.host {
        None => Err(Error::fatal(join2("GCS URL must have a bucket name: ", url_str))),
        Some(bucket) => Ok(
            OpendalStore::gcs(
                bucket.as_str(),
                None,
                as_text(&host.env.google_application_credentials),
                url_prefix(url).as_str(),
                config,
            ),
        ),
    }
}

fn azblob_from_url(
    url: &UrlParts<String>,
    url_str: &str,
    config: &StorageConfig,
    host: &Host,
) -> (store: Result<OpendalStore, Error>)
    ensures
        store_result(store) == azblob_url_store(url@, url_str@, *config, host.env@, host.features),
{
    if !host.features.azblob {
        return Err(not_compiled_in_error("Azure Blob", "opendal-azblob", "Azure"));
    }
    match &url.host {
        None => Err(Error::fatal(join2("Azure Blob URL must have a container name: ", url_str))),
        Some(container) => Ok(
            OpendalStore::azblob(
                container.as_str(),
                as_text(&host.env.azure_storage_account),
                as_text(&host.env.azure_storage_key),
                as_text(&host.env.azure_storage_endpoint),
                url_prefix(url).as_str(),
                config,
            ),
        ),
    }
}

/// The value of a variable that is needed.
fn required<'a>(value: &'a Option<String>, name: &str) -> (found: Result<&'a String, Error>)
    ensures
        match found {
            Ok(text) => *value == Some(*text),
            Err(error) => *value is None && error@ == variable_not_set(name@),
        },
{
    match value {
        Some(text) => Ok(text),
        None => Err(Error::fatal(join2(name, " environment variable must be set"))),
    }
}

fn b2_from_url(url: &UrlParts<String>, url_str: &str, config: &StorageConfig, host: &Host) -> (store:
    Result<OpendalStore, Error>)
    ensures
        store_result(store) == b2_url_store(url@, url_str@, *config, host.env@, host.features),
{
    if !host.features.b2 {
        return Err(not_compiled_in_error("B2", "opendal-b2", "B2"));
    }
    let bucket = match &url.host {
        None => {
            return Err(Error::fatal(join2("B2 URL must have a bucket name: ", url_str)));
        },
        Some(bucket) => bucket,
    };
    let bucket_id = required(&host.env.b2_bucket_id, "B2_BUCKET_ID")?;
    let app_key_id = required(&host.env.b2_application_key_id, "B2_APPLICATION_KEY_ID")?;
    let app_key = required(&host.env.b2_application_key, "B2_APPLICATION_KEY")?;
    Ok(
        OpendalStore::b2(
            bucket.as_str(),
            bucket_id.as_str(),
            app_key_id.as_str(),
            app_key.as_str(),
            url_prefix(url).as_str(),
            config,
        ),
    )
}

fn swift_from_url(
    url: &UrlParts<String>,
    url_str: &str,
    config: &StorageConfig,
    host: &Host,
) -> (store: Result<OpendalStore, Error>)
    ensures
        store_result(store) == swift_url_store(url@, url_str@, *config, host.env@, host.features),
{
    if !host.features.swift {
        return Err(not_compiled_in_error("Swift", "opendal-swift", "Swift"));
    }
    let container = match &url.host {
        None => {
            return Err(Error::fatal(join2("Swift URL must have a container name: ", url_str)));
        },
        Some(container) => container,
    };
    let endpoint = required(&host.env.swift_endpoint, "SWIFT_ENDPOINT")?;
    Ok(
        OpendalStore::swift(
            container.as_str(),
            endpoint.as_str(),
            as_text(&host.env.swift_token),
            url_prefix(url).as_str(),
            config,
        ),
    )
}

fn sftp_from_url(url: &UrlParts<String>, url_str: &str, config: &StorageConfig, host: &Host) -> (store:
    Result<OpendalStore, Error>)
    ensures
        store_result(store) == sftp_url_store(url@, url_str@, *config, host.env@, host.features),
{
    if !host.features.sftp {
        return Err(not_compiled_in_error("SFTP", "opendal-sftp", "SFTP"));
    }
    let server = match &url.host {
        None => {
            return Err(Error::fatal(join2("SFTP URL must have a host: ", url_str)));
        },
        Some(server) => server,
    };
    let port: u16 = match url.port {
        Some(port) => port,
        None => SFTP_PORT,
    };
    let user = if url.username.as_str().is_empty() {
        as_text(&host.env.sftp_user)
    } else {
        Some(url.username.as_str())
    };
    let root = if url.path.as_str().is_empty() {
        None
    } else {
        Some(url.path.as_str())
    };
    let mut endpoint = join2(server.as_str(), ":");
    push_decimal(&mut endpoint, port as u64);
    Ok(OpendalStore::sftp(endpoint.as_str(), user, as_text(&host.env.sftp_key), root, "", config))
}

/// The store for a parsed URL of any scheme but `file`. `url_str` is the URL as the caller wrote
/// it.
pub fn remote_store_from_url(
    url: &UrlParts<String>,
    url_str: &str,
    config: &StorageConfig,
    host: &Host,
) -> (store: Result<OpendalStore, Error>)
    ensures
        store_result(store) == remote_store(url@, url_str@, *config, host.env@, host.features),
{
    let scheme = url.scheme.as_str();
    if same(scheme, "http") || same(scheme, "https") {
        OpendalStore::http(url_str, config)
    } else if same(scheme, "s3") {
        s3_from_url(url, url_str, config, host)
    } else if same(scheme, "gcs") || same(scheme, "gs") {
        gcs_from_url(url, url_str, config, host)
    } else if same(scheme, "azblob") || same(scheme, "azure") {
        azblob_from_url(url, url_str, config, host)
    } else if same(scheme, "b2") {
        b2_from_url(url, url_str, config, host)
    } else if same(scheme, "swift") {
        swift_from_url(url, url_str, config, host)
    } else if same(scheme, "sftp") {
        sftp_from_url(url, url_str, config, host)
    } else {
        Err(Error::fatal(join2("Unsupported URL scheme: ", scheme)))
    }
}

/// Creates a backend from a URL string with configuration.
/// Supports `file://`, `http://`, `https://`, and cloud storage schemes when they are compiled in.
///
/// Cloud storage URL formats:
/// - `s3://bucket/prefix` - AWS S3 (uses `AWS_ACCESS_KEY_ID`, `AWS_SECRET_ACCESS_KEY`,
///   `AWS_REGION`, `S3_ENDPOINT` env vars)
/// - `gcs://bucket/prefix` - Google Cloud Storage (uses `GOOGLE_APPLICATION_CREDENTIALS` env var)
/// - `azblob://container/prefix` - Azure Blob Storage (uses `AZURE_STORAGE_ACCOUNT`,
///   `AZURE_STORAGE_KEY`, `AZURE_STORAGE_ENDPOINT` env vars)
/// - `b2://bucket/prefix` - Backblaze B2 (uses `B2_APPLICATION_KEY_ID`, `B2_APPLICATION_KEY`,
///   `B2_BUCKET_ID` env vars)
/// - `swift://container/prefix` - `OpenStack` Swift, read-only (uses `SWIFT_ENDPOINT`,
///   `SWIFT_TOKEN` env vars)
/// - `sftp://[user@]host[:port]/path` - SFTP, read-only (uses `SFTP_USER`, `SFTP_KEY` env vars)
///
/// On Windows, `url::Url::to_file_path` may panic on a `file` URL whose path would not be absolute,
/// such as `file:///C:`: see `try_from_url`.
pub fn from_url_with_config(url_str: &str, config: &StorageConfig, host: &Host) -> (store: Result<
    OpendalStore,
    Error,
>)
    requires
        is_answered(url_str@, host.os@),
    ensures
        store_result(store) == url_store(url_str@, *config, host.os@, host.env@, host.features),
        occurs_at(url_str@, "file://"@, 0) ==> store_result(store) == file_url_store(
            url_str@,
            *config,
            host.os@,
        ),
        store matches Err(error) ==> error.class == ErrorClass::Fatal,
{
    let text = normalize_url(url_str);
    proof {
        if occurs_at(url_str@, "file://"@, 0) {
            lemma_normalizing_keeps_the_scheme(url_str@);
        }
    }
    let url = match parse_url(text.as_str()) {
        Ok(url) => url,
        Err(error) => {
            return Err(
                Error::fatal(join4("Failed to parse URL '", url_str, "': ", error.as_str())),
            );
        },
    };
    if same(url.scheme.as_str(), "file") {
        match file_url_to_path(&url, text.as_str(), url_str, host.os.as_str()) {
            Ok(path) => Ok(OpendalStore::filesystem(&path, config)),
            Err(error) => Err(error),
        }
    } else {
        remote_store_from_url(&url, url_str, config, host)
    }
}

/// Creates a backend from a URL string with configuration, as `from_url_with_config` does. Of a
/// `file` URL on Windows whose path would not be absolute, the platform is not asked for the path,
/// and there is no answer.
pub fn try_from_url(url_str: &str, config: &StorageConfig, host: &Host) -> (store: Option<
    Result<OpendalStore, Error>,
>)
    ensures
        store is Some <==> is_answered(url_str@, host.os@),
        store matches Some(store) ==> {
            &&& store_result(store) == url_store(
                url_str@,
                *config,
                host.os@,
                host.env@,
                host.features,
            )
            &&& occurs_at(url_str@, "file://"@, 0) ==> store_result(store) == file_url_store(
                url_str@,
                *config,
                host.os@,
            )
        },
{
    if let Ok(url) = parse_url(normalize_url(url_str).as_str()) {
        if same(url.scheme.as_str(), "file") && !rooted(&url, host.os.as_str()) {
            return None;
        }
    }
    Some(from_url_with_config(url_str, config, host))
}

// ===== What the scheme of a URL decides =====

/// The schemes of the backends that are written to besides the filesystem.
pub open spec fn is_object_store_scheme(scheme: Seq<char>) -> bool {
    ||| scheme == "s3"@
    ||| scheme == "gcs"@
    ||| scheme == "gs"@
    ||| scheme == "azblob"@
    ||| scheme == "azure"@
    ||| scheme == "b2"@
}

/// A store made from a URL of another scheme than `file` is well-formed, has no base path, and is
/// writable, with atomic writes, if and only if the scheme is that of an object store.
pub proof fn law_scheme_decides_what_a_store_can_do(
    url: UrlParts<Seq<char>>,
    url_str: Seq<char>,
    config: StorageConfig,
    env: Environment<Seq<char>>,
    features: Features,
)
    ensures
        remote_store(url, url_str, config, env, features) matches Ok(store) ==> {
            &&& store.wf()
            &&& store.root_path is None
            &&& store.writable == is_object_store_scheme(url.scheme)
            &&& store.atomic_writes == store.writable
        },
{
    reveal_strlit("http");
    reveal_strlit("https");
    reveal_strlit("s3");
    reveal_strlit("gcs");
    reveal_strlit("gs");
    reveal_strlit("azblob");
    reveal_strlit("azure");
    reveal_strlit("b2");
    reveal_strlit("swift");
    reveal_strlit("sftp");
    if url.scheme == "http"@ || url.scheme == "https"@ {
        assert(url.scheme[0] == 'h');
    }
}

/// A store made from a `file` URL is well-formed and writable, has a base path, and writes
/// atomically if and only if the configuration says so.
pub proof fn law_file_stores_are_writable(
    url: UrlParts<Seq<char>>,
    text: Seq<char>,
    url_str: Seq<char>,
    config: StorageConfig,
    os: Seq<char>,
)
    ensures
        file_store(url, text, url_str, config, os) matches Ok(store) ==> {
            &&& store.wf()
            &&& store.writable
            &&& store.root_path is Some
            &&& store.atomic_writes == config.atomic_file_writes
        },
{
}

/// A URL from which no store can be made is a fatal error: construction is never worth retrying.
pub proof fn law_construction_errors_are_fatal(
    url_str: Seq<char>,
    config: StorageConfig,
    os: Seq<char>,
    env: Environment<Seq<char>>,
    features: Features,
)
    ensures
        url_store(url_str, config, os, env, features) matches Err(error) ==> error.class
            == ErrorClass::Fatal,
{
}

proof fn lemma_normalizing_keeps_the_scheme(url_str: Seq<char>)
    requires
        occurs_at(url_str, "file://"@, 0),
    ensures
        occurs_at(normalized_url(url_str), "file://"@, 0),
{
    reveal_strlit("file://");
    let text = normalized_url(url_str);
    assert forall|i: int| 0 <= i < 7 implies text[i] == "file://"@[i] by {
        assert(url_str.subrange(0, 7)[i] == url_str[i]);
    }
    assert(text.subrange(0, 7) =~= "file://"@);
}

/// The error that a `file://` URL gives: it quotes the URL as the caller wrote it.
pub open spec fn file_url_error(url_str: Seq<char>) -> ErrorView {
    match parsed_url(normalized_url(url_str)) {
        Err(error) => unparsable_url(url_str, error),
        Ok(_) => invalid_file_url(url_str),
    }
}

/// A URL that starts with `file://` and its form with slashes for backslashes are read alike: each
/// gives a store if and only if the other does, and then the same one; else each gives the error
/// that quotes it as it was written.
pub proof fn law_backslashes_of_file_urls_do_not_matter(
    first: Seq<char>,
    second: Seq<char>,
    config: StorageConfig,
    os: Seq<char>,
)
    requires
        occurs_at(first, "file://"@, 0),
        second == replaced(first, '\\', '/'),
    ensures
        occurs_at(second, "file://"@, 0),
        normalized_url(first) == normalized_url(second),
        is_answered(first, os) <==> is_answered(second, os),
        match (file_url_store(first, config, os), file_url_store(second, config, os)) {
            (Ok(store), Ok(other)) => store == other,
            (Err(error), Err(other)) => error == file_url_error(first) && other == file_url_error(
                second,
            ),
            _ => false,
        },
{
    lemma_normalizing_keeps_the_scheme(first);
    assert(replaced(second, '\\', '/') =~= second);
}

} // verus!
