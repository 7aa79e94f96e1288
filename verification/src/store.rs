//! Storage backends for history archives: what each backend is made of, what it can do, and where
//! it keeps an object.
use std::path::PathBuf;
use std::time::Duration;

use normalize_path::NormalizePath;
use vstd::prelude::*;

use crate::backend::destination;
use crate::config::StorageConfig;
use crate::error::{fatal_error, Error, ErrorView};
use crate::paths::{lossy_text, text_of};
use crate::staged::StagedView;
use crate::text::{
    decimal, join2, join3, join4, push_decimal, trim_end, trim_start, trimmed_end, trimmed_start,
};
use crate::url::{opt_chars, parse_url, parsed_url, UrlParts};

verus! {

/// The service that a store talks to, with its settings: `S` is the type of their strings.
#[derive(Debug)]
#[allow(inconsistent_fields)]
pub enum Service<S> {
    /// The local filesystem. Writes go through `atomic_write_dir` where it is set.
    Fs { root: S, atomic_write_dir: Option<S> },
    /// An HTTP server: `endpoint` holds scheme, host and port, `root` the path.
    Http { endpoint: S, root: S },
    /// Amazon S3 and compatible services.
    S3 {
        bucket: S,
        region: Option<S>,
        endpoint: Option<S>,
        access_key_id: Option<S>,
        secret_access_key: Option<S>,
    },
    /// Google Cloud Storage.
    Gcs { bucket: S, credential: Option<S>, credential_path: Option<S> },
    /// Azure Blob Storage.
    Azblob {
        container: S,
        account_name: Option<S>,
        account_key: Option<S>,
        endpoint: Option<S>,
    },
    /// Backblaze B2.
    B2 { bucket: S, bucket_id: S, application_key_id: S, application_key: S },
    /// SFTP: `endpoint` holds host and port, `root` the path.
    Sftp { endpoint: S, user: Option<S>, key: Option<S>, root: Option<S> },
    /// `OpenStack` Swift.
    Swift { container: S, endpoint: S, token: Option<S> },
}

impl View for Service<String> {
    type V = Service<Seq<char>>;

    open spec fn view(&self) -> Service<Seq<char>> {
        match *self {
            Service::Fs { root, atomic_write_dir } => Service::Fs {
                root: root@,
                atomic_write_dir: opt_chars(atomic_write_dir),
            },
            Service::Http { endpoint, root } => Service::Http {
                endpoint: endpoint@,
                root: root@,
            },
            Service::S3 { bucket, region, endpoint, access_key_id, secret_access_key } =>
                Service::S3 {
                bucket: bucket@,
                region: opt_chars(region),
                endpoint: opt_chars(endpoint),
                access_key_id: opt_chars(access_key_id),
                secret_access_key: opt_chars(secret_access_key),
            },
            Service::Gcs { bucket, credential, credential_path } => Service::Gcs {
                bucket: bucket@,
                credential: opt_chars(credential),
                credential_path: opt_chars(credential_path),
            },
            Service::Azblob { container, account_name, account_key, endpoint } => Service::Azblob {
                container: container@,
                account_name: opt_chars(account_name),
                account_key: opt_chars(account_key),
                endpoint: opt_chars(endpoint),
            },
            Service::B2 { bucket, bucket_id, application_key_id, application_key } => Service::B2 {
                bucket: bucket@,
                bucket_id: bucket_id@,
                application_key_id: application_key_id@,
                application_key: application_key@,
            },
            Service::Sftp { endpoint, user, key, root } => Service::Sftp {
                endpoint: endpoint@,
                user: opt_chars(user),
                key: opt_chars(key),
                root: opt_chars(root),
            },
            Service::Swift { container, endpoint, token } => Service::Swift {
                container: container@,
                endpoint: endpoint@,
                token: opt_chars(token),
            },
        }
    }
}

/// Bandwidth throttling: the rate and the burst, in bytes.
#[derive(Debug, Clone, Copy)]
pub struct Throttle {
    pub bandwidth: u32,
    pub burst: u32,
}

/// User-Agent string for HTTP requests.
pub const USER_AGENT: &'static str = "stellar-archivist/0.1.0";

/// The number of redirects that an HTTP client of our own follows.
pub const MAX_REDIRECTS: usize = 10;

/// An HTTP client of our own.
#[derive(Debug, Clone, Copy)]
pub struct HttpClient {
    /// The User-Agent header, for server compatibility.
    pub user_agent: &'static str,
    /// The number of redirects to follow.
    pub max_redirects: usize,
}

/// The layers put around a service, from the innermost to the outermost: timeouts, the limit on
/// concurrent requests, logging, the HTTP client and throttling. There is no retry layer: retries
/// are left to the pipeline, which would otherwise see corruption from partial writes while
/// streaming.
#[derive(Debug)]
pub struct Layers {
    pub timeout: Duration,
    pub io_timeout: Duration,
    pub max_concurrent: usize,
    /// Requests go through this HTTP client, where there is one.
    pub http_client: Option<HttpClient>,
    /// None where the bandwidth is unlimited.
    pub throttle: Option<Throttle>,
}

/// The burst for a bandwidth: twice as much, as far as that can be represented. It allows for some
/// burstiness while still limiting the overall throughput.
pub open spec fn burst_of(bandwidth: u32) -> u32 {
    if bandwidth > u32::MAX / 2 {
        u32::MAX
    } else {
        (bandwidth * 2) as u32
    }
}

/// The layers that a configuration asks for. A bandwidth limit of zero is none.
pub open spec fn layers_of(config: StorageConfig, http_client: Option<HttpClient>) -> Layers {
    Layers {
        timeout: config.timeout,
        io_timeout: config.io_timeout,
        max_concurrent: config.max_concurrent,
        http_client,
        throttle: if config.bandwidth_limit > 0 {
            Some(
                Throttle {
                    bandwidth: config.bandwidth_limit,
                    burst: burst_of(config.bandwidth_limit),
                },
            )
        } else {
            None
        },
    }
}

/// The HTTP client of the HTTP backend.
pub open spec fn own_http_client() -> HttpClient {
    HttpClient { user_agent: USER_AGENT, max_redirects: MAX_REDIRECTS }
}

/// A storage backend.
#[derive(Debug)]
pub struct OpendalStore {
    /// The service behind the store.
    pub service: Service<String>,
    /// The layers around the service.
    pub layers: Layers,
    /// Prefix of all keys.
    pub prefix: String,
    /// For filesystem backends, the root path.
    pub root_path: Option<PathBuf>,
    /// Whether this backend supports writes.
    pub writable: bool,
    /// Whether writes are atomic (a failed write leaves nothing at the destination path): true for
    /// object stores and for filesystem stores that write through a directory of their own.
    pub atomic_writes: bool,
}

/// The mathematical counterpart of [`OpendalStore`].
pub struct StoreView {
    pub service: Service<Seq<char>>,
    pub layers: Layers,
    pub prefix: Seq<char>,
    pub root_path: Option<PathBuf>,
    pub writable: bool,
    pub atomic_writes: bool,
}

impl View for OpendalStore {
    type V = StoreView;

    open spec fn view(&self) -> StoreView {
        StoreView {
            service: self.service@,
            layers: self.layers,
            prefix: self.prefix@,
            root_path: self.root_path,
            writable: self.writable,
            atomic_writes: self.atomic_writes,
        }
    }
}

impl StoreView {
    /// Writes can be staged wherever they are supported at all: a backend whose writes are not
    /// atomic has a filesystem root to stage them in.
    pub open spec fn wf(self) -> bool {
        self.writable && !self.atomic_writes ==> self.root_path is Some
    }

    /// The key under which the store keeps an object.
    pub open spec fn key(self, object: Seq<char>) -> Seq<char> {
        let object = trimmed_start(object, '/');
        if self.prefix.len() == 0 {
            object
        } else {
            trimmed_end(self.prefix, '/') + "/"@ + object
        }
    }
}

/// A filesystem store at a normalized root. The service is given its root as text.
pub open spec fn filesystem_store(root: PathBuf, config: StorageConfig) -> StoreView {
    StoreView {
        service: Service::Fs {
            root: lossy_text(root),
            atomic_write_dir: if config.atomic_file_writes {
                Some(lossy_text(root))
            } else {
                None
            },
        },
        layers: layers_of(config, None),
        prefix: ""@,
        root_path: Some(root),
        writable: true,
        atomic_writes: config.atomic_file_writes,
    }
}

/// An object store: writable, and atomic.
pub open spec fn object_store(
    service: Service<Seq<char>>,
    prefix: Seq<char>,
    config: StorageConfig,
) -> StoreView {
    StoreView {
        service,
        layers: layers_of(config, None),
        prefix,
        root_path: None,
        writable: true,
        atomic_writes: true,
    }
}

/// A store that is only read from.
pub open spec fn read_only_store(
    service: Service<Seq<char>>,
    prefix: Seq<char>,
    http_client: Option<HttpClient>,
    config: StorageConfig,
) -> StoreView {
    StoreView {
        service,
        layers: layers_of(config, http_client),
        prefix,
        root_path: None,
        writable: false,
        atomic_writes: false,
    }
}

/// Scheme, host and port of a URL.
pub open spec fn endpoint_of(url: UrlParts<Seq<char>>) -> Seq<char> {
    let host = match url.host {
        Some(host) => host,
        None => ""@,
    };
    match url.port {
        Some(port) => url.scheme + "://"@ + host + ":"@ + decimal(port as nat),
        None => url.scheme + "://"@ + host,
    }
}

/// The store for a parsed HTTP URL: read-only, with an HTTP client of our own.
pub open spec fn http_url_store(url: UrlParts<Seq<char>>, config: StorageConfig) -> StoreView {
    read_only_store(
        Service::Http { endpoint: endpoint_of(url), root: url.path },
        ""@,
        Some(own_http_client()),
        config,
    )
}

/// The store for an HTTP URL, or the error for a text that is no URL.
pub open spec fn http_store(base_url: Seq<char>, config: StorageConfig) -> Result<
    StoreView,
    ErrorView,
> {
    match parsed_url(base_url) {
        Ok(url) => Ok(http_url_store(url, config)),
        Err(error) => Err(fatal_error("Invalid URL "@ + base_url + ": "@ + error)),
    }
}

/// A store, or the error for what names none.
pub open spec fn store_result(store: Result<OpendalStore, Error>) -> Result<StoreView, ErrorView> {
    match store {
        Ok(store) => Ok(store@),
        Err(error) => Err(error@),
    }
}

/// Whether something could be created, or the text of the error with which that failed.
pub open spec fn unit_view(created: Result<(), String>) -> Result<(), Seq<char>> {
    match created {
        Ok(_) => Ok(()),
        Err(error) => Err(error@),
    }
}

/// What a store comes to, given whether its HTTP client, where it has one of our own, and its
/// operator could be created.
pub open spec fn creation(
    store: StoreView,
    client: Result<(), Seq<char>>,
    operator: Result<(), Seq<char>>,
) -> Result<StoreView, ErrorView> {
    match (client, operator) {
        (Err(error), _) if store.layers.http_client is Some => Err(
            fatal_error("Failed to create HTTP client: "@ + error),
        ),
        (_, Err(error)) => Err(fatal_error("Failed to create operator: "@ + error)),
        _ => Ok(store),
    }
}

/// `path` with redundant separators and up-level references collapsed, and no link resolved.
pub uninterp spec fn normalized_path(path: PathBuf) -> PathBuf;

/// Calls `normalize_path::NormalizePath::normalize`, which collapses redundant separators and
/// up-level references of a path by the conventions of its platform, without touching the
/// filesystem, and never leaves it empty.
#[verifier::external_body]
fn normalize(path: &PathBuf) -> (normalized: PathBuf)
    ensures
        normalized == normalized_path(*path),
        lossy_text(normalized).len() > 0,
{
    path.normalize()
}

/// The characters of an optional text.
pub open spec fn opt_view(text: Option<&str>) -> Option<Seq<char>> {
    match text {
        Some(t) => Some(t@),
        None => None,
    }
}

/// The optional text as a string of its own.
fn owned(text: Option<&str>) -> (copy: Option<String>)
    ensures
        opt_chars(copy) == opt_view(text),
{
    match text {
        Some(t) => Some(t.to_owned()),
        None => None,
    }
}

impl OpendalStore {
    /// Creates a store from its parts.
    pub fn from_operator(
        service: Service<String>,
        layers: Layers,
        prefix: &str,
        root_path: Option<PathBuf>,
        writable: bool,
        atomic_writes: bool,
    ) -> (store: Self)
        ensures
            store@ == (StoreView {
                service: service@,
                layers,
                prefix: prefix@,
                root_path,
                writable,
                atomic_writes,
            }),
    {
        Self { service, layers, prefix: prefix.to_owned(), root_path, writable, atomic_writes }
    }

    /// The standard layers.
    pub fn apply_layers(config: &StorageConfig) -> (layers: Layers)
        ensures
            layers == layers_of(*config, None),
    {
        Self::apply_layers_with_http_client(config, None)
    }

    /// The standard layers, with an HTTP client where one is given.
    pub fn apply_layers_with_http_client(
        config: &StorageConfig,
        http_client: Option<HttpClient>,
    ) -> (layers: Layers)
        ensures
            layers == layers_of(*config, http_client),
    {
        let bandwidth: u32 = config.bandwidth_limit;
        let throttle = if bandwidth > 0 {
            let burst: u32 = if bandwidth > u32::MAX / 2 {
                u32::MAX
            } else {
                bandwidth * 2
            };
            Some(Throttle { bandwidth, burst })
        } else {
            None
        };
        Layers {
            timeout: config.timeout,
            io_timeout: config.io_timeout,
            max_concurrent: config.max_concurrent,
            http_client,
            throttle,
        }
    }

    /// Converts an archive object path to the full key with prefix.
    pub fn object_to_key(&self, object: &str) -> (key: String)
        ensures
            key@ == self@.key(object@),
    {
        let object = trim_start(object, '/');
        if self.prefix.as_str().is_empty() {
            object
        } else {
            let prefix = trim_end(self.prefix.as_str(), '/');
            join3(prefix.as_str(), "/", object.as_str())
        }
    }

    /// Creates a filesystem store at a root that is normalized already.
    pub fn filesystem_at(root: PathBuf, config: &StorageConfig) -> (store: Self)
        ensures
            store@ == filesystem_store(root, *config),
    {
        let atomic_write_dir = if config.atomic_file_writes {
            Some(text_of(&root))
        } else {
            None
        };
        let layers = Self::apply_layers(config);
        Self::from_operator(
            Service::Fs { root: text_of(&root), atomic_write_dir },
            layers,
            "",
            Some(root),
            true,
            config.atomic_file_writes,
        )
    }

    /// Creates a filesystem storage backend.
    ///
    /// With `atomic_file_writes`, writes go through a directory of their own, so that they are
    /// atomic (temp file and rename).
    pub fn filesystem(root: &PathBuf, config: &StorageConfig) -> (store: Self)
        ensures
            store@ == filesystem_store(normalized_path(*root), *config),
    {
        let normalized = normalize(root);
        Self::filesystem_at(normalized, config)
    }

    /// The HTTP client of the HTTP backend: with a proper User-Agent header, and following
    /// redirects.
    pub fn create_http_client() -> (client: HttpClient)
        ensures
            client == own_http_client(),
    {
        HttpClient { user_agent: USER_AGENT, max_redirects: MAX_REDIRECTS }
    }

    /// The store, given that the HTTP client of our own and the operator behind the store could be
    /// created, or the text of the error with which that failed.
    pub fn created(self, client: Result<(), String>, operator: Result<(), String>) -> (store: Result<
        Self,
        Error,
    >)
        ensures
            store_result(store) == creation(self@, unit_view(client), unit_view(operator)),
    {
        if self.layers.http_client.is_some() {
            if let Err(error) = client {
                return Err(Error::fatal(join2("Failed to create HTTP client: ", error.as_str())));
            }
        }
        match operator {
            Ok(_) => Ok(self),
            Err(error) => Err(
                Error::fatal(join2("Failed to create operator: ", error.as_str())),
            ),
        }
    }

    /// Creates an HTTP/HTTPS storage backend from a parsed URL: read-only, with an HTTP client of
    /// our own.
    pub fn http_at(url: UrlParts<String>, config: &StorageConfig) -> (store: Self)
        ensures
            store@ == http_url_store(url@, *config),
    {
        let endpoint = http_endpoint(&url);
        let client = Self::create_http_client();
        let layers = Self::apply_layers_with_http_client(config, Some(client));
        Self::from_operator(
            Service::Http { endpoint, root: url.path },
            layers,
            "",
            None,
            false,
            false,
        )
    }

    /// Creates an HTTP/HTTPS storage backend: read-only, with an HTTP client of our own.
    pub fn http(base_url: &str, config: &StorageConfig) -> (store: Result<Self, Error>)
        ensures
            store_result(store) == http_store(base_url@, *config),
    {
        match parse_url(base_url) {
            Ok(url) => Ok(Self::http_at(url, config)),
            Err(error) => Err(
                Error::fatal(join4("Invalid URL ", base_url, ": ", error.as_str())),
            ),
        }
    }

    /// Creates an S3 storage backend.
    pub fn s3(
        bucket: &str,
        region: Option<&str>,
        endpoint: Option<&str>,
        access_key_id: Option<&str>,
        secret_access_key: Option<&str>,
        prefix: &str,
        config: &StorageConfig,
    ) -> (store: Self)
        ensures
            store@ == object_store(
                Service::S3 {
                    bucket: bucket@,
                    region: opt_view(region),
                    endpoint: opt_view(endpoint),
                    access_key_id: opt_view(access_key_id),
                    secret_access_key: opt_view(secret_access_key),
                },
                prefix@,
                *config,
            ),
    {
        let service = Service::S3 {
            bucket: bucket.to_owned(),
            region: owned(region),
            endpoint: owned(endpoint),
            access_key_id: owned(access_key_id),
            secret_access_key: owned(secret_access_key),
        };
        Self::from_operator(service, Self::apply_layers(config), prefix, None, true, true)
    }

    /// Creates a Google Cloud Storage backend.
    pub fn gcs(
        bucket: &str,
        credential: Option<&str>,
        credential_path: Option<&str>,
        prefix: &str,
        config: &StorageConfig,
    ) -> (store: Self)
        ensures
            store@ == object_store(
                Service::Gcs {
                    bucket: bucket@,
                    credential: opt_view(credential),
                    credential_path: opt_view(credential_path),
                },
                prefix@,
                *config,
            ),
    {
        let service = Service::Gcs {
            bucket: bucket.to_owned(),
            credential: owned(credential),
            credential_path: owned(credential_path),
        };
        Self::from_operator(service, Self::apply_layers(config), prefix, None, true, true)
    }

    /// Creates an Azure Blob Storage backend.
    pub fn azblob(
        container: &str,
        account_name: Option<&str>,
        account_key: Option<&str>,
        endpoint: Option<&str>,
        prefix: &str,
        config: &StorageConfig,
    ) -> (store: Self)
        ensures
            store@ == object_store(
                Service::Azblob {
                    container: container@,
                    account_name: opt_view(account_name),
                    account_key: opt_view(account_key),
                    endpoint: opt_view(endpoint),
                },
                prefix@,
                *config,
            ),
    {
        let service = Service::Azblob {
            container: container.to_owned(),
            account_name: owned(account_name),
            account_key: owned(account_key),
            endpoint: owned(endpoint),
        };
        Self::from_operator(service, Self::apply_layers(config), prefix, None, true, true)
    }

    /// Creates a Backblaze B2 storage backend.
    pub fn b2(
        bucket: &str,
        bucket_id: &str,
        application_key_id: &str,
        application_key: &str,
        prefix: &str,
        config: &StorageConfig,
    ) -> (store: Self)
        ensures
            store@ == object_store(
                Service::B2 {
                    bucket: bucket@,
                    bucket_id: bucket_id@,
                    application_key_id: application_key_id@,
                    application_key: application_key@,
                },
                prefix@,
                *config,
            ),
    {
        let service = Service::B2 {
            bucket: bucket.to_owned(),
            bucket_id: bucket_id.to_owned(),
            application_key_id: application_key_id.to_owned(),
            application_key: application_key.to_owned(),
        };
        Self::from_operator(service, Self::apply_layers(config), prefix, None, true, true)
    }

    /// Creates an SFTP storage backend: read-only.
    pub fn sftp(
        endpoint: &str,
        user: Option<&str>,
        key: Option<&str>,
        root: Option<&str>,
        prefix: &str,
        config: &StorageConfig,
    ) -> (store: Self)
        ensures
            store@ == read_only_store(
                Service::Sftp {
                    endpoint: endpoint@,
                    user: opt_view(user),
                    key: opt_view(key),
                    root: opt_view(root),
                },
                prefix@,
                None,
                *config,
            ),
    {
        let service = Service::Sftp {
            endpoint: endpoint.to_owned(),
            user: owned(user),
            key: owned(key),
            root: owned(root),
        };
        Self::from_operator(service, Self::apply_layers(config), prefix, None, false, false)
    }

    /// Creates an `OpenStack` Swift storage backend.
    ///
    /// Read-only: objects are uploaded to Swift in a single request, which cannot stream
    /// archive-sized files.
    pub fn swift(
        container: &str,
        endpoint: &str,
        token: Option<&str>,
        prefix: &str,
        config: &StorageConfig,
    ) -> (store: Self)
        ensures
            store@ == read_only_store(
                Service::Swift {
                    container: container@,
                    endpoint: endpoint@,
                    token: opt_view(token),
                },
                prefix@,
                None,
                *config,
            ),
    {
        let service = Service::Swift {
            container: container.to_owned(),
            endpoint: endpoint.to_owned(),
            token: owned(token),
        };
        Self::from_operator(service, Self::apply_layers(config), prefix, None, false, false)
    }
}

/// Scheme, host and port of a URL.
fn http_endpoint(url: &UrlParts<String>) -> (endpoint: String)
    ensures
        endpoint@ == endpoint_of(url@),
{
    let host = match &url.host {
        Some(host) => host.as_str(),
        None => "",
    };
    match url.port {
        Some(port) => {
            let mut endpoint = join4(url.scheme.as_str(), "://", host, ":");
            push_decimal(&mut endpoint, port as u64);
            endpoint
        },
        None => join3(url.scheme.as_str(), "://", host),
    }
}

// ===== What stores have in common =====

/// Two object paths have one key if and only if they are one place to the writes that go there.
pub proof fn law_one_key_is_one_place(store: StoreView, first: Seq<char>, second: Seq<char>)
    ensures
        store.key(first) == store.key(second) <==> destination(StagedView::atomic_on_close(first))
            == destination(StagedView::atomic_on_close(second)),
{
    if store.key(first) == store.key(second) {
        law_different_objects_have_different_keys(store, first, second);
    }
}

/// Every kind of store is well-formed.
pub proof fn law_stores_are_well_formed(
    root: PathBuf,
    service: Service<Seq<char>>,
    prefix: Seq<char>,
    http_client: Option<HttpClient>,
    config: StorageConfig,
)
    ensures
        filesystem_store(root, config).wf(),
        object_store(service, prefix, config).wf(),
        read_only_store(service, prefix, http_client, config).wf(),
{
}

proof fn lemma_no_leading(s: Seq<char>, c: char)
    ensures
        trimmed_start(s, c).len() > 0 ==> trimmed_start(s, c)[0] != c,
    decreases s.len(),
{
    if s.len() > 0 && s[0] == c {
        lemma_no_leading(s.drop_first(), c);
    }
}

/// Leading slashes of an object path do not matter for its key.
pub proof fn law_leading_slash_does_not_matter(store: StoreView, object: Seq<char>)
    ensures
        store.key(seq!['/'] + object) == store.key(object),
{
    assert((seq!['/'] + object).drop_first() == object);
}

/// Without a prefix, keys are relative: none starts with a slash.
pub proof fn law_keys_without_prefix_are_relative(store: StoreView, object: Seq<char>)
    requires
        store.prefix.len() == 0,
    ensures
        store.key(object).len() > 0 ==> store.key(object)[0] != '/',
{
    lemma_no_leading(object, '/');
}

/// A trailing slash of the prefix does not matter, unless the prefix is nothing but that.
pub proof fn law_trailing_slash_of_prefix_does_not_matter(store: StoreView, object: Seq<char>)
    requires
        store.prefix.len() > 0,
    ensures
        store.key(object) == (StoreView { prefix: store.prefix.push('/'), ..store }).key(object),
{
    assert(store.prefix.push('/').drop_last() == store.prefix);
}

/// Objects whose paths differ in more than leading slashes have different keys.
pub proof fn law_different_objects_have_different_keys(
    store: StoreView,
    first: Seq<char>,
    second: Seq<char>,
)
    requires
        store.key(first) == store.key(second),
    ensures
        trimmed_start(first, '/') == trimmed_start(second, '/'),
{
    if store.prefix.len() > 0 {
        let head = trimmed_end(store.prefix, '/') + "/"@;
        let a = trimmed_start(first, '/');
        let b = trimmed_start(second, '/');
        assert(a == (head + a).subrange(head.len() as int, (head + a).len() as int));
        assert(b == (head + b).subrange(head.len() as int, (head + b).len() as int));
    }
}

} // verus!
