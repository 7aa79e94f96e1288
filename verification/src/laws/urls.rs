//! Which URL gives which store, with which settings.
use std::path::PathBuf;

use vstd::prelude::*;

use crate::config::StorageConfig;
use crate::error::{ErrorClass, ErrorView};
use crate::factory::{is_answered, not_compiled_in, url_store, Environment, Features};
use crate::laws::stores::has_layers;
use crate::laws::texts::{law_decimal_form, law_trimming_the_start, number, run_of};
use crate::paths::path_of;
use crate::store::{http_store, normalized_path, Service, StoreView};
use crate::text::{decimal, occurs_at};
use crate::url::{
    file_path, is_rootless, normalized_url, parsed_url, url_file, url_on_drive, UrlParts,
};

verus! {

proof fn lemma_schemes()
    ensures
        "file"@.len() == 4 && "file"@[0] == 'f',
        "http"@.len() == 4 && "http"@[0] == 'h',
        "https"@.len() == 5 && "https"@[0] == 'h',
        "s3"@.len() == 2 && "s3"@[0] == 's',
        "gcs"@.len() == 3,
        "gs"@.len() == 2 && "gs"@[0] == 'g',
        "azblob"@.len() == 6,
        "azure"@.len() == 5 && "azure"@[0] == 'a',
        "b2"@.len() == 2 && "b2"@[0] == 'b',
        "swift"@.len() == 5 && "swift"@[0] == 's',
        "sftp"@.len() == 4 && "sftp"@[0] == 's',
{
    reveal_strlit("file");
    reveal_strlit("http");
    reveal_strlit("https");
    reveal_strlit("s3");
    reveal_strlit("gcs");
    reveal_strlit("gs");
    reveal_strlit("azblob");
    reveal_strlit("azure");
    reveal_strlit("b2");
    reveal_strlit("swift");
    reveal_strlit("sftp");
}

/// The fatal error with this message.
pub open spec fn refused(store: Result<StoreView, ErrorView>, message: Seq<char>) -> bool {
    store == Err::<StoreView, ErrorView>(ErrorView { class: ErrorClass::Fatal, message })
}

/// The text is read as a URL with these parts.
pub open spec fn read_as(url_str: Seq<char>, url: UrlParts<Seq<char>>) -> bool {
    parsed_url(normalized_url(url_str)) == Ok::<UrlParts<Seq<char>>, Seq<char>>(url)
}

/// The store is one of an object store: writable and atomic, without a base path, with the layers
/// of the configuration, and with the path of the URL, leading slashes aside, as its prefix.
pub open spec fn is_object_store(
    store: StoreView,
    prefix: Seq<char>,
    config: StorageConfig,
) -> bool {
    &&& store.prefix == prefix
    &&& has_layers(store.layers, config, None)
    &&& store.root_path is None
    &&& store.writable
    &&& store.atomic_writes
}

/// The store is only read from.
pub open spec fn is_read_only_store(
    store: StoreView,
    prefix: Seq<char>,
    config: StorageConfig,
) -> bool {
    &&& store.prefix == prefix
    &&& has_layers(store.layers, config, None)
    &&& store.root_path is None
    &&& !store.writable
    &&& !store.atomic_writes
}

/// An `s3` URL gives a store on the bucket that it names. Region, endpoint, access key id and secret
/// access key come from `AWS_REGION`, `S3_ENDPOINT`, `AWS_ACCESS_KEY_ID` and
/// `AWS_SECRET_ACCESS_KEY`, each where it is set.
pub proof fn law_s3_urls(
    url_str: Seq<char>,
    url: UrlParts<Seq<char>>,
    slashes: nat,
    prefix: Seq<char>,
    config: StorageConfig,
    os: Seq<char>,
    env: Environment<Seq<char>>,
    features: Features,
)
    requires
        read_as(url_str, url),
        url.scheme == "s3"@,
        url.path == run_of('/', slashes) + prefix,
        prefix.len() > 0 ==> prefix[0] != '/',
    ensures
        ({
            let made = url_store(url_str, config, os, env, features);
            if !features.s3 {
                refused(
                    made,
                    "S3 support not compiled in. Enable the 'opendal-s3' feature to use S3 URLs."@,
                )
            } else {
                match url.host {
                    None => refused(made, "S3 URL must have a bucket name: "@ + url_str),
                    Some(name) => {
                        &&& made matches Ok(store)
                        &&& is_object_store(store, prefix, config)
                        &&& store.service matches Service::S3 {
                            bucket,
                            region,
                            endpoint,
                            access_key_id,
                            secret_access_key,
                        }
                        &&& bucket == name
                        &&& region == env.aws_region
                        &&& endpoint == env.s3_endpoint
                        &&& access_key_id == env.aws_access_key_id
                        &&& secret_access_key == env.aws_secret_access_key
                    },
                }
            }
        }),
{
    lemma_schemes();
    law_trimming_the_start('/', slashes, prefix);
    reveal_strlit("S3");
    reveal_strlit(" support not compiled in. Enable the '");
    reveal_strlit("opendal-s3");
    reveal_strlit("' feature to use ");
    reveal_strlit(" URLs.");
    reveal_strlit(
        "S3 support not compiled in. Enable the 'opendal-s3' feature to use S3 URLs.",
    );
    assert(not_compiled_in("S3"@, "opendal-s3"@, "S3"@).message
        =~= "S3 support not compiled in. Enable the 'opendal-s3' feature to use S3 URLs."@);
}

/// A `gcs` or `gs` URL gives a store on the bucket that it names, with the credentials in the file
/// that `GOOGLE_APPLICATION_CREDENTIALS` names, where it is set.
pub proof fn law_gcs_urls(
    url_str: Seq<char>,
    url: UrlParts<Seq<char>>,
    slashes: nat,
    prefix: Seq<char>,
    config: StorageConfig,
    os: Seq<char>,
    env: Environment<Seq<char>>,
    features: Features,
)
    requires
        read_as(url_str, url),
        url.scheme == "gcs"@ || url.scheme == "gs"@,
        url.path == run_of('/', slashes) + prefix,
        prefix.len() > 0 ==> prefix[0] != '/',
    ensures
        ({
            let made = url_store(url_str, config, os, env, features);
            if !features.gcs {
                refused(
                    made,
                    "GCS support not compiled in. Enable the 'opendal-gcs' feature to use GCS URLs."@,
                )
            } else {
                match url.host {
                    None => refused(made, "GCS URL must have a bucket name: "@ + url_str),
                    Some(name) => {
                        &&& made matches Ok(store)
                        &&& is_object_store(store, prefix, config)
                        &&& store.service matches Service::Gcs {
                            bucket,
                            credential,
                            credential_path,
                        }
                        &&& bucket == name
                        &&& credential is None
                        &&& credential_path == env.google_application_credentials
                    },
                }
            }
        }),
{
    lemma_schemes();
    law_trimming_the_start('/', slashes, prefix);
    reveal_strlit("GCS");
    reveal_strlit(" support not compiled in. Enable the '");
    reveal_strlit("opendal-gcs");
    reveal_strlit("' feature to use ");
    reveal_strlit(" URLs.");
    reveal_strlit(
        "GCS support not compiled in. Enable the 'opendal-gcs' feature to use GCS URLs.",
    );
    assert(not_compiled_in("GCS"@, "opendal-gcs"@, "GCS"@).message
        =~= "GCS support not compiled in. Enable the 'opendal-gcs' feature to use GCS URLs."@);
}

/// An `azblob` or `azure` URL gives a store on the container that it names. Account, key and
/// endpoint come from `AZURE_STORAGE_ACCOUNT`, `AZURE_STORAGE_KEY` and `AZURE_STORAGE_ENDPOINT`,
/// each where it is set.
pub proof fn law_azure_urls(
    url_str: Seq<char>,
    url: UrlParts<Seq<char>>,
    slashes: nat,
    prefix: Seq<char>,
    config: StorageConfig,
    os: Seq<char>,
    env: Environment<Seq<char>>,
    features: Features,
)
    requires
        read_as(url_str, url),
        url.scheme == "azblob"@ || url.scheme == "azure"@,
        url.path == run_of('/', slashes) + prefix,
        prefix.len() > 0 ==> prefix[0] != '/',
    ensures
        ({
            let made = url_store(url_str, config, os, env, features);
            if !features.azblob {
                refused(
                    made,
                    "Azure Blob support not compiled in. Enable the 'opendal-azblob' feature to use Azure URLs."@,
                )
            } else {
                match url.host {
                    None => refused(made, "Azure Blob URL must have a container name: "@ + url_str),
                    Some(name) => {
                        &&& made matches Ok(store)
                        &&& is_object_store(store, prefix, config)
                        &&& store.service matches Service::Azblob {
                            container,
                            account_name,
                            account_key,
                            endpoint,
                        }
                        &&& container == name
                        &&& account_name == env.azure_storage_account
                        &&& account_key == env.azure_storage_key
                        &&& endpoint == env.azure_storage_endpoint
                    },
                }
            }
        }),
{
    lemma_schemes();
    law_trimming_the_start('/', slashes, prefix);
    reveal_strlit("Azure Blob");
    reveal_strlit(" support not compiled in. Enable the '");
    reveal_strlit("opendal-azblob");
    reveal_strlit("' feature to use ");
    reveal_strlit("Azure");
    reveal_strlit(" URLs.");
    reveal_strlit(
        "Azure Blob support not compiled in. Enable the 'opendal-azblob' feature to use Azure URLs.",
    );
    assert(not_compiled_in("Azure Blob"@, "opendal-azblob"@, "Azure"@).message
        =~= "Azure Blob support not compiled in. Enable the 'opendal-azblob' feature to use Azure URLs."@);
}

/// A `b2` URL gives a store on the bucket that it names. The id of the bucket, the id of the
/// application key and the key itself come from `B2_BUCKET_ID`, `B2_APPLICATION_KEY_ID` and
/// `B2_APPLICATION_KEY`, all of which must be set.
pub proof fn law_b2_urls(
    url_str: Seq<char>,
    url: UrlParts<Seq<char>>,
    slashes: nat,
    prefix: Seq<char>,
    config: StorageConfig,
    os: Seq<char>,
    env: Environment<Seq<char>>,
    features: Features,
)
    requires
        read_as(url_str, url),
        url.scheme == "b2"@,
        url.path == run_of('/', slashes) + prefix,
        prefix.len() > 0 ==> prefix[0] != '/',
    ensures
        ({
            let made = url_store(url_str, config, os, env, features);
            if !features.b2 {
                refused(
                    made,
                    "B2 support not compiled in. Enable the 'opendal-b2' feature to use B2 URLs."@,
                )
            } else {
                if url.host is None {
                    refused(made, "B2 URL must have a bucket name: "@ + url_str)
                } else if env.b2_bucket_id is None {
                    refused(made, "B2_BUCKET_ID environment variable must be set"@)
                } else if env.b2_application_key_id is None {
                    refused(made, "B2_APPLICATION_KEY_ID environment variable must be set"@)
                } else if env.b2_application_key is None {
                    refused(made, "B2_APPLICATION_KEY environment variable must be set"@)
                } else {
                    &&& made matches Ok(store)
                    &&& is_object_store(store, prefix, config)
                    &&& store.service matches Service::B2 {
                        bucket,
                        bucket_id,
                        application_key_id,
                        application_key,
                    }
                    &&& url.host == Some(bucket)
                    &&& env.b2_bucket_id == Some(bucket_id)
                    &&& env.b2_application_key_id == Some(application_key_id)
                    &&& env.b2_application_key == Some(application_key)
                }
            }
        }),
{
    lemma_schemes();
    law_trimming_the_start('/', slashes, prefix);
    reveal_strlit("B2");
    reveal_strlit(" support not compiled in. Enable the '");
    reveal_strlit("opendal-b2");
    reveal_strlit("' feature to use ");
    reveal_strlit(" URLs.");
    reveal_strlit(
        "B2 support not compiled in. Enable the 'opendal-b2' feature to use B2 URLs.",
    );
    assert(not_compiled_in("B2"@, "opendal-b2"@, "B2"@).message
        =~= "B2 support not compiled in. Enable the 'opendal-b2' feature to use B2 URLs."@);
    reveal_strlit(" environment variable must be set");
    reveal_strlit("B2_BUCKET_ID");
    reveal_strlit("B2_BUCKET_ID environment variable must be set");
    assert("B2_BUCKET_ID"@ + " environment variable must be set"@
        =~= "B2_BUCKET_ID environment variable must be set"@);
    reveal_strlit("B2_APPLICATION_KEY_ID");
    reveal_strlit("B2_APPLICATION_KEY_ID environment variable must be set");
    assert("B2_APPLICATION_KEY_ID"@ + " environment variable must be set"@
        =~= "B2_APPLICATION_KEY_ID environment variable must be set"@);
    reveal_strlit("B2_APPLICATION_KEY");
    reveal_strlit("B2_APPLICATION_KEY environment variable must be set");
    assert("B2_APPLICATION_KEY"@ + " environment variable must be set"@
        =~= "B2_APPLICATION_KEY environment variable must be set"@);
}

/// A `swift` URL gives a store on the container that it names, which is only read from. Endpoint and
/// token come from `SWIFT_ENDPOINT`, which must be set, and `SWIFT_TOKEN`.
pub proof fn law_swift_urls(
    url_str: Seq<char>,
    url: UrlParts<Seq<char>>,
    slashes: nat,
    prefix: Seq<char>,
    config: StorageConfig,
    os: Seq<char>,
    env: Environment<Seq<char>>,
    features: Features,
)
    requires
        read_as(url_str, url),
        url.scheme == "swift"@,
        url.path == run_of('/', slashes) + prefix,
        prefix.len() > 0 ==> prefix[0] != '/',
    ensures
        ({
            let made = url_store(url_str, config, os, env, features);
            if !features.swift {
                refused(
                    made,
                    "Swift support not compiled in. Enable the 'opendal-swift' feature to use Swift URLs."@,
                )
            } else {
                if url.host is None {
                    refused(made, "Swift URL must have a container name: "@ + url_str)
                } else if env.swift_endpoint is None {
                    refused(made, "SWIFT_ENDPOINT environment variable must be set"@)
                } else {
                    &&& made matches Ok(store)
                    &&& is_read_only_store(store, prefix, config)
                    &&& store.service matches Service::Swift { container, endpoint, token }
                    &&& url.host == Some(container)
                    &&& env.swift_endpoint == Some(endpoint)
                    &&& token == env.swift_token
                }
            }
        }),
{
    lemma_schemes();
    law_trimming_the_start('/', slashes, prefix);
    reveal_strlit("Swift");
    reveal_strlit(" support not compiled in. Enable the '");
    reveal_strlit("opendal-swift");
    reveal_strlit("' feature to use ");
    reveal_strlit(" URLs.");
    reveal_strlit(
        "Swift support not compiled in. Enable the 'opendal-swift' feature to use Swift URLs.",
    );
    assert(not_compiled_in("Swift"@, "opendal-swift"@, "Swift"@).message
        =~= "Swift support not compiled in. Enable the 'opendal-swift' feature to use Swift URLs."@);
    reveal_strlit(" environment variable must be set");
    reveal_strlit("SWIFT_ENDPOINT");
    reveal_strlit("SWIFT_ENDPOINT environment variable must be set");
    assert("SWIFT_ENDPOINT"@ + " environment variable must be set"@
        =~= "SWIFT_ENDPOINT environment variable must be set"@);
}

/// An `sftp` URL gives a store on its host, at its port or else 22, below its path, which is only
/// read from. The user is that of the URL or else `SFTP_USER`, the key `SFTP_KEY`. It has no prefix.
pub proof fn law_sftp_urls(
    url_str: Seq<char>,
    url: UrlParts<Seq<char>>,
    slashes: nat,
    prefix: Seq<char>,
    config: StorageConfig,
    os: Seq<char>,
    env: Environment<Seq<char>>,
    features: Features,
)
    requires
        read_as(url_str, url),
        url.scheme == "sftp"@,
        url.path == run_of('/', slashes) + prefix,
        prefix.len() > 0 ==> prefix[0] != '/',
    ensures
        ({
            let made = url_store(url_str, config, os, env, features);
            if !features.sftp {
                refused(
                    made,
                    "SFTP support not compiled in. Enable the 'opendal-sftp' feature to use SFTP URLs."@,
                )
            } else {
                match url.host {
                    None => refused(made, "SFTP URL must have a host: "@ + url_str),
                    Some(name) => {
                        let port = match url.port {
                            Some(port) => port as int,
                            None => 22,
                        };
                        &&& made matches Ok(store)
                        &&& is_read_only_store(store, Seq::empty(), config)
                        &&& store.service matches Service::Sftp { endpoint, user, key, root }
                        &&& endpoint == name + seq![':'] + decimal(port as nat)
                        &&& number(decimal(port as nat)) == port
                        &&& user == (if url.username.len() > 0 {
                            Some(url.username)
                        } else {
                            env.sftp_user
                        })
                        &&& key == env.sftp_key
                        &&& root == (if url.path.len() > 0 {
                            Some(url.path)
                        } else {
                            None
                        })
                    },
                }
            }
        }),
{
    lemma_schemes();
    law_trimming_the_start('/', slashes, prefix);
    reveal_strlit("SFTP");
    reveal_strlit(" support not compiled in. Enable the '");
    reveal_strlit("opendal-sftp");
    reveal_strlit("' feature to use ");
    reveal_strlit(" URLs.");
    reveal_strlit(
        "SFTP support not compiled in. Enable the 'opendal-sftp' feature to use SFTP URLs.",
    );
    assert(not_compiled_in("SFTP"@, "opendal-sftp"@, "SFTP"@).message
        =~= "SFTP support not compiled in. Enable the 'opendal-sftp' feature to use SFTP URLs."@);
    reveal_strlit("");
    reveal_strlit(":");
    assert(""@ =~= Seq::<char>::empty());
    assert(":"@ =~= seq![':']);
    match url.port {
        Some(port) => law_decimal_form(port as nat),
        None => law_decimal_form(22),
    }
}

/// An `http` or `https` URL gives the HTTP store for the text as it was written; a URL of a scheme
/// that names no backend is refused, and so is a text that is no URL.
pub proof fn law_other_urls(
    url_str: Seq<char>,
    url: UrlParts<Seq<char>>,
    config: StorageConfig,
    os: Seq<char>,
    env: Environment<Seq<char>>,
    features: Features,
)
    ensures
        ({
            let made = url_store(url_str, config, os, env, features);
            let scheme = url.scheme;
            &&& read_as(url_str, url) && (scheme == "http"@ || scheme == "https"@) ==> made
                == http_store(url_str, config)
            &&& read_as(url_str, url) && scheme != "file"@ && scheme != "http"@ && scheme
                != "https"@ && scheme != "s3"@ && scheme != "gcs"@ && scheme != "gs"@ && scheme
                != "azblob"@ && scheme != "azure"@ && scheme != "b2"@ && scheme != "swift"@
                && scheme != "sftp"@ ==> refused(made, "Unsupported URL scheme: "@ + scheme)
            &&& parsed_url(normalized_url(url_str)) matches Err(error) ==> refused(
                made,
                "Failed to parse URL '"@ + url_str + "': "@ + error,
            )
        }),
{
    lemma_schemes();
}

/// The backslashes of a text that starts with `file://`, and only of such a one, are read as
/// slashes; all else is kept.
pub proof fn law_reading_backslashes(url_str: Seq<char>)
    ensures
        normalized_url(url_str).len() == url_str.len(),
        forall|i: int|
            0 <= i < url_str.len() ==> #[trigger] normalized_url(url_str)[i] == (if url_str[i]
                == '\\' && url_str.len() >= 7 && url_str.take(7) == seq![
                'f',
                'i',
                'l',
                'e',
                ':',
                '/',
                '/',
            ] {
                '/'
            } else {
                url_str[i]
            }),
{
    reveal_strlit("file://");
    assert("file://"@ =~= seq!['f', 'i', 'l', 'e', ':', '/', '/']);
    if url_str.len() >= 7 {
        assert(url_str.subrange(0, 7) =~= url_str.take(7));
    }
}

/// On Windows, the host of one byte of a `file` URL is a drive.
pub open spec fn drive(url: UrlParts<Seq<char>>, os: Seq<char>) -> Option<Seq<char>> {
    match url.host {
        Some(host) => if os == "windows"@ && vstd::utf8::encode_utf8(host).len() == 1 {
            Some(host)
        } else {
            None
        },
        None => None,
    }
}

/// A `file` URL names the file that the platform says. Where it says none, and the host is a drive,
/// the platform is asked for the path on that drive, and if it still says none, the drive, a colon
/// and the path are taken as they are. A URL that names no file is refused.
pub proof fn law_file_urls(
    url_str: Seq<char>,
    url: UrlParts<Seq<char>>,
    config: StorageConfig,
    os: Seq<char>,
    env: Environment<Seq<char>>,
    features: Features,
)
    requires
        read_as(url_str, url),
        url.scheme == "file"@,
    ensures
        ({
            let made = url_store(url_str, config, os, env, features);
            let path = match (url_file(normalized_url(url_str), os), drive(url, os)) {
                (Some(path), _) => Some(path),
                (None, Some(drive)) => {
                    let moved = "file:///"@ + drive + seq![':'] + url.path;
                    if parsed_url(moved) is Ok && url_file(moved, os) is Some {
                        url_file(moved, os)
                    } else {
                        Some(path_of(drive + seq![':'] + url.path, os))
                    }
                },
                (None, None) => None,
            };
            match path {
                Some(path) => {
                    &&& made matches Ok(store)
                    &&& store.root_path == Some(normalized_path(path))
                    &&& store.writable
                    &&& store.atomic_writes == config.atomic_file_writes
                    &&& store.prefix.len() == 0
                    &&& has_layers(store.layers, config, None)
                },
                None => refused(
                    made,
                    "Invalid file URL '"@ + url_str + "': unable to convert to filesystem path"@,
                ),
            }
        }),
{
    reveal_strlit("");
    reveal_strlit(":");
    assert(":"@ =~= seq![':']);
}

/// Which path a `file` URL names, given what the platform makes of it and of its form on a drive.
pub proof fn law_choice_of_a_file_path(
    url: UrlParts<Seq<char>>,
    url_str: Seq<char>,
    os: Seq<char>,
    native: Option<PathBuf>,
    with_drive: Option<PathBuf>,
)
    ensures
        native matches Some(path) ==> file_path(url, url_str, os, native, with_drive) == Ok::<
            PathBuf,
            ErrorView,
        >(path),
        native is None ==> match (drive(url, os), with_drive) {
            (Some(_), Some(path)) => file_path(url, url_str, os, native, with_drive) == Ok::<
                PathBuf,
                ErrorView,
            >(path),
            (Some(drive), None) => file_path(url, url_str, os, native, with_drive) == Ok::<
                PathBuf,
                ErrorView,
            >(path_of(drive + seq![':'] + url.path, os)),
            (None, _) => file_path(url, url_str, os, native, with_drive) == Err::<
                PathBuf,
                ErrorView,
            >(
                ErrorView {
                    class: ErrorClass::Fatal,
                    message: "Invalid file URL '"@ + url_str
                        + "': unable to convert to filesystem path"@,
                },
            ),
        },
        url_on_drive(url, os) == (match drive(url, os) {
            Some(drive) => Some("file:///"@ + drive + seq![':'] + url.path),
            None => None,
        }),
{
    reveal_strlit(":");
    assert(":"@ =~= seq![':']);
}

/// The path of the URL would not be absolute on Windows: without a host, it is a drive alone; after
/// a host, it starts with no name.
pub open spec fn lacks_root(url: UrlParts<Seq<char>>) -> bool {
    let path = url.path;
    if url.host is None || url.host == Some("localhost"@) {
        &&& path.len() > 1
        &&& 'a' <= path[1] <= 'z' || 'A' <= path[1] <= 'Z'
        &&& {
            ||| path.len() == 3 && path[2] == ':'
            ||| path.len() == 5 && path[2] == '%' && path[3] == '3' && (path[4] == 'a' || path[4]
                == 'A')
        }
    } else {
        ||| path.len() <= 1
        ||| path[1] == '/'
        ||| path[1] == '\\'
        ||| path.len() >= 4 && path[1] == '%' && path[2] == '2' && (path[3] == 'f' || path[3]
            == 'F')
        ||| path.len() >= 4 && path[1] == '%' && path[2] == '5' && (path[3] == 'c' || path[3]
            == 'C')
    }
}

/// There is an answer for every URL but, on Windows, for a `file` URL whose path, or whose path on
/// its drive, would not be absolute.
pub proof fn law_which_urls_are_answered(
    url_str: Seq<char>,
    url: UrlParts<Seq<char>>,
    os: Seq<char>,
)
    ensures
        is_rootless(url) <==> lacks_root(url),
        os != "windows"@ ==> is_answered(url_str, os),
        read_as(url_str, url) ==> (is_answered(url_str, os) <==> url.scheme != "file"@ || os
            != "windows"@ || !lacks_root(url) && (drive(url, os) matches Some(drive) ==> (
        parsed_url("file:///"@ + drive + ":"@ + url.path) matches Ok(moved) ==> !lacks_root(
            moved,
        )))),
        parsed_url(normalized_url(url_str)) is Err ==> is_answered(url_str, os),
{
    lemma_rootless(url);
    if let Some(drive) = drive(url, os) {
        if let Ok(moved) = parsed_url("file:///"@ + drive + ":"@ + url.path) {
            lemma_rootless(moved);
        }
    }
}

proof fn lemma_rootless(url: UrlParts<Seq<char>>)
    ensures
        is_rootless(url) <==> lacks_root(url),
{
    reveal_strlit(":");
    reveal_strlit("%3a");
    reveal_strlit("%3A");
    reveal_strlit("%2f");
    reveal_strlit("%2F");
    reveal_strlit("%5c");
    reveal_strlit("%5C");
    let path = url.path;
    if path.len() > 1 {
        let rest = path.skip(1);
        let tail = rest.skip(1);
        assert(rest[0] == path[1]);
        assert(path.len() == 3 && path[2] == ':' <==> tail =~= ":"@) by {
            if tail =~= ":"@ {
                assert(tail[0] == ':');
            }
        }
        assert(path.len() == 5 && path[2] == '%' && path[3] == '3' && path[4] == 'a' <==> tail
            =~= "%3a"@) by {
            if tail =~= "%3a"@ {
                assert(tail[0] == '%' && tail[1] == '3' && tail[2] == 'a');
            }
        }
        assert(path.len() == 5 && path[2] == '%' && path[3] == '3' && path[4] == 'A' <==> tail
            =~= "%3A"@) by {
            if tail =~= "%3A"@ {
                assert(tail[0] == '%' && tail[1] == '3' && tail[2] == 'A');
            }
        }
        lemma_at_start(rest, "%2f"@);
        lemma_at_start(rest, "%2F"@);
        lemma_at_start(rest, "%5c"@);
        lemma_at_start(rest, "%5C"@);
    }
}

proof fn lemma_at_start(s: Seq<char>, part: Seq<char>)
    requires
        part.len() == 3,
    ensures
        occurs_at(s, part, 0) <==> s.len() >= 3 && s[0] == part[0] && s[1] == part[1] && s[2]
            == part[2],
{
    if s.len() >= 3 {
        let head = s.subrange(0, 3);
        assert(head[0] == s[0] && head[1] == s[1] && head[2] == s[2]);
        if s[0] == part[0] && s[1] == part[1] && s[2] == part[2] {
            assert(head =~= part);
        }
    }
}

} // verus!
