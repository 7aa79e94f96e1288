//! What stores are made of, and where they keep objects.
use std::path::PathBuf;

use vstd::prelude::*;

use crate::config::StorageConfig;
use crate::error::{ErrorClass, ErrorView};
use crate::laws::texts::{
    law_decimal_form, law_trimming_the_end, law_trimming_the_start, number, run_of,
};
use crate::paths::lossy_text;
use crate::store::{
    creation, endpoint_of, filesystem_store, http_store, layers_of, object_store, own_http_client,
    read_only_store, HttpClient, Layers, Service, StoreView,
};
use crate::text::decimal;
use crate::url::{parsed_url, UrlParts};

verus! {

/// The key of an object is the prefix of the store, a slash, and the path of the object, whatever
/// slashes the prefix ends in and the path starts with; without a prefix, it is the path alone.
pub proof fn law_key_of_an_object(
    store: StoreView,
    object: Seq<char>,
    leading: nat,
    prefix: Seq<char>,
    trailing: nat,
)
    requires
        object.len() > 0 ==> object[0] != '/',
        prefix.len() > 0 ==> prefix.last() != '/',
        store.prefix == prefix + run_of('/', trailing),
    ensures
        ({
            let key = store.key(run_of('/', leading) + object);
            &&& store.prefix.len() == 0 ==> key == object
            &&& store.prefix.len() > 0 ==> key == prefix + seq!['/'] + object
        }),
{
    law_trimming_the_start('/', leading, object);
    law_trimming_the_end('/', trailing, prefix);
    reveal_strlit("/");
    assert("/"@ =~= seq!['/']);
}

/// The settings of a configuration are what the layers have: its timeouts, its limit on concurrent
/// requests, and, where it limits the bandwidth, that limit with a burst of twice as much, as far as
/// that can be represented.
pub proof fn law_layers_follow_the_configuration(
    config: StorageConfig,
    http_client: Option<HttpClient>,
)
    ensures
        ({
            let layers = layers_of(config, http_client);
            &&& layers.timeout == config.timeout
            &&& layers.io_timeout == config.io_timeout
            &&& layers.max_concurrent == config.max_concurrent
            &&& layers.http_client == http_client
            &&& layers.throttle is Some <==> config.bandwidth_limit != 0
            &&& layers.throttle matches Some(throttle) ==> {
                &&& throttle.bandwidth == config.bandwidth_limit
                &&& throttle.burst == 2 * config.bandwidth_limit || throttle.burst == u32::MAX && 2
                    * config.bandwidth_limit > u32::MAX
            }
        }),
{
}

/// The layers are those of the configuration, with this HTTP client.
pub open spec fn has_layers(
    layers: Layers,
    config: StorageConfig,
    http_client: Option<HttpClient>,
) -> bool {
    &&& layers.timeout == config.timeout
    &&& layers.io_timeout == config.io_timeout
    &&& layers.max_concurrent == config.max_concurrent
    &&& layers.http_client == http_client
    &&& if config.bandwidth_limit == 0 {
        layers.throttle is None
    } else {
        &&& layers.throttle matches Some(throttle)
        &&& throttle.bandwidth == config.bandwidth_limit
        &&& throttle.burst == 2 * config.bandwidth_limit || throttle.burst == u32::MAX && 2
            * config.bandwidth_limit > u32::MAX
    }
}

/// A filesystem store has the root that it is given, and no prefix. It is writable, and atomic if
/// the configuration says so: its service then writes through the root.
pub proof fn law_filesystem_stores(root: PathBuf, config: StorageConfig)
    ensures
        ({
            let store = filesystem_store(root, config);
            &&& store.service matches Service::Fs { root: at, atomic_write_dir: dir } && at
                == lossy_text(root) && dir == (if config.atomic_file_writes {
                Some(lossy_text(root))
            } else {
                None
            })
            &&& has_layers(store.layers, config, None)
            &&& store.prefix.len() == 0
            &&& store.root_path == Some(root)
            &&& store.writable
            &&& store.atomic_writes == config.atomic_file_writes
        }),
{
    reveal_strlit("");
}

/// Object stores are writable, and atomic; the other remote stores are only read from. All have the
/// service and the prefix that they are given.
pub proof fn law_remote_stores(
    service: Service<Seq<char>>,
    prefix: Seq<char>,
    http_client: Option<HttpClient>,
    config: StorageConfig,
)
    ensures
        ({
            let store = object_store(service, prefix, config);
            &&& store.service == service
            &&& store.prefix == prefix
            &&& has_layers(store.layers, config, None)
            &&& store.root_path is None
            &&& store.writable
            &&& store.atomic_writes
        }),
        ({
            let store = read_only_store(service, prefix, http_client, config);
            &&& store.service == service
            &&& store.prefix == prefix
            &&& has_layers(store.layers, config, http_client)
            &&& store.root_path is None
            &&& !store.writable
            &&& !store.atomic_writes
        }),
{
}

/// The endpoint of an HTTP URL is its scheme, `://`, its host and, where it gives a port, a colon
/// and the port.
pub proof fn law_endpoint_of_a_url(url: UrlParts<Seq<char>>, host: Seq<char>)
    requires
        url.host == Some(host),
    ensures
        match url.port {
            None => endpoint_of(url) == url.scheme + seq![':', '/', '/'] + host,
            Some(port) => endpoint_of(url) == url.scheme + seq![':', '/', '/'] + host + seq![':']
                + decimal(port as nat) && number(decimal(port as nat)) == port,
        },
{
    reveal_strlit("://");
    reveal_strlit(":");
    assert("://"@ =~= seq![':', '/', '/']);
    assert(":"@ =~= seq![':']);
    if let Some(port) = url.port {
        law_decimal_form(port as nat);
    }
}

/// The store for an HTTP URL reads from the endpoint and the path of the URL, through an HTTP client
/// of our own with our User-Agent, which follows up to ten redirects. It is only read from. A text
/// that is no URL is a fatal error.
pub proof fn law_http_stores(base_url: Seq<char>, config: StorageConfig)
    ensures
        match parsed_url(base_url) {
            Ok(url) => http_store(base_url, config) matches Ok(store) && {
                &&& store.service matches Service::Http { endpoint, root } && endpoint
                    == endpoint_of(url) && root == url.path
                &&& has_layers(
                    store.layers,
                    config,
                    Some(
                        HttpClient { user_agent: crate::store::USER_AGENT, max_redirects: 10 },
                    ),
                )
                &&& store.prefix.len() == 0
                &&& store.root_path is None
                &&& !store.writable
                &&& !store.atomic_writes
            },
            Err(error) => http_store(base_url, config) == Err::<StoreView, ErrorView>(
                ErrorView {
                    class: ErrorClass::Fatal,
                    message: "Invalid URL "@ + base_url + ": "@ + error,
                },
            ),
        },
{
    reveal_strlit("");
}

/// The HTTP client of our own says what it is, by name and version.
pub proof fn law_our_http_client()
    ensures
        own_http_client().user_agent@ == "stellar-archivist/0.1.0"@,
        own_http_client().max_redirects == 10,
{
}

/// A store comes to be if and only if its operator could be created and, where it has an HTTP client
/// of our own, that could be too. What failed is a fatal error; the client comes first.
pub proof fn law_creation_of_a_store(store: StoreView, client: Seq<char>, operator: Seq<char>)
    ensures
        creation(store, Ok(()), Ok(())) == Ok::<StoreView, ErrorView>(store),
        creation(store, Ok(()), Err(operator)) == Err::<StoreView, ErrorView>(
            ErrorView {
                class: ErrorClass::Fatal,
                message: "Failed to create operator: "@ + operator,
            },
        ),
        store.layers.http_client is Some ==> {
            let failed = Err::<StoreView, ErrorView>(
                ErrorView {
                    class: ErrorClass::Fatal,
                    message: "Failed to create HTTP client: "@ + client,
                },
            );
            &&& creation(store, Err(client), Ok(())) == failed
            &&& creation(store, Err(client), Err(operator)) == failed
        },
        store.layers.http_client is None ==> {
            &&& creation(store, Err(client), Ok(())) == creation(store, Ok(()), Ok(()))
            &&& creation(store, Err(client), Err(operator)) == creation(
                store,
                Ok(()),
                Err(operator),
            )
        },
{
}

} // verus!
