//! Typed configuration of the proxy: the front server, the middleware
//! chain, the upstream client, and the webhook ingress.

use vstd::prelude::*;

verus! {

/// Log level of the application.
#[derive(Clone, Copy, PartialEq, Eq, Structural, Debug)]
pub enum LogLevel {
    Info,
    Debug,
    Warn,
    Critical,
    Off,
}

impl Default for LogLevel {
    /// The default level logs only critical events.
    fn default() -> (r: Self)
        ensures
            r == LogLevel::Critical,
    {
        LogLevel::Critical
    }
}

/// Access credentials of the S3 dialect.
pub struct S3Credentials {
    pub access_key_id: String,
    pub secret_key: String,
}

impl Default for S3Credentials {
    /// Empty credentials.
    fn default() -> (r: Self)
        ensures
            r.access_key_id@.len() == 0,
            r.secret_key@.len() == 0,
    {
        S3Credentials { access_key_id: String::new(), secret_key: String::new() }
    }
}

/// Shared context for server configuration.
pub struct ServerContext {
    pub host: String,
    pub port: u16,
}

impl Default for ServerContext {
    /// An empty host and port zero.
    fn default() -> (r: Self)
        ensures
            r.host@.len() == 0,
            r.port == 0,
    {
        ServerContext { host: String::new(), port: 0 }
    }
}

/// Configuration of the S3 front server.
pub struct S3ServerConfig {
    pub host: String,
    pub port: u16,
    pub base_domain: Option<String>,
    pub validate_credentials: bool,
    pub credentials: Option<S3Credentials>,
}

impl Default for S3ServerConfig {
    /// Listen on the loopback interface with credential validation on.
    fn default() -> (r: Self)
        ensures
            r.host@ == "127.0.0.1"@,
            r.port == 4356,
            r.base_domain is None,
            r.validate_credentials,
            r.credentials is None,
    {
        S3ServerConfig {
            host: "127.0.0.1".to_owned(),
            port: 4356,
            base_domain: None,
            validate_credentials: true,
            credentials: None,
        }
    }
}

/// When credential validation is demanded, credentials must be given.
/// Answers the error exactly when `validate` holds and `credentials`
/// is absent.
pub fn validate_credentials(validate: bool, credentials: &Option<S3Credentials>) -> (r: Result<
    (),
    String,
>)
    ensures
        r is Err <==> (validate && credentials is None),
{
    if validate && credentials.is_none() {
        Err("validate_credentials was set to true but no credentials were given".to_owned())
    } else {
        Ok(())
    }
}

/// The available server kinds.
pub enum ServerType {
    S3(S3ServerConfig),
}

impl Default for ServerType {
    /// The S3 front server with its defaults.
    fn default() -> (r: Self)
        ensures
            r matches ServerType::S3(c) && c.host@ == "127.0.0.1"@ && c.port == 4356
                && c.base_domain is None && c.validate_credentials && c.credentials is None,
    {
        ServerType::S3(Default::default())
    }
}

/// Shared context for middleware configuration.
pub struct MiddlewareConfig {}

/// Per-operation cache setting: whether responses of the operation are
/// cached, and with what expiry.
pub struct CacheOpSetting {
    pub enabled: bool,
    pub ttl: Option<u64>,
    pub tti: Option<u64>,
}

impl Default for CacheOpSetting {
    /// Caching enabled, no expiry settings.
    fn default() -> (r: Self)
        ensures
            r.enabled,
            r.ttl is None,
            r.tti is None,
    {
        CacheOpSetting { enabled: true, ttl: None, tti: None }
    }
}

/// Cache settings of the `GetObject` operation.
pub struct GetObjectSetting {
    pub enabled: bool,
    pub ttl: Option<u64>,
    pub tti: Option<u64>,
}

impl Default for GetObjectSetting {
    /// Caching enabled, no expiry settings.
    fn default() -> (r: Self)
        ensures
            r.enabled,
            r.ttl is None,
            r.tti is None,
    {
        GetObjectSetting { enabled: true, ttl: None, tti: None }
    }
}

/// Cache settings of the `HeadObject` operation.
pub struct HeadObjectSetting {
    pub enabled: bool,
    pub ttl: Option<u64>,
    pub tti: Option<u64>,
}

impl Default for HeadObjectSetting {
    /// Caching enabled, no expiry settings.
    fn default() -> (r: Self)
        ensures
            r.enabled,
            r.ttl is None,
            r.tti is None,
    {
        HeadObjectSetting { enabled: true, ttl: None, tti: None }
    }
}

/// Cache settings of the `ListObjects` and `ListObjectsV2` operations.
pub struct ListObjectsSetting {
    pub enabled: bool,
    pub ttl: Option<u64>,
    pub tti: Option<u64>,
}

impl Default for ListObjectsSetting {
    /// Caching enabled, no expiry settings.
    fn default() -> (r: Self)
        ensures
            r.enabled,
            r.ttl is None,
            r.tti is None,
    {
        ListObjectsSetting { enabled: true, ttl: None, tti: None }
    }
}

/// Cache settings of the `ListObjectVersions` operation.
pub struct ListObjectVersionsSetting {
    pub enabled: bool,
    pub ttl: Option<u64>,
    pub tti: Option<u64>,
}

impl Default for ListObjectVersionsSetting {
    /// Caching enabled, no expiry settings.
    fn default() -> (r: Self)
        ensures
            r.enabled,
            r.ttl is None,
            r.tti is None,
    {
        ListObjectVersionsSetting { enabled: true, ttl: None, tti: None }
    }
}

/// Cache settings of the `HeadBucket` operation.
pub struct HeadBucketSetting {
    pub enabled: bool,
    pub ttl: Option<u64>,
    pub tti: Option<u64>,
}

impl Default for HeadBucketSetting {
    /// Caching enabled, no expiry settings.
    fn default() -> (r: Self)
        ensures
            r.enabled,
            r.ttl is None,
            r.tti is None,
    {
        HeadBucketSetting { enabled: true, ttl: None, tti: None }
    }
}

/// Cache settings of the `ListBuckets` operation.
pub struct ListBucketsSetting {
    pub enabled: bool,
    pub ttl: Option<u64>,
    pub tti: Option<u64>,
}

impl Default for ListBucketsSetting {
    /// Caching enabled, no expiry settings.
    fn default() -> (r: Self)
        ensures
            r.enabled,
            r.ttl is None,
            r.tti is None,
    {
        ListBucketsSetting { enabled: true, ttl: None, tti: None }
    }
}

/// The per-operation cache settings.
pub struct CacheOpsConfig {
    pub get_object: GetObjectSetting,
    pub head_object: HeadObjectSetting,
    pub list_objects: ListObjectsSetting,
    pub list_object_versions: ListObjectVersionsSetting,
    pub head_bucket: HeadBucketSetting,
    pub list_buckets: ListBucketsSetting,
}

impl Default for CacheOpsConfig {
    /// Every operation enabled with no expiry settings.
    fn default() -> (r: Self)
        ensures
            r.get_object.enabled && r.get_object.ttl is None && r.get_object.tti is None,
            r.head_object.enabled && r.head_object.ttl is None && r.head_object.tti is None,
            r.list_objects.enabled && r.list_objects.ttl is None && r.list_objects.tti is None,
            r.list_object_versions.enabled && r.list_object_versions.ttl is None
                && r.list_object_versions.tti is None,
            r.head_bucket.enabled && r.head_bucket.ttl is None && r.head_bucket.tti is None,
            r.list_buckets.enabled && r.list_buckets.ttl is None && r.list_buckets.tti is None,
    {
        CacheOpsConfig {
            get_object: Default::default(),
            head_object: Default::default(),
            list_objects: Default::default(),
            list_object_versions: Default::default(),
            head_bucket: Default::default(),
            list_buckets: Default::default(),
        }
    }
}

/// Configuration of the cache middleware: the weight budget, an
/// optional bound on a single entry, cache-wide expiry defaults, and
/// the per-operation settings.
pub struct CacheMiddlewareConfig {
    pub cache_size: u64,
    pub max_entry_size: Option<usize>,
    pub ttl: Option<u64>,
    pub tti: Option<u64>,
    pub ops: CacheOpsConfig,
}

impl Default for CacheMiddlewareConfig {
    /// A budget of fifty million, no bounds or expiry defaults, and all
    /// operations enabled.
    fn default() -> (r: Self)
        ensures
            r.cache_size == 50_000_000u64,
            r.max_entry_size is None,
            r.ttl is None,
            r.tti is None,
            r.ops.get_object.enabled,
            r.ops.head_object.enabled,
            r.ops.list_objects.enabled,
            r.ops.list_object_versions.enabled,
            r.ops.head_bucket.enabled,
            r.ops.list_buckets.enabled,
    {
        CacheMiddlewareConfig {
            cache_size: 50_000_000,
            max_entry_size: None,
            ttl: None,
            tti: None,
            ops: Default::default(),
        }
    }
}

/// The available middleware kinds.
pub enum MiddlewareType {
    Identity,
    Cache(CacheMiddlewareConfig),
}

/// Shared context for client configuration.
pub struct ClientConfig {}

/// Configuration of the upstream S3 client.
pub struct S3ClientConfig {
    pub endpoint_url: String,
    pub force_path_style: bool,
    pub enable_http2: bool,
    pub insecure: bool,
    pub connect_timeout: Option<u64>,
    pub read_timeout: Option<u64>,
    pub operation_timeout: Option<u64>,
    pub operation_attempt_timeout: Option<u64>,
    pub max_retry_attempts: u32,
    pub credentials: Option<S3Credentials>,
}

impl Default for S3ClientConfig {
    /// A local endpoint, path-style addressing off, three retries.
    fn default() -> (r: Self)
        ensures
            r.endpoint_url@ == "http://localhost:9000"@,
            !r.force_path_style,
            !r.enable_http2,
            !r.insecure,
            r.connect_timeout is None,
            r.read_timeout is None,
            r.operation_timeout is None,
            r.operation_attempt_timeout is None,
            r.max_retry_attempts == 3,
            r.credentials is None,
    {
        S3ClientConfig {
            endpoint_url: "http://localhost:9000".to_owned(),
            force_path_style: false,
            enable_http2: false,
            insecure: false,
            connect_timeout: None,
            read_timeout: None,
            operation_timeout: None,
            operation_attempt_timeout: None,
            max_retry_attempts: 3,
            credentials: None,
        }
    }
}

/// The available client kinds.
pub enum ClientType {
    S3(S3ClientConfig),
}

impl Default for ClientType {
    /// The S3 client with its defaults.
    fn default() -> (r: Self)
        ensures
            r matches ClientType::S3(c) && c.endpoint_url@ == "http://localhost:9000"@
                && c.max_retry_attempts == 3,
    {
        ClientType::S3(Default::default())
    }
}

/// Shared context for webhook configuration.
pub struct WebhookConfig {}

/// Configuration of the webhook ingress.
pub struct S3WebhookConfig {
    pub host: String,
    pub port: u16,
}

impl Default for S3WebhookConfig {
    /// Listen on the loopback interface beside the front server.
    fn default() -> (r: Self)
        ensures
            r.host@ == "127.0.0.1"@,
            r.port == 4357,
    {
        S3WebhookConfig { host: "127.0.0.1".to_owned(), port: 4357 }
    }
}

/// The available webhook kinds.
pub enum WebhookType {
    S3(S3WebhookConfig),
}

impl Default for WebhookType {
    /// The S3 webhook ingress with its defaults.
    fn default() -> (r: Self)
        ensures
            r matches WebhookType::S3(c) && c.host@ == "127.0.0.1"@ && c.port == 4357,
    {
        WebhookType::S3(Default::default())
    }
}

/// The top-level application configuration.
pub struct AppConfig {
    pub log_level: LogLevel,
    pub server: ServerType,
    pub middlewares: Vec<MiddlewareType>,
    pub client: ClientType,
    pub webhook: WebhookType,
}

impl Default for AppConfig {
    /// Defaults throughout, with an empty middleware chain.
    fn default() -> (r: Self)
        ensures
            r.log_level == LogLevel::Critical,
            r.server matches ServerType::S3(_),
            r.middlewares@.len() == 0,
            r.client matches ClientType::S3(_),
            r.webhook matches WebhookType::S3(_),
    {
        AppConfig {
            log_level: Default::default(),
            server: Default::default(),
            middlewares: Vec::new(),
            client: Default::default(),
            webhook: Default::default(),
        }
    }
}

} // verus!
