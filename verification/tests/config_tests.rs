use s3p::config::{
    validate_credentials, CacheMiddlewareConfig, ClientType, LogLevel, S3Credentials,
    S3ServerConfig, S3WebhookConfig, ServerType, WebhookType,
};
use s3p::AppConfig;

#[test]
fn defaults_match_the_documented_values() {
    let c = AppConfig::default();
    assert_eq!(c.log_level, LogLevel::Critical);
    assert!(c.middlewares.is_empty());
    let ServerType::S3(server) = c.server;
    assert_eq!(server.host, "127.0.0.1");
    assert_eq!(server.port, 4356);
    assert!(server.validate_credentials);
    assert!(server.credentials.is_none());
    let ClientType::S3(client) = c.client;
    assert_eq!(client.endpoint_url, "http://localhost:9000");
    assert_eq!(client.max_retry_attempts, 3);
    assert!(!client.force_path_style);
    let WebhookType::S3(hook) = c.webhook;
    assert_eq!(hook.host, "127.0.0.1");
    assert_eq!(hook.port, 4357);
}

#[test]
fn cache_defaults() {
    let c = CacheMiddlewareConfig::default();
    assert_eq!(c.cache_size, 50_000_000);
    assert!(c.ttl.is_none());
    assert!(c.tti.is_none());
    assert!(c.ops.get_object.enabled);
    assert!(c.ops.head_object.enabled);
    assert!(c.ops.list_objects.enabled);
    assert!(c.ops.list_object_versions.enabled);
    assert!(c.ops.head_bucket.enabled);
    assert!(c.ops.list_buckets.enabled);
}

#[test]
fn credentials_must_accompany_validation() {
    assert!(validate_credentials(true, &None).is_err());
    assert!(validate_credentials(false, &None).is_ok());
    let creds = S3Credentials { access_key_id: "id".to_string(), secret_key: "s".to_string() };
    assert!(validate_credentials(true, &Some(creds)).is_ok());
}

#[test]
fn webhook_and_server_defaults_standalone() {
    let s = S3ServerConfig::default();
    assert!(s.base_domain.is_none());
    let w = S3WebhookConfig::default();
    assert_eq!(w.port, 4357);
}
