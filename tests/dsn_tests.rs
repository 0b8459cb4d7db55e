use sentry_sink::config::SentryConfig;
use sentry_sink::dsn::{healthcheck, parse_dsn_to_endpoint, Dsn};
use sentry_sink::error::{DsnError, SinkError};
use sentry_sink::service::SentryServiceRequestBuilder;

#[test]
fn test_sentry_dsn_parsing() {
    let dsn_str = "https://public_key@sentry.io/project_id";

    if let Ok(parsed) = Dsn::parse(dsn_str) {
        println!("Successfully parsed with sentry::Dsn");
        println!("Host: {}", parsed.host());
        println!("Project ID: {}", parsed.project_id());
        println!("Public key: {}", parsed.public_key());
    } else {
        println!("Failed to parse with sentry::Dsn");
    }
}

#[test]
fn test_dsn_parsing() {
    let dsn_str = "https://public_key@sentry.io/12345";
    let dsn = Dsn::parse(dsn_str).unwrap();

    assert_eq!(dsn.scheme().to_string(), "https");
    assert_eq!(dsn.host(), "sentry.io");
    assert_eq!(dsn.port(), 443);
    assert_eq!(dsn.project_id().to_string(), "12345");
    assert_eq!(dsn.public_key(), "public_key");
}

#[test]
fn test_dsn_parsing_with_port() {
    let dsn_str = "https://public_key@example.com:8080/67890";
    let dsn = Dsn::parse(dsn_str).unwrap();

    assert_eq!(dsn.scheme().to_string(), "https");
    assert_eq!(dsn.host(), "example.com");
    assert_eq!(dsn.port(), 8080);
    assert_eq!(dsn.project_id().to_string(), "67890");
    assert_eq!(dsn.public_key(), "public_key");
}

#[test]
fn endpoint_without_port() {
    let (endpoint, key) = parse_dsn_to_endpoint("https://public_key@sentry.io/12345").unwrap();
    assert_eq!(endpoint, "https://sentry.io/api/12345/envelope/");
    assert_eq!(key, "public_key");
}

#[test]
fn endpoint_with_port() {
    let (endpoint, key) = parse_dsn_to_endpoint("https://abc@example.com:8080/67890").unwrap();
    assert_eq!(endpoint, "https://example.com:8080/api/67890/envelope/");
    assert_eq!(key, "abc");
}

#[test]
fn endpoint_with_default_port_written_out() {
    let (endpoint, _) = parse_dsn_to_endpoint("http://k@localhost:80/7").unwrap();
    assert_eq!(endpoint, "http://localhost/api/7/envelope/");
}

#[test]
fn endpoint_with_http_and_other_port() {
    let (endpoint, _) = parse_dsn_to_endpoint("http://k@localhost:9000/42").unwrap();
    assert_eq!(endpoint, "http://localhost:9000/api/42/envelope/");
}

#[test]
fn invalid_dsn_fails_construction_and_healthcheck() {
    let config = SentryConfig::with_dsn("not-a-url".to_string());
    assert!(matches!(config.build(), Err(SinkError::InvalidDsn(_))));
    assert!(matches!(config.healthcheck(), Err(SinkError::InvalidDsn(_))));
    assert!(matches!(healthcheck("not-a-url"), Err(SinkError::InvalidDsn(DsnError::InvalidUrl))));
    assert!(matches!(
        SentryServiceRequestBuilder::new("not-a-url"),
        Err(SinkError::InvalidDsn(_))
    ));
}

#[test]
fn valid_dsn_builds_and_passes_healthcheck() {
    let config = SentryConfig::with_dsn("https://key@o1.ingest.sentry.io/99".to_string());
    assert!(config.healthcheck().is_ok());
    let sink = config.build().unwrap();
    assert_eq!(
        sink.service_request_builder().endpoint,
        "https://o1.ingest.sentry.io/api/99/envelope/"
    );
    assert_eq!(sink.service_request_builder().public_key, "key");
    assert!(!sink.is_closed());
}

#[test]
fn dsn_error_unsupported_scheme() {
    assert!(matches!(
        parse_dsn_to_endpoint("ftp://key@example.com/1"),
        Err(SinkError::InvalidDsn(DsnError::InvalidScheme))
    ));
}

#[test]
fn dsn_error_missing_key() {
    assert!(matches!(
        parse_dsn_to_endpoint("https://example.com/1"),
        Err(SinkError::InvalidDsn(DsnError::NoUsername))
    ));
}

#[test]
fn dsn_error_missing_project() {
    assert!(matches!(
        parse_dsn_to_endpoint("https://key@example.com/"),
        Err(SinkError::InvalidDsn(DsnError::NoProjectId))
    ));
}

#[test]
fn dsn_error_non_numeric_project() {
    assert!(matches!(
        parse_dsn_to_endpoint("https://public_key@sentry.io/project_id"),
        Err(SinkError::InvalidDsn(DsnError::InvalidProjectId))
    ));
}

#[test]
fn build_refuses_zero_limits() {
    let mut config = SentryConfig::with_dsn("https://key@sentry.io/1".to_string());
    config.batch.max_events = 0;
    assert!(matches!(config.build(), Err(SinkError::InvalidSettings)));
    let mut config = SentryConfig::with_dsn("https://key@sentry.io/1".to_string());
    config.request.concurrency = 0;
    assert!(matches!(config.build(), Err(SinkError::InvalidSettings)));
}

#[test]
fn request_headers() {
    let builder = SentryServiceRequestBuilder::new("https://abc@sentry.io/5").unwrap();
    let headers = builder.headers();
    assert_eq!(headers.len(), 3);
    assert_eq!(headers[0], ("Content-Type".to_string(), "application/x-sentry-envelope".to_string()));
    assert_eq!(
        headers[1],
        (
            "X-Sentry-Auth".to_string(),
            "Sentry sentry_version=7, sentry_client=sentry.vector.sink/0.1.0, sentry_key=abc"
                .to_string()
        )
    );
    assert_eq!(headers[2], ("User-Agent".to_string(), "sentry.vector.sink/0.1.0".to_string()));
    assert_eq!(builder.uri.to_string(), "https://sentry.io/api/5/envelope/");
}
