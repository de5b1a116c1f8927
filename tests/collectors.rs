use forwarder::auth::AuthMode;
use forwarder::collector::{Collector, CollectorsError};
use forwarder::config::{cache_ttl_seconds, collect_fetched, secrets_prefix};
use forwarder::paths::join_paths;
use forwarder::registry::{Collectors, CollectorsCache};

fn collector(endpoint: &str) -> Collector {
    Collector {
        name: "test".to_string(),
        endpoint: endpoint.to_string(),
        auth: None,
        exclude: None,
    }
}

fn defined(name: &str, endpoint: &str, auth: Option<&str>, exclude: Option<&str>) -> Collector {
    Collector::new(
        name.to_string(),
        endpoint.to_string(),
        auth.map(|a| a.to_string()),
        exclude.map(|e| e.to_string()),
    )
}

fn loaded(items: Vec<Collector>) -> Collectors {
    let mut collectors = Collectors::new();
    assert_eq!(collectors.init(Ok(items), 0, 300), Ok(()));
    collectors
}

#[test]
fn test_collector_deserialization() {
    let collector = defined(
        "example-collector",
        "https://collector.example.com",
        Some("x-api-key=your-api-key"),
        None,
    );
    assert_eq!(collector.auth, Some("x-api-key=your-api-key".to_string()));

    let collector = defined("example-collector", "https://collector.example.com", None, None);
    assert_eq!(collector.auth, None);

    let collector = defined("example-collector", "https://collector.example.com", Some(""), None);
    assert_eq!(collector.auth, Some("".to_string()));
}

#[test]
fn test_construct_signal_endpoint() {
    let result = collector("https://collector.example.com")
        .construct_signal_endpoint("https://original.com/v1/traces")
        .unwrap();
    assert_eq!(result, "https://collector.example.com/v1/traces");

    let result = collector("https://collector.example.com/base")
        .construct_signal_endpoint("https://original.com/v1/traces")
        .unwrap();
    assert_eq!(result, "https://collector.example.com/base/v1/traces");

    let result = collector("https://collector.example.com/")
        .construct_signal_endpoint("https://original.com/v1/traces")
        .unwrap();
    assert_eq!(result, "https://collector.example.com/v1/traces");

    assert!(collector("not a url")
        .construct_signal_endpoint("https://original.com/v1/traces")
        .is_err());

    assert!(collector("https://collector.example.com")
        .construct_signal_endpoint("not a url")
        .is_err());
}

#[test]
fn test_collector_cache_ttl() {
    let ttl = cache_ttl_seconds(Some("2"));
    assert_eq!(ttl, 2);
    let cache = CollectorsCache::new(vec![collector("https://collector.example.com")], 10_000, ttl);
    assert!(!cache.is_stale(10_000));
    assert!(cache.is_stale(13_000));
}

#[test]
fn test_collector_exclusion() {
    let c = defined("test", "https://collector.example.com", None, Some("/aws/spans"));
    assert!(c.should_exclude("/aws/spans"));
    assert!(!c.should_exclude("/aws/lambda/function"));

    let c = defined("test", "https://collector.example.com", None, Some("/aws/spans.*"));
    assert!(c.should_exclude("/aws/spans"));
    assert!(c.should_exclude("/aws/spans/something"));
    assert!(!c.should_exclude("/aws/lambda/function"));

    let c = defined("test", "https://collector.example.com", None, Some("[invalid regex"));
    assert!(!c.should_exclude("/aws/spans"));
}

#[test]
fn test_collector_deserialization_with_exclude() {
    let c = defined(
        "example-collector",
        "https://collector.example.com",
        Some("x-api-key=your-api-key"),
        Some("/aws/spans"),
    );
    assert_eq!(c.exclude.as_deref(), Some("/aws/spans"));

    let c = defined("example-collector", "https://collector.example.com", None, None);
    assert_eq!(c.exclude.as_deref(), None);
}

#[test]
fn invalid_pattern_is_dropped_at_definition() {
    let c = defined("test", "https://collector.example.com", None, Some("[invalid regex"));
    assert_eq!(c.exclude, None);
    assert!(!c.should_exclude("[invalid regex"));
}

#[test]
fn unchecked_invalid_pattern_excludes_nothing() {
    let mut c = collector("https://collector.example.com");
    c.exclude = Some("(unclosed".to_string());
    assert!(!c.should_exclude("(unclosed"));
}

#[test]
fn route_to_host_without_path() {
    let collectors = loaded(vec![collector("https://collector.example.com")]);
    let out = collectors
        .get_signal_endpoints("https://original.com/v1/traces", "any-source")
        .unwrap();
    assert_eq!(out.len(), 1);
    assert_eq!(out[0].name, "test");
    assert_eq!(out[0].endpoint, "https://collector.example.com/v1/traces");
    assert_eq!(out[0].auth, None);
}

#[test]
fn route_to_base_path_with_slash() {
    let collectors = loaded(vec![collector("https://collector.example.com/base/")]);
    let out = collectors
        .get_signal_endpoints("https://original.com/v1/traces", "any-source")
        .unwrap();
    assert_eq!(out.len(), 1);
    assert_eq!(out[0].endpoint, "https://collector.example.com/base/v1/traces");
}

#[test]
fn route_keeps_base_query_and_drops_original_query() {
    let c = collector("https://collector.example.com:4318/base?tenant=a");
    let out = c
        .construct_signal_endpoint("https://original.com/v1/metrics?x=1#frag")
        .unwrap();
    assert_eq!(out, "https://collector.example.com:4318/base/v1/metrics?tenant=a");
}

#[test]
fn route_keeps_order_and_skips_excluded() {
    let collectors = loaded(vec![
        defined("a", "https://a.example.com", Some("sigv4"), None),
        defined("b", "https://b.example.com", None, Some("^/aws/spans")),
        defined("c", "https://c.example.com/otlp", Some("x-key=v"), None),
    ]);
    let out = collectors
        .get_signal_endpoints("https://original.com/v1/logs", "/aws/spans/x")
        .unwrap();
    assert_eq!(out.len(), 2);
    assert_eq!(out[0].name, "a");
    assert_eq!(out[0].endpoint, "https://a.example.com/v1/logs");
    assert_eq!(out[0].auth, Some("sigv4".to_string()));
    assert_eq!(out[1].name, "c");
    assert_eq!(out[1].endpoint, "https://c.example.com/otlp/v1/logs");
    assert_eq!(out[1].auth, Some("x-key=v".to_string()));
}

#[test]
fn route_all_excluded_is_empty() {
    let collectors = loaded(vec![
        defined("a", "https://a.example.com", None, Some(".*")),
        defined("b", "not a url", None, Some("src")),
    ]);
    let out = collectors.get_signal_endpoints("not a url either", "src").unwrap();
    assert!(out.is_empty());
}

#[test]
fn route_before_load_is_not_initialized() {
    let collectors = Collectors::new();
    assert!(!collectors.is_initialized());
    assert_eq!(
        collectors.get_signal_endpoints("https://original.com/v1/traces", "s").unwrap_err(),
        CollectorsError::NotInitialized
    );
    assert_eq!(collectors.current().unwrap_err(), CollectorsError::NotInitialized);
}

#[test]
fn route_fails_closed_on_bad_collector() {
    let collectors = loaded(vec![
        collector("https://good.example.com"),
        collector("not a url"),
    ]);
    assert_eq!(
        collectors.get_signal_endpoints("https://original.com/v1/traces", "s").unwrap_err(),
        CollectorsError::InvalidCollectorEndpoint
    );
    assert_eq!(
        collectors.get_signal_endpoints("nope", "s").unwrap_err(),
        CollectorsError::InvalidOriginalEndpoint
    );
}

#[test]
fn init_installs_then_ignores_while_fresh() {
    let mut collectors = Collectors::new();
    assert!(collectors.needs_refresh(0));
    assert_eq!(collectors.init(Ok(vec![collector("https://first.example.com")]), 1_000, 2), Ok(()));
    assert!(collectors.is_initialized());
    assert!(!collectors.needs_refresh(2_999));
    assert_eq!(collectors.init(Ok(vec![collector("https://second.example.com")]), 2_000, 2), Ok(()));
    assert_eq!(collectors.current().unwrap().items()[0].endpoint, "https://first.example.com");
    assert!(collectors.needs_refresh(3_000));
    assert_eq!(collectors.init(Ok(vec![collector("https://third.example.com")]), 3_000, 2), Ok(()));
    assert_eq!(collectors.current().unwrap().items()[0].endpoint, "https://third.example.com");
}

#[test]
fn failed_refresh_keeps_stale_registry() {
    let mut collectors = Collectors::new();
    assert_eq!(collectors.init(Ok(vec![collector("https://first.example.com")]), 0, 1), Ok(()));
    assert_eq!(
        collectors.init(Err(CollectorsError::NoValidCollectors), 5_000, 1),
        Err(CollectorsError::NoValidCollectors)
    );
    assert_eq!(collectors.current().unwrap().items()[0].endpoint, "https://first.example.com");
    let out = collectors
        .get_signal_endpoints("https://original.com/v1/traces", "s")
        .unwrap();
    assert_eq!(out[0].endpoint, "https://first.example.com/v1/traces");
}

#[test]
fn failed_first_load_stays_uninitialized() {
    let mut collectors = Collectors::new();
    assert_eq!(
        collectors.init(Err(CollectorsError::MissingSecretsPrefix), 0, 300),
        Err(CollectorsError::MissingSecretsPrefix)
    );
    assert!(!collectors.is_initialized());
}

#[test]
fn cache_staleness_edges() {
    let cache = CollectorsCache::new(vec![], 5_000, 2);
    assert!(!cache.is_stale(6_999));
    assert!(cache.is_stale(7_000));
    assert!(!cache.is_stale(0));
    let zero = CollectorsCache::new(vec![], 5_000, 0);
    assert!(zero.is_stale(5_000));
}

#[test]
fn ttl_setting_defaults() {
    assert_eq!(cache_ttl_seconds(None), 300);
    assert_eq!(cache_ttl_seconds(Some("abc")), 300);
    assert_eq!(cache_ttl_seconds(Some("-5")), 300);
    assert_eq!(cache_ttl_seconds(Some("45")), 45);
}

#[test]
fn prefix_setting_required() {
    assert_eq!(secrets_prefix(None).unwrap_err(), CollectorsError::MissingSecretsPrefix);
    assert_eq!(secrets_prefix(Some("otlp/".to_string())).unwrap(), "otlp/");
}

#[test]
fn collect_keeps_usable_definitions_in_order() {
    let out = collect_fetched(
        2,
        vec![None, Some(collector("https://a.example.com")), None, Some(collector("https://b.example.com"))],
    )
    .unwrap();
    assert_eq!(out.len(), 2);
    assert_eq!(out[0].endpoint, "https://a.example.com");
    assert_eq!(out[1].endpoint, "https://b.example.com");
}

#[test]
fn collect_errors() {
    assert_eq!(collect_fetched(3, vec![]).unwrap_err(), CollectorsError::NoSecretsFetched);
    assert_eq!(collect_fetched(0, vec![]).unwrap_err(), CollectorsError::NoValidCollectors);
    assert_eq!(collect_fetched(1, vec![None, None]).unwrap_err(), CollectorsError::NoValidCollectors);
    assert!(CollectorsError::NoValidCollectors.is_configuration());
    assert!(!CollectorsError::NotInitialized.is_configuration());
}

#[test]
fn join_paths_cases() {
    assert_eq!(join_paths("/", "/v1/traces"), "/v1/traces");
    assert_eq!(join_paths("/base", "/v1/traces"), "/base/v1/traces");
    assert_eq!(join_paths("/base/", "//v1/traces"), "/base/v1/traces");
    assert_eq!(join_paths("", "v1"), "v1");
    assert_eq!(join_paths("/b", ""), "/b/");
}

#[test]
fn auth_modes() {
    let mode = |a: Option<&str>| defined("n", "https://h.example.com", a, None).auth_mode();
    assert_eq!(mode(None), AuthMode::NoAuth);
    assert_eq!(mode(Some("")), AuthMode::NoAuth);
    assert_eq!(mode(Some("sigv4")), AuthMode::SigV4);
    assert_eq!(mode(Some("iam")), AuthMode::SigV4);
    assert_eq!(mode(Some("IAM")), AuthMode::Opaque("IAM".to_string()));
    assert_eq!(
        mode(Some("x-api-key=a=b")),
        AuthMode::Header { name: "x-api-key".to_string(), value: "a=b".to_string() }
    );
    assert_eq!(mode(Some("token")), AuthMode::Opaque("token".to_string()));
}
