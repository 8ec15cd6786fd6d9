use ora_geom_gui::api::{ApiHealth, GeometryApi, GeometryApiError};
use ora_geom_gui::config::GeometryViewerConfig;

#[test]
fn new_api_points_at_the_local_backend() {
    let api = GeometryApi::new();
    assert_eq!(api.api_url.as_str(), "http://localhost:8000");
}

#[test]
fn endpoint_urls_append_path_segments() {
    let api = GeometryApi::new();
    assert_eq!(
        api.healtchcheck_url().expect("parses").as_str(),
        "http://localhost:8000/healthcheck"
    );
    assert_eq!(api.geometry_url().expect("parses").as_str(), "http://localhost:8000/geometry");

    let api = GeometryApi { api_url: String::from("https://example.net/base") };
    assert_eq!(
        api.geometry_url().expect("parses").as_str(),
        "https://example.net/base/geometry"
    );
}

#[test]
fn bad_base_urls_are_reported_not_panicked_on() {
    let api = GeometryApi { api_url: String::from("not a url") };
    assert!(matches!(api.healtchcheck_url(), Err(GeometryApiError::UrlParsing)));
    // a URL that cannot carry path segments is rejected the same way
    let api = GeometryApi { api_url: String::from("mailto:someone@example.net") };
    assert!(matches!(api.geometry_url(), Err(GeometryApiError::UrlParsing)));
}

#[test]
fn oversized_base_url_is_rejected_not_panicked_on() {
    // the url crate caps a URL's serialization at 4 GB; the builders turn a
    // base URL near that scale into a parsing error instead of risking the
    // cap while appending
    let mut base = String::from("http://localhost:8000/");
    base.push_str(&"a".repeat(ora_geom_gui::api::URL_INPUT_CHAR_LIMIT));
    let api = GeometryApi { api_url: base };
    assert!(matches!(api.healtchcheck_url(), Err(GeometryApiError::UrlParsing)));
    assert!(matches!(api.geometry_url(), Err(GeometryApiError::UrlParsing)));
}

#[test]
fn health_follows_the_status_code() {
    assert!(matches!(ApiHealth::from_status(200, String::from("OK")), ApiHealth::Healthy));
    match ApiHealth::from_status(503, String::from("Service Unavailable")) {
        ApiHealth::Error(text) => assert_eq!(text.as_str(), "Service Unavailable"),
        ApiHealth::Healthy => panic!("a non-200 status is not healthy"),
    }
}

#[test]
fn default_config_is_light_mode_local_backend() {
    let config = GeometryViewerConfig::default();
    assert!(!config.is_dark_mode);
    assert_eq!(config.api.api_url.as_str(), "http://localhost:8000");
}
