use llmd::android::ANDROID_PROVIDER_NAME;
use llmd::api::{DEFAULT_HOST, DEFAULT_PORT};
use llmd::host::{
    android_provider_name, api_base_url, desktop_provider_name, health_payload, DESKTOP_PROVIDER_NAME,
    DISABLED_PROVIDER_NAME,
};

#[test]
fn health_payload_reports_host_providers() {
    let payload = health_payload();

    assert_eq!(payload.status, "ok");
    assert_eq!(payload.desktop_provider, DESKTOP_PROVIDER_NAME);
    assert_eq!(payload.android_provider, DISABLED_PROVIDER_NAME);
    assert_eq!(payload.api_base_url, "http://127.0.0.1:11435");
}

#[test]
fn provider_names_document_android_boundary() {
    assert_eq!(desktop_provider_name(), DESKTOP_PROVIDER_NAME);
    assert_eq!(android_provider_name(), DISABLED_PROVIDER_NAME);
    assert_eq!(ANDROID_PROVIDER_NAME, "litert-lm-android");
}

#[test]
fn base_url_writes_the_port_in_decimal() {
    assert_eq!(api_base_url(DEFAULT_HOST, DEFAULT_PORT), "http://127.0.0.1:11435");
    assert_eq!(api_base_url("0.0.0.0", 0), "http://0.0.0.0:0");
    assert_eq!(api_base_url("h", 8080), "http://h:8080");
    assert_eq!(api_base_url("h", 65535), "http://h:65535");
    assert_eq!(api_base_url("h", 10), "http://h:10");
}
