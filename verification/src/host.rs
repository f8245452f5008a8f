//! What the desktop host reports about itself.
use vstd::prelude::*;

use crate::api::{DEFAULT_HOST, DEFAULT_PORT};
use crate::text::{decimal, owned, push_decimal};

verus! {

/// The provider the desktop host serves models with.
pub const DESKTOP_PROVIDER_NAME: &'static str = "rlitert-lm";

/// The name reported for a provider this build does not include.
pub const DISABLED_PROVIDER_NAME: &'static str = "disabled";

/// The desktop build serves models with its own provider.
pub fn desktop_provider_name() -> (r: &'static str)
    ensures
        r@ == DESKTOP_PROVIDER_NAME@,
{
    DESKTOP_PROVIDER_NAME
}

/// The desktop build leaves Android inference to the Android build.
pub fn android_provider_name() -> (r: &'static str)
    ensures
        r@ == DISABLED_PROVIDER_NAME@,
{
    DISABLED_PROVIDER_NAME
}

/// The base address of the API at a host and port.
pub open spec fn base_url_of(host: Seq<char>, port: u16) -> Seq<char> {
    "http://"@ + host + seq![':'] + decimal(port as nat)
}

/// The base address of the API served at `host` and `port`.
pub fn api_base_url(host: &str, port: u16) -> (url: String)
    ensures
        url@ == base_url_of(host@, port),
{
    let mut url = owned("http://");
    url.append(host);
    url.append(":");
    proof {
        reveal_strlit(":");
    }
    push_decimal(&mut url, port as u64);
    url
}

/// The host's health report.
pub struct HealthPayload {
    pub status: &'static str,
    pub desktop_provider: &'static str,
    pub android_provider: &'static str,
    pub api_base_url: String,
}

/// The health report: the host is up, names its providers, and gives the
/// address of the API at the default host and port.
pub fn health_payload() -> (p: HealthPayload)
    ensures
        p.status@ == "ok"@,
        p.desktop_provider@ == DESKTOP_PROVIDER_NAME@,
        p.android_provider@ == DISABLED_PROVIDER_NAME@,
        p.api_base_url@ == base_url_of(DEFAULT_HOST@, DEFAULT_PORT),
{
    HealthPayload {
        status: "ok",
        desktop_provider: desktop_provider_name(),
        android_provider: android_provider_name(),
        api_base_url: api_base_url(DEFAULT_HOST, DEFAULT_PORT),
    }
}

} // verus!
