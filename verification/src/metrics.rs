//! What the metrics endpoint serves.

use vstd::prelude::*;

verus! {

/// The port the metrics server listens on, on every interface.
pub const LISTEN_PORT: u16 = 8080;

/// The one path that is served, without its leading slash.
pub const METRICS_PATH: &'static str = "metrics";

/// The body served for a rate that is written `rate_text`: the metric's
/// name, one blank, the rate.
pub open spec fn metrics_text(rate_text: Seq<char>) -> Seq<char> {
    "euro_usd_rate "@ + rate_text
}

/// Builds the body of the metrics response from the cached rate, written out
/// by the caller as `rate_text`.
pub fn metrics_body(rate_text: &str) -> (body: String)
    ensures
        body@ == metrics_text(rate_text@),
{
    let mut body = "euro_usd_rate ".to_owned();
    body.append(rate_text);
    body
}

} // verus!
