use vstd::prelude::*;

verus! {

/// Labels every metric of this process carries.
#[derive(Clone, Debug)]
pub struct MetricLabels {
    pub service: String,
    pub environment: String,
    pub version: String,
}

impl Default for MetricLabels {
    fn default() -> (r: Self)
        ensures
            r.service@ == "unknown"@,
            r.environment@ == "production"@,
            r.version@ == "1.0.0"@,
    {
        MetricLabels {
            service: String::from_str("unknown"),
            environment: String::from_str("production"),
            version: String::from_str("1.0.0"),
        }
    }
}

/// The well-known metric series names.
pub struct MetricNames;

impl MetricNames {
    pub const HTTP_REQUESTS_TOTAL: &'static str = "http_requests";

    pub const HTTP_REQUEST_DURATION: &'static str = "http_request_duration_seconds";

    pub const MESSAGES_SENT_TOTAL: &'static str = "smsly_messages_sent";
}

} // verus!
