use vstd::prelude::*;
use crate::config::{spec_fallback_enabled, spec_microservice_enabled, Settings};

verus! {

/// The one telemetry event of a send attempt, handed to the external sink
/// by the caller.
#[derive(Clone, Debug)]
pub struct TelemetryEvent {
    pub service: String,
    pub operation: String,
    pub provider: String,
    pub success: bool,
    pub duration_ms: u64,
}

/// Shared plumbing of one channel: the service's name and its
/// delivery-path switches, resolved once from the settings.
pub struct BaseAdapter {
    pub service_name: String,
    pub settings: Settings,
    pub use_microservice: bool,
    pub fallback_enabled: bool,
}

impl BaseAdapter {
    pub fn new(service_name: String, settings: Settings) -> (r: Self)
        ensures
            r.service_name == service_name,
            r.settings == settings,
            r.use_microservice == spec_microservice_enabled(settings, service_name@),
            r.fallback_enabled == spec_fallback_enabled(settings, service_name@),
    {
        let use_microservice = settings.is_microservice_enabled(service_name.as_str());
        let fallback_enabled = settings.is_fallback_enabled(service_name.as_str());
        BaseAdapter { service_name, settings, use_microservice, fallback_enabled }
    }

    /// Builds the telemetry event of one attempt: service, operation,
    /// chosen provider, success flag and wall-clock duration.
    pub fn track_request(
        &self,
        operation: &str,
        provider: &str,
        success: bool,
        duration_ms: u64,
    ) -> (ev: TelemetryEvent)
        ensures
            ev.service@ == self.service_name@,
            ev.operation@ == operation@,
            ev.provider@ == provider@,
            ev.success == success,
            ev.duration_ms == duration_ms,
    {
        TelemetryEvent {
            service: self.service_name.clone(),
            operation: operation.to_owned(),
            provider: provider.to_owned(),
            success,
            duration_ms,
        }
    }
}

/// Channel-specific outcome of one send request; failures come back in
/// this value, never as a hard error.
#[derive(Debug)]
pub struct SMSResponse {
    pub success: bool,
    pub sms_id: Option<String>,
    pub status: Option<String>,
    pub provider: String,
    pub data: Option<serde_json::Value>,
    pub error: Option<String>,
}

/// The failure the direct/legacy path reports: no legacy transport is
/// wired into this core.
pub open spec fn legacy_response(r: SMSResponse) -> bool {
    &&& !r.success
    &&& r.sms_id is None
    &&& r.status is None
    &&& r.provider@ == "legacy"@
    &&& r.data is None
    &&& (r.error matches Some(e) && e@ == "Legacy service not available"@)
}

/// The failure the microservice path reports when it may not fall back.
pub open spec fn microservice_unavailable_response(r: SMSResponse) -> bool {
    &&& !r.success
    &&& r.sms_id is None
    &&& r.status is None
    &&& r.provider@ == "microservice"@
    &&& r.data is None
    &&& (r.error matches Some(e) && e@ == "Microservice unavailable"@)
}

/// Relies on std::time::SystemTime (now, duration_since): milliseconds of
/// wall clock since the Unix epoch. The value depends on the machine's
/// clock, so nothing is promised of it.
#[verifier::external_body]
fn now_millis() -> u64 {
    match std::time::SystemTime::now().duration_since(std::time::UNIX_EPOCH) {
        Ok(d) => d.as_millis() as u64,
        Err(_) => 0,
    }
}

/// Router of the SMS channel: picks the delivery path per request and
/// wraps every attempt with one telemetry event.
pub struct SMSAdapter {
    pub base: BaseAdapter,
}

impl SMSAdapter {
    pub fn new(settings: Settings) -> (r: Self)
        ensures
            r.base.service_name@ == "sms"@,
            r.base.settings == settings,
            r.base.use_microservice == spec_microservice_enabled(settings, "sms"@),
            r.base.fallback_enabled == spec_fallback_enabled(settings, "sms"@),
    {
        SMSAdapter { base: BaseAdapter::new(String::from_str("sms"), settings) }
    }

    /// Sends one text message along the configured path and reports the
    /// outcome together with the attempt's telemetry event. The
    /// microservice path is a stub: with fallback enabled it defers to the
    /// direct/legacy path, otherwise it reports the microservice
    /// unavailable; the legacy path reports that no transport is wired in.
    pub fn send_sms(
        &self,
        to: &str,
        message: &str,
        account_id: &str,
        project_id: Option<&str>,
        from_number: Option<&str>,
    ) -> (r: (SMSResponse, TelemetryEvent))
        ensures
            self.base.use_microservice && !self.base.fallback_enabled
                ==> microservice_unavailable_response(r.0),
            !(self.base.use_microservice && !self.base.fallback_enabled) ==> legacy_response(r.0),
            r.1.service@ == self.base.service_name@,
            r.1.operation@ == "send_sms"@,
            r.1.provider@ == r.0.provider@,
            r.1.success == r.0.success,
    {
        let start = now_millis();
        let result = if self.base.use_microservice {
            self.send_via_microservice(to, message, account_id, project_id, from_number)
        } else {
            self.send_via_legacy(to, message, account_id, project_id, from_number)
        };
        let end = now_millis();
        let duration_ms = if end >= start {
            end - start
        } else {
            0
        };
        let ev = self.base.track_request(
            "send_sms",
            result.provider.as_str(),
            result.success,
            duration_ms,
        );
        (result, ev)
    }

    fn send_via_microservice(
        &self,
        to: &str,
        message: &str,
        account_id: &str,
        project_id: Option<&str>,
        from_number: Option<&str>,
    ) -> (r: SMSResponse)
        ensures
            self.base.fallback_enabled ==> legacy_response(r),
            !self.base.fallback_enabled ==> microservice_unavailable_response(r),
    {
        if self.base.fallback_enabled {
            return self.send_via_legacy(to, message, account_id, project_id, from_number);
        }
        SMSResponse {
            success: false,
            sms_id: None,
            status: None,
            provider: String::from_str("microservice"),
            data: None,
            error: Some(String::from_str("Microservice unavailable")),
        }
    }

    fn send_via_legacy(
        &self,
        _to: &str,
        _message: &str,
        _account_id: &str,
        _project_id: Option<&str>,
        _from_number: Option<&str>,
    ) -> (r: SMSResponse)
        ensures
            legacy_response(r),
    {
        SMSResponse {
            success: false,
            sms_id: None,
            status: None,
            provider: String::from_str("legacy"),
            data: None,
            error: Some(String::from_str("Legacy service not available")),
        }
    }
}

} // verus!
