use vstd::prelude::*;
use crate::text::{ascii_lower, lower, str_eq};

verus! {

/// Delivery-path switches of one channel, read once at startup.
#[derive(Clone, Debug)]
pub struct ChannelFlags {
    pub service: String,
    pub use_microservice: bool,
    pub fallback_enabled: bool,
}

/// Service-wide configuration: the internal shared secret and the
/// per-channel delivery-path switches.
#[derive(Clone, Debug)]
pub struct Settings {
    pub internal_api_secret: String,
    pub channels: Vec<ChannelFlags>,
}

/// The first channel entry whose service name matches, if any.
pub open spec fn spec_channel_lookup_from(
    channels: Seq<ChannelFlags>,
    service: Seq<char>,
    i: int,
) -> Option<ChannelFlags>
    decreases channels.len() - i,
{
    if i < 0 || i >= channels.len() {
        None
    } else if channels[i].service@ == service {
        Some(channels[i])
    } else {
        spec_channel_lookup_from(channels, service, i + 1)
    }
}

pub open spec fn spec_channel_lookup(channels: Seq<ChannelFlags>, service: Seq<char>) -> Option<
    ChannelFlags,
> {
    spec_channel_lookup_from(channels, service, 0)
}

/// Whether the channel is configured to attempt its delegated
/// microservice; channels without an entry default to the direct path.
pub open spec fn spec_microservice_enabled(s: Settings, service: Seq<char>) -> bool {
    match spec_channel_lookup(s.channels@, service) {
        Some(c) => c.use_microservice,
        None => false,
    }
}

/// Whether the channel falls back to the direct/legacy path when the
/// microservice path fails; the default is to fall back.
pub open spec fn spec_fallback_enabled(s: Settings, service: Seq<char>) -> bool {
    match spec_channel_lookup(s.channels@, service) {
        Some(c) => c.fallback_enabled,
        None => true,
    }
}

/// How an env-style boolean reads: "true" in any ASCII casing or "1"
/// means enabled, an absent value means the given default.
pub open spec fn spec_flag_value(v: Option<String>, default: bool) -> bool {
    match v {
        Some(s) => lower(s@) == "true"@ || s@ == "1"@,
        None => default,
    }
}

/// Interprets one env-style boolean value.
pub fn flag_from_env_value(v: &Option<String>, default: bool) -> (r: bool)
    ensures
        r == spec_flag_value(*v, default),
{
    match v {
        Some(s) => {
            let low = ascii_lower(s.as_str());
            str_eq(low.as_str(), "true") || str_eq(s.as_str(), "1")
        },
        None => default,
    }
}

impl Settings {
    pub fn new(internal_api_secret: String, channels: Vec<ChannelFlags>) -> (r: Self)
        ensures
            r.internal_api_secret == internal_api_secret,
            r.channels == channels,
    {
        Settings { internal_api_secret, channels }
    }

    fn channel_lookup(&self, service_name: &str) -> (r: Option<&ChannelFlags>)
        ensures
            match r {
                Some(c) => spec_channel_lookup(self.channels@, service_name@) == Some(*c),
                None => spec_channel_lookup(self.channels@, service_name@) is None,
            },
    {
        let n = self.channels.len();
        let mut i: usize = 0;
        while i < n
            invariant
                i <= n,
                n == self.channels@.len(),
                spec_channel_lookup(self.channels@, service_name@) == spec_channel_lookup_from(
                    self.channels@,
                    service_name@,
                    i as int,
                ),
            decreases n - i,
        {
            if str_eq(self.channels[i].service.as_str(), service_name) {
                return Some(&self.channels[i]);
            }
            i += 1;
        }
        None
    }

    /// Whether this channel is configured to use its delegated
    /// microservice (absent entries mean no).
    pub fn is_microservice_enabled(&self, service_name: &str) -> (r: bool)
        ensures
            r == spec_microservice_enabled(*self, service_name@),
    {
        match self.channel_lookup(service_name) {
            Some(c) => c.use_microservice,
            None => false,
        }
    }

    /// Whether this channel falls back to the legacy path on microservice
    /// failure (absent entries mean yes).
    pub fn is_fallback_enabled(&self, service_name: &str) -> (r: bool)
        ensures
            r == spec_fallback_enabled(*self, service_name@),
    {
        match self.channel_lookup(service_name) {
            Some(c) => c.fallback_enabled,
            None => true,
        }
    }
}

} // verus!
