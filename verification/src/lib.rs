//! Gateway core of a multi-channel message-sending platform: a provider
//! adapter abstraction with a concurrency-friendly registry, a tiered
//! fixed-window rate governor, the internal-secret auth gate in front of
//! it, and the channel router that picks a delivery path per send attempt.

pub mod adapters;
pub mod config;
pub mod health;
pub mod internal_auth;
pub mod metrics;
pub mod ratelimit;
pub mod router;
pub mod text;
