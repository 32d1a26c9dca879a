//! Verified core of the water-powered trip-hammer monitoring backend: alert
//! levels and alert rate limiting, cam-profile naming and dispatch, lift
//! sample normalisation, sensor batching, query text for the time-series
//! store, and metric registration.
pub mod text;
pub mod alerts;
pub mod rate_limiter;
pub mod alarm_gate;
pub mod lift_samples;
pub mod cam_profile;
pub mod store_queries;
pub mod batching;
pub mod metrics;
pub mod config;
pub mod design_feedback;
