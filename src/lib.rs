//! Health and readiness probes for a qBittorrent daemon.
//!
//! The library holds the decisions: how the service configuration is
//! resolved from environment values, how the liveness probe turns torrent
//! counts into a verdict, and how the readiness probe classifies the
//! daemon's connection status. Reading the environment, talking to the
//! daemon and serving HTTP are left to the caller.
pub mod config;
pub mod port;
pub mod probe;

pub use config::{
    env_or_default, resolve_address, resolve_port, fallback_notices, AddressSetting, Config,
    ConfigError, Environment, IpAddress, Notice, DEFAULT_HOST, DEFAULT_PORT, DEFAULT_USERNAME,
};
pub use port::parse_u16;
pub use probe::{
    evaluate_liveness, evaluate_readiness, ConnectionState, ItemFilter, Liveness, LivenessProbe,
    QueryFailure, Readiness, NO_CONTENT, SERVICE_UNAVAILABLE,
};
