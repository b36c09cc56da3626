//! Verified core logic of the Datadog sidecar: connection authorization,
//! EVP route selection and validation, IPC outbox coalescing, socket naming,
//! configuration parsing, and small trace helpers.

pub mod memcached;
pub mod text;
pub mod version;
pub mod numparse;
pub mod paths;
pub mod normalizer;
pub mod evp;
pub mod auth;
pub mod ids;
pub mod outbox;
pub mod config;
pub mod liaison;
pub mod assoc;
pub mod stats;
pub mod shm_names;
pub mod telemetry;
pub mod trace_flush;
pub mod sender;
pub mod wall_time;
pub mod appsec;
pub mod interface;
pub mod flag_evaluation;
pub mod ffe_flusher;
pub mod app_telemetry;
pub mod self_telemetry;
pub mod session;
pub mod server_stats;
pub mod debugger;
pub mod connection;
pub mod crashtracker;
