//! Verified core of a small Postgres benchmarking tool.
//!
//! The library resolves configuration, builds connection strings and SQL
//! statement plans, and proves over an abstract database model what the
//! write and read workloads do. All I/O (database, HTTP, environment)
//! lives outside the library.

pub mod config;
pub mod model;
pub mod workload;

pub use config::Config;
pub use config::ConfigError;
pub use config::Mode;
pub use config::connection_string;
pub use config::invalid_mode_message;
pub use config::parse_mode;
pub use config::resolve_config;
pub use config::suspend_url;
pub use workload::READ_RUNS;
pub use workload::SqlStatement;
pub use workload::WorkloadError;
pub use workload::read_query_sql;
pub use workload::write_plan;
