//! Pseudo-terminal session engine: the registry, id assignment, per-session
//! counters, terminal modes, window sizes and engine-wide statistics, with the
//! decisions taken around spawning, I/O, signals, child monitoring and teardown;
//! and the configuration sections that the terminal reads, with their rules.

pub mod config;
pub mod engine;
pub mod entries;
pub mod error;
pub mod laws;
pub mod pty_config;
pub mod sample_config;
pub mod session;

pub use config::{ConfigError, KeymapConfig, ModelConfig, ModelsConfig, TelemetryConfig};
pub use engine::{IoOutcome, SessionHandle, TtyEngine, TtyStats};
pub use error::TtyError;
pub use pty_config::PtyConfig;
pub use sample_config::generate_large_config;
pub use session::{PtySession, TerminalMode};
