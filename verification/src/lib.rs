//! Logging adapter for a native component hosted by a managed runtime.
//!
//! Native code logs through the ordinary logging facade; the adapter
//! forwards every record across the foreign-function boundary to a host
//! logger object, translating between the two leveling schemes and
//! containing every native-side failure so that a broken logger can never
//! become the reason the host application itself fails.

pub mod adapter;
pub mod bridge;
mod facade;
pub mod format;
mod host;
pub mod level;

pub use adapter::AdapterError;
pub use adapter::SLF4JLogger;
pub use bridge::finish_initialization;
pub use bridge::set_max_level_from_slf4j_level;
pub use bridge::test_record;
pub use format::LogRecord;
pub use level::Level;
pub use level::SLF4JLogLevel;
