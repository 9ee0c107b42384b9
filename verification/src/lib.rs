//! Adapter core for bridging a leveled logging facade to a platform-native
//! structured logging subsystem: severity mapping, null-terminated text
//! marshaling, per-category log handles, and a concurrent category filter
//! registry that keeps the facade-wide advertised threshold aligned with the
//! most permissive filter.

mod dash;
pub mod handle;
pub mod level;
pub mod marshal;
pub mod registry;

pub use handle::Emission;
pub use handle::HandleIds;
pub use handle::OsLog;
pub use level::Level;
pub use level::Severity;
pub use registry::CategoryEntry;
pub use registry::OsLogger;
