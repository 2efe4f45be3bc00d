//! Small helpers shared by several programs: a platform-specific executable
//! name, directory creation that tolerates an existing directory, and the
//! bookkeeping behind log rotation and logger setup.
pub mod error;
pub mod dirs;
pub mod logging;
pub mod platform;
pub mod rotation;
pub mod timestamp;

pub use error::Error;
pub use logging::LoggingConfig;
