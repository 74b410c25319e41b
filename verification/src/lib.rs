//! A very simple logging core, verified with Verus.
//!
//! A log record carries a severity, a message, the source file and line of the
//! call site, and an optional thread name.  The logger holds a severity
//! threshold and the name of the file it writes to; it admits or drops each
//! record against the threshold, and renders admitted records as single
//! `[timestamp] [LEVEL] [thread] [file:line] message` lines.  The surrounding
//! process keeps the one shared logger in a global slot; the registry step
//! that fills and reads that slot is modelled and verified here.

pub mod clock;
pub mod level;
pub mod logger;
pub mod record;
pub mod render;
pub mod temp_name;

pub use level::LogLevel;
pub use logger::Logger;
pub use record::LogInfo;
pub use temp_name::generate_temp_file_name;
