use vstd::prelude::*;
use crate::level::LogLevel;

verus! {

/// One log event's captured data, prior to formatting.
pub struct LogInfo {
    /// The severity of the event.
    pub level: LogLevel,
    /// The message to log, passed through verbatim.
    pub message: String,
    /// The source file of the call site.
    pub filepath: &'static str,
    /// The line number of the call site.
    pub line_number: u32,
    /// The name of the emitting thread; when absent, the logger falls back
    /// to the name the caller supplies for the current thread.
    pub thread: Option<String>,
}

impl Clone for LogInfo {
    /// A field-for-field copy of the record.
    fn clone(&self) -> (r: Self)
        ensures
            r.level == self.level,
            r.message@ == self.message@,
            r.filepath@ == self.filepath@,
            r.line_number == self.line_number,
            self.thread matches Some(t) ==> r.thread matches Some(rt) && rt@ == t@,
            self.thread is None ==> r.thread is None,
    {
        LogInfo {
            level: self.level,
            message: self.message.clone(),
            filepath: self.filepath,
            line_number: self.line_number,
            thread: match &self.thread {
                Some(t) => Some(t.clone()),
                None => None,
            },
        }
    }
}

} // verus!
