use vstd::prelude::*;
use crate::clock;
use crate::level::{parse_level, parse_level_spec, LogLevel};
use crate::record::LogInfo;
use crate::render::{format_line, line_spec};

verus! {

/// The logger's own state: the severity threshold it gates records with, and
/// the name of the file its lines are appended to.  The file handle itself,
/// and the mutual exclusion around it, live with the caller that owns the
/// process-global slot; every handle to the one logger shares this state.
pub struct Logger {
    /// The current severity threshold.
    pub level: LogLevel,
    /// The path of the log file, kept for diagnostic introspection.
    pub filename: String,
}

/// The thread name a record is rendered with: the record's own, or the
/// caller-supplied name of the current thread.
pub open spec fn thread_label(info: LogInfo, fallback: Seq<char>) -> Seq<char> {
    match info.thread {
        Some(t) => t@,
        None => fallback,
    }
}

impl Logger {
    /// Whether two handles observe the same logger state: the same threshold
    /// and the same file name.
    pub open spec fn same_state(self, other: Logger) -> bool {
        self.level == other.level && self.filename@ == other.filename@
    }

    /// Builds a logger from the configured threshold string, if any, and the
    /// file name to write to.  An absent or unrecognised threshold selects
    /// the "always admit" sentinel.
    pub fn new(env_level: Option<&str>, filename: String) -> (r: Logger)
        ensures
            env_level matches Some(s) ==> r.level == parse_level_spec(s@),
            env_level is None ==> r.level == LogLevel::ALL,
            r.filename@ == filename@,
    {
        let level = match env_level {
            Some(s) => parse_level(s),
            None => LogLevel::ALL,
        };
        Logger { level, filename }
    }

    /// The file name the logger writes to: the configured one when present,
    /// else the compiled-in default `woody.log`.
    pub fn choose_filename(env_file: Option<String>) -> (r: String)
        ensures
            env_file matches Some(f) ==> r@ == f@,
            env_file is None ==> r@ == "woody.log"@,
    {
        match env_file {
            Some(f) => f,
            None => "woody.log".to_owned(),
        }
    }

    /// Sets the severity threshold; only records at least as severe are
    /// admitted from now on.
    pub fn set_level(&mut self, level: LogLevel)
        ensures
            final(self).level == level,
            final(self).filename@ == old(self).filename@,
    {
        self.level = level;
    }

    /// Gates a record against the threshold and renders it.  Returns the
    /// formatted line to be appended to the sink when the record is
    /// admitted, and `None` when the threshold drops it.  `fallback_thread`
    /// names the current thread for records that do not carry a name of
    /// their own.  The always-admit sentinel is only ever a threshold, never
    /// the severity of a record, so its empty label never reaches the
    /// output.
    pub fn log(&self, info: &LogInfo, fallback_thread: &str) -> (line: Option<String>)
        requires
            info.level != LogLevel::ALL,
        ensures
            line is Some <==> self.level.admits_spec(info.level),
            line matches Some(l) ==> exists|ts: Seq<char>|
                clock::timestamp_chars(ts) && l@ == line_spec(
                    ts,
                    info.level,
                    thread_label(*info, fallback_thread@),
                    info.filepath@,
                    info.line_number as nat,
                    info.message@,
                ),
    {
        if !self.level.admits(info.level) {
            return None;
        }
        let ts = clock::local_timestamp();
        let thread: &str = match &info.thread {
            Some(t) => t.as_str(),
            None => fallback_thread,
        };
        let l = format_line(
            ts.as_str(),
            info.level,
            thread,
            info.filepath,
            info.line_number,
            info.message.as_str(),
        );
        proof {
            assert(clock::timestamp_chars(ts@) && l@ == line_spec(
                ts@,
                info.level,
                thread_label(*info, fallback_thread@),
                info.filepath@,
                info.line_number as nat,
                info.message@,
            ));
        }
        Some(l)
    }

    /// Gates and renders a record as `log` does, but appends the line to the
    /// caller-supplied writer instead of handing it out; the sink is
    /// bypassed.  The writer is only ever appended to: what it held before
    /// the call is preserved, and a dropped record leaves it untouched.
    pub fn log_to_writer(&self, info: &LogInfo, fallback_thread: &str, writer: &mut String)
        requires
            info.level != LogLevel::ALL,
        ensures
            old(writer)@.is_prefix_of(final(writer)@),
            !self.level.admits_spec(info.level) ==> final(writer)@ == old(writer)@,
            self.level.admits_spec(info.level) ==> exists|ts: Seq<char>|
                clock::timestamp_chars(ts) && final(writer)@ == old(writer)@ + line_spec(
                    ts,
                    info.level,
                    thread_label(*info, fallback_thread@),
                    info.filepath@,
                    info.line_number as nat,
                    info.message@,
                ),
    {
        match self.log(info, fallback_thread) {
            Some(l) => writer.append(l.as_str()),
            None => (),
        }
    }

    /// One step of the singleton registry, `get_instance` below: what the
    /// returned handle and the state of the process-global slot are, given
    /// the slot's prior state and the configured threshold and file name.
    pub open spec fn registry_post(
        pre: Option<Logger>,
        env_level: Option<Seq<char>>,
        env_file: Option<Seq<char>>,
        post: Option<Logger>,
        r: Logger,
    ) -> bool {
        &&& post matches Some(stored) && stored.same_state(r)
        &&& match pre {
            Some(existing) => r.same_state(existing),
            None => {
                &&& r.level == match env_level {
                    Some(s) => parse_level_spec(s),
                    None => LogLevel::ALL,
                }
                &&& r.filename@ == match env_file {
                    Some(f) => f,
                    None => "woody.log"@,
                }
            },
        }
    }

    /// The registry step behind the process-wide singleton.  The caller owns
    /// the one global slot and holds its mutual exclusion around this call.
    /// The first call constructs the logger from the configuration and
    /// stores it; every later call returns a handle sharing the stored
    /// state, whatever configuration it is given.
    pub fn get_instance(
        slot: &mut Option<Logger>,
        env_level: Option<&str>,
        env_file: Option<String>,
    ) -> (r: Logger)
        ensures
            Logger::registry_post(
                *old(slot),
                env_level.deep_view(),
                env_file.deep_view(),
                *final(slot),
                r,
            ),
    {
        if slot.is_some() {
            let existing = slot.as_ref().unwrap();
            existing.clone()
        } else {
            let logger = Logger::new(env_level, Logger::choose_filename(env_file));
            *slot = Some(logger.clone());
            logger
        }
    }
}

impl Clone for Logger {
    /// A handle to the logger: the clone observes the same state.
    fn clone(&self) -> (r: Self)
        ensures
            r.same_state(*self),
    {
        Logger { level: self.level, filename: self.filename.clone() }
    }
}

/// Singleton identity: however the slot started, and whatever configuration
/// each call reads, any two successive registry steps hand out handles that
/// observe the same threshold and the same file name — later callers see the
/// first winner's logger.
pub proof fn lemma_singleton_identity(
    s0: Option<Logger>,
    lv1: Option<Seq<char>>,
    f1: Option<Seq<char>>,
    s1: Option<Logger>,
    r1: Logger,
    lv2: Option<Seq<char>>,
    f2: Option<Seq<char>>,
    s2: Option<Logger>,
    r2: Logger,
)
    requires
        Logger::registry_post(s0, lv1, f1, s1, r1),
        Logger::registry_post(s1, lv2, f2, s2, r2),
    ensures
        r2.same_state(r1),
        s2 matches Some(stored) && stored.same_state(r1),
{
}

} // verus!
