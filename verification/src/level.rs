use vstd::prelude::*;

verus! {

/// Severity of a log record, and of the logger's threshold.
///
/// The five real severities are ordered `Error > Warning > Debug > Info >
/// Trace`.  `Off` sits outside that order: as a threshold it drops every
/// record, and as the severity of a record it marks a plain-text emission,
/// which every threshold but `Off` admits.  `ALL` is the "always admit"
/// sentinel, only ever a threshold and never the severity of a record; it is
/// the default when no threshold has been configured and it renders as the
/// empty label.
#[derive(Copy, Clone, Debug, PartialEq, Eq, Structural)]
pub enum LogLevel {
    /// Error level.
    Error,
    /// Warning level.
    Warning,
    /// Debug level.
    Debug,
    /// Info level.
    Info,
    /// Trace level.
    Trace,
    /// Off level.
    Off,
    /// The "always admit" sentinel, used only as a threshold.
    ALL,
}

impl LogLevel {
    /// Position in the severity order; a larger rank is more severe.
    pub open spec fn rank(self) -> int {
        match self {
            LogLevel::Error => 5,
            LogLevel::Warning => 4,
            LogLevel::Debug => 3,
            LogLevel::Info => 2,
            LogLevel::Trace => 1,
            LogLevel::Off => 0,
            LogLevel::ALL => -1,
        }
    }

    /// The uppercase textual label of this severity, as a sequence of
    /// characters.
    pub open spec fn label_spec(self) -> Seq<char> {
        match self {
            LogLevel::Error => "ERROR"@,
            LogLevel::Warning => "WARNING"@,
            LogLevel::Debug => "DEBUG"@,
            LogLevel::Info => "INFO"@,
            LogLevel::Trace => "TRACE"@,
            LogLevel::Off => "OFF"@,
            LogLevel::ALL => ""@,
        }
    }

    /// The uppercase textual label of this severity; the sentinel renders as
    /// the empty string.
    pub fn label(&self) -> (r: &'static str)
        ensures
            r@ == self.label_spec(),
    {
        match self {
            LogLevel::Error => "ERROR",
            LogLevel::Warning => "WARNING",
            LogLevel::Debug => "DEBUG",
            LogLevel::Info => "INFO",
            LogLevel::Trace => "TRACE",
            LogLevel::Off => "OFF",
            LogLevel::ALL => "",
        }
    }

    /// The rank as a runtime value.
    fn rank_val(&self) -> (r: i8)
        ensures
            r as int == self.rank(),
    {
        match self {
            LogLevel::Error => 5,
            LogLevel::Warning => 4,
            LogLevel::Debug => 3,
            LogLevel::Info => 2,
            LogLevel::Trace => 1,
            LogLevel::Off => 0,
            LogLevel::ALL => -1,
        }
    }

    /// Whether a threshold of `self` admits a record of severity `level`:
    /// `Off` drops everything; every other threshold admits plain-text
    /// (severity-`Off`) records, and severity-gated records exactly when the
    /// record is at least as severe.  The sentinel has the least rank, so as
    /// a threshold it admits everything.
    pub open spec fn admits_spec(self, level: LogLevel) -> bool {
        self != LogLevel::Off && (level == LogLevel::Off || self.rank() <= level.rank())
    }

    /// Decides admission of a record of severity `level` under threshold
    /// `self`.
    pub fn admits(self, level: LogLevel) -> (b: bool)
        ensures
            b == self.admits_spec(level),
    {
        self != LogLevel::Off && (level == LogLevel::Off || self.rank_val() <= level.rank_val())
    }
}

/// ASCII lowercase folding of one character: uppercase ASCII letters map to
/// their lowercase counterparts, every other character is unchanged.
pub open spec fn lower_char(c: char) -> char {
    match c {
        'A' => 'a',
        'B' => 'b',
        'C' => 'c',
        'D' => 'd',
        'E' => 'e',
        'F' => 'f',
        'G' => 'g',
        'H' => 'h',
        'I' => 'i',
        'J' => 'j',
        'K' => 'k',
        'L' => 'l',
        'M' => 'm',
        'N' => 'n',
        'O' => 'o',
        'P' => 'p',
        'Q' => 'q',
        'R' => 'r',
        'S' => 's',
        'T' => 't',
        'U' => 'u',
        'V' => 'v',
        'W' => 'w',
        'X' => 'x',
        'Y' => 'y',
        'Z' => 'z',
        _ => c,
    }
}

/// ASCII lowercase folding of a whole sequence of characters.
pub open spec fn fold_lower(s: Seq<char>) -> Seq<char> {
    s.map_values(|c: char| lower_char(c))
}

/// ASCII lowercase folding of one character, at runtime.
fn lower_exec(c: char) -> (d: char)
    ensures
        d == lower_char(c),
{
    match c {
        'A' => 'a',
        'B' => 'b',
        'C' => 'c',
        'D' => 'd',
        'E' => 'e',
        'F' => 'f',
        'G' => 'g',
        'H' => 'h',
        'I' => 'i',
        'J' => 'j',
        'K' => 'k',
        'L' => 'l',
        'M' => 'm',
        'N' => 'n',
        'O' => 'o',
        'P' => 'p',
        'Q' => 'q',
        'R' => 'r',
        'S' => 's',
        'T' => 't',
        'U' => 'u',
        'V' => 'v',
        'W' => 'w',
        'X' => 'x',
        'Y' => 'y',
        'Z' => 'z',
        _ => c,
    }
}

/// Whether `s`, folded to ASCII lowercase, equals `t`.
fn eq_fold(s: &str, t: &str) -> (b: bool)
    ensures
        b == (fold_lower(s@) == t@),
{
    let n: usize = s.unicode_len();
    if n != t.unicode_len() {
        proof {
            assert(fold_lower(s@).len() == s@.len());
        }
        return false;
    }
    let mut i: usize = 0;
    while i < n
        invariant
            0 <= i <= n,
            n == s@.len(),
            t@.len() == n,
            forall|j: int| 0 <= j < i ==> lower_char(s@[j]) == t@[j],
        decreases n - i,
    {
        if lower_exec(s.get_char(i)) != t.get_char(i) {
            proof {
                assert(fold_lower(s@)[i as int] != t@[i as int]);
            }
            return false;
        }
        i += 1;
    }
    proof {
        assert(fold_lower(s@) =~= t@);
    }
    true
}

/// The severity selected by a configuration string: the recognised names and
/// numeric aliases, compared after ASCII lowercase folding, map to their
/// severities, and anything else selects the "always admit" sentinel.
pub open spec fn parse_level_spec(s: Seq<char>) -> LogLevel {
    let t = fold_lower(s);
    if t == "error"@ || t == "5"@ {
        LogLevel::Error
    } else if t == "warning"@ || t == "warn"@ || t == "4"@ {
        LogLevel::Warning
    } else if t == "debug"@ || t == "3"@ {
        LogLevel::Debug
    } else if t == "info"@ || t == "2"@ {
        LogLevel::Info
    } else if t == "trace"@ || t == "1"@ {
        LogLevel::Trace
    } else if t == "off"@ || t == "0"@ {
        LogLevel::Off
    } else {
        LogLevel::ALL
    }
}

/// Maps a configuration string to a severity, case-insensitively; unknown
/// strings select the "always admit" sentinel.
pub fn parse_level(s: &str) -> (l: LogLevel)
    ensures
        l == parse_level_spec(s@),
{
    if eq_fold(s, "error") || eq_fold(s, "5") {
        LogLevel::Error
    } else if eq_fold(s, "warning") || eq_fold(s, "warn") || eq_fold(s, "4") {
        LogLevel::Warning
    } else if eq_fold(s, "debug") || eq_fold(s, "3") {
        LogLevel::Debug
    } else if eq_fold(s, "info") || eq_fold(s, "2") {
        LogLevel::Info
    } else if eq_fold(s, "trace") || eq_fold(s, "1") {
        LogLevel::Trace
    } else if eq_fold(s, "off") || eq_fold(s, "0") {
        LogLevel::Off
    } else {
        LogLevel::ALL
    }
}

/// A severity label holds only uppercase letters: in particular no bracket
/// and no newline, so it stays inside its bracketed field of a line.
pub proof fn lemma_label_chars(l: LogLevel)
    ensures
        forall|i: int| 0 <= i < l.label_spec().len() ==> l.label_spec()[i] != '[' && l.label_spec()[
            i
        ] != ']' && l.label_spec()[i] != '\n',
{
    reveal_strlit("ERROR");
    reveal_strlit("WARNING");
    reveal_strlit("DEBUG");
    reveal_strlit("INFO");
    reveal_strlit("TRACE");
    reveal_strlit("OFF");
    reveal_strlit("");
}

/// The threshold gate: `Off` as a threshold admits nothing, the sentinel
/// admits everything, every other threshold admits plain-text
/// (severity-`Off`) records, and a real severity as a threshold admits
/// exactly the severity-gated records that are at least as severe.
pub proof fn lemma_threshold_gate(threshold: LogLevel, severity: LogLevel)
    ensures
        threshold == LogLevel::Off ==> !threshold.admits_spec(severity),
        threshold == LogLevel::ALL ==> threshold.admits_spec(severity),
        severity == LogLevel::Off && threshold != LogLevel::Off ==> threshold.admits_spec(
            severity,
        ),
        threshold != LogLevel::Off && threshold != LogLevel::ALL && severity != LogLevel::Off
            ==> (threshold.admits_spec(severity) <==> severity.rank() >= threshold.rank()),
{
}

} // verus!
