//! In-memory log of user actions and application events.

use vstd::prelude::*;

use crate::clock::now_millis;

verus! {

/// Most entries the log keeps; older ones are dropped first.
pub const MAX_LOG_ENTRIES: usize = 1000;

/// Severity of a log entry.
#[derive(Debug, Clone, Copy, PartialEq, Eq, Structural)]
pub enum LogLevel {
    Debug,
    Info,
    Success,
    Warning,
    Error,
}

/// One log entry: when, how severe, and what.
#[derive(Debug, Clone)]
pub struct LogEntry {
    /// Milliseconds since the Unix epoch.
    pub timestamp: i64,
    pub level: LogLevel,
    pub message: String,
}

/// What a log entry holds, as plain values.
pub type LogRecord = (i64, LogLevel, Seq<char>);

impl LogEntry {
    pub open spec fn record(&self) -> LogRecord {
        (self.timestamp, self.level, self.message@)
    }

    /// An entry stamped with the current time.
    pub fn new(level: LogLevel, message: String) -> (r: LogEntry)
        ensures
            r.level == level,
            r.message@ == message@,
            r.timestamp >= 0,
    {
        LogEntry { timestamp: now_millis(), level, message }
    }
}

/// The last `MAX_LOG_ENTRIES` records of `s`.
pub open spec fn capped(s: Seq<LogRecord>) -> Seq<LogRecord> {
    if s.len() > MAX_LOG_ENTRIES {
        s.subrange(s.len() - MAX_LOG_ENTRIES, s.len() as int)
    } else {
        s
    }
}

/// The records after appending one entry and dropping the oldest beyond the cap.
pub open spec fn after_log(s: Seq<LogRecord>, level: LogLevel, message: Seq<char>, at: i64) -> Seq<
    LogRecord,
> {
    capped(s.push((at, level, message)))
}

/// Collects log entries, oldest first, and a scroll position for display.
pub struct LogManager {
    entries: Vec<LogEntry>,
    scroll_offset: usize,
}

impl Default for LogManager {
    /// An empty log.
    fn default() -> (r: LogManager)
        ensures
            r.records() == Seq::<LogRecord>::empty(),
            r.scroll() == 0,
    {
        LogManager::new()
    }
}

impl LogManager {
    /// The entries, oldest first, as plain values.
    pub closed spec fn records(&self) -> Seq<LogRecord> {
        self.entries@.map_values(|e: LogEntry| e.record())
    }

    /// The scroll position, counted in entries.
    pub closed spec fn scroll(&self) -> nat {
        self.scroll_offset as nat
    }

    /// An empty log, scrolled to the bottom.
    pub fn new() -> (r: LogManager)
        ensures
            r.records() == Seq::<LogRecord>::empty(),
            r.scroll() == 0,
    {
        let r = LogManager { entries: Vec::new(), scroll_offset: 0 };
        assert(r.records() =~= Seq::<LogRecord>::empty());
        r
    }

    /// Appends an entry stamped `at`, keeping only the most recent
    /// `MAX_LOG_ENTRIES` entries.
    pub fn log_at(&mut self, level: LogLevel, message: String, at: i64)
        ensures
            final(self).records() == after_log(old(self).records(), level, message@, at),
            final(self).scroll() == old(self).scroll(),
    {
        let ghost full = self.records().push((at, level, message@));
        self.entries.push(LogEntry { timestamp: at, level, message });
        assert(self.records() =~= full);
        while self.entries.len() > MAX_LOG_ENTRIES
            invariant
                full.len() >= self.records().len(),
                self.records() =~= full.subrange(full.len() - self.records().len(), full.len() as int),
                self.records().len() >= MAX_LOG_ENTRIES || self.records() == full,
                self.scroll_offset == old(self).scroll_offset,
            decreases self.entries.len(),
        {
            let ghost before = self.records();
            self.entries.remove(0);
            assert(self.records() =~= before.subrange(1, before.len() as int));
        }
        assert(self.records() =~= capped(full));
    }

    /// Appends an entry stamped with the current time.
    pub fn log(&mut self, level: LogLevel, message: String)
        ensures
            exists|at: i64|
                at >= 0 && final(self).records() == after_log(
                    old(self).records(),
                    level,
                    message@,
                    at,
                ),
            final(self).scroll() == old(self).scroll(),
    {
        let at = now_millis();
        self.log_at(level, message, at);
    }

    /// Logs verbose detail.
    pub fn debug(&mut self, message: String)
        ensures
            exists|at: i64|
                at >= 0 && final(self).records() == after_log(
                    old(self).records(),
                    LogLevel::Debug,
                    message@,
                    at,
                ),
            final(self).scroll() == old(self).scroll(),
    {
        self.log(LogLevel::Debug, message);
    }

    /// Logs general information.
    pub fn info(&mut self, message: String)
        ensures
            exists|at: i64|
                at >= 0 && final(self).records() == after_log(
                    old(self).records(),
                    LogLevel::Info,
                    message@,
                    at,
                ),
            final(self).scroll() == old(self).scroll(),
    {
        self.log(LogLevel::Info, message);
    }

    /// Logs a successful operation.
    pub fn success(&mut self, message: String)
        ensures
            exists|at: i64|
                at >= 0 && final(self).records() == after_log(
                    old(self).records(),
                    LogLevel::Success,
                    message@,
                    at,
                ),
            final(self).scroll() == old(self).scroll(),
    {
        self.log(LogLevel::Success, message);
    }

    /// Logs a warning.
    pub fn warning(&mut self, message: String)
        ensures
            exists|at: i64|
                at >= 0 && final(self).records() == after_log(
                    old(self).records(),
                    LogLevel::Warning,
                    message@,
                    at,
                ),
            final(self).scroll() == old(self).scroll(),
    {
        self.log(LogLevel::Warning, message);
    }

    /// Logs an error.
    pub fn error(&mut self, message: String)
        ensures
            exists|at: i64|
                at >= 0 && final(self).records() == after_log(
                    old(self).records(),
                    LogLevel::Error,
                    message@,
                    at,
                ),
            final(self).scroll() == old(self).scroll(),
    {
        self.log(LogLevel::Error, message);
    }

    /// All entries, oldest first.
    pub fn entries(&self) -> (r: &[LogEntry])
        ensures
            r@.map_values(|e: LogEntry| e.record()) == self.records(),
    {
        self.entries.as_slice()
    }

    /// The scroll position.
    pub fn scroll_offset(&self) -> (r: usize)
        ensures
            r == self.scroll(),
    {
        self.scroll_offset
    }

    /// Scrolls one entry up, stopping at the top.
    pub fn scroll_up(&mut self)
        ensures
            final(self).records() == old(self).records(),
            final(self).scroll() == if old(self).scroll() > 0 {
                (old(self).scroll() - 1) as nat
            } else {
                0
            },
    {
        if self.scroll_offset > 0 {
            self.scroll_offset = self.scroll_offset - 1;
        }
    }

    /// Scrolls one entry down, while entries remain below a window of
    /// `visible_height` entries.
    pub fn scroll_down(&mut self, visible_height: usize)
        ensures
            final(self).records() == old(self).records(),
            final(self).scroll() == if old(self).scroll() + visible_height < old(
                self,
            ).records().len() {
                old(self).scroll() + 1
            } else {
                old(self).scroll()
            },
    {
        let n = self.entries.len();
        let max_scroll: usize = if n > visible_height {
            n - visible_height
        } else {
            0
        };
        if self.scroll_offset < max_scroll {
            self.scroll_offset = self.scroll_offset + 1;
        }
    }

    /// Returns the view to the most recent entries.
    pub fn scroll_to_bottom(&mut self)
        ensures
            final(self).records() == old(self).records(),
            final(self).scroll() == 0,
    {
        self.scroll_offset = 0;
    }
}

} // verus!
