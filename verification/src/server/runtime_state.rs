//! The state that the lifecycle of a server keeps: whether it runs, the last
//! error, request and error counters, and the most recent log entries. The
//! state is an owned value; whoever manages the lifecycle hands it round.

use crate::text::concat2;
use vstd::prelude::*;

verus! {

/// The largest number of log entries that are kept.
pub const MAX_LOG_ENTRIES: usize = 100;

/// The number of log entries that are handed out where no limit is asked for.
pub const DEFAULT_LOG_LIMIT: usize = 50;

/// One entry of the server log.
#[derive(Debug, PartialEq, Eq)]
pub struct ServerLogEntry {
    /// Seconds since the epoch.
    pub timestamp: u64,
    pub level: String,
    pub message: String,
}

/// The mathematical content of a [`ServerLogEntry`].
pub ghost struct LogEntryView {
    pub timestamp: u64,
    pub level: Seq<char>,
    pub message: Seq<char>,
}

impl View for ServerLogEntry {
    type V = LogEntryView;

    open spec fn view(&self) -> LogEntryView {
        LogEntryView { timestamp: self.timestamp, level: self.level@, message: self.message@ }
    }
}

impl Clone for ServerLogEntry {
    fn clone(&self) -> (r: Self)
        ensures
            r@ == self@,
    {
        ServerLogEntry {
            timestamp: self.timestamp,
            level: self.level.clone(),
            message: self.message.clone(),
        }
    }
}

/// The counters of a server at one moment.
#[derive(Clone, Copy, Debug, PartialEq, Eq, Structural)]
pub struct ServerMetrics {
    pub uptime_seconds: u64,
    pub request_count: u64,
    pub error_count: u64,
    pub is_running: bool,
    pub start_time: u64,
    pub current_time: u64,
}

/// The state of a server's lifecycle.
#[derive(Debug)]
pub struct ServerRuntimeState {
    running: bool,
    error: Option<String>,
    request_count: u64,
    error_count: u64,
    start_time: u64,
    logs: Vec<ServerLogEntry>,
}

/// The mathematical content of a [`ServerRuntimeState`].
pub ghost struct RuntimeView {
    pub running: bool,
    pub error: Option<Seq<char>>,
    pub request_count: u64,
    pub error_count: u64,
    pub start_time: u64,
    /// The log, oldest entry first.
    pub logs: Seq<LogEntryView>,
}

/// The log after an entry was added: the newest entries, at most
/// [`MAX_LOG_ENTRIES`] of them.
pub open spec fn logged(logs: Seq<LogEntryView>, entry: LogEntryView) -> Seq<LogEntryView> {
    let all = logs.push(entry);
    if all.len() > MAX_LOG_ENTRIES {
        all.skip(all.len() - MAX_LOG_ENTRIES)
    } else {
        all
    }
}

/// The number of entries that a request for recent logs gets: the limit, 50
/// where none is given, but no more than 100 and no more than there are.
pub open spec fn recent_count(available: nat, limit: Option<usize>) -> nat {
    let asked = match limit {
        Some(n) => n,
        None => DEFAULT_LOG_LIMIT,
    };
    let capped = if asked > MAX_LOG_ENTRIES {
        MAX_LOG_ENTRIES
    } else {
        asked
    };
    if capped as nat > available {
        available
    } else {
        capped as nat
    }
}

/// The most recent log entries, newest first.
pub open spec fn recent(logs: Seq<LogEntryView>, limit: Option<usize>) -> Seq<LogEntryView> {
    Seq::new(recent_count(logs.len(), limit), |i: int| logs[logs.len() - 1 - i])
}

/// The status of a server in one word: `stopped`, `running`, or `error:` with
/// the error of a server that runs and has one.
pub open spec fn status_text(state: RuntimeView) -> Seq<char> {
    if state.running {
        match state.error {
            Some(error) => "error: "@ + error,
            None => "running"@,
        }
    } else {
        "stopped"@
    }
}

/// The seconds for which a server has been up: none for a server that was
/// never started, and none where the clock is behind the start.
pub open spec fn uptime(start_time: u64, now: u64) -> u64 {
    if start_time > 0 && now >= start_time {
        (now - start_time) as u64
    } else {
        0
    }
}

/// A counter after one more was counted; it stays at the largest number.
pub open spec fn counted(count: u64) -> u64 {
    if count < u64::MAX {
        (count + 1) as u64
    } else {
        count
    }
}

/// The entries of a list with their mathematical content.
pub open spec fn entries_view(entries: Seq<ServerLogEntry>) -> Seq<LogEntryView> {
    Seq::new(entries.len(), |i: int| entries[i]@)
}

impl View for ServerRuntimeState {
    type V = RuntimeView;

    closed spec fn view(&self) -> RuntimeView {
        RuntimeView {
            running: self.running,
            error: match self.error {
                Some(e) => Some(e@),
                None => None,
            },
            request_count: self.request_count,
            error_count: self.error_count,
            start_time: self.start_time,
            logs: entries_view(self.logs@),
        }
    }
}

impl ServerRuntimeState {
    #[verifier::type_invariant]
    spec fn log_is_bounded(&self) -> bool {
        self.logs@.len() <= MAX_LOG_ENTRIES
    }

    /// The state of a server that was never started.
    pub fn new() -> (r: Self)
        ensures
            r@ == (RuntimeView {
                running: false,
                error: None,
                request_count: 0,
                error_count: 0,
                start_time: 0,
                logs: Seq::empty(),
            }),
    {
        let r = ServerRuntimeState {
            running: false,
            error: None,
            request_count: 0,
            error_count: 0,
            start_time: 0,
            logs: Vec::new(),
        };
        assert(r@.logs =~= Seq::<LogEntryView>::empty());
        r
    }

    /// Whether the server runs.
    pub fn is_running(&self) -> (r: bool)
        ensures
            r == self@.running,
    {
        self.running
    }

    /// Adds an entry to the log. The log keeps the newest entries and drops
    /// the oldest beyond its bound.
    pub fn log_event(&mut self, now: u64, level: &str, message: &str)
        ensures
            final(self)@.logs == logged(
                old(self)@.logs,
                LogEntryView { timestamp: now, level: level@, message: message@ },
            ),
            final(self)@.logs.len() <= MAX_LOG_ENTRIES,
            final(self)@.running == old(self)@.running,
            final(self)@.error == old(self)@.error,
            final(self)@.request_count == old(self)@.request_count,
            final(self)@.error_count == old(self)@.error_count,
            final(self)@.start_time == old(self)@.start_time,
    {
        proof {
            use_type_invariant(&*self);
        }
        let entry = ServerLogEntry {
            timestamp: now,
            level: String::from_str(level),
            message: String::from_str(message),
        };
        let mut logs: Vec<ServerLogEntry> = Vec::new();
        core::mem::swap(&mut self.logs, &mut logs);
        if logs.len() >= MAX_LOG_ENTRIES {
            let _ = logs.remove(0);
        }
        logs.push(entry);
        core::mem::swap(&mut self.logs, &mut logs);
    }

    /// The most recent log entries, newest first.
    pub fn recent_logs(&self, limit: Option<usize>) -> (r: Vec<ServerLogEntry>)
        ensures
            entries_view(r@) == recent(self@.logs, limit),
    {
        proof {
            use_type_invariant(self);
        }
        let asked = match limit {
            Some(n) => n,
            None => DEFAULT_LOG_LIMIT,
        };
        let capped = if asked > MAX_LOG_ENTRIES {
            MAX_LOG_ENTRIES
        } else {
            asked
        };
        let count = if capped > self.logs.len() {
            self.logs.len()
        } else {
            capped
        };
        let mut out: Vec<ServerLogEntry> = Vec::new();
        let mut i: usize = 0;
        while i < count
            invariant
                i <= count <= self.logs.len(),
                out@.len() == i,
                forall|j: int| 0 <= j < i ==> out@[j]@ == self.logs@[self.logs.len() - 1 - j]@,
            decreases count - i,
        {
            out.push(self.logs[self.logs.len() - 1 - i].clone());
            i = i + 1;
        }
        out
    }

    /// The counters of the server at the time `now`.
    pub fn metrics(&self, now: u64) -> (r: ServerMetrics)
        ensures
            r == (ServerMetrics {
                uptime_seconds: uptime(self@.start_time, now),
                request_count: self@.request_count,
                error_count: self@.error_count,
                is_running: self@.running,
                start_time: self@.start_time,
                current_time: now,
            }),
    {
        let uptime_seconds = if self.start_time > 0 && now >= self.start_time {
            now - self.start_time
        } else {
            0
        };
        ServerMetrics {
            uptime_seconds,
            request_count: self.request_count,
            error_count: self.error_count,
            is_running: self.running,
            start_time: self.start_time,
            current_time: now,
        }
    }

    /// The status of the server in one word.
    pub fn status(&self) -> (r: String)
        ensures
            r@ == status_text(self@),
    {
        if self.running {
            match &self.error {
                Some(error) => concat2("error: ", error.as_str()),
                None => String::from_str("running"),
            }
        } else {
            String::from_str("stopped")
        }
    }

    /// Counts a request, if the server runs.
    pub fn record_request(&mut self)
        ensures
            final(self)@ == (RuntimeView {
                request_count: if old(self)@.running {
                    counted(old(self)@.request_count)
                } else {
                    old(self)@.request_count
                },
                ..old(self)@
            }),
    {
        proof {
            use_type_invariant(&*self);
        }
        if self.running && self.request_count < u64::MAX {
            self.request_count = self.request_count + 1;
        }
    }

    /// Counts a failed request, if the server runs.
    pub fn record_error(&mut self)
        ensures
            final(self)@ == (RuntimeView {
                error_count: if old(self)@.running {
                    counted(old(self)@.error_count)
                } else {
                    old(self)@.error_count
                },
                ..old(self)@
            }),
    {
        proof {
            use_type_invariant(&*self);
        }
        if self.running && self.error_count < u64::MAX {
            self.error_count = self.error_count + 1;
        }
    }

    /// Marks the server as starting at the time `now`: it counts as running,
    /// without an error, with its counters at zero. A server that runs
    /// already is left as it is, and the start is refused.
    pub fn begin_start(&mut self, now: u64) -> (r: Result<(), String>)
        ensures
            old(self)@.running ==> final(self)@ == old(self)@ && (r matches Err(message)
                && message@ == "Server is already running"@),
            !old(self)@.running ==> r is Ok && final(self)@ == (RuntimeView {
                running: true,
                error: None,
                request_count: 0,
                error_count: 0,
                start_time: now,
                logs: old(self)@.logs,
            }),
    {
        proof {
            use_type_invariant(&*self);
        }
        if self.running {
            return Err(String::from_str("Server is already running"));
        }
        self.running = true;
        self.error = None;
        self.request_count = 0;
        self.error_count = 0;
        self.start_time = now;
        Ok(())
    }

    /// Notes that the server could not start or stopped with an error: it
    /// does not run any more, and the error is kept.
    pub fn fail(&mut self, error: String)
        ensures
            final(self)@ == (RuntimeView { running: false, error: Some(error@), ..old(self)@ }),
    {
        proof {
            use_type_invariant(&*self);
        }
        self.running = false;
        self.error = Some(error);
    }

    /// Stops the server. Says whether there was anything to stop.
    pub fn stop(&mut self) -> (r: String)
        ensures
            final(self)@ == (RuntimeView { running: false, ..old(self)@ }),
            r@ == if old(self)@.running {
                "API server stopped"@
            } else {
                "Server is not running"@
            },
    {
        proof {
            use_type_invariant(&*self);
        }
        if !self.running {
            return String::from_str("Server is not running");
        }
        self.running = false;
        String::from_str("API server stopped")
    }

    /// Sets the counters back to zero.
    pub fn reset_counters(&mut self)
        ensures
            final(self)@ == (RuntimeView { request_count: 0, error_count: 0, ..old(self)@ }),
    {
        proof {
            use_type_invariant(&*self);
        }
        self.request_count = 0;
        self.error_count = 0;
    }
}

} // verus!
