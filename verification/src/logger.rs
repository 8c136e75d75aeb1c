//! Lifecycle-event logging.
//!
//! One append-only sink records every supervisor event as a line
//! `[<timestamp>] [<LEVEL>] <message>`.  The sink is created lazily and
//! fallibly: until it is attached — or when attaching it failed — a log call
//! still produces the formatted line for the console, it is merely not added
//! to the persisted record.  The driver prints every returned line and
//! appends the persisted ones to the log file; the timestamp text is
//! supplied by the driver, since only it can read the clock.

use vstd::prelude::*;

verus! {

/// Severity of one logged event.
#[derive(Clone, Copy, Debug, PartialEq, Eq, Structural)]
pub enum LogLevel {
    Info,
    Warn,
    Error,
}

/// The label a level prints as.
pub open spec fn label_of(level: LogLevel) -> Seq<char> {
    match level {
        LogLevel::Info => "INFO"@,
        LogLevel::Warn => "WARN"@,
        LogLevel::Error => "ERROR"@,
    }
}

/// One formatted log line: `[<timestamp>] [<LEVEL>] <message>`.
pub open spec fn line_of(timestamp: Seq<char>, level: LogLevel, message: Seq<char>) -> Seq<char> {
    "["@ + timestamp + "] ["@ + label_of(level) + "] "@ + message
}

/// Lifecycle of the persistent sink.
#[derive(Clone, Copy, Debug, PartialEq, Eq, Structural)]
pub enum SinkState {
    /// No attempt to open the persistent sink has been made yet.
    Uninitialized,
    /// The persistent sink is open; lines are recorded.
    Initialized,
    /// Opening the persistent sink failed; logging falls back to console only.
    Unavailable,
}

impl LogLevel {
    /// The label of this level.
    pub fn label(&self) -> (r: &'static str)
        ensures
            r@ == label_of(*self),
    {
        match self {
            LogLevel::Info => "INFO",
            LogLevel::Warn => "WARN",
            LogLevel::Error => "ERROR",
        }
    }
}

/// Format one log line from its parts.
pub fn format_line(timestamp: &str, level: LogLevel, message: &str) -> (r: String)
    ensures
        r@ == line_of(timestamp@, level, message@),
{
    let mut s = "[".to_owned();
    s.append(timestamp);
    s.append("] [");
    s.append(level.label());
    s.append("] ");
    s.append(message);
    s
}

/// The process-wide event log: the sink's lifecycle state and the model of
/// what has been persisted, in order.
pub struct EventLog {
    sink: SinkState,
    persisted: Vec<String>,
}

impl EventLog {
    /// The state of the persistent sink.
    pub closed spec fn sink_state(&self) -> SinkState {
        self.sink
    }

    /// The lines persisted so far, oldest first.
    pub closed spec fn record(&self) -> Seq<Seq<char>> {
        self.persisted.deep_view()
    }

    /// A fresh log: sink not yet initialized, nothing persisted.
    pub fn new() -> (l: EventLog)
        ensures
            l.sink_state() == SinkState::Uninitialized,
            l.record() == Seq::<Seq<char>>::empty(),
    {
        EventLog { sink: SinkState::Uninitialized, persisted: Vec::new() }
    }

    /// Record that the persistent sink was opened.  Only the first
    /// initialization attempt counts; afterwards the state is final.
    pub fn sink_opened(&mut self)
        ensures
            final(self).sink_state() == if old(self).sink_state() == SinkState::Uninitialized {
                SinkState::Initialized
            } else {
                old(self).sink_state()
            },
            final(self).record() == old(self).record(),
    {
        if let SinkState::Uninitialized = self.sink {
            self.sink = SinkState::Initialized;
        }
    }

    /// Record that opening the persistent sink failed; every later log call
    /// falls back to console only rather than failing.
    pub fn sink_failed(&mut self)
        ensures
            final(self).sink_state() == if old(self).sink_state() == SinkState::Uninitialized {
                SinkState::Unavailable
            } else {
                old(self).sink_state()
            },
            final(self).record() == old(self).record(),
    {
        if let SinkState::Uninitialized = self.sink {
            self.sink = SinkState::Unavailable;
        }
    }

    /// Log one event: the formatted line is returned for the console in
    /// every state, and appended to the persisted record exactly when the
    /// sink is initialized.  The record is append-only: nothing already
    /// persisted is ever dropped or changed.
    pub fn log(&mut self, timestamp: &str, level: LogLevel, message: &str) -> (line: String)
        ensures
            line@ == line_of(timestamp@, level, message@),
            final(self).sink_state() == old(self).sink_state(),
            final(self).record() == if old(self).sink_state() == SinkState::Initialized {
                old(self).record().push(line@)
            } else {
                old(self).record()
            },
    {
        let line = format_line(timestamp, level, message);
        if let SinkState::Initialized = self.sink {
            let copy = line.clone();
            self.persisted.push(copy);
            proof {
                assert(self.persisted.deep_view() =~= old(self).persisted.deep_view().push(line@));
            }
        }
        line
    }

    /// The persisted lines, for the driver to flush.
    pub fn persisted_lines(&self) -> (r: &Vec<String>)
        ensures
            r.deep_view() == self.record(),
    {
        &self.persisted
    }
}

} // verus!
