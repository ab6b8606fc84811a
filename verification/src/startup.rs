//! The order in which the service comes up, and which failures end it.
//!
//! The caller does the outside work of each stage (opens the database
//! client, pings, binds, serves) and reports how it ended; [`Startup`]
//! decides what comes next and what is written to the log.

use vstd::prelude::*;
use vstd::string::StringExecFns;

verus! {

/// Written to standard output after a successful ping.
pub const CONNECTED_LINE: &'static str = "Connected to MongoDB successfully!";

/// Starts the line written to standard error after a failed ping.
pub const PING_FAILED_PREFIX: &'static str = "Failed to ping MongoDB: ";

/// Starts the line written to standard output before the listener binds.
pub const LISTENING_PREFIX: &'static str = "Listening on ";

/// What the service does next.
#[derive(Clone, Copy, Debug, PartialEq, Eq, Structural)]
pub enum Stage {
    /// Build the database client from the connection URI.
    Connect,
    /// Send one ping to the database.
    Ping,
    /// Bind the listener.
    Bind,
    /// Serve requests until the server returns.
    Serve,
    /// The server returned without an error: nothing is left to do.
    Finished,
    /// A fatal error: the process ends at once.
    Aborted,
}

/// How the outside work of a stage ended.
#[derive(Debug, PartialEq, Eq)]
pub enum StepResult {
    Done,
    /// It failed; the string describes the error.
    Failed(String),
}

impl Clone for StepResult {
    fn clone(&self) -> (copy: StepResult)
        ensures
            copy == *self,
    {
        match self {
            StepResult::Done => StepResult::Done,
            StepResult::Failed(error) => StepResult::Failed(error.clone()),
        }
    }
}

/// An output stream of the process.
#[derive(Clone, Copy, Debug, PartialEq, Eq, Structural)]
pub enum Stream {
    Stdout,
    Stderr,
}

/// One line for the log, without its line end.
#[derive(Debug, PartialEq, Eq)]
pub struct LogLine {
    pub stream: Stream,
    pub text: String,
}

impl Clone for LogLine {
    fn clone(&self) -> (copy: LogLine)
        ensures
            copy == *self,
    {
        LogLine { stream: self.stream, text: self.text.clone() }
    }
}

impl View for LogLine {
    type V = (Stream, Seq<char>);

    open spec fn view(&self) -> (Stream, Seq<char>) {
        (self.stream, self.text@)
    }
}

/// The stage after `stage`, given whether the work of `stage` succeeded.
/// Only the ping may fail without ending the startup.
pub open spec fn next_stage(stage: Stage, succeeded: bool) -> Stage {
    match stage {
        Stage::Connect => if succeeded { Stage::Ping } else { Stage::Aborted },
        Stage::Ping => Stage::Bind,
        Stage::Bind => if succeeded { Stage::Serve } else { Stage::Aborted },
        Stage::Serve => if succeeded { Stage::Finished } else { Stage::Aborted },
        Stage::Finished => Stage::Finished,
        Stage::Aborted => Stage::Aborted,
    }
}

/// The line that reports the ping.
pub open spec fn ping_report(result: StepResult) -> (Stream, Seq<char>) {
    match result {
        StepResult::Done => (Stream::Stdout, CONNECTED_LINE@),
        StepResult::Failed(error) => (Stream::Stderr, PING_FAILED_PREFIX@ + error@),
    }
}

/// The lines written when the work of `stage` has ended with `result`: after
/// the ping its report and the listener's address, nothing after any other
/// stage.
pub open spec fn log_after(stage: Stage, result: StepResult, listen_addr: Seq<char>) -> Seq<
    (Stream, Seq<char>),
> {
    if stage == Stage::Ping {
        seq![ping_report(result), (Stream::Stdout, LISTENING_PREFIX@ + listen_addr)]
    } else {
        Seq::empty()
    }
}

/// Where the startup stands.
pub struct Startup {
    stage: Stage,
    listen_addr: String,
}

/// What a [`Startup`] stands for: its stage, and the address that it
/// announces before the listener binds.
pub struct StartupState {
    pub stage: Stage,
    pub listen_addr: Seq<char>,
}

impl View for Startup {
    type V = StartupState;

    closed spec fn view(&self) -> StartupState {
        StartupState { stage: self.stage, listen_addr: self.listen_addr@ }
    }
}

impl Startup {
    /// A startup at its first stage. `listen_addr` is the listener's address
    /// as the log shows it.
    pub fn new(listen_addr: String) -> (startup: Startup)
        ensures
            startup@.stage == Stage::Connect,
            startup@.listen_addr == listen_addr@,
    {
        Startup { stage: Stage::Connect, listen_addr }
    }

    /// The stage whose work is due.
    pub fn stage(&self) -> (stage: Stage)
        ensures
            stage == self@.stage,
    {
        self.stage
    }

    /// Takes the result of the current stage's work, moves to the next stage
    /// and returns the lines to write, in order.
    pub fn advance(&mut self, result: &StepResult) -> (lines: Vec<LogLine>)
        ensures
            final(self)@.stage == next_stage(old(self)@.stage, *result is Done),
            final(self)@.listen_addr == old(self)@.listen_addr,
            lines@.map_values(|line: LogLine| line@) == log_after(
                old(self)@.stage,
                *result,
                old(self)@.listen_addr,
            ),
    {
        let succeeded = match result {
            StepResult::Done => true,
            StepResult::Failed(_) => false,
        };
        let mut lines: Vec<LogLine> = Vec::new();
        let next = match self.stage {
            Stage::Connect => if succeeded { Stage::Ping } else { Stage::Aborted },
            Stage::Ping => {
                let report = match result {
                    StepResult::Done => LogLine {
                        stream: Stream::Stdout,
                        text: String::from_str(CONNECTED_LINE),
                    },
                    StepResult::Failed(error) => LogLine {
                        stream: Stream::Stderr,
                        text: String::from_str(PING_FAILED_PREFIX).concat(error.as_str()),
                    },
                };
                lines.push(report);
                lines.push(
                    LogLine {
                        stream: Stream::Stdout,
                        text: String::from_str(LISTENING_PREFIX).concat(self.listen_addr.as_str()),
                    },
                );
                Stage::Bind
            },
            Stage::Bind => if succeeded { Stage::Serve } else { Stage::Aborted },
            Stage::Serve => if succeeded { Stage::Finished } else { Stage::Aborted },
            Stage::Finished => Stage::Finished,
            Stage::Aborted => Stage::Aborted,
        };
        self.stage = next;
        assert(lines@.map_values(|line: LogLine| line@) =~= log_after(
            old(self)@.stage,
            *result,
            old(self)@.listen_addr,
        ));
        lines
    }
}

/// The stage reached from the start when the client, the ping and the bind
/// ended as given.
pub open spec fn stage_after_bind(connected: bool, pinged: bool, bound: bool) -> Stage {
    next_stage(next_stage(next_stage(Stage::Connect, connected), pinged), bound)
}

/// The service comes to serve exactly when the client was built and the
/// listener was bound. How the ping ended plays no part: with an unreachable
/// database the listener still runs.
pub proof fn serves_whatever_the_ping(connected: bool, pinged: bool, bound: bool)
    ensures
        stage_after_bind(connected, pinged, bound) == Stage::Serve <==> connected && bound,
        !(connected && bound) ==> stage_after_bind(connected, pinged, bound) == Stage::Aborted,
{
}

/// A startup that has ended, either way, stays ended and writes nothing.
pub proof fn ended_stays_ended(stage: Stage, result: StepResult, listen_addr: Seq<char>)
    requires
        stage == Stage::Finished || stage == Stage::Aborted,
    ensures
        next_stage(stage, result is Done) == stage,
        log_after(stage, result, listen_addr).len() == 0,
{
}

} // verus!
