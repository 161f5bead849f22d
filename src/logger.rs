//! The text side of the crash log: what one logging call appends to the log
//! file, how the file's content evolves under logging and cleaning, the
//! diagnostics of a failed log write, and the decision of `check`.
//!
//! A log file is modelled as `Option<Seq<char>>`: `None` while it does not
//! exist, else its content.
use vstd::prelude::*;
use crate::carrier::{DynResult, ErasedError};

verus! {

/// The log file used when a caller names none.
pub const DEFAULT_LOG_FILE: &'static str = "event.log";

/// The text of the entry written when logging creates the file.
pub open spec fn created_text() -> Seq<char> {
    "log file created"@
}

/// One entry of the log: the text followed by a newline.
pub open spec fn line(text: Seq<char>) -> Seq<char> {
    text.push('\n')
}

/// What one logging call appends: the event's line, preceded by the creation
/// entry when the file did not exist yet.
pub open spec fn record(file_exists: bool, event: Seq<char>) -> Seq<char> {
    if file_exists {
        line(event)
    } else {
        line(created_text()) + line(event)
    }
}

/// The log file after logging `event`.
pub open spec fn after_log(file: Option<Seq<char>>, event: Seq<char>) -> Option<Seq<char>> {
    match file {
        Some(content) => Some(content + record(true, event)),
        None => Some(record(false, event)),
    }
}

/// The log file after cleaning it: gone, whether it existed or not.
pub open spec fn after_clean(file: Option<Seq<char>>) -> Option<Seq<char>> {
    None
}

/// The lines of `events`, in order.
pub open spec fn lines(events: Seq<Seq<char>>) -> Seq<char>
    decreases events.len(),
{
    if events.len() == 0 {
        Seq::empty()
    } else {
        lines(events.drop_last()) + line(events.last())
    }
}

/// The log file after logging each of `events` in turn.
pub open spec fn after_log_all(file: Option<Seq<char>>, events: Seq<Seq<char>>) -> Option<
    Seq<char>,
>
    decreases events.len(),
{
    if events.len() == 0 {
        file
    } else {
        after_log(after_log_all(file, events.drop_last()), events.last())
    }
}

/// The text of the entry written when logging creates the file.
pub fn created_entry() -> (r: &'static str)
    ensures
        r@ == created_text(),
{
    "log file created"
}

/// The text that logging `event` appends to a log file that exists, or not,
/// according to `file_exists`.
pub fn log_record(file_exists: bool, event: &str) -> (r: String)
    ensures
        r@ == record(file_exists, event@),
{
    let mut r = String::new();
    if !file_exists {
        r.append(created_entry());
        r.append("\n");
    }
    r.append(event);
    r.append("\n");
    proof {
        reveal_strlit("\n");
    }
    assert(r@ =~= record(file_exists, event@));
    r
}

/// The step of a logging call that failed.
#[derive(Clone, Copy, Debug, PartialEq, Eq, Structural)]
pub enum LogStep {
    /// Opening, or creating, the log file.
    Open,
    /// Appending the record to it.
    Append,
}

/// The start of the diagnostic for a failure at `step`.
pub open spec fn failure_prefix(step: LogStep) -> Seq<char> {
    match step {
        LogStep::Open => "Dynerr: Error opening log during crash: "@,
        LogStep::Append => "Dynerr: Error appending to log during crash: "@,
    }
}

/// The diagnostic of a logging call that failed at `step` with the I/O error
/// `io_error` while logging `event`: it names both.
pub open spec fn failure_text(step: LogStep, io_error: Seq<char>, event: Seq<char>) -> Seq<char> {
    failure_prefix(step) + io_error + " (error passed to logger was: "@ + event + ")"@
}

/// The diagnostic of a logging call that failed at `step` with the I/O error
/// `io_error` while logging `event`.
pub fn log_failure_message(step: LogStep, io_error: &str, event: &str) -> (r: String)
    ensures
        r@ == failure_text(step, io_error@, event@),
{
    let mut r = match step {
        LogStep::Open => String::from_str("Dynerr: Error opening log during crash: "),
        LogStep::Append => String::from_str("Dynerr: Error appending to log during crash: "),
    };
    r.append(io_error);
    r.append(" (error passed to logger was: ");
    r.append(event);
    r.append(")");
    assert(r@ =~= failure_text(step, io_error@, event@));
    r
}

/// The diagnostic of a failure to delete an existing log file.
pub fn clean_failure_message(io_error: &str) -> (r: String)
    ensures
        r@ == "Dynerr: Error cleaning file: "@ + io_error@,
{
    let mut r = String::from_str("Dynerr: Error cleaning file: ");
    r.append(io_error);
    r
}

/// What `check` does with a result.
pub enum CheckStep<T> {
    /// Hand the value back; nothing is logged.
    Value(T),
    /// Log this text, then abort with it.
    LogAndAbort(String),
}

/// Decides what checking `r` does: a success gives its value back with no
/// logging, a failure is logged by its display text and aborts.
pub fn check<T, V>(r: DynResult<T, V>) -> (s: CheckStep<T>)
    ensures
        match r {
            Ok(v) => s matches CheckStep::Value(w) && w == v,
            Err(e) => s matches CheckStep::LogAndAbort(t) && t@ == e.display(),
        },
{
    match r {
        Ok(v) => CheckStep::Value(v),
        Err(e) => {
            let (_, _, text) = e.into_parts();
            CheckStep::LogAndAbort(text)
        },
    }
}

/// Logging twice appends two lines in call order: the file then holds what it
/// held (or the creation entry, if it was absent), the first event's line and
/// the second event's line.
pub proof fn lemma_log_twice(file: Option<Seq<char>>, e1: Seq<char>, e2: Seq<char>)
    ensures
        after_log(after_log(file, e1), e2) == Some(
            match file {
                Some(content) => content,
                None => line(created_text()),
            } + line(e1) + line(e2),
        ),
{
    assert(line(created_text()) + line(e1) + line(e2) =~= line(created_text()) + (line(e1) + line(
        e2,
    )));
}

/// Cleaning and then logging leaves a fresh file that holds the creation
/// entry and the event's line, and nothing else.
pub proof fn lemma_clean_then_log(file: Option<Seq<char>>, event: Seq<char>)
    ensures
        after_log(after_clean(file), event) == Some(line(created_text()) + line(event)),
{
}

/// The content of a log file is what it held before, or the creation entry
/// if it was absent, followed by one line per logged event, in the order
/// they were logged.
pub proof fn lemma_log_content(file: Option<Seq<char>>, events: Seq<Seq<char>>)
    requires
        events.len() > 0,
    ensures
        after_log_all(file, events) == Some(
            match file {
                Some(content) => content,
                None => line(created_text()),
            } + lines(events),
        ),
    decreases events.len(),
{
    let base = match file {
        Some(content) => content,
        None => line(created_text()),
    };
    let rest = events.drop_last();
    if rest.len() == 0 {
        assert(lines(rest) =~= Seq::empty());
        assert(lines(events) =~= line(events.last()));
        assert(base + lines(events) =~= base + line(events.last()));
    } else {
        lemma_log_content(file, rest);
        assert(base + lines(rest) + line(events.last()) =~= base + lines(events));
    }
}

} // verus!
