//! Lifecycle events reported to the operator.

use vstd::prelude::*;

verus! {

/// The four kinds of lifecycle event a supervised process can produce.
#[derive(Clone, Copy, Debug, PartialEq, Eq, Structural)]
pub enum EventKind {
    /// The process was launched when the registry was built.
    Started,
    /// The process terminated without an explicit exit code.
    ErrStopped,
    /// The process terminated with an explicit exit code.
    OkStopped,
    /// The process was launched again after a termination.
    Restarted,
}

impl EventKind {
    /// The fixed label under which this kind appears in an event line.
    pub open spec fn spec_label(self) -> Seq<char> {
        match self {
            EventKind::Started => "Started"@,
            EventKind::ErrStopped => "Stopped-Err"@,
            EventKind::OkStopped => "Stopped-Ok"@,
            EventKind::Restarted => "Restarted"@,
        }
    }

    /// The fixed human-readable description attached to this kind.
    pub open spec fn spec_description(self) -> Seq<char> {
        match self {
            EventKind::Started => "Process started"@,
            EventKind::ErrStopped => "Process stopped with errors"@,
            EventKind::OkStopped => "Process stopped with no errors"@,
            EventKind::Restarted => "Process restarted"@,
        }
    }

    /// Returns the fixed label under which this kind appears in an event line.
    pub fn label(&self) -> (r: &'static str)
        ensures
            r@ == self.spec_label(),
    {
        match self {
            EventKind::Started => "Started",
            EventKind::ErrStopped => "Stopped-Err",
            EventKind::OkStopped => "Stopped-Ok",
            EventKind::Restarted => "Restarted",
        }
    }

    /// Returns the fixed human-readable description attached to this kind.
    pub fn description(&self) -> (r: &'static str)
        ensures
            r@ == self.spec_description(),
    {
        match self {
            EventKind::Started => "Process started",
            EventKind::ErrStopped => "Process stopped with errors",
            EventKind::OkStopped => "Process stopped with no errors",
            EventKind::Restarted => "Process restarted",
        }
    }
}

/// A wall-clock instant, held as the plain calendar fields an event line
/// shows.
#[derive(Clone, Copy, Debug, PartialEq, Eq, Structural)]
pub struct Timestamp {
    /// Proleptic Gregorian calendar year.
    pub year: i32,
    /// Month of the year, starting from 1.
    pub month: u32,
    /// Day of the month, starting from 1.
    pub day: u32,
    /// Hour of the day, from 0 to 23.
    pub hour: u32,
    /// Minute of the hour, from 0 to 59.
    pub minute: u32,
    /// Second of the minute, from 0 to 59.
    pub second: u32,
}

impl Timestamp {
    /// The calendar fields lie in their usual ranges.
    pub open spec fn wf(self) -> bool {
        &&& 1 <= self.month <= 12
        &&& 1 <= self.day <= 31
        &&& self.hour <= 23
        &&& self.minute <= 59
        &&& self.second <= 59
    }
}

/// Relies on `chrono::offset::Local::now` and on chrono's `Datelike` and
/// `Timelike` accessors for the current local time, split into plain
/// calendar fields; the accessors document exactly the ranges `Timestamp::wf`
/// states.
#[verifier::external_body]
fn now_timestamp() -> (t: Timestamp)
    ensures
        t.wf(),
{
    let now = chrono::offset::Local::now();
    Timestamp {
        year: chrono::Datelike::year(&now),
        month: chrono::Datelike::month(&now),
        day: chrono::Datelike::day(&now),
        hour: chrono::Timelike::hour(&now),
        minute: chrono::Timelike::minute(&now),
        second: chrono::Timelike::second(&now),
    }
}

/// A transient lifecycle event: emitted to the operator, never stored.
#[derive(Debug)]
pub struct Event {
    /// The wall-clock instant at which the event was recorded.
    pub timestamp: Timestamp,
    /// The kind of lifecycle transition reported.
    pub kind: EventKind,
    /// The name of the supervised process, taken from its spec.
    pub name: String,
    /// The operating-system identifier of the process concerned.
    pub pid: u32,
}

impl Event {
    /// Builds an event stamped with the current local time.
    pub fn now(kind: EventKind, name: String, pid: u32) -> (e: Event)
        ensures
            e.kind == kind,
            e.name == name,
            e.pid == pid,
            e.timestamp.wf(),
    {
        Event { timestamp: now_timestamp(), kind, name, pid }
    }

    /// Builds an event at a caller-supplied instant.
    pub fn at(timestamp: Timestamp, kind: EventKind, name: String, pid: u32) -> (e: Event)
        ensures
            e == (Event { timestamp, kind, name, pid }),
    {
        Event { timestamp, kind, name, pid }
    }

    /// Renders this event as the single log line shown to the operator.
    pub fn render(&self) -> (r: String)
        ensures
            r@ == crate::render::event_line_chars(self.timestamp, self.kind, self.name@, self.pid),
    {
        crate::render::format_event_line(&self.timestamp, self.kind, self.name.as_str(), self.pid)
    }
}

/// The kinds of a sequence of events, in order.
pub open spec fn kinds_of(events: Seq<Event>) -> Seq<EventKind> {
    events.map_values(|e: Event| e.kind)
}

} // verus!
