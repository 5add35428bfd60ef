//! The registry of supervised records and the per-record poll step.

use vstd::prelude::*;

use crate::config::ProcessSpec;
use crate::event::Event;
use crate::event::EventKind;
use crate::event::kinds_of;
use crate::machine::ExitStatus;
use crate::machine::classify;
use crate::machine::must_relaunch;
use crate::machine::step_kinds;
use crate::machine::step_prev;

verus! {

/// One supervised process: its immutable spec, the identifier of the process
/// it currently owns, and the last observed termination.  The record is
/// *running* while `prev_status` is `None` and *exited* once a status has
/// been recorded; only an explicit relaunch moves it back to running.
pub struct SupervisedRecord {
    /// The validated description this record was built from.
    pub config: ProcessSpec,
    /// Operating-system identifier of the owned process.
    pub pid: u32,
    /// The status recorded by the previous poll: absent while the process is
    /// considered running, present once a termination has been handled.
    pub prev_status: Option<ExitStatus>,
}

impl SupervisedRecord {
    /// A freshly launched record: running, nothing observed yet.
    pub fn new(config: ProcessSpec, pid: u32) -> (r: SupervisedRecord)
        ensures
            r.config == config,
            r.pid == pid,
            r.prev_status is None,
    {
        SupervisedRecord { config, pid, prev_status: None }
    }

    /// Decides whether this poll's observation obliges a relaunch, so that
    /// the caller can attempt one before settling the record.
    pub fn needs_relaunch(&self, observed: &Option<ExitStatus>) -> (r: bool)
        ensures
            r == must_relaunch(self.config.policy, self.prev_status, *observed),
    {
        match observed {
            Some(status) => {
                if self.prev_status.is_none() {
                    let kind = if status.code.is_some() {
                        EventKind::OkStopped
                    } else {
                        EventKind::ErrStopped
                    };
                    match self.config.policy {
                        crate::config::RestartPolicy::Never => false,
                        crate::config::RestartPolicy::OnError => kind == EventKind::ErrStopped,
                        crate::config::RestartPolicy::Always => true,
                    }
                } else {
                    false
                }
            },
            None => false,
        }
    }

    /// Settles one poll of this record: classifies and reports a newly
    /// observed termination, applies the outcome of the relaunch the caller
    /// was obliged to attempt, and records the new prior status.
    ///
    /// `relaunch` carries the identifier of the replacement process; the
    /// caller passes `None` either when no relaunch was owed or when the
    /// launch failed.  A failed relaunch leaves the record exited with the
    /// observation recorded, so the record stays silent from then on and no
    /// sibling record is affected.
    pub fn settle(&mut self, observed: Option<ExitStatus>, relaunch: Option<u32>) -> (events: Vec<
        Event,
    >)
        requires
            relaunch is Some ==> must_relaunch(
                old(self).config.policy,
                old(self).prev_status,
                observed,
            ),
        ensures
            final(self).config == old(self).config,
            match relaunch {
                Some(new_pid) => final(self).prev_status is None && final(self).pid == new_pid,
                None => final(self).prev_status == observed && final(self).pid == old(self).pid,
            },
            !(must_relaunch(old(self).config.policy, old(self).prev_status, observed)
                && relaunch is None) ==> final(self).prev_status == step_prev(
                old(self).config.policy,
                old(self).prev_status,
                observed,
            ),
            kinds_of(events@) == if must_relaunch(
                old(self).config.policy,
                old(self).prev_status,
                observed,
            ) && relaunch is None {
                seq![classify(observed->0)]
            } else {
                step_kinds(old(self).config.policy, old(self).prev_status, observed)
            },
            forall|i: int|
                0 <= i < events@.len() ==> events@[i].name == old(self).config.name
                    && events@[i].timestamp.wf(),
            events@.len() >= 1 ==> events@[0].pid == old(self).pid,
            events@.len() >= 2 ==> events@[1].pid == relaunch->0,
    {
        let mut events: Vec<Event> = Vec::new();
        match observed {
            Some(status) => {
                if self.prev_status.is_none() {
                    let kind = if status.code.is_some() {
                        EventKind::OkStopped
                    } else {
                        EventKind::ErrStopped
                    };
                    events.push(Event::now(kind, self.config.name.clone(), self.pid));
                }
            },
            None => {},
        }
        match relaunch {
            Some(new_pid) => {
                self.pid = new_pid;
                self.prev_status = None;
                events.push(Event::now(EventKind::Restarted, self.config.name.clone(), new_pid));
            },
            None => {
                self.prev_status = observed;
            },
        }
        proof {
            assert(kinds_of(events@) =~= if must_relaunch(
                old(self).config.policy,
                old(self).prev_status,
                observed,
            ) && relaunch is None {
                seq![classify(observed->0)]
            } else {
                step_kinds(old(self).config.policy, old(self).prev_status, observed)
            });
        }
        events
    }
}

/// The ordered collection of supervised records, built once at startup.
pub struct Registry {
    /// One record per configured process, in configuration order.
    pub records: Vec<SupervisedRecord>,
}

impl View for Registry {
    type V = Seq<SupervisedRecord>;

    open spec fn view(&self) -> Seq<SupervisedRecord> {
        self.records@
    }
}

impl Registry {
    /// Builds the registry from the validated specs and the identifiers of
    /// the processes launched for them, one per spec and in spec order, and
    /// returns beside it the `Started` events owed before the first poll
    /// cycle: exactly one per record, in registry order.
    pub fn new(specs: Vec<ProcessSpec>, pids: Vec<u32>) -> (r: (Registry, Vec<Event>))
        requires
            specs@.len() == pids@.len(),
        ensures
            r.0@.len() == specs@.len(),
            forall|j: int|
                0 <= j < specs@.len() ==> {
                    &&& r.0@[j].config == specs@[j]
                    &&& r.0@[j].pid == pids@[j]
                    &&& r.0@[j].prev_status is None
                },
            r.1@.len() == specs@.len(),
            forall|j: int|
                0 <= j < specs@.len() ==> {
                    &&& r.1@[j].kind == EventKind::Started
                    &&& r.1@[j].name == specs@[j].name
                    &&& r.1@[j].pid == pids@[j]
                    &&& r.1@[j].timestamp.wf()
                },
    {
        let ghost all_specs = specs@;
        let total = pids.len();
        let mut remaining = specs;
        let mut records: Vec<SupervisedRecord> = Vec::new();
        let mut events: Vec<Event> = Vec::new();
        let mut i: usize = 0;
        while i < total
            invariant
                total == all_specs.len(),
                i + remaining@.len() == all_specs.len(),
                remaining@ == all_specs.skip(i as int),
                pids@.len() == all_specs.len(),
                records@.len() == i,
                events@.len() == i,
                forall|j: int|
                    0 <= j < i ==> {
                        &&& records@[j].config == all_specs[j]
                        &&& records@[j].pid == pids@[j]
                        &&& records@[j].prev_status is None
                    },
                forall|j: int|
                    0 <= j < i ==> {
                        &&& events@[j].kind == EventKind::Started
                        &&& events@[j].name == all_specs[j].name
                        &&& events@[j].pid == pids@[j]
                        &&& events@[j].timestamp.wf()
                    },
            decreases remaining@.len(),
        {
            let spec_i = remaining.remove(0);
            let pid = pids[i];
            events.push(Event::now(EventKind::Started, spec_i.name.clone(), pid));
            records.push(SupervisedRecord { config: spec_i, pid, prev_status: None });
            i = i + 1;
            proof {
                assert(remaining@ =~= all_specs.skip(i as int));
            }
        }
        (Registry { records }, events)
    }

    /// The number of supervised records.
    pub fn len(&self) -> (n: usize)
        ensures
            n == self@.len(),
    {
        self.records.len()
    }

    /// A view of one record, for callers that poll or report.
    pub fn record_at(&self, i: usize) -> (r: &SupervisedRecord)
        requires
            i < self@.len(),
        ensures
            *r == self@[i as int],
    {
        &self.records[i]
    }

    /// The executable path of one record's spec, for relaunching.
    pub fn path_at(&self, i: usize) -> (p: String)
        requires
            i < self@.len(),
        ensures
            p == self@[i as int].config.path,
    {
        self.records[i].config.path.clone()
    }

    /// Whether this poll's observation of record `i` obliges a relaunch.
    pub fn needs_relaunch_at(&self, i: usize, observed: &Option<ExitStatus>) -> (r: bool)
        requires
            i < self@.len(),
        ensures
            r == must_relaunch(
                self@[i as int].config.policy,
                self@[i as int].prev_status,
                *observed,
            ),
    {
        self.records[i].needs_relaunch(observed)
    }

    /// Settles one poll of record `i` exactly as `SupervisedRecord::settle`
    /// does, leaving every other record untouched: records are independent
    /// units of supervision.
    pub fn settle_at(&mut self, i: usize, observed: Option<ExitStatus>, relaunch: Option<u32>) -> (events: Vec<Event>)
        requires
            i < old(self)@.len(),
            relaunch is Some ==> must_relaunch(
                old(self)@[i as int].config.policy,
                old(self)@[i as int].prev_status,
                observed,
            ),
        ensures
            final(self)@.len() == old(self)@.len(),
            forall|j: int|
                0 <= j < old(self)@.len() && j != i ==> final(self)@[j] == old(self)@[j],
            final(self)@[i as int].config == old(self)@[i as int].config,
            match relaunch {
                Some(new_pid) => final(self)@[i as int].prev_status is None
                    && final(self)@[i as int].pid == new_pid,
                None => final(self)@[i as int].prev_status == observed
                    && final(self)@[i as int].pid == old(self)@[i as int].pid,
            },
            !(must_relaunch(
                old(self)@[i as int].config.policy,
                old(self)@[i as int].prev_status,
                observed,
            ) && relaunch is None) ==> final(self)@[i as int].prev_status == step_prev(
                old(self)@[i as int].config.policy,
                old(self)@[i as int].prev_status,
                observed,
            ),
            kinds_of(events@) == if must_relaunch(
                old(self)@[i as int].config.policy,
                old(self)@[i as int].prev_status,
                observed,
            ) && relaunch is None {
                seq![classify(observed->0)]
            } else {
                step_kinds(
                    old(self)@[i as int].config.policy,
                    old(self)@[i as int].prev_status,
                    observed,
                )
            },
            forall|j: int|
                0 <= j < events@.len() ==> events@[j].name == old(self)@[i as int].config.name
                    && events@[j].timestamp.wf(),
            events@.len() >= 1 ==> events@[0].pid == old(self)@[i as int].pid,
            events@.len() >= 2 ==> events@[1].pid == relaunch->0,
    {
        let mut record = self.records.remove(i);
        let events = record.settle(observed, relaunch);
        self.records.insert(i, record);
        proof {
            assert(forall|j: int|
                0 <= j < old(self)@.len() && j != i ==> final(self)@[j] == old(self)@[j]);
        }
        events
    }
}

} // verus!
