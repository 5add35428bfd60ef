//! The restart-policy state machine.
//!
//! A supervised record, as far as event reporting is concerned, is a pair of
//! a restart policy and the last observed termination (`None` while the
//! process runs).  Each poll cycle hands the machine one observation; the
//! machine answers with the events owed for it and the next state.  The
//! functions here are the single authority on classification, restart
//! decisions and event order; the executable registry and the property
//! lemmas are both stated over them.

use vstd::prelude::*;

use crate::config::RestartPolicy;
use crate::event::EventKind;

verus! {

/// What a non-blocking status query reports of a terminated process: its
/// exit code, if it terminated with one.
#[derive(Clone, Copy, Debug, PartialEq, Eq)]
pub struct ExitStatus {
    /// The explicit exit code, absent when the process was ended from
    /// outside (for example by a signal).
    pub code: Option<i32>,
}

/// Classification of a termination: an explicit exit code of any value is an
/// orderly stop, its absence an erroneous one.
pub open spec fn classify(status: ExitStatus) -> EventKind {
    if status.code is Some {
        EventKind::OkStopped
    } else {
        EventKind::ErrStopped
    }
}

/// Whether a policy asks for a relaunch after a termination classified as
/// `kind`.
pub open spec fn wants_restart(policy: RestartPolicy, kind: EventKind) -> bool {
    match policy {
        RestartPolicy::Never => false,
        RestartPolicy::OnError => kind == EventKind::ErrStopped,
        RestartPolicy::Always => true,
    }
}

/// A termination is newly observed: the query reports a status and none had
/// been recorded since the last launch.
pub open spec fn newly_terminated(
    prev: Option<ExitStatus>,
    observed: Option<ExitStatus>,
) -> bool {
    observed is Some && prev is None
}

/// A poll of this record must be followed by a relaunch.
pub open spec fn must_relaunch(
    policy: RestartPolicy,
    prev: Option<ExitStatus>,
    observed: Option<ExitStatus>,
) -> bool {
    newly_terminated(prev, observed) && wants_restart(policy, classify(observed->0))
}

/// The recorded status after one poll step, assuming that a relaunch, where
/// the policy asks for one, succeeds.  A relaunch clears the record back to
/// running; otherwise the observation is stored as the new prior status.
pub open spec fn step_prev(
    policy: RestartPolicy,
    prev: Option<ExitStatus>,
    observed: Option<ExitStatus>,
) -> Option<ExitStatus> {
    if must_relaunch(policy, prev, observed) {
        None
    } else {
        observed
    }
}

/// The kinds of the events owed for one poll step, in emission order: the
/// classification of a newly observed termination, followed by `Restarted`
/// when the policy asks for a relaunch; nothing otherwise.
pub open spec fn step_kinds(
    policy: RestartPolicy,
    prev: Option<ExitStatus>,
    observed: Option<ExitStatus>,
) -> Seq<EventKind> {
    if newly_terminated(prev, observed) {
        let kind = classify(observed->0);
        if wants_restart(policy, kind) {
            seq![kind, EventKind::Restarted]
        } else {
            seq![kind]
        }
    } else {
        seq![]
    }
}

/// The recorded status after a whole run: a record starts running and is
/// polled once per entry of `observations`.
pub open spec fn run_prev(
    policy: RestartPolicy,
    observations: Seq<Option<ExitStatus>>,
) -> Option<ExitStatus>
    decreases observations.len(),
{
    if observations.len() == 0 {
        None
    } else {
        step_prev(policy, run_prev(policy, observations.drop_last()), observations.last())
    }
}

/// The kinds of all events a record emits over a whole run, in order.
pub open spec fn run_kinds(
    policy: RestartPolicy,
    observations: Seq<Option<ExitStatus>>,
) -> Seq<EventKind>
    decreases observations.len(),
{
    if observations.len() == 0 {
        seq![]
    } else {
        run_kinds(policy, observations.drop_last()) + step_kinds(
            policy,
            run_prev(policy, observations.drop_last()),
            observations.last(),
        )
    }
}

/// A terminal classification, as opposed to a launch report.
pub open spec fn is_terminal(kind: EventKind) -> bool {
    kind == EventKind::OkStopped || kind == EventKind::ErrStopped
}

/// A run unfolds one poll at a time: one more observation moves the state by
/// one step and appends that step's events.  This ties the per-poll contract
/// of settling a record to the whole-run statements below: a caller that
/// accumulates the events of successive polls accumulates exactly
/// `run_kinds` of the observations it fed in.
pub proof fn lemma_run_unfolds(
    policy: RestartPolicy,
    observations: Seq<Option<ExitStatus>>,
    observed: Option<ExitStatus>,
)
    ensures
        run_prev(policy, observations.push(observed)) == step_prev(
            policy,
            run_prev(policy, observations),
            observed,
        ),
        run_kinds(policy, observations.push(observed)) == run_kinds(policy, observations)
            + step_kinds(policy, run_prev(policy, observations), observed),
{
    assert(observations.push(observed).drop_last() =~= observations);
    assert(observations.push(observed).last() == observed);
}

/// An observation sequence of one record that is never relaunched, as a real
/// handle delivers it: once a termination is reported, every later query
/// reports that same termination.
pub open spec fn observations_faithful(observations: Seq<Option<ExitStatus>>) -> bool {
    forall|i: int, j: int|
        0 <= i <= j < observations.len() && observations[i] is Some ==> observations[j]
            == observations[i]
}

/// After the launch report, a record never emits `Started` again: every
/// event of a run is a terminal classification or a relaunch report.
pub proof fn lemma_no_started_after_launch(
    policy: RestartPolicy,
    observations: Seq<Option<ExitStatus>>,
)
    ensures
        forall|i: int|
            0 <= i < run_kinds(policy, observations).len() ==> run_kinds(policy, observations)[i]
                != EventKind::Started,
    decreases observations.len(),
{
    if observations.len() > 0 {
        lemma_no_started_after_launch(policy, observations.drop_last());
    }
}

/// Under the `Never` policy no `Restarted` event is ever emitted.
pub proof fn lemma_never_no_restart(observations: Seq<Option<ExitStatus>>)
    ensures
        forall|i: int|
            0 <= i < run_kinds(RestartPolicy::Never, observations).len() ==> run_kinds(
                RestartPolicy::Never,
                observations,
            )[i] != EventKind::Restarted,
    decreases observations.len(),
{
    if observations.len() > 0 {
        lemma_never_no_restart(observations.drop_last());
    }
}

/// Under the `Never` policy the record's sole process is polled faithfully,
/// and the whole run emits exactly one terminal classification — that of the
/// observed termination — if the process ever terminates, and nothing at all
/// if it does not.
pub proof fn lemma_never_reports_once(observations: Seq<Option<ExitStatus>>)
    requires
        observations_faithful(observations),
    ensures
        forall|t: int|
            0 <= t < observations.len() && observations[t] is Some ==> run_kinds(
                RestartPolicy::Never,
                observations,
            ) == seq![classify(observations[t]->0)],
        (forall|t: int| 0 <= t < observations.len() ==> observations[t] is None) ==> run_kinds(
            RestartPolicy::Never,
            observations,
        ) == Seq::<EventKind>::empty(),
        run_prev(RestartPolicy::Never, observations) == (if observations.len() == 0 {
            None::<ExitStatus>
        } else {
            observations.last()
        }),
    decreases observations.len(),
{
    if observations.len() > 0 {
        let pre = observations.drop_last();
        assert(observations_faithful(pre));
        lemma_never_reports_once(pre);
        if observations.last() is Some {
            if exists|t: int| 0 <= t < pre.len() && pre[t] is Some {
                let t = choose|t: int| 0 <= t < pre.len() && pre[t] is Some;
                assert(observations[t] is Some);
                assert(pre.last() == observations[pre.len() - 1]);
                assert(observations[pre.len() - 1] == observations[t]);
                assert(run_kinds(RestartPolicy::Never, observations) =~= run_kinds(
                    RestartPolicy::Never,
                    pre,
                ));
            } else {
                assert(run_kinds(RestartPolicy::Never, pre) == Seq::<EventKind>::empty());
                assert(run_kinds(RestartPolicy::Never, observations) =~= seq![
                    classify(observations.last()->0),
                ]);
            }
        } else {
            assert(forall|t: int| 0 <= t < observations.len() ==> observations[t] is None) by {
                assert forall|t: int|
                    0 <= t < observations.len() && observations[t] is Some implies false by {
                    assert(observations[observations.len() - 1] == observations[t]);
                }
            }
            assert(run_kinds(RestartPolicy::Never, observations) =~= run_kinds(
                RestartPolicy::Never,
                pre,
            ));
        }
    }
}

/// How many polls of a run observe a termination.
pub open spec fn count_some(observations: Seq<Option<ExitStatus>>) -> nat
    decreases observations.len(),
{
    if observations.len() == 0 {
        0
    } else {
        count_some(observations.drop_last()) + (if observations.last() is Some {
            1nat
        } else {
            0nat
        })
    }
}

/// Terminal classifications and relaunch reports strictly alternate,
/// beginning with a classification.
pub open spec fn alternates(kinds: Seq<EventKind>) -> bool {
    forall|i: int|
        0 <= i < kinds.len() ==> (if i % 2 == 0 {
            is_terminal(kinds[i])
        } else {
            kinds[i] == EventKind::Restarted
        })
}

/// Under the `Always` policy a record is running again after every poll, and
/// its whole run is the strictly alternating sequence classification,
/// `Restarted`, classification, `Restarted`, … with exactly one
/// classification and one relaunch report per observed termination.
pub proof fn lemma_always_alternates(observations: Seq<Option<ExitStatus>>)
    ensures
        run_prev(RestartPolicy::Always, observations) is None,
        run_kinds(RestartPolicy::Always, observations).len() == 2 * count_some(observations),
        alternates(run_kinds(RestartPolicy::Always, observations)),
    decreases observations.len(),
{
    if observations.len() > 0 {
        let pre = observations.drop_last();
        lemma_always_alternates(pre);
        let ks_pre = run_kinds(RestartPolicy::Always, pre);
        let ks = run_kinds(RestartPolicy::Always, observations);
        match observations.last() {
            Some(status) => {
                assert(ks == ks_pre + seq![classify(status), EventKind::Restarted]);
                assert forall|i: int| 0 <= i < ks.len() implies (if i % 2 == 0 {
                    is_terminal(ks[i])
                } else {
                    ks[i] == EventKind::Restarted
                }) by {
                    if i < ks_pre.len() {
                        assert(ks[i] == ks_pre[i]);
                    }
                }
            },
            None => {
                assert(ks =~= ks_pre);
            },
        }
    }
}

/// At index `i`, a `Restarted` event directly follows an `ErrStopped` one.
pub open spec fn restart_follows_error_at(ks: Seq<EventKind>, i: int) -> bool {
    ks[i] == EventKind::Restarted ==> i > 0 && ks[i - 1] == EventKind::ErrStopped
}

/// At index `i`, an `ErrStopped` event is directly followed by `Restarted`.
pub open spec fn error_brings_restart_at(ks: Seq<EventKind>, i: int) -> bool {
    ks[i] == EventKind::ErrStopped ==> i + 1 < ks.len() && ks[i + 1] == EventKind::Restarted
}

/// At index `i`, no `Restarted` event follows an `OkStopped` one.
pub open spec fn ok_is_final_at(ks: Seq<EventKind>, i: int) -> bool {
    ks[i] == EventKind::OkStopped && i + 1 < ks.len() ==> ks[i + 1] != EventKind::Restarted
}

/// Every `Restarted` event directly follows an `ErrStopped` one.
pub open spec fn restarts_follow_errors(ks: Seq<EventKind>) -> bool {
    forall|i: int| 0 <= i < ks.len() ==> #[trigger] restart_follows_error_at(ks, i)
}

/// Every `ErrStopped` event is directly followed by a `Restarted` one.
pub open spec fn errors_bring_restarts(ks: Seq<EventKind>) -> bool {
    forall|i: int| 0 <= i < ks.len() ==> #[trigger] error_brings_restart_at(ks, i)
}

/// No `Restarted` event ever follows an `OkStopped` one.
pub open spec fn oks_are_final(ks: Seq<EventKind>) -> bool {
    forall|i: int| 0 <= i < ks.len() ==> #[trigger] ok_is_final_at(ks, i)
}

/// Under the `OnError` policy every `Restarted` event directly follows an
/// erroneous termination: one is emitted after every `ErrStopped`, and none
/// ever follows an `OkStopped`.
pub proof fn lemma_on_error_restarts(observations: Seq<Option<ExitStatus>>)
    ensures
        restarts_follow_errors(run_kinds(RestartPolicy::OnError, observations)),
        errors_bring_restarts(run_kinds(RestartPolicy::OnError, observations)),
        oks_are_final(run_kinds(RestartPolicy::OnError, observations)),
    decreases observations.len(),
{
    let ks = run_kinds(RestartPolicy::OnError, observations);
    if observations.len() > 0 {
        let pre = observations.drop_last();
        lemma_on_error_restarts(pre);
        let ks_pre = run_kinds(RestartPolicy::OnError, pre);
        let prev = run_prev(RestartPolicy::OnError, pre);
        let step = step_kinds(RestartPolicy::OnError, prev, observations.last());
        assert(ks == ks_pre + step);
        if newly_terminated(prev, observations.last()) && classify(observations.last()->0)
            == EventKind::ErrStopped {
            assert(step =~= seq![EventKind::ErrStopped, EventKind::Restarted]);
        } else {
            assert(step.len() <= 1);
            if step.len() == 1 {
                assert(step[0] == EventKind::OkStopped);
            }
        }
        assert forall|i: int| 0 <= i < ks.len() implies #[trigger] restart_follows_error_at(
            ks,
            i,
        ) by {
            if i < ks_pre.len() {
                assert(restart_follows_error_at(ks_pre, i));
                assert(ks[i] == ks_pre[i]);
                if 0 < i {
                    assert(ks[i - 1] == ks_pre[i - 1]);
                }
            } else {
                assert(ks[i] == step[i - ks_pre.len()]);
            }
        }
        assert forall|i: int| 0 <= i < ks.len() implies #[trigger] error_brings_restart_at(
            ks,
            i,
        ) by {
            if i < ks_pre.len() {
                assert(error_brings_restart_at(ks_pre, i));
                assert(ks[i] == ks_pre[i]);
                if ks_pre[i] == EventKind::ErrStopped {
                    assert(ks[i + 1] == ks_pre[i + 1]);
                }
            } else {
                assert(ks[i] == step[i - ks_pre.len()]);
                if i + 1 < ks.len() {
                    assert(ks[i + 1] == step[i + 1 - ks_pre.len()]);
                }
            }
        }
    }
    assert forall|i: int| 0 <= i < ks.len() implies #[trigger] ok_is_final_at(ks, i) by {
        if ks[i] == EventKind::OkStopped && i + 1 < ks.len() {
            assert(restart_follows_error_at(ks, i + 1));
        }
    }
}

/// The event-relevant state of one record inside a poll cycle: its policy
/// and its recorded prior status.
#[derive(Clone, Copy, Debug, PartialEq, Eq)]
pub struct RecordModel {
    /// The record's restart policy.
    pub policy: RestartPolicy,
    /// The status recorded by the previous poll.
    pub prev: Option<ExitStatus>,
}

/// The states of all records after one poll cycle over the whole registry,
/// assuming every owed relaunch succeeds.
pub open spec fn cycle_models(
    models: Seq<RecordModel>,
    observations: Seq<Option<ExitStatus>>,
) -> Seq<RecordModel> {
    Seq::new(
        models.len(),
        |j: int|
            RecordModel {
                policy: models[j].policy,
                prev: step_prev(models[j].policy, models[j].prev, observations[j]),
            },
    )
}

/// The events each record emits during one poll cycle, per record.
pub open spec fn cycle_kinds(
    models: Seq<RecordModel>,
    observations: Seq<Option<ExitStatus>>,
) -> Seq<Seq<EventKind>> {
    Seq::new(
        models.len(),
        |j: int| step_kinds(models[j].policy, models[j].prev, observations[j]),
    )
}

/// Records are independent units of supervision: what one record does in a
/// poll cycle — its next state and the events it emits — depends only on its
/// own state and its own observation.  Forcing any other record to
/// terminate, relaunching it, or changing it in any way leaves this record's
/// behaviour unchanged.
pub proof fn lemma_records_independent(
    models1: Seq<RecordModel>,
    observations1: Seq<Option<ExitStatus>>,
    models2: Seq<RecordModel>,
    observations2: Seq<Option<ExitStatus>>,
    j: int,
)
    requires
        observations1.len() == models1.len(),
        observations2.len() == models2.len(),
        0 <= j < models1.len(),
        j < models2.len(),
        models1[j] == models2[j],
        observations1[j] == observations2[j],
    ensures
        cycle_models(models1, observations1)[j] == cycle_models(models2, observations2)[j],
        cycle_kinds(models1, observations1)[j] == cycle_kinds(models2, observations2)[j],
{
}

} // verus!
