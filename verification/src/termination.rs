//! Process termination: the graceful-then-forced escalation policy.
//!
//! Termination is a fixed two-step policy per identifier: one graceful
//! attempt, and on its failure exactly one forced attempt, never looping
//! back.  The decisions live here as a session state machine: the caller
//! asks for the next signal to deliver, performs the delivery, and reports
//! whether it succeeded; the session records one outcome per identifier
//! and finally aggregates them into a summary.  Termination is best-effort
//! and independent per identifier: a failure on one never aborts the rest,
//! and a batch counts as an overall success when it was empty or when at
//! least one identifier was terminated.

use vstd::prelude::*;

verus! {

/// The two distinct termination primitives, separately invocable.
#[derive(Clone, Copy, Debug, PartialEq, Eq, Structural)]
pub enum SignalMode {
    /// A stop request the process may intercept and honour by exiting.
    Graceful,
    /// An unconditional kill the process cannot intercept or delay.
    Forced,
}

/// One signal delivery for the caller to perform.
#[derive(Clone, Copy, Debug, PartialEq, Eq, Structural)]
pub struct SignalRequest {
    pub identifier: u32,
    pub mode: SignalMode,
}

/// The result recorded for one identifier: which method settled it, and
/// whether it succeeded.  `error` carries a message exactly when both
/// signals failed.
pub struct TerminationOutcome {
    pub identifier: u32,
    pub succeeded: bool,
    pub method: SignalMode,
    pub error: Option<String>,
}

/// Mathematical image of a `TerminationOutcome`.
pub struct OutcomeView {
    pub identifier: u32,
    pub succeeded: bool,
    pub method: SignalMode,
    pub error: Option<Seq<char>>,
}

impl View for TerminationOutcome {
    type V = OutcomeView;

    open spec fn view(&self) -> OutcomeView {
        OutcomeView {
            identifier: self.identifier,
            succeeded: self.succeeded,
            method: self.method,
            error: self.error.deep_view(),
        }
    }
}

impl DeepView for TerminationOutcome {
    type V = OutcomeView;

    open spec fn deep_view(&self) -> OutcomeView {
        self@
    }
}

/// The message recorded when neither signal settles an identifier.
pub open spec fn failure_note() -> Seq<char> {
    "graceful and forced termination both failed"@
}

/// An outcome is well formed when its error message is present exactly on
/// failure.
pub open spec fn outcome_wf(o: OutcomeView) -> bool {
    o.succeeded <==> o.error is None
}

/// Mathematical image of a `TerminationSession`: the identifiers to walk,
/// the outcomes settled so far (one per walked identifier, in order), and
/// the mode of the next signal for the current identifier.
#[verifier::ext_equal]
pub struct SessionView {
    pub targets: Seq<u32>,
    pub pending: SignalMode,
    pub resolved: Seq<OutcomeView>,
}

/// Session well-formedness: outcomes mirror the walked prefix of the
/// target list, and a pending forced signal only exists while an
/// identifier is still being walked.
pub open spec fn session_wf(v: SessionView) -> bool {
    &&& v.resolved.len() <= v.targets.len()
    &&& forall|i: int|
        0 <= i < v.resolved.len() ==> (#[trigger] v.resolved[i]).identifier == v.targets[i]
            && outcome_wf(v.resolved[i])
    &&& v.pending is Forced ==> v.resolved.len() < v.targets.len()
}

/// The next signal the caller is to deliver, or `None` once every
/// identifier is settled.
pub open spec fn next_request_of(v: SessionView) -> Option<SignalRequest> {
    if v.resolved.len() < v.targets.len() {
        Some(
            SignalRequest {
                identifier: v.targets[v.resolved.len() as int],
                mode: v.pending,
            },
        )
    } else {
        None
    }
}

/// The session after the caller reports the pending signal's result.
/// Transitions are strictly forward: a success or an exhausted escalation
/// settles the identifier, a failed graceful signal escalates to forced.
pub open spec fn reported(v: SessionView, succeeded: bool) -> SessionView {
    let id = v.targets[v.resolved.len() as int];
    if succeeded {
        SessionView {
            targets: v.targets,
            pending: SignalMode::Graceful,
            resolved: v.resolved.push(
                OutcomeView { identifier: id, succeeded: true, method: v.pending, error: None },
            ),
        }
    } else if v.pending is Graceful {
        SessionView { targets: v.targets, pending: SignalMode::Forced, resolved: v.resolved }
    } else {
        SessionView {
            targets: v.targets,
            pending: SignalMode::Graceful,
            resolved: v.resolved.push(
                OutcomeView {
                    identifier: id,
                    succeeded: false,
                    method: SignalMode::Forced,
                    error: Some(failure_note()),
                },
            ),
        }
    }
}

/// A termination walk over a fixed set of identifiers.  The caller loops:
/// `next_request`, deliver the signal, `report`, until `next_request`
/// answers `None`; `into_summary` then aggregates the outcomes.
pub struct TerminationSession {
    pub targets: Vec<u32>,
    pub pending: SignalMode,
    pub outcomes: Vec<TerminationOutcome>,
}

impl View for TerminationSession {
    type V = SessionView;

    open spec fn view(&self) -> SessionView {
        SessionView {
            targets: self.targets@,
            pending: self.pending,
            resolved: self.outcomes.deep_view(),
        }
    }
}

impl TerminationSession {
    pub open spec fn wf(&self) -> bool {
        session_wf(self@)
    }

    /// Starts a walk over the given identifiers, in order.
    pub fn new(targets: Vec<u32>) -> (s: Self)
        ensures
            s@ == (SessionView {
                targets: targets@,
                pending: SignalMode::Graceful,
                resolved: Seq::<OutcomeView>::empty(),
            }),
            s.wf(),
    {
        let s = TerminationSession {
            targets,
            pending: SignalMode::Graceful,
            outcomes: Vec::new(),
        };
        proof {
            assert(s@ =~= (SessionView {
                targets: s.targets@,
                pending: SignalMode::Graceful,
                resolved: Seq::<OutcomeView>::empty(),
            }));
        }
        s
    }

    /// The next signal to deliver, or `None` when the walk is complete.
    pub fn next_request(&self) -> (r: Option<SignalRequest>)
        ensures
            r == next_request_of(self@),
    {
        if self.outcomes.len() < self.targets.len() {
            Some(
                SignalRequest {
                    identifier: self.targets[self.outcomes.len()],
                    mode: self.pending,
                },
            )
        } else {
            None
        }
    }

    /// Takes the delivered signal's result and advances: a success settles
    /// the identifier with the method that succeeded, a graceful failure
    /// escalates to a forced attempt, a forced failure settles the
    /// identifier as failed with a message.
    pub fn report(&mut self, succeeded: bool)
        requires
            old(self).wf(),
            next_request_of(old(self)@) is Some,
        ensures
            final(self)@ == reported(old(self)@, succeeded),
            final(self).wf(),
    {
        let index = self.outcomes.len();
        if succeeded {
            let outcome = TerminationOutcome {
                identifier: self.targets[index],
                succeeded: true,
                method: self.pending,
                error: None,
            };
            self.outcomes.push(outcome);
            self.pending = SignalMode::Graceful;
        } else if self.pending == SignalMode::Graceful {
            self.pending = SignalMode::Forced;
        } else {
            let outcome = TerminationOutcome {
                identifier: self.targets[index],
                succeeded: false,
                method: SignalMode::Forced,
                error: Some("graceful and forced termination both failed".to_owned()),
            };
            self.outcomes.push(outcome);
            self.pending = SignalMode::Graceful;
        }
        proof {
            assert(self@ =~= reported(old(self)@, succeeded));
        }
    }
}

/// How many outcomes of a batch succeeded, by either method.
pub open spec fn count_succeeded(outcomes: Seq<OutcomeView>) -> int
    decreases outcomes.len(),
{
    if outcomes.len() == 0 {
        0
    } else {
        count_succeeded(outcomes.drop_last()) + if outcomes.last().succeeded {
            1int
        } else {
            0int
        }
    }
}

/// Overall success of a batch: an empty batch is a benign no-op and so a
/// success, and otherwise one settled identifier suffices.
pub open spec fn summary_success(outcomes: Seq<OutcomeView>) -> bool {
    outcomes.len() == 0 || count_succeeded(outcomes) > 0
}

/// The user-facing aggregate of one termination walk.
pub struct TerminationSummary {
    pub attempted: usize,
    pub succeeded: usize,
    pub outcomes: Vec<TerminationOutcome>,
}

impl TerminationSummary {
    /// Overall success, as reported to the caller: a no-op batch or one
    /// with at least one settled identifier.  Individual failures are
    /// surfaced in `outcomes` but do not flip this answer.
    pub fn is_success(&self) -> (r: bool)
        ensures
            r == (self.attempted == 0 || self.succeeded > 0),
    {
        self.attempted == 0 || self.succeeded > 0
    }
}

fn count_succeeded_exec(outcomes: &Vec<TerminationOutcome>) -> (r: usize)
    ensures
        r as int == count_succeeded(outcomes.deep_view()),
{
    let mut r: usize = 0;
    let mut i: usize = 0;
    while i < outcomes.len()
        invariant
            i <= outcomes@.len(),
            r <= i,
            r as int == count_succeeded(outcomes.deep_view().take(i as int)),
        decreases outcomes@.len() - i,
    {
        let ghost dv = outcomes.deep_view();
        proof {
            assert(dv.take(i as int + 1).drop_last() =~= dv.take(i as int));
            assert(dv.take(i as int + 1).last() == outcomes@[i as int]@);
        }
        if outcomes[i].succeeded {
            r = r + 1;
        }
        i = i + 1;
    }
    proof {
        assert(outcomes.deep_view().take(outcomes@.len() as int) =~= outcomes.deep_view());
    }
    r
}

impl TerminationSession {
    /// Closes a completed walk into its summary: every outcome in order,
    /// the attempt count, and the success count.
    pub fn into_summary(self) -> (r: TerminationSummary)
        requires
            self.wf(),
            next_request_of(self@) is None,
        ensures
            r.attempted == self@.resolved.len(),
            r.succeeded as int == count_succeeded(self@.resolved),
            r.outcomes.deep_view() == self@.resolved,
    {
        let succeeded = count_succeeded_exec(&self.outcomes);
        TerminationSummary { attempted: self.outcomes.len(), succeeded, outcomes: self.outcomes }
    }
}

proof fn lemma_count_succeeded_nonneg(outcomes: Seq<OutcomeView>)
    ensures
        count_succeeded(outcomes) >= 0,
    decreases outcomes.len(),
{
    if outcomes.len() > 0 {
        lemma_count_succeeded_nonneg(outcomes.drop_last());
    }
}

/// An empty match set is a benign no-op: a session over no identifiers
/// issues no signal request, attempts nothing, and its summary counts as
/// an overall success.
pub proof fn lemma_empty_target_set_is_benign(v: SessionView)
    requires
        session_wf(v),
        v.targets.len() == 0,
    ensures
        next_request_of(v) is None,
        v.resolved.len() == 0,
        summary_success(v.resolved),
{
}

/// Partial success is success: a batch in which any one identifier's
/// signal succeeded is an overall success, regardless of failures among
/// the other outcomes of the same batch.
pub proof fn lemma_one_success_suffices(outcomes: Seq<OutcomeView>, witness: int)
    requires
        0 <= witness < outcomes.len(),
        outcomes[witness].succeeded,
    ensures
        count_succeeded(outcomes) > 0,
        summary_success(outcomes),
    decreases outcomes.len(),
{
    if witness == outcomes.len() - 1 {
        lemma_count_succeeded_nonneg(outcomes.drop_last());
    } else {
        lemma_one_success_suffices(outcomes.drop_last(), witness);
    }
}

/// A completed walk — one that issues no further request — has settled
/// exactly one outcome per matched identifier, so the summary's attempt
/// count is the number of identifiers the walk was started with.
pub proof fn lemma_completed_walk_attempts_every_target(v: SessionView)
    requires
        session_wf(v),
        next_request_of(v) is None,
    ensures
        v.resolved.len() == v.targets.len(),
{
}

/// Transitions are strictly forward: a report either settles the current
/// identifier (returning the pending mode to graceful for the next one) or
/// escalates a failed graceful attempt to the forced mode; a walk never
/// returns to a settled identifier or to an abandoned graceful attempt.
pub proof fn lemma_transitions_strictly_forward(v: SessionView, succeeded: bool)
    requires
        session_wf(v),
        next_request_of(v) is Some,
    ensures
        ({
            let w = reported(v, succeeded);
            &&& session_wf(w)
            &&& w.targets == v.targets
            &&& (w.resolved.len() == v.resolved.len() + 1 && w.pending is Graceful) || (
            w.resolved == v.resolved && !succeeded && v.pending is Graceful
                && w.pending is Forced)
        }),
{
}

/// Escalation order: when the graceful signal for the current identifier
/// fails, the one further request for it is a forced signal, no outcome is
/// recorded in between, and the outcome then settled records the forced
/// method — after which the walk moves on, never returning to this
/// identifier.
pub proof fn lemma_graceful_failure_escalates_once(v: SessionView, forced_succeeded: bool)
    requires
        session_wf(v),
        v.pending is Graceful,
        v.resolved.len() < v.targets.len(),
    ensures
        ({
            let escalated = reported(v, false);
            let settled = reported(escalated, forced_succeeded);
            &&& escalated.resolved == v.resolved
            &&& next_request_of(escalated) == Some(
                SignalRequest {
                    identifier: v.targets[v.resolved.len() as int],
                    mode: SignalMode::Forced,
                },
            )
            &&& settled.resolved.len() == v.resolved.len() + 1
            &&& settled.resolved.last().identifier == v.targets[v.resolved.len() as int]
            &&& settled.resolved.last().method is Forced
            &&& settled.resolved.last().succeeded == forced_succeeded
            &&& settled.pending is Graceful
            &&& next_request_of(settled) matches Some(req) ==> req.identifier == v.targets[
                v.resolved.len() as int + 1
            ]
        }),
{
}

} // verus!
