//! What a session does over a whole sequence of outcomes, and what holds of
//! every such sequence: the workspace is removed whenever it was created, a
//! request that does not decode touches nothing, and what is sent does not
//! depend on the name of the workspace.

use vstd::prelude::*;
use crate::error::{DecodeFault, HandlerError};
use crate::relay::{EventView, Source};
use crate::trace::interleaves;
use crate::session::{closing, poll_of, transition, OutcomeView, PhaseView, SessionView, StepView};
use crate::workspace::{dir_of, script_of};

verus! {

impl SessionView {
    /// The session after the outcomes, taken in order.
    pub open spec fn run(self, outcomes: Seq<OutcomeView>) -> SessionView
        decreases outcomes.len(),
    {
        if outcomes.len() == 0 {
            self
        } else {
            self.run(outcomes.drop_last()).next(outcomes.last()).0
        }
    }

    /// The steps given in answer to the outcomes: one for each.
    pub open spec fn steps(self, outcomes: Seq<OutcomeView>) -> Seq<StepView>
        decreases outcomes.len(),
    {
        if outcomes.len() == 0 {
            Seq::empty()
        } else {
            self.steps(outcomes.drop_last()).push(
                self.run(outcomes.drop_last()).next(outcomes.last()).1,
            )
        }
    }

    /// The step that the driver holds after the outcomes: the one that the
    /// next outcome will answer.
    pub open spec fn awaited(self, outcomes: Seq<OutcomeView>) -> StepView {
        if outcomes.len() == 0 {
            SessionView::first_step()
        } else {
            self.steps(outcomes).last()
        }
    }

    /// How many directories the driver has reported as created.
    pub open spec fn created(self, outcomes: Seq<OutcomeView>) -> nat
        decreases outcomes.len(),
    {
        if outcomes.len() == 0 {
            0
        } else {
            let before = self.created(outcomes.drop_last());
            if self.awaited(outcomes.drop_last()) is CreateDir && outcomes.last() is Done {
                before + 1
            } else {
                before
            }
        }
    }

    /// How many removals the driver has been given.
    pub open spec fn removals(self, outcomes: Seq<OutcomeView>) -> nat
        decreases outcomes.len(),
    {
        if outcomes.len() == 0 {
            0
        } else {
            let before = self.removals(outcomes.drop_last());
            if self.awaited(outcomes) is RemoveDir {
                before + 1
            } else {
                before
            }
        }
    }

    /// The texts that the driver has been given to send, in order.
    pub open spec fn sent(self, outcomes: Seq<OutcomeView>) -> Seq<Seq<char>>
        decreases outcomes.len(),
    {
        if outcomes.len() == 0 {
            Seq::empty()
        } else {
            let before = self.sent(outcomes.drop_last());
            match self.awaited(outcomes) {
                StepView::Send(text) => before.push(text),
                _ => before,
            }
        }
    }

    /// The lines that the driver reported from `source` while the session was
    /// polling, in the order of their arrival.
    pub open spec fn reported(self, outcomes: Seq<OutcomeView>, source: Source) -> Seq<Seq<char>>
        decreases outcomes.len(),
    {
        if outcomes.len() == 0 {
            Seq::empty()
        } else {
            let before = self.reported(outcomes.drop_last(), source);
            if self.run(outcomes.drop_last()).phase is Polling {
                match outcomes.last() {
                    OutcomeView::Output(EventView::Line(from, line)) => if from == source {
                        before.push(line)
                    } else {
                        before
                    },
                    _ => before,
                }
            } else {
                before
            }
        }
    }
}

/// Whether a step reads or changes anything on disk or starts a process.
pub open spec fn touches_workspace(step: StepView) -> bool {
    step is CreateDir || step is WriteSource || step is Spawn || step is RemoveDir
}

/// Whether `step` is what a session named `id` awaits in `phase`, and the
/// counts of created and removed directories are those of that phase.
pub open spec fn accounted(
    id: Seq<char>,
    phase: PhaseView,
    step: StepView,
    created: nat,
    removals: nat,
) -> bool {
    match phase {
        PhaseView::Header => step == StepView::Read(4) && created == 0 && removals == 0,
        PhaseView::Payload { declared } => step == StepView::Read(declared) && created == 0
            && removals == 0,
        PhaseView::Directory { code } => step == StepView::CreateDir(dir_of(id)) && created == 0
            && removals == 0,
        PhaseView::Source => step matches StepView::WriteSource { path, .. } && path == script_of(
            id,
        ) && created == 1 && removals == 0,
        PhaseView::Launch => step matches StepView::Spawn { script, .. } && script == script_of(
            id,
        ) && created == 1 && removals == 0,
        PhaseView::Polling { relay } => step == poll_of(relay) && !(relay is Finished) && created
            == 1 && removals == 0,
        PhaseView::Sending { relay } => step is Send && !(relay is Finished) && created == 1
            && removals == 0,
        PhaseView::Removal { result } => step == StepView::RemoveDir(dir_of(id)) && created == 1
            && removals == 1,
        PhaseView::Closed { result } => step == StepView::Close(result) && created == removals
            && created <= 1,
    }
}

/// At every moment the step that the driver holds is the one of the
/// session's phase, it names no path but those of the session's own
/// workspace, and no directory is removed that was not created.
pub proof fn lemma_steps_are_accounted(id: Seq<char>, outcomes: Seq<OutcomeView>)
    ensures
        accounted(
            id,
            SessionView::initial(id).run(outcomes).phase,
            SessionView::initial(id).awaited(outcomes),
            SessionView::initial(id).created(outcomes),
            SessionView::initial(id).removals(outcomes),
        ),
        SessionView::initial(id).run(outcomes).id == id,
    decreases outcomes.len(),
{
    if outcomes.len() > 0 {
        lemma_steps_are_accounted(id, outcomes.drop_last());
    }
}

/// The workspace does not outlive the connection: once a session is closed,
/// whatever the outcomes were, the driver has been given one removal for the
/// one directory it reported as created, and none if it created none.
pub proof fn lemma_workspace_is_removed(id: Seq<char>, outcomes: Seq<OutcomeView>)
    requires
        SessionView::initial(id).run(outcomes).result() is Some,
    ensures
        SessionView::initial(id).removals(outcomes) == SessionView::initial(id).created(outcomes),
        SessionView::initial(id).created(outcomes) <= 1,
{
    lemma_steps_are_accounted(id, outcomes);
}

/// The step given in answer to the outcome at `k` is the step of the
/// session as the outcomes before `k` left it.
pub proof fn lemma_step_at(session: SessionView, outcomes: Seq<OutcomeView>, k: int)
    requires
        0 <= k < outcomes.len(),
    ensures
        session.steps(outcomes).len() == outcomes.len(),
        session.steps(outcomes)[k] == session.run(outcomes.take(k)).next(outcomes[k]).1,
        session.awaited(outcomes.take(k + 1)) == session.steps(outcomes)[k],
    decreases outcomes.len(),
{
    let earlier = outcomes.drop_last();
    lemma_one_step_per_outcome(session, outcomes);
    lemma_one_step_per_outcome(session, earlier);
    if k == outcomes.len() - 1 {
        assert(outcomes.take(k) =~= earlier);
        assert(outcomes.take(k + 1) =~= outcomes);
    } else {
        lemma_step_at(session, earlier, k);
        assert(earlier.take(k) =~= outcomes.take(k));
        assert(earlier.take(k + 1) =~= outcomes.take(k + 1));
    }
}

/// Nothing touches a workspace after its removal: every step that follows
/// the removal closes the connection.
pub proof fn lemma_removal_is_last(id: Seq<char>, outcomes: Seq<OutcomeView>, k: int, j: int)
    requires
        0 <= k < j < outcomes.len(),
        SessionView::initial(id).steps(outcomes)[k] is RemoveDir,
    ensures
        SessionView::initial(id).steps(outcomes)[j] is Close,
        SessionView::initial(id).run(outcomes.take(j)).phase is Removal || SessionView::initial(
            id,
        ).run(outcomes.take(j)).phase is Closed,
    decreases j - k,
{
    let start = SessionView::initial(id);
    lemma_step_at(start, outcomes, k);
    lemma_step_at(start, outcomes, j);
    if j == k + 1 {
        lemma_steps_are_accounted(id, outcomes.take(j));
    } else {
        lemma_removal_is_last(id, outcomes, k, j - 1);
        assert(outcomes.take(j).drop_last() =~= outcomes.take(j - 1));
        assert(outcomes.take(j).last() == outcomes[j - 1]);
        lemma_step_at(start, outcomes, j - 1);
    }
}

/// A closed session stays closed: every further step is the same `Close`.
pub proof fn lemma_closed_is_final(session: SessionView, outcome: OutcomeView)
    requires
        session.result() is Some,
    ensures
        session.next(outcome).0 == session,
        session.next(outcome).1 == StepView::Close(session.result()->Some_0),
{
}

/// One step is given for each outcome.
pub proof fn lemma_one_step_per_outcome(session: SessionView, outcomes: Seq<OutcomeView>)
    ensures
        session.steps(outcomes).len() == outcomes.len(),
    decreases outcomes.len(),
{
    if outcomes.len() > 0 {
        lemma_one_step_per_outcome(session, outcomes.drop_last());
    }
}

/// Whether no step given so far has touched the workspace.
spec fn untouched(id: Seq<char>, outcomes: Seq<OutcomeView>) -> bool {
    forall|k: int|
        0 <= k < outcomes.len() ==> !touches_workspace(
            #[trigger] SessionView::initial(id).steps(outcomes)[k],
        )
}

/// While only the request has been read, and where a session has closed on a
/// decode failure, no step has touched the workspace; and no removal is ever
/// on its way on account of a decode failure.
proof fn lemma_decode_failure_invariant(id: Seq<char>, outcomes: Seq<OutcomeView>)
    ensures
        match SessionView::initial(id).run(outcomes).phase {
            PhaseView::Header => untouched(id, outcomes),
            PhaseView::Payload { .. } => untouched(id, outcomes),
            PhaseView::Removal { result } => !(result matches Err(HandlerError::DecodeError(_))),
            PhaseView::Closed { result } => result matches Err(HandlerError::DecodeError(_))
                ==> untouched(id, outcomes),
            _ => true,
        },
    decreases outcomes.len(),
{
    if outcomes.len() > 0 {
        let earlier = outcomes.drop_last();
        lemma_decode_failure_invariant(id, earlier);
        let start = SessionView::initial(id);
        let steps = start.steps(outcomes);
        lemma_one_step_per_outcome(start, earlier);
        if untouched(id, earlier) && !touches_workspace(steps.last()) {
            assert forall|k: int| 0 <= k < outcomes.len() implies !touches_workspace(
                #[trigger] steps[k],
            ) by {
                if k < earlier.len() {
                    assert(steps[k] == start.steps(earlier)[k]);
                }
            }
        }
    }
}

/// A request that does not decode creates no workspace: where a session
/// closes with a decode failure, no step it gave has created, written,
/// launched or removed anything.
pub proof fn lemma_decode_failure_touches_nothing(id: Seq<char>, outcomes: Seq<OutcomeView>)
    requires
        SessionView::initial(id).run(outcomes).result() matches Some(
            Err(HandlerError::DecodeError(_)),
        ),
    ensures
        SessionView::initial(id).steps(outcomes).len() == outcomes.len(),
        forall|k: int|
            0 <= k < outcomes.len() ==> !touches_workspace(
                #[trigger] SessionView::initial(id).steps(outcomes)[k],
            ),
        SessionView::initial(id).created(outcomes) == 0,
{
    lemma_one_step_per_outcome(SessionView::initial(id), outcomes);
    lemma_decode_failure_invariant(id, outcomes);
    lemma_created_needs_a_step(id, outcomes);
}

/// No directory is reported as created unless its creation was asked for.
proof fn lemma_created_needs_a_step(id: Seq<char>, outcomes: Seq<OutcomeView>)
    requires
        untouched(id, outcomes),
    ensures
        SessionView::initial(id).created(outcomes) == 0,
    decreases outcomes.len(),
{
    if outcomes.len() > 0 {
        let earlier = outcomes.drop_last();
        let start = SessionView::initial(id);
        let steps = start.steps(outcomes);
        lemma_one_step_per_outcome(start, earlier);
        assert forall|k: int| 0 <= k < earlier.len() implies !touches_workspace(
            #[trigger] start.steps(earlier)[k],
        ) by {
            assert(steps[k] == start.steps(earlier)[k]);
        }
        lemma_created_needs_a_step(id, earlier);
        if earlier.len() > 0 {
            assert(start.awaited(earlier) == steps[earlier.len() - 1]);
        }
    }
}

/// A payload shorter than its header announced ends the session with a
/// decode failure, before any workspace exists.
pub proof fn lemma_truncated_payload_is_refused(id: Seq<char>, declared: nat, bytes: Seq<u8>)
    requires
        bytes.len() < declared,
    ensures
        transition(id, PhaseView::Payload { declared }, OutcomeView::Bytes(bytes)) == closing(
            Err(HandlerError::DecodeError(DecodeFault::UnexpectedEnd)),
        ),
{
}

/// The exit of the process ends the relaying only when the relay is armed:
/// whatever the outcomes, a session comes to the removal that follows
/// success only from polling, with both streams ended, on a reported exit.
pub proof fn lemma_success_needs_gated_exit(id: Seq<char>, outcomes: Seq<OutcomeView>)
    requires
        SessionView::initial(id).run(outcomes).phase == (PhaseView::Removal { result: Ok(()) }),
    ensures
        outcomes.len() > 0,
        outcomes.last() == OutcomeView::Output(EventView::Exited),
        SessionView::initial(id).run(outcomes.drop_last()).phase matches PhaseView::Polling {
            relay,
        } && relay.armed(),
{
    lemma_steps_are_accounted(id, outcomes.drop_last());
}

/// Replaying the same outcomes gives the same transcript: two sessions that
/// are told the same pass through the same phases and are given the same
/// texts to send, whatever their workspaces are called.
pub proof fn lemma_replay_sends_the_same(a: Seq<char>, b: Seq<char>, outcomes: Seq<OutcomeView>)
    ensures
        SessionView::initial(a).run(outcomes).phase == SessionView::initial(b).run(outcomes).phase,
        SessionView::initial(a).sent(outcomes) == SessionView::initial(b).sent(outcomes),
    decreases outcomes.len(),
{
    if outcomes.len() > 0 {
        lemma_replay_sends_the_same(a, b, outcomes.drop_last());
        lemma_steps_are_accounted(a, outcomes.drop_last());
        lemma_steps_are_accounted(b, outcomes.drop_last());
    }
}

/// What a session has its driver send is an interleaving of the lines that
/// the driver reported from standard output and from standard error: each
/// line once, terminated, and the lines of each stream in their order.
pub proof fn lemma_sent_interleaves_reported(id: Seq<char>, outcomes: Seq<OutcomeView>)
    ensures
        interleaves(
            SessionView::initial(id).sent(outcomes),
            SessionView::initial(id).reported(outcomes, Source::Stdout),
            SessionView::initial(id).reported(outcomes, Source::Stderr),
        ),
    decreases outcomes.len(),
{
    if outcomes.len() > 0 {
        let earlier = outcomes.drop_last();
        let start = SessionView::initial(id);
        lemma_sent_interleaves_reported(id, earlier);
        lemma_steps_are_accounted(id, earlier);
        let out = start.sent(outcomes);
        let a = start.reported(outcomes, Source::Stdout);
        let b = start.reported(outcomes, Source::Stderr);
        if start.awaited(outcomes) is Send {
            assert(out.drop_last() =~= start.sent(earlier));
            match outcomes.last() {
                OutcomeView::Output(EventView::Line(from, line)) => {
                    match from {
                        Source::Stdout => {
                            assert(a.drop_last() =~= start.reported(earlier, Source::Stdout));
                        },
                        Source::Stderr => {
                            assert(b.drop_last() =~= start.reported(earlier, Source::Stderr));
                        },
                    }
                },
                _ => {},
            }
        }
    }
}

} // verus!
