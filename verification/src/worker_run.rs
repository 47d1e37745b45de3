//! A session from its start to its end, as a worker that never fails drives
//! it: what is sent, and in which order.

use crate::session::{Phase, StartOutcome, WorkerAction, WorkerEvent};
use crate::shared_state::StateView;
use vstd::prelude::*;

verus! {

/// What a worker reports after it did what it was asked and nothing failed.
pub open spec fn report_of(action: WorkerAction) -> WorkerEvent {
    match action {
        WorkerAction::Settle(_) => WorkerEvent::Settled,
        WorkerAction::OpenDevice => WorkerEvent::DeviceReady,
        WorkerAction::WaitWhilePaused(_) => WorkerEvent::Polled,
        WorkerAction::Send(_) => WorkerEvent::Sent,
        WorkerAction::Delay(slept) => WorkerEvent::Delayed(slept),
        WorkerAction::Stop => WorkerEvent::Polled,
    }
}

impl StateView {
    /// The state after `steps` steps of a worker that never fails, with
    /// nothing else touching the state: in each step the worker does what it
    /// is asked and reports it. `draws` gives the extra delay drawn in each
    /// step.
    pub open spec fn after_steps(self, steps: nat, draws: spec_fn(nat) -> u64) -> StateView
        decreases steps,
    {
        if steps == 0 {
            self
        } else {
            let before = self.after_steps((steps - 1) as nat, draws);
            before.after_event(report_of(before.session.next_action()), draws((steps - 1) as nat))
        }
    }

    /// The characters that the worker sent during those steps, in the order
    /// in which it sent them.
    pub open spec fn sent_in(self, steps: nat, draws: spec_fn(nat) -> u64) -> Seq<char>
        decreases steps,
    {
        if steps == 0 {
            Seq::<char>::empty()
        } else {
            let before = self.after_steps((steps - 1) as nat, draws);
            let sent = self.sent_in((steps - 1) as nat, draws);
            match before.session.next_action() {
                WorkerAction::Send(c) => sent.push(c),
                _ => sent,
            }
        }
    }

    /// What holds at every step of a session that types `text`, `sent`
    /// being what was sent so far: the session is not paused and has not
    /// failed; once its text is taken it is `text`; and what was sent is the
    /// text up to the session's place in it.
    pub open spec fn types_in_order(self, text: Seq<char>, sent: Seq<char>) -> bool {
        &&& text.len() > 0
        &&& self.clipboard_text == text
        &&& !self.session.paused
        &&& self.session.wf()
        &&& match self.session.phase {
            Phase::Settling => sent == Seq::<char>::empty(),
            Phase::Opening => self.session.payload == text && sent == Seq::<char>::empty(),
            Phase::Typing => self.session.payload == text && sent == text.subrange(
                0,
                self.session.cursor as int,
            ),
            Phase::Completed => self.session.payload == text && sent == text,
            _ => false,
        }
    }
}

/// One step of a worker that never fails keeps a session typing its text in
/// order.
proof fn lemma_step_types_in_order(state: StateView, text: Seq<char>, sent: Seq<char>, drawn: u64)
    requires
        state.types_in_order(text, sent),
    ensures
        state.after_event(report_of(state.session.next_action()), drawn).types_in_order(
            text,
            match state.session.next_action() {
                WorkerAction::Send(c) => sent.push(c),
                _ => sent,
            },
        ),
{
    match state.session.next_action() {
        WorkerAction::Send(c) => {
            assert(sent.push(c) =~= text.subrange(0, (state.session.cursor + 1) as int));
            assert(text.subrange(0, text.len() as int) =~= text);
        },
        _ => {
            assert(text.subrange(0, text.len() as int) =~= text);
            assert(text.subrange(0, 0) =~= Seq::<char>::empty());
        },
    }
}

/// A session that was started with captured text, and whose worker never
/// fails while nothing else touches the state, sends the characters of that
/// text in their order, none twice and none left out: at every step what was
/// sent is the beginning of the text, and once the session is completed it
/// is the whole text.
pub proof fn lemma_session_types_the_captured_text(
    state: StateView,
    steps: nat,
    draws: spec_fn(nat) -> u64,
)
    requires
        state.start_outcome() == StartOutcome::Started,
    ensures
        state.after_start().after_steps(steps, draws).types_in_order(
            state.clipboard_text,
            state.after_start().sent_in(steps, draws),
        ),
        state.after_start().sent_in(steps, draws).is_prefix_of(state.clipboard_text),
        state.after_start().after_steps(steps, draws).session.phase == Phase::Completed
            ==> state.after_start().sent_in(steps, draws) == state.clipboard_text,
    decreases steps,
{
    let started = state.after_start();
    let text = state.clipboard_text;
    if steps > 0 {
        lemma_session_types_the_captured_text(state, (steps - 1) as nat, draws);
        let before = started.after_steps((steps - 1) as nat, draws);
        lemma_step_types_in_order(
            before,
            text,
            started.sent_in((steps - 1) as nat, draws),
            draws((steps - 1) as nat),
        );
    }
    let sent = started.sent_in(steps, draws);
    let now = started.after_steps(steps, draws);
    assert(now.types_in_order(text, sent));
    assert(sent.is_prefix_of(text)) by {
        if now.session.phase == Phase::Typing {
            assert(sent =~= text.subrange(0, now.session.cursor as int));
        }
    }
}

/// In how many slices a delay of so many milliseconds is slept.
pub open spec fn slices_of(delay: u64) -> nat {
    ((delay + crate::session::SLICE_MS - 1) / (crate::session::SLICE_MS as int)) as nat
}

/// The most slices that any delay takes.
pub open spec fn most_slices() -> nat {
    slices_of(u64::MAX)
}

impl StateView {
    /// A bound on the steps that the worker of a session that is not paused
    /// has still to take: the settle delay and the opening of the keyboard
    /// where they are still to come, then for every character that is still
    /// to be sent the sending and the slices of the longest delay, and the
    /// slices of the delay that is running. Nothing is left when the session
    /// is over.
    pub open spec fn steps_left(self) -> nat {
        match self.session.phase {
            Phase::Settling => 2 + self.clipboard_text.len() * (1 + most_slices()),
            Phase::Opening => 1 + self.session.payload.len() * (1 + most_slices()),
            Phase::Typing => ((self.session.payload.len() - self.session.cursor) * (1
                + most_slices()) + slices_of(self.session.remaining)) as nat,
            _ => 0,
        }
    }
}

/// Every step of a worker that never fails brings a session that is under
/// way and not paused nearer to its end: the bound on the steps that are
/// left goes down. So such a session is over after finitely many steps,
/// however the extra delays are drawn.
pub proof fn lemma_worker_step_nears_the_end(state: StateView, drawn: u64)
    requires
        state.session.wf(),
        state.session.is_active(),
        !state.session.paused,
    ensures
        state.after_event(report_of(state.session.next_action()), drawn).steps_left()
            < state.steps_left(),
{
    let next = state.after_event(report_of(state.session.next_action()), drawn);
    let most = most_slices();
    assert(forall|delay: u64| #[trigger] slices_of(delay) <= most);
    assert(forall|delay: u64| delay > 0 ==> #[trigger] slices_of(delay) >= 1);
    match state.session.phase {
        Phase::Typing => {
            let left = state.session.payload.len() - state.session.cursor;
            match state.session.next_action() {
                WorkerAction::Send(_) => {
                    assert(left >= 1);
                    assert(left * (1 + most) == (left - 1) * (1 + most) + (1 + most))
                        by (nonlinear_arith);
                    assert(slices_of(next.session.remaining) <= most);
                },
                WorkerAction::Delay(slice) => {
                    assert(slices_of(state.session.remaining) >= 1);
                    if next.session.phase == Phase::Typing {
                        assert(next.session.remaining == state.session.remaining - slice);
                        assert(slices_of(next.session.remaining) < slices_of(
                            state.session.remaining,
                        ));
                    }
                    assert(left * (1 + most) >= 0) by (nonlinear_arith)
                        requires
                            left >= 0,
                            most >= 0,
                    ;
                },
                _ => {},
            }
        },
        _ => {},
    }
}

/// A session that is under way has at least one step left.
proof fn lemma_active_session_has_steps_left(state: StateView)
    requires
        state.session.wf(),
        state.session.is_active(),
    ensures
        state.steps_left() >= 1,
{
    let most = most_slices();
    let text_len = state.clipboard_text.len();
    let payload_len = state.session.payload.len();
    let left = payload_len - state.session.cursor;
    assert(text_len * (1 + most) >= 0) by (nonlinear_arith)
        requires
            text_len >= 0,
            most >= 0,
    ;
    assert(payload_len * (1 + most) >= 0) by (nonlinear_arith)
        requires
            payload_len >= 0,
            most >= 0,
    ;
    if state.session.phase == Phase::Typing {
        if left >= 1 {
            assert(left * (1 + most) >= 1) by (nonlinear_arith)
                requires
                    left >= 1,
                    most >= 0,
            ;
        } else {
            assert(state.session.remaining > 0);
            assert(slices_of(state.session.remaining) >= 1);
            assert(left * (1 + most) == 0) by (nonlinear_arith)
                requires
                    left == 0,
            ;
        }
    }
}

/// After `steps` steps of a worker that never fails, a session that is not
/// paused is either over or has at least that many steps fewer left.
proof fn lemma_steps_count_down(state: StateView, steps: nat, draws: spec_fn(nat) -> u64)
    requires
        state.session.wf(),
        !state.session.paused,
    ensures
        state.after_steps(steps, draws).session.wf(),
        !state.after_steps(steps, draws).session.paused,
        state.after_steps(steps, draws).session.is_active() ==> state.after_steps(
            steps,
            draws,
        ).steps_left() + steps <= state.steps_left(),
    decreases steps,
{
    if steps > 0 {
        lemma_steps_count_down(state, (steps - 1) as nat, draws);
        let before = state.after_steps((steps - 1) as nat, draws);
        if before.session.is_active() {
            lemma_worker_step_nears_the_end(before, draws((steps - 1) as nat));
        }
    }
}

/// A session that is not paused, and whose worker never fails while nothing
/// else touches the state, is over after no more steps than the bound says.
/// Where it was started with captured text, it is then completed and has
/// sent exactly that text.
pub proof fn lemma_session_runs_to_its_end(state: StateView, draws: spec_fn(nat) -> u64)
    requires
        state.session.wf(),
    ensures
        !state.session.paused ==> !state.after_steps(
            state.steps_left(),
            draws,
        ).session.is_active(),
        state.start_outcome() == StartOutcome::Started ==> {
            &&& state.after_start().after_steps(
                state.after_start().steps_left(),
                draws,
            ).session.phase == Phase::Completed
            &&& state.after_start().sent_in(state.after_start().steps_left(), draws)
                == state.clipboard_text
        },
{
    if !state.session.paused {
        lemma_steps_count_down(state, state.steps_left(), draws);
        let end = state.after_steps(state.steps_left(), draws);
        if end.session.is_active() {
            lemma_active_session_has_steps_left(end);
        }
    }
    if state.start_outcome() == StartOutcome::Started {
        let started = state.after_start();
        lemma_steps_count_down(started, started.steps_left(), draws);
        lemma_session_types_the_captured_text(state, started.steps_left(), draws);
        let end = started.after_steps(started.steps_left(), draws);
        if end.session.is_active() {
            lemma_active_session_has_steps_left(end);
        }
    }
}

} // verus!
