//! The publishing loop as a state machine over plain values: what it
//! holds, which steps it may take, and what holds of every chain of steps.

use vstd::prelude::*;
use crate::account::AccountView;
use crate::event::{ActionView, EventView, NoticeView, StepView};
use crate::post::{broadcast_spec, receipt_spec, ReceiptView};
use crate::request::{submit_post_spec, RequestView};
use crate::response::PostError;
use crate::shuffler::Shuffler;
use crate::source::lines_of;

verus! {

/// What the loop is waiting for.
#[derive(Clone, Copy, Debug, PartialEq, Eq, Structural)]
pub enum Phase {
    /// For the contents of the question file.
    LoadingQuestions,
    /// For the answer to a handed-in post.
    AwaitingUnsigned,
    /// For the answer to a broadcast.
    AwaitingBroadcast,
    /// For the interval to pass.
    Waiting,
    /// For nothing: the questions could not be read.
    Terminated,
}

/// The loop in contracts: its configuration, the batch of the current
/// cycle, the place of the next question to publish, and what it waits for.
pub struct LoopState {
    pub account: AccountView,
    pub shuffler: Shuffler,
    pub interval_secs: u64,
    pub batch: Seq<Seq<char>>,
    pub cursor: nat,
    pub phase: Phase,
}

impl LoopState {
    /// The cursor stays within the batch; it points at a question while
    /// one is being attempted, and behind the last while the file is read.
    pub open spec fn wf(self) -> bool {
        &&& self.cursor <= self.batch.len()
        &&& self.phase == Phase::AwaitingUnsigned || self.phase == Phase::AwaitingBroadcast
            ==> self.cursor < self.batch.len()
        &&& self.phase == Phase::LoadingQuestions ==> self.cursor == self.batch.len()
    }

    /// The state with another phase.
    pub open spec fn in_phase(self, phase: Phase) -> LoopState {
        LoopState { phase, ..self }
    }

    /// The step that begins an attempt on the question at the cursor.
    pub open spec fn attempt(self, before: Seq<NoticeView>) -> StepView {
        StepView {
            notices: before.push(
                NoticeView::Attempt { index: self.cursor, text: self.batch[self.cursor as int] },
            ),
            action: ActionView::Send {
                request: submit_post_spec(self.batch[self.cursor as int], self.account.address),
            },
        }
    }

    /// The step that ends an attempt: one notice, then the interval.
    pub open spec fn pause(self, notice: NoticeView) -> StepView {
        StepView {
            notices: seq![notice],
            action: ActionView::Sleep { seconds: self.interval_secs },
        }
    }

    /// What the loop does with the questions of the file, already in the
    /// order of publication; `None` stands for a file that could not be
    /// read, which ends the loop. It begins the cycle at the first
    /// question; a batch without questions is read again at once.
    pub open spec fn load_spec(self, batch: Option<Seq<Seq<char>>>) -> Option<
        (LoopState, StepView),
    > {
        if self.phase != Phase::LoadingQuestions {
            None
        } else {
            match batch {
                None => Some(
                    (
                        self.in_phase(Phase::Terminated),
                        StepView {
                            notices: seq![NoticeView::Unreadable],
                            action: ActionView::Terminate,
                        },
                    ),
                ),
                Some(questions) => {
                    let total = NoticeView::Total { count: questions.len() };
                    let fresh = LoopState { batch: questions, cursor: 0, ..self };
                    if questions.len() == 0 {
                        Some(
                            (
                                fresh,
                                StepView {
                                    notices: seq![total, NoticeView::Loading],
                                    action: ActionView::ReadQuestions,
                                },
                            ),
                        )
                    } else {
                        Some(
                            (
                                fresh.in_phase(Phase::AwaitingUnsigned),
                                fresh.attempt(seq![total]),
                            ),
                        )
                    }
                },
            }
        }
    }

    /// What the loop does with the outcome of the first half of an
    /// attempt: it sends the broadcast, or gives the attempt up and waits.
    pub open spec fn sent_spec(self, outcome: Result<RequestView, PostError>) -> Option<
        (LoopState, StepView),
    > {
        if self.phase != Phase::AwaitingUnsigned {
            None
        } else {
            match outcome {
                Ok(request) => Some(
                    (
                        self.in_phase(Phase::AwaitingBroadcast),
                        StepView { notices: Seq::empty(), action: ActionView::Send { request } },
                    ),
                ),
                Err(error) => Some(
                    (self.in_phase(Phase::Waiting), self.pause(NoticeView::Failed { error })),
                ),
            }
        }
    }

    /// What the loop does with the outcome of an attempt: on success the
    /// cursor moves on by one, on failure it stays; either way the loop
    /// waits for the interval.
    pub open spec fn settle_spec(self, outcome: Result<ReceiptView, PostError>) -> Option<
        (LoopState, StepView),
    > {
        if self.phase != Phase::AwaitingBroadcast {
            None
        } else {
            match outcome {
                Ok(receipt) => Some(
                    (
                        LoopState { cursor: self.cursor + 1, phase: Phase::Waiting, ..self },
                        self.pause(NoticeView::Posted { receipt }),
                    ),
                ),
                Err(error) => Some(
                    (self.in_phase(Phase::Waiting), self.pause(NoticeView::Failed { error })),
                ),
            }
        }
    }

    /// What the loop does when the interval has passed: it attempts the
    /// question at the cursor, or reads the file again where the batch is
    /// drained.
    pub open spec fn wake_spec(self) -> Option<(LoopState, StepView)> {
        if self.phase != Phase::Waiting {
            None
        } else if self.cursor < self.batch.len() {
            Some((self.in_phase(Phase::AwaitingUnsigned), self.attempt(Seq::empty())))
        } else {
            Some(
                (
                    self.in_phase(Phase::LoadingQuestions),
                    StepView {
                        notices: seq![NoticeView::Loading],
                        action: ActionView::ReadQuestions,
                    },
                ),
            )
        }
    }

    /// Whether an event answers what the loop waits for.
    pub open spec fn expects(self, event: EventView) -> bool {
        match event {
            EventView::FileRead { .. } => self.phase == Phase::LoadingQuestions,
            EventView::Replied { .. } => self.phase == Phase::AwaitingUnsigned || self.phase
                == Phase::AwaitingBroadcast,
            EventView::Woke => self.phase == Phase::Waiting,
        }
    }

    /// Whether the loop may go from `self` to `after` with the outcome
    /// `step` on an event. A file that was read is split into lines and
    /// shuffled; the answer to a handed-in post is decoded, signed and
    /// turned into the broadcast; the answer to a broadcast settles the
    /// attempt.
    pub open spec fn next(self, event: EventView, after: LoopState, step: StepView) -> bool {
        match event {
            EventView::FileRead { contents } => match contents {
                None => self.load_spec(None) == Some((after, step)),
                Some(text) => self.shuffler.arranges(lines_of(text), after.batch)
                    && self.load_spec(Some(after.batch)) == Some((after, step)),
            },
            EventView::Replied { body } => if self.phase == Phase::AwaitingUnsigned {
                self.sent_spec(broadcast_spec(self.account.key, body)) == Some((after, step))
            } else {
                self.settle_spec(receipt_spec(body)) == Some((after, step))
            },
            EventView::Woke => self.wake_spec() == Some((after, step)),
        }
    }
}

impl LoopState {
    /// Whether an attempt is under way.
    pub open spec fn attempting(self) -> bool {
        self.phase == Phase::AwaitingUnsigned || self.phase == Phase::AwaitingBroadcast
    }

    /// Whether an event completes an attempt: it is the answer to a
    /// broadcast, and it names the hash of the transaction.
    pub open spec fn succeeds(self, event: EventView) -> bool {
        &&& self.phase == Phase::AwaitingBroadcast
        &&& event matches EventView::Replied { body }
        &&& receipt_spec(body) is Ok
    }
}

/// A chain of steps: each state leads to the next on its event.
pub open spec fn is_run(
    states: Seq<LoopState>,
    events: Seq<EventView>,
    steps: Seq<StepView>,
) -> bool {
    &&& states.len() == events.len() + 1
    &&& steps.len() == events.len()
    &&& forall|i: int|
        0 <= i < events.len() ==> (#[trigger] states[i]).next(events[i], states[i + 1], steps[i])
}

/// A step is taken only on an event that the loop waits for, and it leaves
/// the cursor within the batch.
pub proof fn lemma_step_keeps_wf(
    before: LoopState,
    event: EventView,
    after: LoopState,
    step: StepView,
)
    requires
        before.wf(),
        before.next(event, after, step),
    ensures
        after.wf(),
        before.expects(event),
{
}

/// The cursor moves forward only when an attempt has succeeded, and then
/// by one question: a step that does not complete an attempt leaves the
/// cursor and the batch as they are, unless it takes in the file, which
/// happens only behind the last question; a file that was read sets the
/// cursor back to the first question.
pub proof fn lemma_cursor_advances_only_on_success(
    before: LoopState,
    event: EventView,
    after: LoopState,
    step: StepView,
)
    requires
        before.wf(),
        before.next(event, after, step),
    ensures
        before.succeeds(event) ==> after.cursor == before.cursor + 1 && after.batch
            == before.batch,
        !before.succeeds(event) && !(event is FileRead) ==> after.cursor == before.cursor
            && after.batch == before.batch,
        event is FileRead ==> before.cursor == before.batch.len() && after.cursor <= before.cursor,
        event matches EventView::FileRead { contents: Some(_) } ==> after.cursor == 0,
        after.cursor > before.cursor ==> before.succeeds(event),
{
}

/// A question whose attempts all fail is never passed over: however many
/// steps are taken, as long as none of them completes an attempt, the
/// cursor stays on that question and the batch stays the same.
pub proof fn lemma_failing_question_holds_cursor(
    states: Seq<LoopState>,
    events: Seq<EventView>,
    steps: Seq<StepView>,
    at: int,
)
    requires
        is_run(states, events, steps),
        states[0].wf(),
        states[0].cursor < states[0].batch.len(),
        forall|i: int| 0 <= i < events.len() ==> !(#[trigger] states[i]).succeeds(events[i]),
        0 <= at < states.len(),
    ensures
        states[at].wf(),
        states[at].cursor == states[0].cursor,
        states[at].batch == states[0].batch,
    decreases at,
{
    if at > 0 {
        lemma_failing_question_holds_cursor(states, events, steps, at - 1);
        let before = states[at - 1];
        assert(before.next(events[at - 1], states[at], steps[at - 1]));
        assert(!before.succeeds(events[at - 1]));
        lemma_step_keeps_wf(before, events[at - 1], states[at], steps[at - 1]);
        lemma_cursor_advances_only_on_success(before, events[at - 1], states[at], steps[at - 1]);
    }
}

/// Every attempt, whether it succeeds or fails, is followed by the
/// configured interval: the step that ends an attempt asks for the sleep
/// and nothing else, and only the end of a sleep or a newly read file
/// begins an attempt.
pub proof fn lemma_interval_follows_every_attempt(
    before: LoopState,
    event: EventView,
    after: LoopState,
    step: StepView,
)
    requires
        before.wf(),
        before.next(event, after, step),
    ensures
        before.attempting() && !after.attempting() ==> after.phase == Phase::Waiting && step.action
            == (ActionView::Sleep { seconds: before.interval_secs }),
        before.attempting() && after.attempting() ==> before.phase == Phase::AwaitingUnsigned
            && after.phase == Phase::AwaitingBroadcast,
        !before.attempting() && after.attempting() ==> after.phase == Phase::AwaitingUnsigned && (
        event is Woke || event is FileRead),
        after.interval_secs == before.interval_secs,
        after.account == before.account,
        after.shuffler == before.shuffler,
{
}

/// The file is read again only when the batch is drained, and always
/// then: while a question is left, no step asks for the file and the batch
/// stays as it is; once the cursor is behind the last question, the step
/// after the interval asks for the file before anything is sent; the batch
/// that follows holds the lines of the file as it was read then; and
/// whatever is handed in is the question of the current batch at the
/// cursor.
pub proof fn lemma_reload_only_after_drain(
    before: LoopState,
    event: EventView,
    after: LoopState,
    step: StepView,
)
    requires
        before.wf(),
        before.next(event, after, step),
    ensures
        before.cursor < before.batch.len() ==> after.batch == before.batch && step.action
            != ActionView::ReadQuestions,
        before.phase == Phase::Waiting && before.cursor == before.batch.len() ==> step.action
            == ActionView::ReadQuestions && after.phase == Phase::LoadingQuestions,
        event matches EventView::FileRead { contents: Some(text) } ==> before.shuffler.arranges(
            lines_of(text),
            after.batch,
        ) && after.cursor == 0,
        after.phase == Phase::AwaitingUnsigned ==> after.cursor < after.batch.len() && step.action
            == (ActionView::Send {
            request: submit_post_spec(after.batch[after.cursor as int], after.account.address),
        }),
{
}

} // verus!
