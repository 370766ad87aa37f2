//! The publishing loop.
//!
//! The loop itself does nothing to the outside world. Each step takes the
//! outcome of what the caller did last (read the file, sent a request,
//! slept) and answers with what to do next. The caller performs that and
//! comes back with the next event; the loop never ends of itself.

use vstd::prelude::*;
use crate::account::Account;
use crate::event::{Action, ActionView, Event, Notice, NoticeView, Step, StepView};
use crate::post::{broadcast_request, receipt, receipt_view, request_view, submit_post, Receipt};
use crate::question::{texts, Question};
use crate::request::Request;
use crate::response::PostError;
use crate::shuffler::Shuffler;
use crate::source::read_questions;
use crate::state::{LoopState, Phase};

verus! {

/// Seconds between two attempts unless configured otherwise.
pub const DEFAULT_INTERVAL_SECS: u64 = 43200;

/// The publishing loop: one account, one batch of questions at a time, one
/// attempt per interval.
pub struct PostingLoop {
    account: Account,
    shuffler: Shuffler,
    interval_secs: u64,
    batch: Vec<Question>,
    cursor: usize,
    phase: Phase,
}

impl View for PostingLoop {
    type V = LoopState;

    closed spec fn view(&self) -> LoopState {
        LoopState {
            account: self.account@,
            shuffler: self.shuffler,
            interval_secs: self.interval_secs,
            batch: texts(self.batch@),
            cursor: self.cursor as nat,
            phase: self.phase,
        }
    }
}

/// A step or nothing, in contracts.
pub open spec fn taken_view(taken: Option<Step>) -> Option<StepView> {
    match taken {
        Some(step) => Some(step@),
        None => None,
    }
}

/// The state and the step that a transition leads to, if it is one.
pub open spec fn transition(after: LoopState, taken: Option<StepView>) -> Option<
    (LoopState, StepView),
> {
    match taken {
        Some(step) => Some((after, step)),
        None => None,
    }
}

impl PostingLoop {
    #[verifier::type_invariant]
    spec fn inv(self) -> bool {
        self@.wf()
    }

    /// A loop that has not read its questions yet.
    pub fn new(account: Account, shuffler: Shuffler, interval_secs: u64) -> (made: PostingLoop)
        ensures
            made@ == (LoopState {
                account: account@,
                shuffler,
                interval_secs,
                batch: Seq::empty(),
                cursor: 0,
                phase: Phase::LoadingQuestions,
            }),
            made@.wf(),
    {
        let made = PostingLoop {
            account,
            shuffler,
            interval_secs,
            batch: Vec::new(),
            cursor: 0,
            phase: Phase::LoadingQuestions,
        };
        assert(texts(made.batch@) =~= Seq::<Seq<char>>::empty());
        made
    }

    /// The first step of a new loop: it asks for the question file.
    pub fn start(&self) -> (step: Step)
        ensures
            step@ == (StepView {
                notices: seq![NoticeView::Loading],
                action: ActionView::ReadQuestions,
            }),
    {
        let mut notices: Vec<Notice> = Vec::new();
        notices.push(Notice::Loading);
        let step = Step { notices, action: Action::ReadQuestions };
        assert(step@.notices =~= seq![NoticeView::Loading]);
        step
    }

    /// What the loop waits for.
    pub fn phase(&self) -> (phase: Phase)
        ensures
            phase == self@.phase,
    {
        self.phase
    }

    /// The place in the batch of the next question to publish.
    pub fn cursor(&self) -> (cursor: usize)
        ensures
            cursor == self@.cursor,
    {
        self.cursor
    }

    /// The number of questions in the batch.
    pub fn batch_len(&self) -> (len: usize)
        ensures
            len == self@.batch.len(),
    {
        self.batch.len()
    }

    /// The seconds between two attempts.
    pub fn interval_secs(&self) -> (seconds: u64)
        ensures
            seconds == self@.interval_secs,
    {
        self.interval_secs
    }

    /// The question at a place of the batch, if the batch is that long.
    pub fn question(&self, index: usize) -> (found: Option<&Question>)
        ensures
            match found {
                Some(question) => index < self@.batch.len() && question@
                    == self@.batch[index as int],
                None => index >= self@.batch.len(),
            },
    {
        if index < self.batch.len() {
            Some(&self.batch[index])
        } else {
            None
        }
    }

    /// Begins an attempt on the question at the cursor.
    fn attempt(&mut self, before: Vec<Notice>) -> (step: Step)
        requires
            old(self)@.cursor < old(self)@.batch.len(),
        ensures
            final(self)@ == old(self)@.in_phase(Phase::AwaitingUnsigned),
            step@ == old(self)@.attempt(before@.map_values(|notice: Notice| notice@)),
    {
        proof {
            use_type_invariant(&*self);
        }
        let question = &self.batch[self.cursor];
        let request = submit_post(&self.account, question.text());
        let mut notices = before;
        notices.push(Notice::Attempt { index: self.cursor, text: question.text().to_owned() });
        self.phase = Phase::AwaitingUnsigned;
        let step = Step { notices, action: Action::Send { request } };
        assert(step@.notices =~= old(self)@.attempt(
            before@.map_values(|notice: Notice| notice@),
        ).notices);
        step
    }

    /// Ends an attempt: one notice, then the interval.
    fn pause(&mut self, notice: Notice) -> (step: Step)
        requires
            old(self)@.cursor <= old(self)@.batch.len(),
        ensures
            final(self)@ == old(self)@.in_phase(Phase::Waiting),
            step@ == old(self)@.pause(notice@),
    {
        let mut notices: Vec<Notice> = Vec::new();
        notices.push(notice);
        self.phase = Phase::Waiting;
        let step = Step { notices, action: Action::Sleep { seconds: self.interval_secs } };
        assert(step@.notices =~= seq![notice@]);
        step
    }

    /// Takes the questions of the file, already in the order of
    /// publication, and begins the cycle; `None` stands for a file that
    /// could not be read. Nothing happens unless the loop waits for the
    /// file.
    pub fn load(&mut self, questions: Option<Vec<Question>>) -> (taken: Option<Step>)
        ensures
            transition(final(self)@, taken_view(taken)) == old(self)@.load_spec(
                match questions {
                    Some(batch) => Some(texts(batch@)),
                    None => None,
                },
            ),
            taken is None ==> final(self)@ == old(self)@,
            final(self)@.wf(),
    {
        proof {
            use_type_invariant(&*self);
        }
        if self.phase != Phase::LoadingQuestions {
            return None;
        }
        match questions {
            None => {
                self.phase = Phase::Terminated;
                let mut notices: Vec<Notice> = Vec::new();
                notices.push(Notice::Unreadable);
                let step = Step { notices, action: Action::Terminate };
                assert(step@.notices =~= seq![NoticeView::Unreadable]);
                Some(step)
            },
            Some(batch) => {
                let mut notices: Vec<Notice> = Vec::new();
                notices.push(Notice::Total { count: batch.len() });
                self.phase = Phase::Waiting;
                self.cursor = 0;
                self.batch = batch;
                if self.batch.len() == 0 {
                    self.phase = Phase::LoadingQuestions;
                    notices.push(Notice::Loading);
                    let step = Step { notices, action: Action::ReadQuestions };
                    assert(step@.notices =~= seq![
                        NoticeView::Total { count: 0 },
                        NoticeView::Loading,
                    ]);
                    Some(step)
                } else {
                    assert(notices@.map_values(|notice: Notice| notice@) =~= seq![
                        NoticeView::Total { count: batch@.len() },
                    ]);
                    Some(self.attempt(notices))
                }
            },
        }
    }

    /// Takes the outcome of the first half of an attempt. Nothing happens
    /// unless the loop waits for the answer to a handed-in post.
    pub fn sent(&mut self, outcome: Result<Request, PostError>) -> (taken: Option<Step>)
        ensures
            transition(final(self)@, taken_view(taken)) == old(self)@.sent_spec(
                request_view(outcome),
            ),
            taken is None ==> final(self)@ == old(self)@,
            final(self)@.wf(),
    {
        proof {
            use_type_invariant(&*self);
        }
        if self.phase != Phase::AwaitingUnsigned {
            return None;
        }
        match outcome {
            Ok(request) => {
                self.phase = Phase::AwaitingBroadcast;
                let step = Step { notices: Vec::new(), action: Action::Send { request } };
                assert(step@.notices =~= Seq::<NoticeView>::empty());
                Some(step)
            },
            Err(error) => Some(self.pause(Notice::Failed { error })),
        }
    }

    /// Takes the outcome of an attempt: success moves the cursor on by one
    /// question, failure leaves it where it is. Nothing happens unless the
    /// loop waits for the answer to a broadcast.
    pub fn settle(&mut self, outcome: Result<Receipt, PostError>) -> (taken: Option<Step>)
        ensures
            transition(final(self)@, taken_view(taken)) == old(self)@.settle_spec(
                receipt_view(outcome),
            ),
            taken is None ==> final(self)@ == old(self)@,
            final(self)@.wf(),
    {
        proof {
            use_type_invariant(&*self);
        }
        if self.phase != Phase::AwaitingBroadcast {
            return None;
        }
        match outcome {
            Ok(receipt) => {
                assert(self.cursor < self.batch.len());
                let step = self.pause(Notice::Posted { receipt });
                self.cursor = self.cursor + 1;
                Some(step)
            },
            Err(error) => Some(self.pause(Notice::Failed { error })),
        }
    }

    /// Goes on when the interval has passed. Nothing happens unless the
    /// loop waits for it.
    pub fn wake(&mut self) -> (taken: Option<Step>)
        ensures
            transition(final(self)@, taken_view(taken)) == old(self)@.wake_spec(),
            taken is None ==> final(self)@ == old(self)@,
            final(self)@.wf(),
    {
        proof {
            use_type_invariant(&*self);
        }
        if self.phase != Phase::Waiting {
            return None;
        }
        if self.cursor < self.batch.len() {
            let before: Vec<Notice> = Vec::new();
            assert(before@.map_values(|notice: Notice| notice@) =~= Seq::<NoticeView>::empty());
            Some(self.attempt(before))
        } else {
            self.phase = Phase::LoadingQuestions;
            let mut notices: Vec<Notice> = Vec::new();
            notices.push(Notice::Loading);
            let step = Step { notices, action: Action::ReadQuestions };
            assert(step@.notices =~= seq![NoticeView::Loading]);
            Some(step)
        }
    }

    /// Takes an event and says what to do next. An event that does not
    /// answer what the loop waits for is passed over: nothing changes and
    /// nothing is returned.
    pub fn step(&mut self, event: Event) -> (taken: Option<Step>)
        ensures
            match taken {
                Some(step) => old(self)@.next(event@, final(self)@, step@),
                None => !old(self)@.expects(event@) && final(self)@ == old(self)@,
            },
            final(self)@.wf(),
    {
        proof {
            use_type_invariant(&*self);
        }
        match event {
            Event::FileRead { contents } => {
                if self.phase != Phase::LoadingQuestions {
                    return None;
                }
                let text = match &contents {
                    Some(text) => Some(text.as_str()),
                    None => None,
                };
                match read_questions(text) {
                    Ok(questions) => {
                        let batch = self.shuffler.shuffle(questions);
                        self.load(Some(batch))
                    },
                    Err(_) => self.load(None),
                }
            },
            Event::Replied { body } => {
                let reply = match &body {
                    Some(text) => Some(text.as_str()),
                    None => None,
                };
                if self.phase == Phase::AwaitingUnsigned {
                    let outcome = broadcast_request(&self.account, reply);
                    self.sent(outcome)
                } else if self.phase == Phase::AwaitingBroadcast {
                    self.settle(receipt(reply))
                } else {
                    None
                }
            },
            Event::Woke => self.wake(),
        }
    }
}

} // verus!
