//! What passes between the publishing loop and its caller: the events that
//! the caller reports, and the steps that the loop answers with.

use vstd::prelude::*;
use crate::post::{Receipt, ReceiptView};
use crate::request::{Request, RequestView};
use crate::response::PostError;

verus! {

/// What the caller reports back.
#[derive(Clone, Debug, PartialEq, Eq)]
pub enum Event {
    /// The question file was read; `None` where it could not be.
    FileRead { contents: Option<String> },
    /// A request was sent; `None` where no answer came.
    Replied { body: Option<String> },
    /// The interval has passed.
    Woke,
}

/// An event in contracts.
pub enum EventView {
    FileRead { contents: Option<Seq<char>> },
    Replied { body: Option<Seq<char>> },
    Woke,
}

/// What the caller is asked to do next.
#[derive(Clone, Debug, PartialEq, Eq)]
pub enum Action {
    /// Read the question file and report `Event::FileRead`.
    ReadQuestions,
    /// Send the request and report `Event::Replied`.
    Send { request: Request },
    /// Sleep and report `Event::Woke`.
    Sleep { seconds: u64 },
    /// End the process: the questions could not be read.
    Terminate,
}

/// An action in contracts.
pub enum ActionView {
    ReadQuestions,
    Send { request: RequestView },
    Sleep { seconds: u64 },
    Terminate,
}

/// What a step has to tell on the console.
#[derive(Clone, Debug, PartialEq, Eq)]
pub enum Notice {
    /// The question file is about to be read.
    Loading,
    /// The file was read and holds this many questions.
    Total { count: usize },
    /// The question at this place of the batch is being attempted.
    Attempt { index: usize, text: String },
    /// The attempt succeeded.
    Posted { receipt: Receipt },
    /// The attempt failed and will be repeated.
    Failed { error: PostError },
    /// The question file could not be read.
    Unreadable,
}

/// A notice in contracts.
pub enum NoticeView {
    Loading,
    Total { count: nat },
    Attempt { index: nat, text: Seq<char> },
    Posted { receipt: ReceiptView },
    Failed { error: PostError },
    Unreadable,
}

/// The outcome of a step.
#[derive(Clone, Debug, PartialEq, Eq)]
pub struct Step {
    pub notices: Vec<Notice>,
    pub action: Action,
}

/// A step in contracts.
pub struct StepView {
    pub notices: Seq<NoticeView>,
    pub action: ActionView,
}

/// The text of a file that was read, if it could be.
pub open spec fn contents_view(contents: Option<String>) -> Option<Seq<char>> {
    match contents {
        Some(text) => Some(text@),
        None => None,
    }
}

impl View for Event {
    type V = EventView;

    open spec fn view(&self) -> EventView {
        match *self {
            Event::FileRead { contents } => EventView::FileRead {
                contents: contents_view(contents),
            },
            Event::Replied { body } => EventView::Replied { body: contents_view(body) },
            Event::Woke => EventView::Woke,
        }
    }
}

impl View for Action {
    type V = ActionView;

    open spec fn view(&self) -> ActionView {
        match *self {
            Action::ReadQuestions => ActionView::ReadQuestions,
            Action::Send { request } => ActionView::Send { request: request@ },
            Action::Sleep { seconds } => ActionView::Sleep { seconds },
            Action::Terminate => ActionView::Terminate,
        }
    }
}

impl View for Notice {
    type V = NoticeView;

    open spec fn view(&self) -> NoticeView {
        match *self {
            Notice::Loading => NoticeView::Loading,
            Notice::Total { count } => NoticeView::Total { count: count as nat },
            Notice::Attempt { index, text } => NoticeView::Attempt {
                index: index as nat,
                text: text@,
            },
            Notice::Posted { receipt } => NoticeView::Posted { receipt: receipt@ },
            Notice::Failed { error } => NoticeView::Failed { error },
            Notice::Unreadable => NoticeView::Unreadable,
        }
    }
}

impl View for Step {
    type V = StepView;

    open spec fn view(&self) -> StepView {
        StepView {
            notices: self.notices@.map_values(|notice: Notice| notice@),
            action: self.action@,
        }
    }
}

} // verus!
