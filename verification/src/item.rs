//! The display state of one operation.

use vstd::prelude::*;
use crate::format::{format_progress, progress_line};
use crate::progress::{WorkDoneProgress, WorkDoneProgressView};
use crate::token::{ProgressToken, TokenView};

verus! {

/// What is shown of one operation of a producer.
#[derive(Debug)]
pub struct Item {
    token: ProgressToken,
    title: Option<String>,
    line: Option<String>,
    finished: bool,
}

/// What an `Item` stands for.
pub struct ItemView {
    /// The operation's name.
    pub token: TokenView,
    /// The title that the operation began with, once it has begun.
    pub title: Option<Seq<char>>,
    /// The status line, once there has been a report.
    pub line: Option<Seq<char>>,
    /// Whether the operation is over.
    pub finished: bool,
}

impl ItemView {
    /// The item of an operation of which nothing has been reported yet.
    pub open spec fn created(token: TokenView) -> ItemView {
        ItemView { token, title: None, line: None, finished: false }
    }

    /// The item after the report `progress`.
    ///
    /// A beginning sets the title, an end marks the item as finished, and every
    /// report writes the status line anew, from the title that the item then
    /// has and from the message and the percentage of the report; an end has no
    /// percentage.
    pub open spec fn apply(self, progress: WorkDoneProgressView) -> ItemView {
        match progress {
            WorkDoneProgressView::Begin { title, message, percentage } => ItemView {
                title: Some(title),
                line: Some(progress_line(self.token, Some(title), message, percentage)),
                ..self
            },
            WorkDoneProgressView::Report { message, percentage } => ItemView {
                line: Some(progress_line(self.token, self.title, message, percentage)),
                ..self
            },
            WorkDoneProgressView::End { message } => ItemView {
                line: Some(progress_line(self.token, self.title, message, None)),
                finished: true,
                ..self
            },
        }
    }
}

impl View for Item {
    type V = ItemView;

    closed spec fn view(&self) -> ItemView {
        ItemView {
            token: self.token@,
            title: self.title.deep_view(),
            line: self.line.deep_view(),
            finished: self.finished,
        }
    }
}

impl Item {
    /// The item of an operation that was just created: no title, no line, not
    /// finished.
    pub fn new(token: ProgressToken) -> (item: Item)
        ensures
            item@ == ItemView::created(token@),
    {
        Item { token, title: None, line: None, finished: false }
    }

    /// Takes in one report about the operation.
    pub fn update(&mut self, progress: WorkDoneProgress)
        ensures
            final(self)@ == old(self)@.apply(progress@),
    {
        let (msg, percentage) = match progress {
            WorkDoneProgress::Begin(begin) => {
                self.title = Some(begin.title);
                (begin.message, begin.percentage)
            },
            WorkDoneProgress::Report(report) => (report.message, report.percentage),
            WorkDoneProgress::End(end) => {
                self.finished = true;
                (end.message, None)
            },
        };
        self.line = Some(format_progress(&self.token, &self.title, &msg, &percentage));
    }

    /// The operation's name.
    pub fn token(&self) -> (token: &ProgressToken)
        ensures
            token@ == self@.token,
    {
        &self.token
    }

    /// The title that the operation began with, if it has begun.
    pub fn title(&self) -> (title: &Option<String>)
        ensures
            title.deep_view() == self@.title,
    {
        &self.title
    }

    /// The status line, if there has been a report.
    pub fn line(&self) -> (line: &Option<String>)
        ensures
            line.deep_view() == self@.line,
    {
        &self.line
    }

    /// Whether the operation is over.
    pub fn finished(&self) -> (finished: bool)
        ensures
            finished == self@.finished,
    {
        self.finished
    }
}

} // verus!
