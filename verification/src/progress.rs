//! The events that a producer reports about one operation.

use vstd::prelude::*;

verus! {

/// The operation has started.
#[derive(Debug, PartialEq)]
pub struct WorkDoneProgressBegin {
    /// What the operation is, in a few words.
    pub title: String,
    /// A detail to show beside the title.
    pub message: Option<String>,
    /// How far the operation has come, in percent.
    pub percentage: Option<u32>,
}

/// The operation has moved on.
#[derive(Debug, PartialEq)]
pub struct WorkDoneProgressReport {
    /// A detail to show beside the title.
    pub message: Option<String>,
    /// How far the operation has come, in percent.
    pub percentage: Option<u32>,
}

/// The operation is over.
#[derive(Debug, PartialEq)]
pub struct WorkDoneProgressEnd {
    /// A last detail to show.
    pub message: Option<String>,
}

/// One report about an operation that has been created.
#[derive(Debug, PartialEq)]
pub enum WorkDoneProgress {
    Begin(WorkDoneProgressBegin),
    Report(WorkDoneProgressReport),
    End(WorkDoneProgressEnd),
}

/// What a producer says about an operation: that it exists, or how it goes.
#[derive(Debug, PartialEq)]
pub enum ProgressStatus {
    Created,
    Started(WorkDoneProgress),
}

/// What a `WorkDoneProgress` stands for.
pub enum WorkDoneProgressView {
    Begin { title: Seq<char>, message: Option<Seq<char>>, percentage: Option<u32> },
    Report { message: Option<Seq<char>>, percentage: Option<u32> },
    End { message: Option<Seq<char>> },
}

/// What a `ProgressStatus` stands for.
pub enum ProgressStatusView {
    Created,
    Started(WorkDoneProgressView),
}

impl View for WorkDoneProgressBegin {
    type V = WorkDoneProgressView;

    open spec fn view(&self) -> WorkDoneProgressView {
        WorkDoneProgressView::Begin {
            title: self.title@,
            message: self.message.deep_view(),
            percentage: self.percentage,
        }
    }
}

impl View for WorkDoneProgressReport {
    type V = WorkDoneProgressView;

    open spec fn view(&self) -> WorkDoneProgressView {
        WorkDoneProgressView::Report {
            message: self.message.deep_view(),
            percentage: self.percentage,
        }
    }
}

impl View for WorkDoneProgressEnd {
    type V = WorkDoneProgressView;

    open spec fn view(&self) -> WorkDoneProgressView {
        WorkDoneProgressView::End { message: self.message.deep_view() }
    }
}

impl View for WorkDoneProgress {
    type V = WorkDoneProgressView;

    open spec fn view(&self) -> WorkDoneProgressView {
        match self {
            WorkDoneProgress::Begin(begin) => begin@,
            WorkDoneProgress::Report(report) => report@,
            WorkDoneProgress::End(end) => end@,
        }
    }
}

impl View for ProgressStatus {
    type V = ProgressStatusView;

    open spec fn view(&self) -> ProgressStatusView {
        match self {
            ProgressStatus::Created => ProgressStatusView::Created,
            ProgressStatus::Started(progress) => ProgressStatusView::Started(progress@),
        }
    }
}

impl Clone for WorkDoneProgressBegin {
    fn clone(&self) -> (copy: Self)
        ensures
            copy@ == self@,
    {
        WorkDoneProgressBegin {
            title: self.title.clone(),
            message: self.message.clone(),
            percentage: self.percentage,
        }
    }
}

impl Clone for WorkDoneProgressReport {
    fn clone(&self) -> (copy: Self)
        ensures
            copy@ == self@,
    {
        WorkDoneProgressReport { message: self.message.clone(), percentage: self.percentage }
    }
}

impl Clone for WorkDoneProgressEnd {
    fn clone(&self) -> (copy: Self)
        ensures
            copy@ == self@,
    {
        WorkDoneProgressEnd { message: self.message.clone() }
    }
}

impl Clone for WorkDoneProgress {
    fn clone(&self) -> (copy: Self)
        ensures
            copy@ == self@,
    {
        match self {
            WorkDoneProgress::Begin(begin) => WorkDoneProgress::Begin(begin.clone()),
            WorkDoneProgress::Report(report) => WorkDoneProgress::Report(report.clone()),
            WorkDoneProgress::End(end) => WorkDoneProgress::End(end.clone()),
        }
    }
}

impl Clone for ProgressStatus {
    fn clone(&self) -> (copy: Self)
        ensures
            copy@ == self@,
    {
        match self {
            ProgressStatus::Created => ProgressStatus::Created,
            ProgressStatus::Started(progress) => ProgressStatus::Started(progress.clone()),
        }
    }
}

} // verus!
