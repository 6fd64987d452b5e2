//! What travels from a producer to the panel.

use vstd::prelude::*;
use crate::progress::{ProgressStatus, ProgressStatusView, WorkDoneProgress, WorkDoneProgressEnd};
use crate::token::{ProgressToken, TokenView};

verus! {

/// One event: which producer it comes from, which of its operations it is
/// about, and what it says.
#[derive(Debug, PartialEq)]
pub struct FidgetMessage {
    pub id: usize,
    pub token: ProgressToken,
    pub progress: ProgressStatus,
}

/// What a `FidgetMessage` stands for.
pub struct MessageView {
    pub id: usize,
    pub token: TokenView,
    pub progress: ProgressStatusView,
}

impl View for FidgetMessage {
    type V = MessageView;

    open spec fn view(&self) -> MessageView {
        MessageView { id: self.id, token: self.token@, progress: self.progress@ }
    }
}

impl Clone for FidgetMessage {
    fn clone(&self) -> (copy: Self)
        ensures
            copy@ == self@,
    {
        FidgetMessage {
            id: self.id,
            token: self.token.clone(),
            progress: self.progress.clone(),
        }
    }
}

impl FidgetMessage {
    /// The event that the producer `id` has created the operation `token`.
    pub fn created(id: usize, token: ProgressToken) -> (message: FidgetMessage)
        ensures
            message@ == (MessageView {
                id,
                token: token@,
                progress: ProgressStatusView::Created,
            }),
    {
        FidgetMessage { id, token, progress: ProgressStatus::Created }
    }

    /// The event that carries the report `status` on the operation `token` of
    /// the producer `id`.
    pub fn started(id: usize, token: ProgressToken, status: WorkDoneProgress) -> (message:
        FidgetMessage)
        ensures
            message@ == (MessageView {
                id,
                token: token@,
                progress: ProgressStatusView::Started(status@),
            }),
    {
        FidgetMessage { id, token, progress: ProgressStatus::Started(status) }
    }

    /// The event that the operation `token` of the producer `id` is over.
    pub fn ended(id: usize, token: ProgressToken, last_message: WorkDoneProgressEnd) -> (message:
        FidgetMessage)
        ensures
            message@ == (MessageView {
                id,
                token: token@,
                progress: ProgressStatusView::Started(last_message@),
            }),
    {
        FidgetMessage {
            id,
            token,
            progress: ProgressStatus::Started(WorkDoneProgress::End(last_message)),
        }
    }
}

} // verus!
