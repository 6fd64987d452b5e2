//! The producers' side: the handle that events are reported through.

use vstd::prelude::*;
use std::sync::mpsc::Sender;
use crate::inbox::send;
use crate::message::{FidgetMessage, MessageView};
use crate::progress::{ProgressStatusView, WorkDoneProgress, WorkDoneProgressEnd};
use crate::provider::ProviderView;
use crate::token::ProgressToken;
use crate::widget::FidgetWidget;

verus! {

/// The sending end of the inbox. Each producer reports through a handle of
/// its own: a handle can be cloned, and all clones feed the same panel.
/// Reporting leaves the handle as it is.
pub struct Fidget {
    tx: Sender<FidgetMessage>,
}

/// The panel is gone: the event, which comes back in here, was not delivered,
/// and none will be any more.
#[derive(Debug, PartialEq)]
pub struct Disconnected(pub FidgetMessage);

/// What a producer is told about an event that was handed to the inbox:
/// success where the inbox took it, `Disconnected` with the event where the
/// inbox gave it back.
pub fn delivery(sent: Result<(), FidgetMessage>) -> (told: Result<(), Disconnected>)
    ensures
        told == (match sent {
            Ok(()) => Ok::<(), Disconnected>(()),
            Err(back) => Err::<(), Disconnected>(Disconnected(back)),
        }),
{
    match sent {
        Ok(()) => Ok(()),
        Err(back) => Err(Disconnected(back)),
    }
}

/// Makes an inbox, and gives its two ends: the handle for the producers, and
/// a panel that shows no producer yet.
pub fn fidget_and_widget() -> (ends: (Fidget, FidgetWidget))
    ensures
        ends.1@ == Seq::<ProviderView>::empty(),
{
    let (tx, rx) = std::sync::mpsc::channel();
    (Fidget { tx }, FidgetWidget::new(rx))
}

impl Fidget {
    /// Hands one event to the inbox, without waiting.
    fn deliver(&mut self, message: FidgetMessage) -> (told: Result<(), Disconnected>)
        ensures
            *final(self) == *old(self),
            told matches Err(failure) ==> failure.0 == message,
    {
        delivery(send(&self.tx, message))
    }

    /// Reports that the producer `id` has created the operation `token`.
    ///
    /// Fails where the panel is gone, and then gives the event back.
    pub fn create(&mut self, id: usize, token: ProgressToken) -> (told: Result<(), Disconnected>)
        ensures
            *final(self) == *old(self),
            told matches Err(failure) ==> failure.0@ == (MessageView {
                id,
                token: token@,
                progress: ProgressStatusView::Created,
            }),
    {
        self.deliver(FidgetMessage::created(id, token))
    }

    /// Reports that the operation `token` of the producer `id` is over.
    ///
    /// Fails where the panel is gone, and then gives the event back.
    pub fn end_progress(
        &mut self,
        id: usize,
        token: ProgressToken,
        last_message: WorkDoneProgressEnd,
    ) -> (told: Result<(), Disconnected>)
        ensures
            *final(self) == *old(self),
            told matches Err(failure) ==> failure.0@ == (MessageView {
                id,
                token: token@,
                progress: ProgressStatusView::Started(last_message@),
            }),
    {
        self.deliver(FidgetMessage::ended(id, token, last_message))
    }

    /// Reports how the operation `token` of the producer `id` goes.
    ///
    /// Fails where the panel is gone, and then gives the event back.
    pub fn update(&mut self, id: usize, token: ProgressToken, status: WorkDoneProgress) -> (told:
        Result<(), Disconnected>)
        ensures
            *final(self) == *old(self),
            told matches Err(failure) ==> failure.0@ == (MessageView {
                id,
                token: token@,
                progress: ProgressStatusView::Started(status@),
            }),
    {
        self.deliver(FidgetMessage::started(id, token, status))
    }
}

impl Clone for Fidget {
    fn clone(&self) -> (copy: Self) {
        Fidget { tx: self.tx.clone() }
    }
}

} // verus!
