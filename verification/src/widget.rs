//! The panel: the state of all producers, fed from the inbox.

use vstd::prelude::*;
use std::sync::mpsc::Receiver;
use crate::component::{CursorKind, EventResult, Position};
use crate::message::{FidgetMessage, MessageView};
use crate::panel::{
    apply_message,
    is_unregistered,
    lemma_apply_message_keeps_ids_unique,
    lemma_render_lines_oldest_last,
    provider_of,
    render_lines,
    unique_ids,
};
use crate::provider::{Provider, ProviderView};
use crate::search::lemma_first_index_found;
use crate::token::ProgressToken;

verus! {

/// The consuming end of the inbox together with what the events that came out
/// of it so far add up to: the producers in the order in which they were
/// first heard of, each with its items.
pub struct FidgetWidget {
    active: Vec<Provider>,
    rx: Receiver<FidgetMessage>,
}

/// What became of one look into the inbox.
#[derive(Debug)]
pub enum Drained {
    /// No event was taken in.
    Nothing,
    /// An event was taken in and there was an item for it.
    Applied,
    /// An event was taken in that reports on the given token, which no
    /// unfinished item of its producer is named by.
    Unregistered(ProgressToken),
}

/// What a run of providers stands for.
pub open spec fn provider_views(providers: Seq<Provider>) -> Seq<ProviderView> {
    providers.map_values(|provider: Provider| provider@)
}

/// Whether one look into the inbox can lead from the providers `before` to
/// the providers `after` with the outcome `outcome`: either nothing was taken
/// in and nothing has changed, or some event was taken in.
pub open spec fn is_drain(
    before: Seq<ProviderView>,
    after: Seq<ProviderView>,
    outcome: Drained,
) -> bool {
    match outcome {
        Drained::Nothing => after == before,
        _ => exists|message: MessageView|
            {
                &&& after == #[trigger] apply_message(before, message)
                &&& outcome.reports(before, message)
            },
    }
}

impl Drained {
    /// Whether this is what taking in `message` gives when the providers
    /// were `providers` before.
    pub open spec fn reports(self, providers: Seq<ProviderView>, message: MessageView) -> bool {
        match self {
            Drained::Nothing => false,
            Drained::Applied => !is_unregistered(providers, message),
            Drained::Unregistered(token) => is_unregistered(providers, message) && token@
                == message.token,
        }
    }
}

impl View for FidgetWidget {
    type V = Seq<ProviderView>;

    closed spec fn view(&self) -> Seq<ProviderView> {
        provider_views(self.active@)
    }
}

/// The place in `providers` of the provider with the number `id`.
fn position(providers: &Vec<Provider>, id: usize) -> (found: Option<usize>)
    ensures
        found matches Some(i) ==> provider_of(provider_views(providers@), id) == Some(i as int),
        found is None ==> provider_of(provider_views(providers@), id) is None,
{
    let ghost views = provider_views(providers@);
    let mut i: usize = 0;
    while i < providers.len()
        invariant
            i <= providers.len(),
            views == provider_views(providers@),
            forall|j: int| 0 <= j < i ==> (#[trigger] views[j]).id != id,
        decreases providers.len() - i,
    {
        if providers[i].id() == id {
            proof {
                lemma_first_index_found(
                    views,
                    |provider: ProviderView| provider.id == id,
                    i as int,
                );
            }
            return Some(i);
        }
        i += 1;
    }
    None
}

impl FidgetWidget {
    #[verifier::type_invariant]
    spec fn ids_are_unique(self) -> bool {
        unique_ids(self@)
    }

    /// The end of the inbox that the panel takes its events from. The panel
    /// keeps the one that it was made with.
    pub closed spec fn inbox(&self) -> Receiver<FidgetMessage> {
        self.rx
    }

    /// A panel without providers that reads from `rx`.
    pub(crate) fn new(rx: Receiver<FidgetMessage>) -> (widget: FidgetWidget)
        ensures
            widget@ == Seq::<ProviderView>::empty(),
            widget.inbox() == rx,
    {
        let widget = FidgetWidget { active: Vec::new(), rx };
        widget
    }

    /// Takes in one event, and says whether there was an item for it.
    pub fn apply(&mut self, msg: FidgetMessage) -> (outcome: Drained)
        ensures
            final(self)@ == apply_message(old(self)@, msg@),
            final(self).inbox() == old(self).inbox(),
            unique_ids(final(self)@),
            outcome.reports(old(self)@, msg@),
    {
        proof {
            use_type_invariant(&*self);
        }
        let FidgetMessage { id, token, progress } = msg;
        // The providers are taken out, changed, and put back as a whole.
        let mut active: Vec<Provider> = Vec::new();
        std::mem::swap(&mut self.active, &mut active);
        let registered = match position(&active, id) {
            Some(i) => active[i].update(&token, progress),
            None => {
                let mut provider = Provider::new(id);
                let registered = provider.update(&token, progress);
                active.push(provider);
                registered
            },
        };
        proof {
            assert(provider_views(active@) =~= apply_message(old(self)@, msg@));
            lemma_apply_message_keeps_ids_unique(old(self)@, msg@);
        }
        self.active = active;
        if registered {
            Drained::Applied
        } else {
            Drained::Unregistered(token)
        }
    }

    /// Takes one event out of the inbox, if one is waiting there, and takes it
    /// in. Never waits.
    pub fn update(&mut self) -> (outcome: Drained)
        ensures
            is_drain(old(self)@, final(self)@, outcome),
            final(self).inbox() == old(self).inbox(),
            unique_ids(final(self)@),
    {
        proof {
            use_type_invariant(&*self);
        }
        match self.rx.try_recv() {
            Ok(msg) => self.apply(msg),
            Err(_) => Drained::Nothing,
        }
    }

    /// The lines of the panel, top line first.
    pub fn lines(&self) -> (lines: Vec<String>)
        ensures
            lines.deep_view() == render_lines(self@),
    {
        let mut lines: Vec<String> = Vec::new();
        let mut i: usize = self.active.len();
        while i > 0
            invariant
                i <= self.active.len(),
                lines.deep_view() == render_lines(self@.skip(i as int)),
            decreases i,
        {
            i -= 1;
            let mut more = self.active[i].lines();
            proof {
                assert(self@.skip(i as int) =~= seq![self@[i as int]] + self@.skip(i + 1));
                lemma_render_lines_oldest_last(self@[i as int], self@.skip(i + 1));
            }
            lines.append(&mut more);
        }
        assert(self@.skip(0) =~= self@);
        lines
    }

    /// Looks into the inbox once, as `update` does, and gives the outcome
    /// together with the lines that the panel then shows, top line first.
    pub fn render(&mut self) -> (frame: (Drained, Vec<String>))
        ensures
            is_drain(old(self)@, final(self)@, frame.0),
            final(self).inbox() == old(self).inbox(),
            unique_ids(final(self)@),
            frame.1.deep_view() == render_lines(final(self)@),
    {
        let outcome = self.update();
        let lines = self.lines();
        (outcome, lines)
    }

    /// Answers an input event: the panel uses none, and stays as it is, with
    /// its providers and its inbox.
    pub fn handle_event<E>(&mut self, _event: E) -> (result: EventResult)
        ensures
            result == EventResult::Ignored,
            final(self)@ == old(self)@,
            final(self).inbox() == old(self).inbox(),
    {
        EventResult::Ignored
    }

    /// Where the panel wants the text cursor: nowhere, and hidden.
    pub fn cursor(&self) -> (cursor: (Option<Position>, CursorKind))
        ensures
            cursor == (None::<Position>, CursorKind::Hidden),
    {
        (None, CursorKind::Hidden)
    }

    /// The size that the panel asks for: all of `viewport`.
    pub fn required_size(&mut self, viewport: (u16, u16)) -> (size: Option<(u16, u16)>)
        ensures
            size == Some(viewport),
            final(self)@ == old(self)@,
            final(self).inbox() == old(self).inbox(),
    {
        Some(viewport)
    }

    /// The name that the host knows the panel by: none.
    pub fn id(&self) -> (id: Option<&'static str>)
        ensures
            id is None,
    {
        None
    }

    /// The providers, in the order in which they were first heard of. No two
    /// have the same number.
    pub fn providers(&self) -> (providers: &Vec<Provider>)
        ensures
            provider_views(providers@) == self@,
            unique_ids(self@),
    {
        proof {
            use_type_invariant(self);
        }
        &self.active
    }
}

} // verus!
