//! What the events add up to: the providers of the panel as a value, and
//! what holds of them.

use vstd::prelude::*;
use vstd::seq_lib::lemma_flatten_concat;
use crate::message::MessageView;
use crate::provider::{unfinished, ProviderView};
use crate::search::{first_index, is_first_index, lemma_first_index};

verus! {

/// Whether no two of `providers` have the same number.
pub open spec fn unique_ids(providers: Seq<ProviderView>) -> bool {
    forall|i: int, j: int|
        0 <= i < j < providers.len() ==> (#[trigger] providers[i]).id != (
        #[trigger] providers[j]).id
}

/// The place of the provider with the number `id`, if there is one.
pub open spec fn provider_of(providers: Seq<ProviderView>, id: usize) -> Option<int> {
    first_index(providers, |provider: ProviderView| provider.id == id)
}

/// The provider that an event from the producer `id` goes to: the one with
/// that number, or a new one without items where none has it yet.
pub open spec fn addressee(providers: Seq<ProviderView>, id: usize) -> ProviderView {
    match provider_of(providers, id) {
        Some(i) => providers[i],
        None => ProviderView::new(id),
    }
}

/// Whether `message` is an event that the panel has no item for.
pub open spec fn is_unregistered(providers: Seq<ProviderView>, message: MessageView) -> bool {
    addressee(providers, message.id).is_unregistered(message.token, message.progress)
}

/// The providers after the event `message`.
///
/// The event goes to the provider of its producer, which stays where it is;
/// a producer that was not heard of before gets a new provider at the end.
pub open spec fn apply_message(providers: Seq<ProviderView>, message: MessageView) -> Seq<
    ProviderView,
> {
    let after = addressee(providers, message.id).apply(message.token, message.progress);
    match provider_of(providers, message.id) {
        Some(i) => providers.update(i, after),
        None => providers.push(after),
    }
}

/// The providers after the events `messages`, taken in one after the other.
pub open spec fn apply_messages(providers: Seq<ProviderView>, messages: Seq<MessageView>) -> Seq<
    ProviderView,
> {
    messages.fold_left(
        providers,
        |providers: Seq<ProviderView>, message: MessageView| apply_message(providers, message),
    )
}

/// The events among `messages` that come from the producer `id`, in their
/// order.
pub open spec fn messages_of(messages: Seq<MessageView>, id: usize) -> Seq<MessageView> {
    messages.filter(|message: MessageView| message.id == id)
}

/// The provider `provider` after the events `messages`, all of its own
/// producer, taken in one after the other.
pub open spec fn provider_after(
    provider: ProviderView,
    messages: Seq<MessageView>,
) -> ProviderView {
    messages.fold_left(
        provider,
        |provider: ProviderView, message: MessageView|
            provider.apply(message.token, message.progress),
    )
}

/// The lines of the panel, top line first: provider after provider, the one
/// that was heard of last first.
pub open spec fn render_lines(providers: Seq<ProviderView>) -> Seq<Seq<char>> {
    providers.reverse().map_values(|provider: ProviderView| provider.lines()).flatten()
}

/// Taking in an event keeps the numbers of the providers distinct.
pub proof fn lemma_apply_message_keeps_ids_unique(
    providers: Seq<ProviderView>,
    message: MessageView,
)
    requires
        unique_ids(providers),
    ensures
        unique_ids(apply_message(providers, message)),
{
    lemma_first_index(providers, |provider: ProviderView| provider.id == message.id);
}

/// An event reaches the provider of its producer, and that provider takes it
/// in.
pub proof fn lemma_apply_message_reaches_addressee(
    providers: Seq<ProviderView>,
    message: MessageView,
)
    ensures
        addressee(apply_message(providers, message), message.id) == addressee(
            providers,
            message.id,
        ).apply(message.token, message.progress),
{
    let wanted = |provider: ProviderView| provider.id == message.id;
    let after = apply_message(providers, message);
    lemma_first_index(providers, wanted);
    let place = match provider_of(providers, message.id) {
        Some(i) => i,
        None => providers.len() as int,
    };
    assert(is_first_index(after, wanted, place));
}

/// An event that the panel has no item for changes nothing of the items of
/// its producer, but that the finished ones leave.
pub proof fn lemma_unregistered_message_only_evicts(
    providers: Seq<ProviderView>,
    message: MessageView,
)
    requires
        is_unregistered(providers, message),
    ensures
        addressee(apply_message(providers, message), message.id).items == unfinished(
            addressee(providers, message.id).items,
        ),
{
    lemma_apply_message_reaches_addressee(providers, message);
}

/// An event changes nothing of the providers of other producers: each stays
/// in its place and as it is, with the finished items that it has.
pub proof fn lemma_apply_message_leaves_others(
    providers: Seq<ProviderView>,
    message: MessageView,
    j: int,
)
    requires
        0 <= j < providers.len(),
        providers[j].id != message.id,
    ensures
        j < apply_message(providers, message).len(),
        apply_message(providers, message)[j] == providers[j],
{
}

/// An event from one producer leaves the provider that the events of another
/// producer go to as it is.
pub proof fn lemma_apply_message_keeps_other_addressees(
    providers: Seq<ProviderView>,
    message: MessageView,
    id: usize,
)
    requires
        id != message.id,
    ensures
        addressee(apply_message(providers, message), id) == addressee(providers, id),
{
    let wanted = |provider: ProviderView| provider.id == id;
    let after = apply_message(providers, message);
    lemma_first_index(providers, wanted);
    match provider_of(providers, id) {
        Some(i) => {
            assert(is_first_index(after, wanted, i));
        },
        None => {},
    }
}

/// What the panel holds of a producer depends on the events of that producer
/// alone, in the order in which they were taken in: the events of other
/// producers, wherever they stand between them, change nothing of it.
pub proof fn lemma_producers_do_not_interfere(
    providers: Seq<ProviderView>,
    messages: Seq<MessageView>,
    id: usize,
)
    ensures
        addressee(apply_messages(providers, messages), id) == provider_after(
            addressee(providers, id),
            messages_of(messages, id),
        ),
    decreases messages.len(),
{
    reveal(Seq::filter);
    if messages.len() > 0 {
        let earlier = messages.drop_last();
        let last = messages.last();
        lemma_producers_do_not_interfere(providers, earlier, id);
        if last.id == id {
            assert(messages_of(messages, id).drop_last() =~= messages_of(earlier, id));
            lemma_apply_message_reaches_addressee(apply_messages(providers, earlier), last);
        } else {
            lemma_apply_message_keeps_other_addressees(
                apply_messages(providers, earlier),
                last,
                id,
            );
        }
    }
}

/// The provider that was heard of last stands at the top of the panel, above
/// the lines of all the others.
pub proof fn lemma_render_lines_newest_first(providers: Seq<ProviderView>, newest: ProviderView)
    ensures
        render_lines(providers.push(newest)) == newest.lines() + render_lines(providers),
{
    let lines_of = |provider: ProviderView| provider.lines();
    let rest = providers.reverse().map_values(lines_of);
    assert(providers.push(newest).reverse().map_values(lines_of) =~= seq![newest.lines()] + rest);
    lemma_flatten_concat(seq![newest.lines()], rest);
    seq![newest.lines()].lemma_flatten_one_element();
}

/// The provider that was heard of first stands at the bottom of the panel,
/// below the lines of all the others.
pub proof fn lemma_render_lines_oldest_last(oldest: ProviderView, providers: Seq<ProviderView>)
    ensures
        render_lines(seq![oldest] + providers) == render_lines(providers) + oldest.lines(),
{
    let lines_of = |provider: ProviderView| provider.lines();
    let rest = providers.reverse().map_values(lines_of);
    assert((seq![oldest] + providers).reverse().map_values(lines_of) =~= rest.push(
        oldest.lines(),
    ));
    rest.lemma_flatten_push(oldest.lines());
}

} // verus!
