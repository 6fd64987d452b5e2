//! The operations of one producer.

use vstd::prelude::*;
use vstd::string::StringExecFns;
use crate::decimal::{decimal, decimal_string};
use crate::item::{Item, ItemView};
use crate::progress::{ProgressStatus, ProgressStatusView, WorkDoneProgressView};
use crate::search::{first_index, lemma_first_index, lemma_first_index_found};
use crate::token::{ProgressToken, TokenView};

verus! {

/// The operations of one producer, in the order in which they were created.
#[derive(Debug)]
pub struct Provider {
    id: usize,
    state: Vec<Item>,
}

/// What a `Provider` stands for.
pub struct ProviderView {
    /// The producer's number.
    pub id: usize,
    /// Its items, oldest first.
    pub items: Seq<ItemView>,
}

/// What a run of items stands for.
pub open spec fn item_views(items: Seq<Item>) -> Seq<ItemView> {
    items.map_values(|item: Item| item@)
}

/// The items of `items` that are not finished, in their order.
pub open spec fn unfinished(items: Seq<ItemView>) -> Seq<ItemView> {
    items.filter(|item: ItemView| !item.finished)
}

/// The place of the oldest item of `items` that is named `token`, if there
/// is one.
pub open spec fn first_named(items: Seq<ItemView>, token: TokenView) -> Option<int> {
    first_index(items, |item: ItemView| item.token == token)
}

/// The status lines of those of `items` that have one, newest item first.
pub open spec fn shown_lines(items: Seq<ItemView>) -> Seq<Seq<char>> {
    items.reverse().filter(|item: ItemView| item.line is Some).map_values(
        |item: ItemView| item.line->0,
    )
}

/// The status line of `item` as a run of lines: one line, or none.
pub open spec fn shown_line(item: ItemView) -> Seq<Seq<char>> {
    match item.line {
        Some(line) => seq![line],
        None => Seq::empty(),
    }
}

impl ProviderView {
    /// A producer of which no operation is known.
    pub open spec fn new(id: usize) -> ProviderView {
        ProviderView { id, items: Seq::empty() }
    }

    /// Whether the event is one that this provider has no item for: a report
    /// on a token that none of its unfinished items is named by.
    pub open spec fn is_unregistered(self, token: TokenView, status: ProgressStatusView) -> bool {
        status is Started && first_named(unfinished(self.items), token) is None
    }

    /// The provider after an event about `token`.
    ///
    /// The finished items leave first. Then a creation adds a new item at the
    /// end, whether or not another item has the same name; a report goes to
    /// the oldest item that is named `token`, and changes nothing more where
    /// there is none.
    pub open spec fn apply(self, token: TokenView, status: ProgressStatusView) -> ProviderView {
        let kept = unfinished(self.items);
        match status {
            ProgressStatusView::Created => ProviderView {
                items: kept.push(ItemView::created(token)),
                ..self
            },
            ProgressStatusView::Started(progress) => match first_named(kept, token) {
                Some(i) => ProviderView { items: kept.update(i, kept[i].apply(progress)), ..self },
                None => ProviderView { items: kept, ..self },
            },
        }
    }

    /// The line that stands above the producer's items.
    pub open spec fn header(self) -> Seq<char> {
        "id: "@ + decimal(self.id as nat)
    }

    /// The lines that show the producer: its header, then the status lines of
    /// its items, newest item first.
    pub open spec fn lines(self) -> Seq<Seq<char>> {
        seq![self.header()] + shown_lines(self.items)
    }
}

/// A creation always adds an item, at the end and with nothing to show yet,
/// also where an unfinished item of the same name is there already.
pub proof fn lemma_creation_always_adds(provider: ProviderView, token: TokenView)
    ensures
        provider.apply(token, ProgressStatusView::Created).items == unfinished(
            provider.items,
        ).push(ItemView::created(token)),
{
}

/// A report never adds an item: after it the provider has as many items as
/// it had unfinished ones before.
pub proof fn lemma_report_adds_no_item(
    provider: ProviderView,
    token: TokenView,
    progress: WorkDoneProgressView,
)
    ensures
        provider.apply(token, ProgressStatusView::Started(progress)).items.len() == unfinished(
            provider.items,
        ).len(),
{
    lemma_first_index(unfinished(provider.items), |item: ItemView| item.token == token);
}

/// A report that the provider has no item for only makes the finished items
/// leave.
pub proof fn lemma_unregistered_only_evicts(
    provider: ProviderView,
    token: TokenView,
    status: ProgressStatusView,
)
    requires
        provider.is_unregistered(token, status),
    ensures
        provider.apply(token, status) == (ProviderView {
            items: unfinished(provider.items),
            ..provider
        }),
{
}

/// An item that is finished after an event is the one that this event has
/// ended: an item that was finished before is gone.
pub proof fn lemma_finished_items_leave(
    provider: ProviderView,
    token: TokenView,
    status: ProgressStatusView,
    k: int,
)
    requires
        0 <= k < provider.apply(token, status).items.len(),
        provider.apply(token, status).items[k].finished,
    ensures
        status matches ProgressStatusView::Started(WorkDoneProgressView::End { .. }),
        first_named(unfinished(provider.items), token) == Some(k),
{
}

/// The newest item's line comes before those of the older items.
pub proof fn lemma_shown_lines_newest_first(items: Seq<ItemView>, newest: ItemView)
    ensures
        shown_lines(items.push(newest)) == shown_line(newest) + shown_lines(items),
{
    let has_line = |item: ItemView| item.line is Some;
    assert(items.push(newest).reverse() =~= seq![newest] + items.reverse());
    Seq::filter_distributes_over_add(seq![newest], items.reverse(), has_line);
    assert(seq![newest].filter(has_line) =~= if newest.line is Some {
        seq![newest]
    } else {
        Seq::empty()
    }) by {
        reveal_with_fuel(Seq::filter, 2);
    }
}

/// The oldest item's line comes after those of the newer items.
pub proof fn lemma_shown_lines_oldest_last(oldest: ItemView, items: Seq<ItemView>)
    ensures
        shown_lines(seq![oldest] + items) == shown_lines(items) + shown_line(oldest),
{
    let has_line = |item: ItemView| item.line is Some;
    let all = (seq![oldest] + items).reverse();
    assert(all.drop_last() =~= items.reverse());
    assert(all.filter(has_line) == if oldest.line is Some {
        items.reverse().filter(has_line).push(oldest)
    } else {
        items.reverse().filter(has_line)
    }) by {
        reveal(Seq::filter);
    }
}

impl View for Provider {
    type V = ProviderView;

    closed spec fn view(&self) -> ProviderView {
        ProviderView { id: self.id, items: item_views(self.state@) }
    }
}

impl Provider {
    /// A producer of which no operation is known yet.
    pub fn new(id: usize) -> (provider: Provider)
        ensures
            provider@ == ProviderView::new(id),
    {
        let provider = Provider { id, state: Vec::new() };
        assert(provider@.items =~= Seq::empty());
        provider
    }

    /// Removes the finished items.
    fn evict(&mut self)
        ensures
            final(self)@ == (ProviderView { items: unfinished(old(self)@.items), ..old(self)@ }),
    {
        let mut all: Vec<Item> = Vec::new();
        std::mem::swap(&mut self.state, &mut all);
        let ghost before = item_views(all@);
        assert(item_views(self.state@) =~= unfinished(before.take(0)));
        for item in iter: all
            invariant
                iter.seq() == all@,
                before == item_views(all@),
                self.id == old(self).id,
                item_views(self.state@) == unfinished(before.take(iter.index())),
        {
            proof {
                reveal(Seq::filter);
                assert(before.take(iter.index() + 1).drop_last() =~= before.take(iter.index()));
            }
            if !item.finished() {
                self.state.push(item);
            }
        }
        assert(before.take(before.len() as int) =~= before);
    }

    /// The place of the oldest item that is named `token`.
    fn position(&self, token: &ProgressToken) -> (found: Option<usize>)
        ensures
            found matches Some(i) ==> first_named(self@.items, token@) == Some(i as int),
            found is None ==> first_named(self@.items, token@) is None,
    {
        let mut i: usize = 0;
        while i < self.state.len()
            invariant
                i <= self.state.len(),
                forall|j: int| 0 <= j < i ==> (#[trigger] self@.items[j]).token != token@,
            decreases self.state.len() - i,
        {
            if *self.state[i].token() == *token {
                proof {
                    lemma_first_index_found(
                        self@.items,
                        |item: ItemView| item.token == token@,
                        i as int,
                    );
                }
                return Some(i);
            }
            i += 1;
        }
        None
    }

    /// Takes in one event about the operation `token` of this producer, and
    /// says whether there was an item for it: `false` for a report on a token
    /// that no unfinished item is named by, which is dropped.
    pub fn update(&mut self, token: &ProgressToken, progress: ProgressStatus) -> (registered: bool)
        ensures
            final(self)@ == old(self)@.apply(token@, progress@),
            registered == !old(self)@.is_unregistered(token@, progress@),
    {
        let ghost expected = old(self)@.apply(token@, progress@);
        self.evict();
        match progress {
            ProgressStatus::Created => {
                self.state.push(Item::new(token.clone()));
                assert(self@.items =~= expected.items);
                true
            },
            ProgressStatus::Started(report) => {
                match self.position(token) {
                    Some(i) => {
                        self.state[i].update(report);
                        assert(self@.items =~= expected.items);
                        true
                    },
                    None => false,
                }
            },
        }
    }

    /// The lines that show the producer: its header, then the status lines of
    /// its items, newest item first.
    pub fn lines(&self) -> (lines: Vec<String>)
        ensures
            lines.deep_view() == self@.lines(),
    {
        let mut header = String::from_str("id: ");
        header.append(decimal_string(self.id as u64).as_str());
        let mut lines: Vec<String> = Vec::new();
        lines.push(header);
        let mut i: usize = self.state.len();
        while i > 0
            invariant
                i <= self.state.len(),
                lines.deep_view() == seq![self@.header()] + shown_lines(self@.items.skip(i as int)),
            decreases i,
        {
            i -= 1;
            proof {
                let item = self@.items[i as int];
                let newer = self@.items.skip(i + 1);
                assert(self@.items.skip(i as int) =~= seq![item] + newer);
                lemma_shown_lines_oldest_last(item, newer);
            }
            let ghost shown = lines.deep_view();
            if let Some(line) = self.state[i].line() {
                lines.push(line.clone());
                assert(lines.deep_view() =~= shown + seq![line@]);
            }
        }
        assert(self@.items.skip(0) =~= self@.items);
        lines
    }

    /// The producer's number.
    pub fn id(&self) -> (id: usize)
        ensures
            id == self@.id,
    {
        self.id
    }

    /// The items, oldest first.
    pub fn items(&self) -> (items: &Vec<Item>)
        ensures
            item_views(items@) == self@.items,
    {
        &self.state
    }
}

} // verus!
