//! The correlation table: which requests are in flight, and the
//! completion slot that waits for the response to each.
//!
//! Identifiers start at 1 and go up by one with every request; none is
//! handed out twice. A slot leaves the table when its response arrives or
//! when its caller gives up waiting, whichever comes first, and whoever
//! comes second finds nothing.

use std::collections::HashMap;
use vstd::prelude::*;

verus! {

/// The table as a mathematical value.
pub struct TableState<S> {
    /// The identifier that the next request gets.
    pub next_id: int,
    /// The slot of each request in flight, by its identifier.
    pub pending: Map<i64, S>,
}

impl<S> TableState<S> {
    /// Identifiers start at 1, and every request in flight has one that
    /// was handed out already.
    pub open spec fn wf(self) -> bool {
        &&& 1 <= self.next_id <= i64::MAX
        &&& self.pending.dom().finite()
        &&& forall|id: i64| #[trigger] self.pending.contains_key(id) ==> 1 <= id < self.next_id
    }

    /// Whether every identifier has been handed out.
    pub open spec fn exhausted(self) -> bool {
        self.next_id >= i64::MAX
    }

    /// The table after a request has been registered with `slot`, and the
    /// identifier it got. An exhausted table stays as it is and gives none.
    pub open spec fn allocate(self, slot: S) -> (Self, Option<i64>) {
        if self.exhausted() {
            (self, None)
        } else {
            (
                TableState {
                    next_id: self.next_id + 1,
                    pending: self.pending.insert(self.next_id as i64, slot),
                },
                Some(self.next_id as i64),
            )
        }
    }

    /// The table after the request `id` has left it, and the slot that was
    /// waiting, if one was.
    pub open spec fn take(self, id: i64) -> (Self, Option<S>) {
        (
            TableState { next_id: self.next_id, pending: self.pending.remove(id) },
            if self.pending.contains_key(id) {
                Some(self.pending[id])
            } else {
                None
            },
        )
    }

    /// The identifiers that registering one request for each of `slots`, in
    /// a row, hands out.
    pub open spec fn allocate_all(self, slots: Seq<S>) -> Seq<i64>
        decreases slots.len(),
    {
        if slots.len() == 0 {
            Seq::empty()
        } else {
            match self.allocate(slots[0]) {
                (next, Some(id)) => seq![id] + next.allocate_all(slots.drop_first()),
                (_, None) => Seq::empty(),
            }
        }
    }
}

/// The requests in flight, each with the slot of type `S` through which its
/// caller gets the response.
pub struct CorrelationTable<S> {
    next_id: i64,
    pending: HashMap<i64, S>,
}

impl<S> View for CorrelationTable<S> {
    type V = TableState<S>;

    closed spec fn view(&self) -> TableState<S> {
        TableState { next_id: self.next_id as int, pending: self.pending@ }
    }
}

impl<S> CorrelationTable<S> {
    /// An empty table whose first identifier is 1.
    pub fn new() -> (table: Self)
        ensures
            table@.next_id == 1,
            table@.pending == Map::<i64, S>::empty(),
            table@.wf(),
    {
        CorrelationTable { next_id: 1, pending: HashMap::new() }
    }

    /// Registers a request: hands out the next identifier and keeps `slot`
    /// under it. Gives `None`, and changes nothing, once every identifier
    /// has been handed out.
    pub fn allocate(&mut self, slot: S) -> (id: Option<i64>)
        ensures
            (final(self)@, id) == old(self)@.allocate(slot),
            old(self)@.wf() ==> final(self)@.wf(),
    {
        if self.next_id == i64::MAX {
            return None;
        }
        let id = self.next_id;
        self.pending.insert(id, slot);
        self.next_id = id + 1;
        assert(self@.pending =~= old(self)@.pending.insert(id, slot));
        Some(id)
    }

    /// Takes the response to `id` in: removes the request from the table
    /// and gives the slot that waits for it. Where no such request is in
    /// flight, because it was never made or its caller has given up, the
    /// answer is `None` and the response is to be dropped.
    pub fn complete(&mut self, id: i64) -> (slot: Option<S>)
        ensures
            (final(self)@, slot) == old(self)@.take(id),
            old(self)@.wf() ==> final(self)@.wf(),
    {
        let slot = self.pending.remove(&id);
        assert(self@.pending =~= old(self)@.pending.remove(id));
        slot
    }

    /// Gives up waiting for `id`: removes the request from the table, so
    /// that a response that comes later finds nothing. Says whether the
    /// request was still in flight.
    pub fn expire(&mut self, id: i64) -> (was_pending: bool)
        ensures
            final(self)@ == old(self)@.take(id).0,
            was_pending == old(self)@.pending.contains_key(id),
            old(self)@.wf() ==> final(self)@.wf(),
    {
        self.complete(id).is_some()
    }

    /// Gives up every request in flight and lets go of its slot, so that
    /// whoever waits on one learns at once that nothing will come.
    /// Identifiers that were handed out stay handed out.
    pub fn clear(&mut self)
        ensures
            final(self)@ == (TableState {
                next_id: old(self)@.next_id,
                pending: Map::<i64, S>::empty(),
            }),
            old(self)@.wf() ==> final(self)@.wf(),
    {
        self.pending.clear();
    }

    /// Whether the request `id` is in flight.
    pub fn is_pending(&self, id: i64) -> (out: bool)
        ensures
            out == self@.pending.contains_key(id),
    {
        self.pending.contains_key(&id)
    }

    /// How many requests are in flight.
    pub fn len(&self) -> (n: usize)
        ensures
            n == self@.pending.len(),
    {
        self.pending.len()
    }

    /// The identifier that the next request gets.
    pub fn next_id(&self) -> (id: i64)
        ensures
            id == self@.next_id,
    {
        self.next_id
    }
}

/// The `i`-th of the identifiers handed out in a row is the table's next
/// identifier plus `i`.
pub proof fn lemma_allocate_all_counts_up<S>(table: TableState<S>, slots: Seq<S>, i: int)
    requires
        table.wf(),
        0 <= i < table.allocate_all(slots).len(),
    ensures
        table.allocate_all(slots)[i] == table.next_id + i,
        table.allocate_all(slots).len() <= slots.len(),
    decreases slots.len(),
{
    let (next, first) = table.allocate(slots[0]);
    lemma_allocate_all_len(next, slots.drop_first());
    if i > 0 {
        lemma_allocate_all_counts_up(next, slots.drop_first(), i - 1);
    }
}

proof fn lemma_allocate_all_len<S>(table: TableState<S>, slots: Seq<S>)
    ensures
        table.allocate_all(slots).len() <= slots.len(),
    decreases slots.len(),
{
    if slots.len() > 0 {
        lemma_allocate_all_len(table.allocate(slots[0]).0, slots.drop_first());
    }
}

/// No identifier is handed out twice: of the identifiers that any number
/// of requests registered one after another get, any two differ.
pub proof fn lemma_identifiers_distinct<S>(table: TableState<S>, slots: Seq<S>, i: int, j: int)
    requires
        table.wf(),
        0 <= i < j < table.allocate_all(slots).len(),
    ensures
        table.allocate_all(slots)[i] != table.allocate_all(slots)[j],
{
    lemma_allocate_all_counts_up(table, slots, i);
    lemma_allocate_all_counts_up(table, slots, j);
}

/// A new identifier is none of those in flight and none handed out before,
/// and what leaves the table never brings an identifier back: taking a
/// request out leaves the next identifier where it was.
pub proof fn lemma_identifier_is_fresh<S>(table: TableState<S>, slot: S, other: i64)
    requires
        table.wf(),
        table.allocate(slot).1 is Some,
    ensures
        !table.pending.contains_key(table.allocate(slot).1->0),
        table.allocate(slot).1->0 >= table.next_id,
        table.allocate(slot).0.next_id > table.allocate(slot).1->0,
        table.take(other).0.next_id == table.next_id,
        table.allocate(slot).0.wf(),
        table.take(other).0.wf(),
{
}

/// Once its caller has given up, a request is gone from the table, and a
/// response that arrives afterwards finds no slot and changes nothing.
pub proof fn lemma_expired_request_is_dropped<S>(table: TableState<S>, id: i64)
    requires
        table.wf(),
    ensures
        !table.take(id).0.pending.contains_key(id),
        table.take(id).0.take(id).1 is None,
        table.take(id).0.take(id).0 == table.take(id).0,
{
    let after = table.take(id).0;
    assert(after.pending.remove(id) =~= after.pending);
}

/// Responses may come in any order: the response to `second` arriving
/// first gets the slot of `second` and leaves `first` in flight with its
/// own slot, which the response to `first` then gets.
pub proof fn lemma_out_of_order_completion<S>(table: TableState<S>, first: i64, second: i64)
    requires
        table.wf(),
        first != second,
        table.pending.contains_key(first),
        table.pending.contains_key(second),
    ensures
        table.take(second).1 == Some(table.pending[second]),
        table.take(second).0.pending.contains_key(first),
        table.take(second).0.pending[first] == table.pending[first],
        table.take(second).0.take(first).1 == Some(table.pending[first]),
        table.take(second).0.take(first).0 == table.take(first).0.take(second).0,
{
    assert(table.pending.remove(second).remove(first) =~= table.pending.remove(first).remove(
        second,
    ));
}

} // verus!
