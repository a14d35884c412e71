//! The table of requests that wait for their response.
//!
//! A request enters the table under its sequence number together with the
//! slot through which its caller is woken. It leaves the table once: when the
//! response with that number arrives, or when the caller gives up. A response
//! whose number the table does not hold wakes nobody.

use crate::protocol::Response;
use std::collections::HashMap;
use vstd::prelude::*;

verus! {

/// The table, from sequence number to the slot of the waiting caller.
pub struct PendingRequests<C> {
    slots: HashMap<u64, C>,
}

impl<C> View for PendingRequests<C> {
    type V = Map<u64, C>;

    closed spec fn view(&self) -> Map<u64, C> {
        self.slots@
    }
}

/// The table after each of `entries` was registered in turn.
pub open spec fn registered<C>(table: Map<u64, C>, entries: Seq<(u64, C)>) -> Map<u64, C>
    decreases entries.len(),
{
    if entries.len() == 0 {
        table
    } else {
        registered(table, entries.drop_last()).insert(entries.last().0, entries.last().1)
    }
}

/// The table after the request of each of `seqs` was resolved or abandoned
/// in turn.
pub open spec fn removed<C>(table: Map<u64, C>, seqs: Seq<u64>) -> Map<u64, C>
    decreases seqs.len(),
{
    if seqs.len() == 0 {
        table
    } else {
        removed(table, seqs.drop_last()).remove(seqs.last())
    }
}

impl<C> PendingRequests<C> {
    pub fn new() -> (table: Self)
        ensures
            table@ == Map::<u64, C>::empty(),
    {
        PendingRequests { slots: HashMap::new() }
    }

    /// The number of requests that wait.
    pub fn len(&self) -> (n: usize)
        ensures
            n == self@.len(),
            self@.dom().finite(),
    {
        broadcast use vstd::std_specs::hash::group_hash_axioms;

        self.slots.len()
    }

    pub fn contains(&self, seq: u64) -> (waiting: bool)
        ensures
            waiting == self@.contains_key(seq),
    {
        broadcast use vstd::std_specs::hash::group_hash_axioms;

        self.slots.contains_key(&seq)
    }

    /// Enters a request under `seq`. A number that is still waiting is never
    /// given a second entry: the slot comes back and the table stays as it
    /// was.
    pub fn register(&mut self, seq: u64, slot: C) -> (refused: Option<C>)
        ensures
            !old(self)@.contains_key(seq) ==> refused is None && final(self)@ == old(self)@.insert(
                seq,
                slot,
            ),
            old(self)@.contains_key(seq) ==> refused == Some(slot) && final(self)@ == old(self)@,
    {
        broadcast use vstd::std_specs::hash::group_hash_axioms;

        if self.slots.contains_key(&seq) {
            Some(slot)
        } else {
            self.slots.insert(seq, slot);
            None
        }
    }

    /// Takes in a response. Where a request waits under the response's
    /// sequence number, its entry leaves the table and its slot is handed out
    /// together with the response; otherwise the response comes back alone
    /// and the table stays as it was. No other entry is touched.
    pub fn resolve(&mut self, response: Response) -> (woken: Result<(C, Response), Response>)
        ensures
            final(self)@ == old(self)@.remove(response.seq),
            old(self)@.contains_key(response.seq) ==> woken == Ok::<(C, Response), Response>(
                (old(self)@[response.seq], response),
            ),
            !old(self)@.contains_key(response.seq) ==> woken == Err::<(C, Response), Response>(
                response,
            ),
    {
        broadcast use vstd::std_specs::hash::group_hash_axioms;

        match self.slots.remove(&response.seq) {
            Some(slot) => Ok((slot, response)),
            None => Err(response),
        }
    }

    /// Gives up the request under `seq`: its entry leaves the table, and the
    /// slot is handed out where there was one.
    pub fn abandon(&mut self, seq: u64) -> (slot: Option<C>)
        ensures
            final(self)@ == old(self)@.remove(seq),
            old(self)@.contains_key(seq) ==> slot == Some(old(self)@[seq]),
            !old(self)@.contains_key(seq) ==> slot is None,
    {
        broadcast use vstd::std_specs::hash::group_hash_axioms;

        self.slots.remove(&seq)
    }
}

/// Each caller is woken by the response that carries its own number, in
/// whatever order the responses arrive: with two requests waiting, taking
/// their entries out in one order or the other hands each number the same
/// slot and leaves the same table.
pub proof fn resolution_ignores_arrival_order<C>(table: Map<u64, C>, first: u64, second: u64)
    requires
        first != second,
        table.contains_key(first),
        table.contains_key(second),
    ensures
        table.remove(first).contains_key(second),
        table.remove(second).contains_key(first),
        table.remove(first)[second] == table[second],
        table.remove(second)[first] == table[first],
        table.remove(first).remove(second) == table.remove(second).remove(first),
{
    assert(table.remove(first).remove(second) =~= table.remove(second).remove(first));
}

/// The slot that the `i`-th of a run of responses wakes, where `arrivals`
/// holds their sequence numbers in the order of arrival: the one that still
/// waits under that number when the responses before it have been taken in.
pub open spec fn woken_by<C>(table: Map<u64, C>, arrivals: Seq<u64>, i: int) -> Option<C> {
    let waiting = removed(table, arrivals.take(i));
    if waiting.contains_key(arrivals[i]) {
        Some(waiting[arrivals[i]])
    } else {
        None
    }
}

/// Whatever arrived before it and in whatever order, the first response
/// with a given number wakes the caller that registered under that number,
/// and any later response with that number wakes nobody.
pub proof fn each_response_wakes_its_own_caller<C>(table: Map<u64, C>, arrivals: Seq<u64>, i: int)
    requires
        0 <= i < arrivals.len(),
    ensures
        table.contains_key(arrivals[i]) && !arrivals.take(i).contains(arrivals[i]) ==> woken_by(
            table,
            arrivals,
            i,
        ) == Some(table[arrivals[i]]),
        !table.contains_key(arrivals[i]) || arrivals.take(i).contains(arrivals[i]) ==> woken_by(
            table,
            arrivals,
            i,
        ) is None,
{
    lemma_removed_at(table, arrivals.take(i), arrivals[i]);
}

/// An entry leaves the table once: after a response was taken in or the
/// request was given up, its number is no longer waiting, so a second
/// response with that number wakes nobody.
pub proof fn entry_leaves_once<C>(table: Map<u64, C>, seq: u64)
    ensures
        !table.remove(seq).contains_key(seq),
        table.remove(seq).remove(seq) == table.remove(seq),
{
    assert(table.remove(seq).remove(seq) =~= table.remove(seq));
}

/// Whether one of `entries` was registered under `seq`.
pub open spec fn names<C>(entries: Seq<(u64, C)>, seq: u64) -> bool {
    exists|i: int| 0 <= i < entries.len() && (#[trigger] entries[i]).0 == seq
}

proof fn lemma_registered_at<C>(table: Map<u64, C>, entries: Seq<(u64, C)>, seq: u64)
    ensures
        registered(table, entries).contains_key(seq) <==> table.contains_key(seq) || names(
            entries,
            seq,
        ),
        table.contains_key(seq) && !names(entries, seq) ==> registered(table, entries)[seq]
            == table[seq],
    decreases entries.len(),
{
    if entries.len() > 0 {
        let front = entries.drop_last();
        lemma_registered_at(table, front, seq);
        if names(front, seq) {
            let i = choose|i: int| 0 <= i < front.len() && (#[trigger] front[i]).0 == seq;
            assert(entries[i].0 == seq);
        }
        if entries.last().0 == seq {
            assert(entries[entries.len() - 1].0 == seq);
        }
        if names(entries, seq) {
            let i = choose|i: int| 0 <= i < entries.len() && (#[trigger] entries[i]).0 == seq;
            if i < front.len() {
                assert(front[i].0 == seq);
            }
        }
    }
}

proof fn lemma_removed_at<C>(table: Map<u64, C>, seqs: Seq<u64>, seq: u64)
    ensures
        removed(table, seqs).contains_key(seq) <==> table.contains_key(seq) && !seqs.contains(seq),
        removed(table, seqs).contains_key(seq) ==> removed(table, seqs)[seq] == table[seq],
    decreases seqs.len(),
{
    if seqs.len() > 0 {
        let front = seqs.drop_last();
        lemma_removed_at(table, front, seq);
        if seqs.contains(seq) {
            let i = choose|i: int| 0 <= i < seqs.len() && seqs[i] == seq;
            if i < front.len() {
                assert(front[i] == seq);
            }
        }
        if front.contains(seq) {
            let i = choose|i: int| 0 <= i < front.len() && front[i] == seq;
            assert(seqs[i] == seq);
        }
        if seq == seqs.last() {
            assert(seqs[seqs.len() - 1] == seq);
        }
    }
}

/// The table returns to where it began: once every request that was
/// registered has been resolved or abandoned, in whatever order and in
/// whatever mix, the table is what it was before the first of them entered,
/// and so is its size.
pub proof fn table_returns_to_baseline<C>(
    baseline: Map<u64, C>,
    entries: Seq<(u64, C)>,
    leaving: Seq<u64>,
)
    requires
        forall|seq: u64| names(entries, seq) ==> !baseline.contains_key(seq),
        forall|seq: u64| names(entries, seq) <==> leaving.contains(seq),
    ensures
        removed(registered(baseline, entries), leaving) == baseline,
        removed(registered(baseline, entries), leaving).len() == baseline.len(),
{
    let full = registered(baseline, entries);
    let after = removed(full, leaving);
    assert forall|seq: u64| after.contains_key(seq) <==> baseline.contains_key(seq) by {
        lemma_registered_at(baseline, entries, seq);
        lemma_removed_at(full, leaving, seq);
    }
    assert forall|seq: u64| after.contains_key(seq) implies after[seq] == baseline[seq] by {
        lemma_registered_at(baseline, entries, seq);
        lemma_removed_at(full, leaving, seq);
    }
    assert(after =~= baseline);
}

} // verus!
