//! The library's part of the dispatch pipeline: batching the jobs that wait
//! in the channel, and the table in which results wait for their character.
//!
//! The threads are the host's: it waits at the channel for the first job of
//! a batch, runs each job of the batch on its pool, and hands the results of
//! the whole batch to the table at once.

use vstd::prelude::*;
use std::collections::HashMap;
use crossbeam::channel::{Receiver, Sender};
use crate::bt::result::BTResult;
use crate::character::snapshot::CharacterId;

verus! {

broadcast use vstd::std_specs::hash::group_hash_axioms;

/// The most jobs that go into one batch.
pub const BATCH_CAP: usize = 32;

/// The receiving end of a channel of the crossbeam crate.
#[verifier::external_type_specification]
#[verifier::external_body]
#[verifier::reject_recursive_types(T)]
pub struct ExReceiver<T>(Receiver<T>);

/// The sending end of a channel of the crossbeam crate.
#[verifier::external_type_specification]
#[verifier::external_body]
#[verifier::reject_recursive_types(T)]
pub struct ExSender<T>(Sender<T>);

/// `Receiver::try_recv` of the crossbeam crate takes a message from the
/// channel if one is there, without blocking. Which message that is depends
/// on what the senders did, so nothing is claimed of it.
#[verifier::external_body]
fn try_receive<T>(rx: &Receiver<T>) -> (r: Option<T>) {
    rx.try_recv().ok()
}

/// `Sender::try_send` of the crossbeam crate puts a message into the channel
/// without blocking; it fails when the channel is full or every receiver is
/// gone. Returns whether the message was taken. A channel without bound is
/// never full.
#[verifier::external_body]
fn try_send<T>(tx: &Sender<T>, message: T) -> (r: bool) {
    tx.try_send(message).is_ok()
}

/// Enqueues `job`, if there is a channel to enqueue it in. A job that
/// cannot be enqueued is dropped.
pub fn submit<T>(tx: Option<&Sender<T>>, job: T) -> (sent: bool)
    ensures
        tx is None ==> !sent,
{
    let taken = match tx {
        Some(tx) => Some(try_send(tx, job)),
        None => None,
    };
    enqueued(taken)
}

/// Whether a job counts as enqueued, given what became of it: `None` where
/// there was no channel to put it in, else whether the channel took it.
pub fn enqueued(taken: Option<bool>) -> (sent: bool)
    ensures
        sent == (taken == Some(true)),
{
    match taken {
        Some(taken) => taken,
        None => false,
    }
}

/// Fills a batch: `first`, then the jobs that wait in the channel, until the
/// channel is empty or the batch holds `BATCH_CAP` jobs. Never blocks.
pub fn collect_batch<T>(rx: &Receiver<T>, first: T) -> (jobs: Vec<T>)
    ensures
        1 <= jobs@.len() <= BATCH_CAP,
        jobs@[0] == first,
{
    let mut jobs: Vec<T> = Vec::new();
    jobs.push(first);
    while jobs.len() < BATCH_CAP
        invariant
            1 <= jobs@.len() <= BATCH_CAP,
            jobs@[0] == first,
        decreases BATCH_CAP - jobs@.len(),
    {
        let received = try_receive(rx);
        if !take_into_batch(&mut jobs, received) {
            break;
        }
    }
    jobs
}

/// One step of filling a batch that is not yet full, given what the channel
/// answered. A job that was received goes to the end of the batch, and the
/// draining goes on while the batch is below the cap. An empty answer leaves
/// the batch as it is and ends the draining.
pub fn take_into_batch<T>(jobs: &mut Vec<T>, received: Option<T>) -> (more: bool)
    requires
        1 <= old(jobs)@.len() < BATCH_CAP,
    ensures
        received matches Some(job) ==> final(jobs)@ == old(jobs)@.push(job)
            && more == (final(jobs)@.len() < BATCH_CAP),
        received is None ==> final(jobs)@ == old(jobs)@ && !more,
{
    match received {
        Some(job) => {
            jobs.push(job);
            jobs.len() < BATCH_CAP
        },
        None => false,
    }
}

/// The table after the first `n` results of `batch` have been put into it,
/// in order: a later result for a character replaces an earlier one.
pub open spec fn merged(
    table: Map<CharacterId, BTResult>,
    batch: Seq<(CharacterId, BTResult)>,
    n: nat,
) -> Map<CharacterId, BTResult>
    decreases n,
{
    if n == 0 {
        table
    } else {
        merged(table, batch, (n - 1) as nat).insert(batch[n - 1].0, batch[n - 1].1)
    }
}

/// The results that wait for their characters: for each character at most
/// one, the latest.
pub struct ResultTable {
    pub results: HashMap<CharacterId, BTResult>,
}

impl View for ResultTable {
    type V = Map<CharacterId, BTResult>;

    open spec fn view(&self) -> Map<CharacterId, BTResult> {
        self.results@
    }
}

impl ResultTable {
    /// An empty table.
    pub fn new() -> (r: Self)
        ensures
            r@ == Map::<CharacterId, BTResult>::empty(),
    {
        ResultTable { results: HashMap::new() }
    }

    /// Puts the results of a whole batch into the table, in order.
    pub fn merge(&mut self, batch: Vec<(CharacterId, BTResult)>)
        ensures
            final(self)@ == merged(old(self)@, batch@, batch@.len()),
    {
        let ghost all = batch@;
        let mut rest = batch;
        let mut stack: Vec<(CharacterId, BTResult)> = Vec::new();
        while rest.len() > 0
            invariant
                rest@.len() + stack@.len() == all.len(),
                forall|j: int| 0 <= j < rest@.len() ==> rest@[j] == all[j],
                forall|j: int| 0 <= j < stack@.len() ==> stack@[j] == all[all.len() - 1 - j],
            decreases rest@.len(),
        {
            let item = rest.pop().unwrap();
            stack.push(item);
        }
        let ghost mut done: nat = 0;
        while stack.len() > 0
            invariant
                done + stack@.len() == all.len(),
                forall|j: int| 0 <= j < stack@.len() ==> stack@[j] == all[all.len() - 1 - j],
                self@ == merged(old(self)@, all, done),
            decreases stack@.len(),
        {
            let (id, result) = stack.pop().unwrap();
            self.results.insert(id, result);
            proof {
                done = done + 1;
            }
        }
    }

    /// Takes the result that waits for `character_id`, if there is one.
    pub fn take(&mut self, character_id: CharacterId) -> (r: Option<BTResult>)
        ensures
            r == fetched(old(self)@, character_id),
            final(self)@ == old(self)@.remove(character_id),
    {
        self.results.remove(&character_id)
    }
}

/// The result that a fetch for `character_id` returns.
pub open spec fn fetched(table: Map<CharacterId, BTResult>, character_id: CharacterId) -> Option<
    BTResult,
> {
    if table.contains_key(character_id) {
        Some(table[character_id])
    } else {
        None
    }
}

/// Takes the result that waits in `table` for `character_id`, if there is
/// one. The result leaves the table.
pub fn take_result(table: &mut ResultTable, character_id: CharacterId) -> (r: Option<BTResult>)
    ensures
        r == fetched(old(table)@, character_id),
        final(table)@ == old(table)@.remove(character_id),
{
    table.take(character_id)
}

/// A character for which a batch held a result finds one result at its next
/// fetch: that of the last of its jobs in the batch. The fetch removes it, so
/// that a second fetch finds none.
pub proof fn lemma_result_is_fetched_once(
    table: Map<CharacterId, BTResult>,
    batch: Seq<(CharacterId, BTResult)>,
    k: int,
)
    requires
        0 <= k < batch.len(),
        forall|j: int| k < j < batch.len() ==> batch[j].0 != batch[k].0,
    ensures
        fetched(merged(table, batch, batch.len()), batch[k].0) == Some(batch[k].1),
        fetched(merged(table, batch, batch.len()).remove(batch[k].0), batch[k].0) is None,
{
    lemma_merged_keeps_last(table, batch, batch.len(), k);
}

/// After the first `n` results are merged, the table holds for the character
/// of result `k` that result, if none of the results after it up to `n` is
/// for the same character.
pub proof fn lemma_merged_keeps_last(
    table: Map<CharacterId, BTResult>,
    batch: Seq<(CharacterId, BTResult)>,
    n: nat,
    k: int,
)
    requires
        0 <= k < n <= batch.len(),
        forall|j: int| k < j < n ==> batch[j].0 != batch[k].0,
    ensures
        fetched(merged(table, batch, n), batch[k].0) == Some(batch[k].1),
    decreases n,
{
    if n - 1 > k {
        lemma_merged_keeps_last(table, batch, (n - 1) as nat, k);
    }
}

} // verus!
