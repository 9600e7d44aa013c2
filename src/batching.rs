use vstd::prelude::*;
use crate::errors::StoreFailure;

verus! {

/// Number of chunks of at most `limit` items that cover `n` items: the
/// ceiling of `n / limit`.
pub open spec fn chunk_count(n: nat, limit: nat) -> nat
    recommends
        limit >= 1,
{
    ((n + limit - 1) as nat / limit) as nat
}

/// Views of every chunk.
pub open spec fn chunk_views<T>(chunks: Seq<Vec<T>>) -> Seq<Seq<T>> {
    chunks.map_values(|c: Vec<T>| c@)
}

/// The chunks laid end to end, in order.
pub open spec fn flatten<T>(chunks: Seq<Seq<T>>) -> Seq<T>
    decreases chunks.len(),
{
    if chunks.len() == 0 {
        Seq::empty()
    } else {
        flatten(chunks.drop_last()) + chunks.last()
    }
}

/// The sum of the chunk sizes.
pub open spec fn total_len<T>(chunks: Seq<Seq<T>>) -> nat
    decreases chunks.len(),
{
    if chunks.len() == 0 {
        0
    } else {
        total_len(chunks.drop_last()) + chunks.last().len()
    }
}

/// Laying chunks end to end gives as many items as their sizes add up to.
pub proof fn lemma_total_len_is_flat_len<T>(chunks: Seq<Seq<T>>)
    ensures
        total_len(chunks) == flatten(chunks).len(),
    decreases chunks.len(),
{
    if chunks.len() > 0 {
        lemma_total_len_is_flat_len(chunks.drop_last());
    }
}

/// Every chunk is non-empty and holds at most `limit` items; every chunk but
/// the last holds exactly `limit`.
pub open spec fn well_sized<T>(chunks: Seq<Seq<T>>, limit: nat) -> bool {
    &&& forall|i: int| 0 <= i < chunks.len() ==> 0 < #[trigger] chunks[i].len() <= limit
    &&& forall|i: int| 0 <= i < chunks.len() - 1 ==> #[trigger] chunks[i].len() == limit
}

proof fn lemma_count_of_full_prefix(k: nat, limit: nat, last: nat)
    requires
        k >= 1,
        1 <= last <= limit,
    ensures
        chunk_count(((k - 1) * limit + last) as nat, limit) == k,
{
    let n = (k - 1) * limit + last;
    assert(n + limit - 1 == k * limit + (last - 1)) by (nonlinear_arith)
        requires
            n == (k - 1) * limit + last,
    ;
    vstd::arithmetic::div_mod::lemma_fundamental_div_mod_converse(
        n + limit - 1,
        limit as int,
        k as int,
        (last - 1) as int,
    );
}

proof fn lemma_count_of_nothing(limit: nat)
    requires
        limit >= 1,
    ensures
        chunk_count(0, limit) == 0,
{
    vstd::arithmetic::div_mod::lemma_fundamental_div_mod_converse(
        limit - 1,
        limit as int,
        0,
        limit - 1,
    );
}

/// Splits `data` into consecutive chunks of `limit` items, the last chunk
/// holding the remainder. Order is kept and no item is lost.
pub fn batch_data<T>(data: Vec<T>, limit: usize) -> (batches: Vec<Vec<T>>)
    requires
        limit >= 1,
    ensures
        batches@.len() == chunk_count(data@.len(), limit as nat),
        well_sized(chunk_views(batches@), limit as nat),
        flatten(chunk_views(batches@)) == data@,
        total_len(chunk_views(batches@)) == data@.len(),
{
    let mut rest = data;
    let mut batches: Vec<Vec<T>> = Vec::new();
    proof {
        lemma_count_of_nothing(limit as nat);
        assert(batches@.len() * limit == 0) by (nonlinear_arith)
            requires
                batches@.len() == 0,
        ;
    }
    while rest.len() > 0
        invariant
            limit >= 1,
            flatten(chunk_views(batches@)) + rest@ == data@,
            forall|i: int| 0 <= i < batches@.len() ==> 0 < #[trigger] batches@[i]@.len() <= limit,
            forall|i: int|
                0 <= i < batches@.len() - 1 ==> #[trigger] batches@[i]@.len() == limit,
            rest@.len() > 0 ==> forall|i: int|
                0 <= i < batches@.len() ==> #[trigger] batches@[i]@.len() == limit,
            rest@.len() > 0 ==> batches@.len() * limit + rest@.len() == data@.len(),
            rest@.len() == 0 ==> batches@.len() == chunk_count(data@.len(), limit as nat),
        decreases rest@.len(),
    {
        let take: usize = if rest.len() < limit {
            rest.len()
        } else {
            limit
        };
        let ghost before = batches@;
        let ghost old_rest = rest@;
        let tail = rest.split_off(take);
        batches.push(rest);
        rest = tail;
        proof {
            let views = chunk_views(batches@);
            assert(views.drop_last() =~= chunk_views(before));
            assert(views.last() == old_rest.subrange(0, take as int));
            assert(old_rest =~= old_rest.subrange(0, take as int) + rest@);
            assert(flatten(views) + rest@ =~= flatten(chunk_views(before)) + old_rest);
            let k = batches@.len();
            assert((k - 1) * limit + take == data@.len() - rest@.len()) by (nonlinear_arith)
                requires
                    before.len() * limit + old_rest.len() == data@.len(),
                    k == before.len() + 1,
                    old_rest.len() == take + rest@.len(),
            ;
            if rest@.len() == 0 {
                lemma_count_of_full_prefix(k as nat, limit as nat, take as nat);
            } else {
                assert(take == limit);
                assert(k * limit + rest@.len() == data@.len()) by (nonlinear_arith)
                    requires
                        (k - 1) * limit + take == data@.len() - rest@.len(),
                        take == limit,
                ;
            }
        }
    }
    proof {
        assert(rest@ =~= Seq::<T>::empty());
        assert(flatten(chunk_views(batches@)) =~= flatten(chunk_views(batches@)) + rest@);
        lemma_total_len_is_flat_len(chunk_views(batches@));
    }
    batches
}

/// What became of one chunk submitted as a bulk write.
#[derive(Clone, Debug, PartialEq)]
pub enum WriteOutcome<T> {
    /// Every item was stored.
    Success,
    /// The store took the request but left these items unprocessed, in the
    /// order it returned them.
    PartialFailure(Vec<T>),
    /// Nothing of the chunk was stored.
    Rejected(StoreFailure),
}

/// The outcome that a store reply stands for. A reply is either the list of
/// unprocessed items of an accepted request, or the failure of the request.
pub open spec fn outcome_of<T>(reply: Result<Vec<T>, StoreFailure>) -> WriteOutcome<T> {
    match reply {
        Ok(unprocessed) => if unprocessed@.len() == 0 {
            WriteOutcome::Success
        } else {
            WriteOutcome::PartialFailure(unprocessed)
        },
        Err(cause) => WriteOutcome::Rejected(cause),
    }
}

impl<T> WriteOutcome<T> {
    /// Reads a store reply for one chunk.
    pub fn from_reply(reply: Result<Vec<T>, StoreFailure>) -> (r: WriteOutcome<T>)
        ensures
            r == outcome_of(reply),
    {
        match reply {
            Ok(unprocessed) => if unprocessed.len() == 0 {
                WriteOutcome::Success
            } else {
                WriteOutcome::PartialFailure(unprocessed)
            },
            Err(cause) => WriteOutcome::Rejected(cause),
        }
    }
}

/// A bulk write of a record sequence, chunk by chunk. The caller takes the
/// next chunk, submits it to the store, and records the reply; every chunk
/// is handed out whatever the replies to earlier chunks were.
pub struct BulkWrite<T> {
    pending: Vec<Vec<T>>,
    outcomes: Vec<WriteOutcome<T>>,
}

impl<T> BulkWrite<T> {
    /// The chunks not handed out yet, in order.
    pub closed spec fn pending(&self) -> Seq<Seq<T>> {
        chunk_views(self.pending@)
    }

    /// The outcomes recorded so far, in submission order.
    pub closed spec fn outcomes(&self) -> Seq<WriteOutcome<T>> {
        self.outcomes@
    }

    /// Plans the bulk write of `records` in chunks of at most `limit` items.
    pub fn new(records: Vec<T>, limit: usize) -> (r: BulkWrite<T>)
        requires
            limit >= 1,
        ensures
            r.pending().len() == chunk_count(records@.len(), limit as nat),
            well_sized(r.pending(), limit as nat),
            flatten(r.pending()) == records@,
            total_len(r.pending()) == records@.len(),
            r.outcomes().len() == 0,
    {
        BulkWrite { pending: batch_data(records, limit), outcomes: Vec::new() }
    }

    /// Whether every chunk has been handed out.
    pub fn is_done(&self) -> (r: bool)
        ensures
            r == (self.pending().len() == 0),
    {
        self.pending.len() == 0
    }

    /// Hands out the next chunk, or `None` when none is left.
    pub fn next_chunk(&mut self) -> (r: Option<Vec<T>>)
        ensures
            old(self).pending().len() == 0 ==> r is None && final(self).pending() == old(
                self,
            ).pending(),
            old(self).pending().len() > 0 ==> (r matches Some(c) && c@ == old(self).pending()[0]
                && final(self).pending() == old(self).pending().drop_first()),
            final(self).outcomes() == old(self).outcomes(),
    {
        if self.pending.len() == 0 {
            None
        } else {
            let ghost before = self.pending@;
            let c = self.pending.remove(0);
            proof {
                assert(chunk_views(self.pending@) =~= chunk_views(before).drop_first());
            }
            Some(c)
        }
    }

    /// Records the store's reply to the chunk handed out last. The chunks
    /// still pending are untouched: a failed chunk stops nothing.
    pub fn record(&mut self, reply: Result<Vec<T>, StoreFailure>)
        ensures
            final(self).outcomes() == old(self).outcomes().push(outcome_of(reply)),
            final(self).pending() == old(self).pending(),
    {
        let outcome = WriteOutcome::from_reply(reply);
        self.outcomes.push(outcome);
    }

    /// The outcomes recorded, in submission order.
    pub fn into_outcomes(self) -> (r: Vec<WriteOutcome<T>>)
        ensures
            r@ == self.outcomes(),
    {
        self.outcomes
    }
}

} // verus!
