//! The batched, retried write path.
//!
//! A storage transaction accepts batches of blobs. Each batch goes through
//! up to `MAX_ATTEMPTS` rounds: one round issues a write per remaining blob
//! (concurrently, outside this crate), and the transaction is then told
//! which writes succeeded. Successes are dropped from further consideration
//! and counted exactly once; failures are retained, with their full data,
//! for the next round. A batch still failing after the last round does not
//! end the process: it surfaces as `RetryBudgetExhausted`, the transaction
//! becomes `Aborted`, and the still-failing subset stays readable — blobs
//! already written remain stored.
//!
//! "Transaction" means a batch of independent writes under one retry
//! policy, not atomicity across objects: there is no rollback, and
//! `complete` performs no further network activity.

use vstd::prelude::*;
use crate::blob::Blob;
use crate::error::Error;

verus! {

/// How many times a batch is attempted before the budget is exhausted.
pub const MAX_ATTEMPTS: usize = 3;

/// The lifecycle of a storage transaction.
#[derive(Clone, Copy, Debug, PartialEq, Eq, Structural)]
pub enum TransactionState {
    /// Accepting batches.
    Open,
    /// Terminal: every accepted batch was stored whole.
    Complete,
    /// Terminal: a batch exhausted its retry budget.
    Aborted,
}

/// What one round of writes left the batch in.
#[derive(Clone, Copy, Debug, PartialEq, Eq, Structural)]
pub enum RoundStatus {
    /// Every blob of the batch is stored; the batch is done.
    BatchStored,
    /// Some blobs failed and another round is owed.
    RetryNeeded,
}

/// The blobs a round retains for retry: those whose write failed.
pub open spec fn retained<T>(p: Seq<T>, o: Seq<bool>) -> Seq<T>
    decreases p.len(),
{
    if p.len() == 0 {
        Seq::empty()
    } else {
        let init = retained(p.drop_last(), o);
        if o[p.len() - 1] {
            init
        } else {
            init.push(p.last())
        }
    }
}

/// The blobs a round observed as successes: those whose write went through.
pub open spec fn succeeded_of<T>(p: Seq<T>, o: Seq<bool>) -> Seq<T>
    decreases p.len(),
{
    if p.len() == 0 {
        Seq::empty()
    } else {
        let init = succeeded_of(p.drop_last(), o);
        if o[p.len() - 1] {
            init.push(p.last())
        } else {
            init
        }
    }
}

/// A batch of independent writes with a shared retry policy.
pub struct StorageTransaction {
    state: TransactionState,
    pending: Vec<Blob>,
    attempts: usize,
    batch_active: bool,
    uploaded_files_total: u64,
    stored: Ghost<Seq<Blob>>,
}

impl StorageTransaction {
    /// The lifecycle state.
    pub closed spec fn state_model(&self) -> TransactionState {
        self.state
    }

    pub open spec fn is_open(&self) -> bool {
        self.state_model() == TransactionState::Open
    }

    pub open spec fn is_complete(&self) -> bool {
        self.state_model() == TransactionState::Complete
    }

    pub open spec fn is_aborted(&self) -> bool {
        self.state_model() == TransactionState::Aborted
    }

    /// Whether a batch is mid-flight: begun but not yet stored or exhausted.
    pub closed spec fn batch_active(&self) -> bool {
        self.batch_active
    }

    /// The blobs of the active batch still awaiting a successful write;
    /// after an exhausted batch, the still-failing subset.
    pub closed spec fn pending_blobs(&self) -> Seq<Blob> {
        self.pending@
    }

    /// The rounds already spent on the active batch.
    pub closed spec fn rounds_used(&self) -> nat {
        self.attempts as nat
    }

    /// Every blob this transaction has observed as successfully written, in
    /// the order the rounds reported them.
    pub closed spec fn stored_log(&self) -> Seq<Blob> {
        self.stored@
    }

    /// The success counter: one increment per successful write, no blob
    /// counted twice.
    pub closed spec fn uploaded_total(&self) -> nat {
        self.uploaded_files_total as nat
    }

    pub closed spec fn inv(&self) -> bool {
        &&& self.uploaded_files_total as nat == self.stored@.len()
        &&& self.attempts <= MAX_ATTEMPTS
        &&& (self.batch_active ==> self.state == TransactionState::Open && self.attempts
            < MAX_ATTEMPTS)
        &&& (self.state == TransactionState::Complete ==> !self.batch_active
            && self.pending@.len() == 0)
        &&& (self.state == TransactionState::Open && !self.batch_active ==> self.pending@.len()
            == 0)
    }

    /// A fresh transaction: `Open`, nothing pending, nothing stored.
    pub fn new() -> (t: Self)
        ensures
            t.inv(),
            t.is_open(),
            !t.batch_active(),
            t.pending_blobs() == Seq::<Blob>::empty(),
            t.stored_log() == Seq::<Blob>::empty(),
            t.uploaded_total() == 0,
    {
        StorageTransaction {
            state: TransactionState::Open,
            pending: Vec::new(),
            attempts: 0,
            batch_active: false,
            uploaded_files_total: 0,
            stored: Ghost(Seq::empty()),
        }
    }

    /// Accepts a batch: every blob of it is now pending, with the full
    /// retry budget ahead.
    pub fn begin_batch(&mut self, batch: Vec<Blob>)
        requires
            old(self).inv(),
            old(self).is_open(),
            !old(self).batch_active(),
        ensures
            final(self).inv(),
            final(self).is_open(),
            final(self).batch_active(),
            final(self).pending_blobs() == batch@,
            final(self).rounds_used() == 0,
            final(self).stored_log() == old(self).stored_log(),
            final(self).uploaded_total() == old(self).uploaded_total(),
    {
        self.pending = batch;
        self.attempts = 0;
        self.batch_active = true;
    }

    /// The blobs the next round must write.
    pub fn pending(&self) -> (r: &Vec<Blob>)
        ensures
            r@ == self.pending_blobs(),
    {
        &self.pending
    }

    /// Whether a batch is mid-flight, observably.
    pub fn is_batch_active(&self) -> (r: bool)
        ensures
            r == self.batch_active(),
    {
        self.batch_active
    }

    /// The lifecycle state, observably.
    pub fn state(&self) -> (r: TransactionState)
        ensures
            r == self.state_model(),
    {
        self.state
    }

    /// The rounds already spent on the active batch, observably.
    pub fn rounds(&self) -> (r: usize)
        ensures
            r as nat == self.rounds_used(),
    {
        self.attempts
    }

    /// The success counter, observably.
    pub fn uploaded_files_total(&self) -> (r: u64)
        ensures
            r as nat == self.uploaded_total(),
    {
        self.uploaded_files_total
    }

    /// Records the outcome of one concurrent round of writes:
    /// `outcomes[i]` says whether pending blob `i` was written. Successes
    /// are logged and counted exactly once; failures are retained whole. An
    /// empty remainder stores the batch; a non-empty one either owes
    /// another round or, when this round was the last of the budget,
    /// aborts the transaction with `RetryBudgetExhausted`, the failing
    /// subset left readable in `pending`.
    pub fn record_round(&mut self, outcomes: &Vec<bool>) -> (r: Result<RoundStatus, Error>)
        requires
            old(self).inv(),
            old(self).batch_active(),
            outcomes@.len() == old(self).pending_blobs().len(),
            old(self).uploaded_total() + outcomes@.len() <= u64::MAX,
        ensures
            final(self).inv(),
            final(self).stored_log() == old(self).stored_log() + succeeded_of(
                old(self).pending_blobs(),
                outcomes@,
            ),
            final(self).uploaded_total() == old(self).uploaded_total() + succeeded_of(
                old(self).pending_blobs(),
                outcomes@,
            ).len(),
            final(self).rounds_used() == old(self).rounds_used() + 1,
            final(self).pending_blobs() == retained(old(self).pending_blobs(), outcomes@),
            ({
                let rem = retained(old(self).pending_blobs(), outcomes@);
                if rem.len() == 0 {
                    &&& r == Ok::<RoundStatus, Error>(RoundStatus::BatchStored)
                    &&& final(self).is_open()
                    &&& !final(self).batch_active()
                } else if old(self).rounds_used() + 1 < MAX_ATTEMPTS {
                    &&& r == Ok::<RoundStatus, Error>(RoundStatus::RetryNeeded)
                    &&& final(self).is_open()
                    &&& final(self).batch_active()
                } else {
                    &&& r == Err::<RoundStatus, Error>(Error::RetryBudgetExhausted)
                    &&& final(self).is_aborted()
                    &&& !final(self).batch_active()
                }
            }),
    {
        let ghost orig = self.pending@;
        let n = outcomes.len();
        let mut kept: Vec<Blob> = Vec::new();
        let mut successes: usize = 0;
        let mut i: usize = 0;
        proof {
            assert(orig.take(0) =~= Seq::<Blob>::empty());
        }
        while i < n
            invariant
                n == outcomes@.len(),
                orig.len() == n,
                i <= n,
                self.pending@ == orig.skip(i as int),
                kept@ == retained(orig.take(i as int), outcomes@),
                successes as nat == succeeded_of(orig.take(i as int), outcomes@).len(),
                successes <= i,
                self.state == old(self).state,
                self.attempts == old(self).attempts,
                self.batch_active == old(self).batch_active,
                self.uploaded_files_total == old(self).uploaded_files_total,
                self.stored == old(self).stored,
                old(self).inv(),
                old(self).batch_active(),
                old(self).pending_blobs() == orig,
                old(self).uploaded_total() + n <= u64::MAX,
            decreases n - i,
        {
            let b = self.pending.remove(0);
            proof {
                assert(orig.skip(i as int).remove(0) =~= orig.skip(i + 1));
                assert(b == orig[i as int]);
                let t = orig.take(i + 1);
                assert(t.drop_last() =~= orig.take(i as int));
                assert(t.last() == orig[i as int]);
                assert(t[t.len() - 1] == orig[i as int]);
            }
            if outcomes[i] {
                successes = successes + 1;
            } else {
                kept.push(b);
            }
            i = i + 1;
        }
        proof {
            assert(orig.take(n as int) =~= orig);
        }
        let rem = kept.len();
        self.pending = kept;
        self.attempts = self.attempts + 1;
        self.uploaded_files_total = self.uploaded_files_total + (successes as u64);
        proof {
            assert(succeeded_of(orig, outcomes@).len() == successes as nat);
        }
        self.stored = Ghost(self.stored@ + succeeded_of(orig, outcomes@));
        if rem == 0 {
            self.batch_active = false;
            Ok(RoundStatus::BatchStored)
        } else if self.attempts < MAX_ATTEMPTS {
            Ok(RoundStatus::RetryNeeded)
        } else {
            self.batch_active = false;
            self.state = TransactionState::Aborted;
            Err(Error::RetryBudgetExhausted)
        }
    }

    /// Marks the transaction `Complete`. No further network activity: the
    /// remote store has no multi-object commit, so completing only seals
    /// the protocol. An aborted transaction cannot complete; it reports
    /// its exhausted budget instead, and what was stored stays stored.
    pub fn complete(&mut self) -> (r: Result<(), Error>)
        requires
            old(self).inv(),
            !old(self).batch_active(),
        ensures
            final(self).inv(),
            final(self).stored_log() == old(self).stored_log(),
            final(self).uploaded_total() == old(self).uploaded_total(),
            final(self).pending_blobs() == old(self).pending_blobs(),
            old(self).is_aborted() ==> final(self).is_aborted() && r == Err::<(), Error>(
                Error::RetryBudgetExhausted,
            ),
            !old(self).is_aborted() ==> final(self).is_complete() && r == Ok::<(), Error>(()),
    {
        match self.state {
            TransactionState::Aborted => Err(Error::RetryBudgetExhausted),
            _ => {
                self.state = TransactionState::Complete;
                Ok(())
            }
        }
    }
}

/// On a round where every write fails, everything is retained and nothing
/// is counted.
pub proof fn lemma_round_all_failed<T>(p: Seq<T>, o: Seq<bool>)
    requires
        o.len() >= p.len(),
        forall|i: int| 0 <= i < p.len() ==> !o[i],
    ensures
        retained(p, o) =~= p,
        succeeded_of(p, o) =~= Seq::<T>::empty(),
    decreases p.len(),
{
    if p.len() > 0 {
        lemma_round_all_failed(p.drop_last(), o);
    }
}

/// On a round where every write succeeds, nothing is retained and every
/// blob is counted, in order.
pub proof fn lemma_round_all_succeeded<T>(p: Seq<T>, o: Seq<bool>)
    requires
        o.len() >= p.len(),
        forall|i: int| 0 <= i < p.len() ==> o[i],
    ensures
        retained(p, o) =~= Seq::<T>::empty(),
        succeeded_of(p, o) =~= p,
    decreases p.len(),
{
    if p.len() > 0 {
        lemma_round_all_succeeded(p.drop_last(), o);
    }
}

/// On a round where exactly the write at position `k` fails, that blob
/// alone is retained and all the others are counted, in order.
pub proof fn lemma_round_single_failure<T>(p: Seq<T>, o: Seq<bool>, k: int)
    requires
        o.len() >= p.len(),
        0 <= k < p.len(),
        forall|i: int| 0 <= i < p.len() ==> o[i] == (i != k),
    ensures
        retained(p, o) =~= seq![p[k]],
        succeeded_of(p, o) =~= p.remove(k),
    decreases p.len(),
{
    if k == p.len() - 1 {
        lemma_round_all_succeeded(p.drop_last(), o);
        assert(p.remove(k) =~= p.drop_last());
    } else {
        lemma_round_single_failure(p.drop_last(), o, k);
        assert(p.remove(k).drop_last() =~= p.drop_last().remove(k));
        assert(succeeded_of(p, o) =~= p.remove(k));
    }
}

/// A batch whose every blob fails on the first round
/// and succeeds on the second is stored whole in exactly two rounds, and
/// every blob is observed as a success exactly once: the first round
/// counts nothing, the second counts precisely the original batch.
pub proof fn lemma_retry_convergence(batch: Seq<Blob>, o1: Seq<bool>, o2: Seq<bool>)
    requires
        o1.len() == batch.len(),
        forall|i: int| 0 <= i < o1.len() ==> !o1[i],
        o2.len() == batch.len(),
        forall|i: int| 0 <= i < o2.len() ==> o2[i],
    ensures
        retained(batch, o1) =~= batch,
        succeeded_of(batch, o1) =~= Seq::<Blob>::empty(),
        retained(retained(batch, o1), o2) =~= Seq::<Blob>::empty(),
        succeeded_of(batch, o1) + succeeded_of(retained(batch, o1), o2) =~= batch,
{
    lemma_round_all_failed(batch, o1);
    lemma_round_all_succeeded(retained(batch, o1), o2);
}

/// In a batch where one blob fails on every round and
/// the rest succeed at once, every round retains exactly the persistently
/// failing blob, so the third round exhausts the budget reporting it,
/// while all the other blobs were observed as successes — once each, on
/// the first round — and remain stored.
pub proof fn lemma_retry_exhaustion(batch: Seq<Blob>, o1: Seq<bool>, orest: Seq<bool>, k: int)
    requires
        o1.len() == batch.len(),
        0 <= k < batch.len(),
        forall|i: int| 0 <= i < o1.len() ==> o1[i] == (i != k),
        orest.len() == 1,
        !orest[0],
    ensures
        retained(batch, o1) =~= seq![batch[k]],
        succeeded_of(batch, o1) =~= batch.remove(k),
        retained(seq![batch[k]], orest) =~= seq![batch[k]],
        succeeded_of(seq![batch[k]], orest) =~= Seq::<Blob>::empty(),
{
    lemma_round_single_failure(batch, o1, k);
    lemma_round_all_failed(seq![batch[k]], orest);
}

} // verus!
