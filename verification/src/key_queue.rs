use std::collections::VecDeque;
use vstd::prelude::*;

verus! {

/// Keys reported by a browser terminal, waiting to be picked up by the task
/// that feeds the main loop. Keys come out in the order they went in.
pub struct KeyQueue<K> {
    keys: VecDeque<K>,
}

impl<K> View for KeyQueue<K> {
    type V = Seq<K>;

    closed spec fn view(&self) -> Seq<K> {
        self.keys@
    }
}

/// The key a poll hands out for a queue holding `q`, if any: the oldest.
pub open spec fn polled<K>(q: Seq<K>) -> Option<K> {
    if q.len() == 0 {
        None
    } else {
        Some(q[0])
    }
}

/// What a queue holding `q` holds after a poll.
pub open spec fn after_poll<K>(q: Seq<K>) -> Seq<K> {
    if q.len() == 0 {
        q
    } else {
        q.drop_first()
    }
}

/// The keys that a queue holding `q` hands out when polled until it is empty.
pub open spec fn drained<K>(q: Seq<K>) -> Seq<K>
    decreases q.len(),
{
    if q.len() == 0 {
        Seq::empty()
    } else {
        seq![polled(q).unwrap()] + drained(after_poll(q))
    }
}

/// What a queue holding `q` holds after `ks` were pushed one by one.
pub open spec fn after_pushes<K>(q: Seq<K>, ks: Seq<K>) -> Seq<K>
    decreases ks.len(),
{
    if ks.len() == 0 {
        q
    } else {
        after_pushes(q.push(ks[0]), ks.drop_first())
    }
}

impl<K> KeyQueue<K> {
    pub fn new() -> (q: Self)
        ensures
            q@ == Seq::<K>::empty(),
    {
        KeyQueue { keys: VecDeque::new() }
    }

    /// Adds a key behind all the keys already waiting.
    pub fn push(&mut self, key: K)
        ensures
            final(self)@ == old(self)@.push(key),
    {
        self.keys.push_back(key);
    }

    /// Takes the oldest waiting key, or `None` when no key waits (the poll
    /// is then pending and is tried again).
    pub fn poll(&mut self) -> (key: Option<K>)
        ensures
            key == polled(old(self)@),
            final(self)@ == after_poll(old(self)@),
    {
        self.keys.pop_front()
    }
}

/// Polling until empty hands out exactly the waiting keys, oldest first.
pub proof fn lemma_drained<K>(q: Seq<K>)
    ensures
        drained(q) == q,
    decreases q.len(),
{
    if q.len() > 0 {
        lemma_drained(q.drop_first());
        assert(seq![q[0]] + q.drop_first() =~= q);
    }
}

/// Pushing keys one by one appends them, in order.
pub proof fn lemma_after_pushes<K>(q: Seq<K>, ks: Seq<K>)
    ensures
        after_pushes(q, ks) == q + ks,
    decreases ks.len(),
{
    if ks.len() > 0 {
        lemma_after_pushes(q.push(ks[0]), ks.drop_first());
        assert(q.push(ks[0]) + ks.drop_first() =~= q + ks);
    }
}

/// Keys reach the main loop in the order they were pressed: none is lost,
/// none is repeated, none overtakes another.
pub proof fn law_keys_come_out_in_order<K>(q: Seq<K>, ks: Seq<K>)
    ensures
        drained(after_pushes(q, ks)) == q + ks,
        q.len() == 0 ==> drained(after_pushes(q, ks)) == ks,
{
    lemma_after_pushes(q, ks);
    lemma_drained(q + ks);
    assert(Seq::<K>::empty() + ks =~= ks);
}

/// A poll on a queue with keys waiting hands out the oldest key, the first
/// that was pushed, and removes just that key; a key pushed onto a queue
/// comes out only after every key that was already waiting.
pub proof fn law_poll_takes_the_oldest_key<K>(q: Seq<K>, k: K)
    ensures
        q.len() > 0 ==> polled(q) == Some(q[0]),
        q.len() > 0 ==> after_poll(q) == q.subrange(1, q.len() as int),
        q.len() > 0 ==> after_poll(q).len() == q.len() - 1,
        polled(seq![k]) == Some(k),
        q.len() > 0 ==> polled(q.push(k)) == polled(q),
        q.len() > 0 ==> after_poll(q.push(k)) == after_poll(q).push(k),
{
    if q.len() > 0 {
        assert(q.push(k)[0] == q[0]);
        assert(q.push(k).drop_first() =~= q.drop_first().push(k));
        assert(q.drop_first() =~= q.subrange(1, q.len() as int));
    }
}

/// A poll on an empty queue hands out nothing and leaves it empty.
pub proof fn law_empty_poll_is_pending<K>(q: Seq<K>)
    requires
        q.len() == 0,
    ensures
        polled(q) == None::<K>,
        after_poll(q) == q,
{
}

} // verus!
