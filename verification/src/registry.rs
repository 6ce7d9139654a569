//! The waiter registry: for every reply channel with outstanding invocations,
//! the queue of waiters in the order in which they were registered.
//!
//! The registry is modelled as a map from channel name to a non-empty
//! sequence of waiters. A channel is a key of the map exactly while at least
//! one waiter is pending on it.

use std::collections::VecDeque;
use vstd::prelude::*;
use vstd::string::StringExecFns;

verus! {

/// The mathematical model of a registry.
pub type Pending<W> = Map<Seq<char>, Seq<W>>;

/// No channel of the model has an empty queue.
pub open spec fn well_formed<W>(m: Pending<W>) -> bool {
    forall|c: Seq<char>| #[trigger] m.contains_key(c) ==> m[c].len() > 0
}

/// The model after one more waiter has been registered on `channel`: the
/// waiter goes to the back of the channel's queue.
pub open spec fn enqueued<W>(m: Pending<W>, channel: Seq<char>, waiter: W) -> Pending<W> {
    if m.contains_key(channel) {
        m.insert(channel, m[channel].push(waiter))
    } else {
        m.insert(channel, seq![waiter])
    }
}

/// The waiter that the next reply on `channel` goes to, if any.
pub open spec fn oldest<W>(m: Pending<W>, channel: Seq<char>) -> Option<W> {
    if m.contains_key(channel) && m[channel].len() > 0 {
        Some(m[channel][0])
    } else {
        None
    }
}

/// The model after one reply on `channel` has been consumed: the oldest
/// waiter leaves the queue, and the channel leaves the map with its last
/// waiter. Without a pending waiter nothing changes.
pub open spec fn resolved<W>(m: Pending<W>, channel: Seq<char>) -> Pending<W> {
    if m.contains_key(channel) && m[channel].len() > 0 {
        if m[channel].len() > 1 {
            m.insert(channel, m[channel].drop_first())
        } else {
            m.remove(channel)
        }
    } else {
        m
    }
}

/// How many waiters are pending on `channel`.
pub open spec fn depth<W>(m: Pending<W>, channel: Seq<char>) -> nat {
    if m.contains_key(channel) {
        m[channel].len()
    } else {
        0
    }
}

struct PendingChannel<W> {
    channel: String,
    waiters: VecDeque<W>,
}

/// Waiters keyed by reply channel, first in, first out per channel.
pub struct WaiterRegistry<W> {
    channels: Vec<PendingChannel<W>>,
}

spec fn has_key<W>(e: Seq<(Seq<char>, Seq<W>)>, k: Seq<char>) -> bool {
    exists|i: int| 0 <= i < e.len() && (#[trigger] e[i]).0 == k
}

spec fn key_index<W>(e: Seq<(Seq<char>, Seq<W>)>, k: Seq<char>) -> int {
    choose|i: int| 0 <= i < e.len() && (#[trigger] e[i]).0 == k
}

spec fn model_of<W>(e: Seq<(Seq<char>, Seq<W>)>) -> Pending<W> {
    Map::new(|k: Seq<char>| has_key(e, k), |k: Seq<char>| e[key_index(e, k)].1)
}

spec fn distinct_keys<W>(e: Seq<(Seq<char>, Seq<W>)>) -> bool {
    forall|i: int, j: int|
        0 <= i < e.len() && 0 <= j < e.len() && i != j ==> (#[trigger] e[i]).0 != (#[trigger] e[j]).0
}

spec fn no_empty_queue<W>(e: Seq<(Seq<char>, Seq<W>)>) -> bool {
    forall|i: int| 0 <= i < e.len() ==> (#[trigger] e[i]).1.len() > 0
}

proof fn lemma_model_at<W>(e: Seq<(Seq<char>, Seq<W>)>, i: int)
    requires
        distinct_keys(e),
        0 <= i < e.len(),
    ensures
        model_of(e).contains_key(e[i].0),
        model_of(e)[e[i].0] == e[i].1,
{
    assert(has_key(e, e[i].0));
    assert(key_index(e, e[i].0) == i);
}

proof fn lemma_model_absent<W>(e: Seq<(Seq<char>, Seq<W>)>, k: Seq<char>)
    requires
        forall|i: int| 0 <= i < e.len() ==> (#[trigger] e[i]).0 != k,
    ensures
        !model_of(e).contains_key(k),
{
}

proof fn lemma_model_well_formed<W>(e: Seq<(Seq<char>, Seq<W>)>)
    requires
        distinct_keys(e),
        no_empty_queue(e),
    ensures
        well_formed(model_of(e)),
{
    assert forall|c: Seq<char>| #[trigger] model_of(e).contains_key(c) implies model_of(e)[c].len()
        > 0 by {
        let i = key_index(e, c);
        assert(e[i].1.len() > 0);
    }
}

proof fn lemma_model_push<W>(e: Seq<(Seq<char>, Seq<W>)>, k: Seq<char>, q: Seq<W>)
    requires
        distinct_keys(e),
        forall|i: int| 0 <= i < e.len() ==> (#[trigger] e[i]).0 != k,
    ensures
        distinct_keys(e.push((k, q))),
        model_of(e.push((k, q))) == model_of(e).insert(k, q),
{
    let f = e.push((k, q));
    assert(distinct_keys(f));
    assert forall|c: Seq<char>| #[trigger]
        model_of(f).contains_key(c) == model_of(e).insert(k, q).contains_key(c) by {
        if has_key(f, c) {
            let i = key_index(f, c);
            if i < e.len() {
                assert(e[i].0 == c);
            }
        }
        if has_key(e, c) {
            let i = key_index(e, c);
            assert(f[i].0 == c);
        }
        if c == k {
            assert(f[e.len() as int].0 == c);
        }
    }
    assert forall|c: Seq<char>| #[trigger] model_of(f).contains_key(c) implies model_of(f)[c]
        == model_of(e).insert(k, q)[c] by {
        let i = key_index(f, c);
        lemma_model_at(f, i);
        if i < e.len() {
            assert(e[i] == f[i]);
            lemma_model_at(e, i);
        }
    }
    assert(model_of(f) =~= model_of(e).insert(k, q));
}

proof fn lemma_model_update<W>(e: Seq<(Seq<char>, Seq<W>)>, at: int, q: Seq<W>)
    requires
        distinct_keys(e),
        0 <= at < e.len(),
    ensures
        distinct_keys(e.update(at, (e[at].0, q))),
        model_of(e.update(at, (e[at].0, q))) == model_of(e).insert(e[at].0, q),
{
    let k = e[at].0;
    let f = e.update(at, (k, q));
    assert forall|i: int, j: int| 0 <= i < f.len() && 0 <= j < f.len() && i != j implies (
    #[trigger] f[i]).0 != (#[trigger] f[j]).0 by {
        assert(f[i].0 == e[i].0);
        assert(f[j].0 == e[j].0);
    }
    assert forall|c: Seq<char>| #[trigger]
        model_of(f).contains_key(c) == model_of(e).insert(k, q).contains_key(c) by {
        if has_key(f, c) {
            let i = key_index(f, c);
            assert(e[i].0 == c);
        }
        if has_key(e, c) {
            let i = key_index(e, c);
            assert(f[i].0 == c);
        }
        if c == k {
            assert(f[at].0 == c);
        }
    }
    assert forall|c: Seq<char>| #[trigger] model_of(f).contains_key(c) implies model_of(f)[c]
        == model_of(e).insert(k, q)[c] by {
        let i = key_index(f, c);
        lemma_model_at(f, i);
        assert(e[i].0 == c);
        lemma_model_at(e, i);
    }
    assert(model_of(f) =~= model_of(e).insert(k, q));
}

proof fn lemma_model_remove<W>(e: Seq<(Seq<char>, Seq<W>)>, at: int)
    requires
        distinct_keys(e),
        0 <= at < e.len(),
    ensures
        distinct_keys(e.remove(at)),
        model_of(e.remove(at)) == model_of(e).remove(e[at].0),
{
    let k = e[at].0;
    let f = e.remove(at);
    assert forall|i: int| 0 <= i < f.len() implies #[trigger] f[i] == e[if i < at {
        i
    } else {
        i + 1
    }] by {}
    assert forall|i: int, j: int| 0 <= i < f.len() && 0 <= j < f.len() && i != j implies (
    #[trigger] f[i]).0 != (#[trigger] f[j]).0 by {
        let a = if i < at { i } else { i + 1 };
        let b = if j < at { j } else { j + 1 };
        assert(f[i] == e[a]);
        assert(f[j] == e[b]);
    }
    assert forall|c: Seq<char>| #[trigger]
        model_of(f).contains_key(c) == model_of(e).remove(k).contains_key(c) by {
        if has_key(f, c) {
            let i = key_index(f, c);
            let a = if i < at { i } else { i + 1 };
            assert(f[i] == e[a]);
            assert(e[a].0 == c);
            assert(e[at].0 != e[a].0);
        }
        if has_key(e, c) && c != k {
            let a = key_index(e, c);
            let i = if a < at { a } else { a - 1 };
            assert(f[i] == e[a]);
            assert(f[i].0 == c);
        }
    }
    assert forall|c: Seq<char>| #[trigger] model_of(f).contains_key(c) implies model_of(f)[c]
        == model_of(e).remove(k)[c] by {
        let i = key_index(f, c);
        let a = if i < at { i } else { i + 1 };
        lemma_model_at(f, i);
        assert(f[i] == e[a]);
        lemma_model_at(e, a);
    }
    assert(model_of(f) =~= model_of(e).remove(k));
}

spec fn entries_of<W>(channels: Seq<PendingChannel<W>>) -> Seq<(Seq<char>, Seq<W>)> {
    Seq::new(channels.len(), |i: int| (channels[i].channel@, channels[i].waiters@))
}

fn position<W>(channels: &Vec<PendingChannel<W>>, channel: &String) -> (found: Option<usize>)
    ensures
        match found {
            Some(i) => i < channels@.len() && entries_of(channels@)[i as int].0 == channel@,
            None => forall|i: int|
                0 <= i < channels@.len() ==> (#[trigger] entries_of(channels@)[i]).0 != channel@,
        },
{
    let mut i: usize = 0;
    while i < channels.len()
        invariant
            i <= channels.len(),
            forall|j: int| 0 <= j < i ==> (#[trigger] entries_of(channels@)[j]).0 != channel@,
        decreases channels.len() - i,
    {
        if channels[i].channel == *channel {
            return Some(i);
        }
        i += 1;
    }
    None
}

impl<W> WaiterRegistry<W> {
    spec fn entries(&self) -> Seq<(Seq<char>, Seq<W>)> {
        entries_of(self.channels@)
    }

    /// What holds of every registry: no channel is kept twice, and none is
    /// kept without a waiter.
    #[verifier::type_invariant]
    pub closed spec fn valid(&self) -> bool {
        distinct_keys(self.entries()) && no_empty_queue(self.entries())
    }

    /// The pending waiters of every channel, oldest first.
    pub closed spec fn view(&self) -> Pending<W> {
        model_of(self.entries())
    }

    /// A registry without pending waiters.
    pub fn new() -> (registry: Self)
        ensures
            registry@ == Map::<Seq<char>, Seq<W>>::empty(),
            well_formed(registry@),
    {
        let registry = WaiterRegistry { channels: Vec::new() };
        proof {
            assert(registry.entries().len() == 0);
            assert(registry@ =~= Map::<Seq<char>, Seq<W>>::empty());
        }
        registry
    }

    /// Registers `waiter` behind every waiter already pending on `channel`.
    pub fn enqueue(&mut self, channel: String, waiter: W)
        ensures
            final(self)@ == enqueued(old(self)@, channel@, waiter),
            well_formed(final(self)@),
    {
        proof {
            use_type_invariant(&*self);
        }
        let ghost before = self.entries();
        let mut taken = WaiterRegistry { channels: Vec::new() };
        core::mem::swap(self, &mut taken);
        let WaiterRegistry { channels: mut channels } = taken;
        match position(&channels, &channel) {
            Some(i) => {
                let mut entry = channels.remove(i);
                entry.waiters.push_back(waiter);
                channels.insert(i, entry);
                proof {
                    let q = before[i as int].1.push(waiter);
                    lemma_model_at(before, i as int);
                    assert(entries_of(channels@) =~= before.update(i as int, (channel@, q)));
                    lemma_model_update(before, i as int, q);
                }
            },
            None => {
                let mut waiters: VecDeque<W> = VecDeque::new();
                waiters.push_back(waiter);
                channels.push(PendingChannel { channel, waiters });
                proof {
                    lemma_model_absent(before, channel@);
                    assert(entries_of(channels@) =~= before.push((channel@, seq![waiter])));
                    lemma_model_push(before, channel@, seq![waiter]);
                }
            },
        }
        proof {
            lemma_model_well_formed(entries_of(channels@));
        }
        *self = WaiterRegistry { channels };
    }

    /// Takes the oldest waiter pending on `channel` out of the registry.
    /// Returns `None`, and changes nothing, where none is pending.
    pub fn take_oldest(&mut self, channel: &str) -> (waiter: Option<W>)
        ensures
            waiter == oldest(old(self)@, channel@),
            final(self)@ == resolved(old(self)@, channel@),
            well_formed(final(self)@),
    {
        proof {
            use_type_invariant(&*self);
        }
        let ghost before = self.entries();
        let key = String::from_str(channel);
        let mut taken = WaiterRegistry { channels: Vec::new() };
        core::mem::swap(self, &mut taken);
        let WaiterRegistry { channels: mut channels } = taken;
        let waiter = match position(&channels, &key) {
            Some(i) => {
                let mut entry = channels.remove(i);
                let waiter = entry.waiters.pop_front();
                proof {
                    lemma_model_at(before, i as int);
                    lemma_model_remove(before, i as int);
                    assert(entries_of(channels@) =~= before.remove(i as int));
                }
                if entry.waiters.len() > 0 {
                    channels.insert(i, entry);
                    proof {
                        let q = before[i as int].1.drop_first();
                        assert(q =~= before[i as int].1.subrange(
                            1,
                            before[i as int].1.len() as int,
                        ));
                        assert(entries_of(channels@) =~= before.update(i as int, (channel@, q)));
                        lemma_model_update(before, i as int, q);
                    }
                }
                waiter
            },
            None => {
                proof {
                    lemma_model_absent(before, channel@);
                }
                None
            },
        };
        proof {
            lemma_model_well_formed(entries_of(channels@));
        }
        *self = WaiterRegistry { channels };
        waiter
    }

    /// Every channel of a valid registry has a waiter.
    pub proof fn valid_is_well_formed(&self)
        requires
            self.valid(),
        ensures
            well_formed(self@),
    {
        lemma_model_well_formed(self.entries());
    }

    /// The number of waiters pending on `channel`.
    pub fn pending(&self, channel: &str) -> (n: usize)
        ensures
            n == depth(self@, channel@),
    {
        proof {
            use_type_invariant(self);
        }
        let key = String::from_str(channel);
        match position(&self.channels, &key) {
            Some(i) => {
                proof {
                    lemma_model_at(self.entries(), i as int);
                }
                self.channels[i].waiters.len()
            },
            None => {
                proof {
                    lemma_model_absent(self.entries(), channel@);
                }
                0
            },
        }
    }
}

} // verus!
