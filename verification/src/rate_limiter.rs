//! The fixed-window rate limiter and its shared counter store.
//!
//! One counter lives per composite key (route plus client). Each
//! request increments the key's counter; the increment that creates the
//! key also sets its expiry, one window ahead. A counter whose expiry
//! has passed counts as absent, so the next request starts a new window
//! at one. The request is denied once the count within the current
//! window exceeds the configured maximum. Being a fixed-window limiter
//! it admits up to twice the maximum across a window boundary — a
//! known, accepted imprecision of the strategy. The expiry is set in a
//! second step after the creating increment, as the counter interface
//! dictates; between the two steps the key briefly has no expiry.

use vstd::prelude::*;

use crate::error::ErrorMessage;

verus! {

/// One counter: its key, its count, and its optional expiry.
pub struct CounterEntry {
    pub key: String,
    pub count: u64,
    pub expires_at: Option<u64>,
}

/// The mathematical value of a counter.
pub ghost struct CounterView {
    pub key: Seq<char>,
    pub count: u64,
    pub expires_at: Option<u64>,
}

impl View for CounterEntry {
    type V = CounterView;

    open spec fn view(&self) -> CounterView {
        CounterView { key: self.key@, count: self.count, expires_at: self.expires_at }
    }
}

/// Whether the counter still exists at time `now`: it has no expiry, or
/// its expiry lies strictly in the future.
pub open spec fn counter_live(c: CounterView, now: u64) -> bool {
    match c.expires_at {
        Some(e) => now < e,
        None => true,
    }
}

/// The in-memory shared counter store.
pub struct CounterStore {
    pub entries: Vec<CounterEntry>,
}

impl CounterStore {
    /// The stored counters, as mathematical values.
    pub open spec fn entries_v(&self) -> Seq<CounterView> {
        self.entries@.map_values(|e: CounterEntry| e@)
    }

    /// The store's invariant: keys identify at most one counter, and a
    /// stored counter has been incremented at least once.
    pub open spec fn wf(&self) -> bool {
        &&& forall|i: int, j: int|
            #![trigger self.entries_v()[i].key, self.entries_v()[j].key]
            0 <= i < self.entries_v().len() && 0 <= j < self.entries_v().len()
                && self.entries_v()[i].key == self.entries_v()[j].key ==> i == j
        &&& forall|i: int|
            0 <= i < self.entries_v().len() ==> (#[trigger] self.entries_v()[i].count) >= 1
    }

    /// Whether a counter with this key is stored (live or not).
    pub open spec fn has_key(&self, key: Seq<char>) -> bool {
        exists|i: int|
            0 <= i < self.entries_v().len() && (#[trigger] self.entries_v()[i]).key == key
    }

    /// The index of the counter with this key.
    pub open spec fn key_idx(&self, key: Seq<char>) -> int {
        choose|i: int|
            0 <= i < self.entries_v().len() && (#[trigger] self.entries_v()[i]).key == key
    }

    /// The counter with this key.
    pub open spec fn key_at(&self, key: Seq<char>) -> CounterView {
        self.entries_v()[self.key_idx(key)]
    }

    /// The count the key holds within the current window: its counter's
    /// count when one exists and is still live at `now`, and zero
    /// otherwise.
    pub open spec fn effective_count(&self, key: Seq<char>, now: u64) -> u64 {
        if self.has_key(key) && counter_live(self.key_at(key), now) {
            self.key_at(key).count
        } else {
            0
        }
    }

    /// An empty counter store.
    pub fn new() -> (r: CounterStore)
        ensures
            r.wf(),
            r.entries_v() == Seq::<CounterView>::empty(),
    {
        let r = CounterStore { entries: Vec::new() };
        proof {
            assert(r.entries_v() =~= Seq::<CounterView>::empty());
        }
        r
    }

    /// Finds the index of the counter with this key.
    fn find_key(&self, key: &str) -> (r: Option<usize>)
        requires
            self.wf(),
        ensures
            r is Some <==> self.has_key(key@),
            r matches Some(i) ==> i as int == self.key_idx(key@),
    {
        let k = key.to_owned();
        let n = self.entries.len();
        let mut i: usize = 0;
        while i < n
            invariant
                self.wf(),
                i <= n,
                n == self.entries.len(),
                k@ == key@,
                forall|j: int| 0 <= j < i ==> (#[trigger] self.entries_v()[j]).key != key@,
            decreases n - i,
        {
            if self.entries[i].key == k {
                proof {
                    assert(self.entries_v()[i as int].key == key@);
                    let w = self.key_idx(key@);
                    assert(w == i as int);
                }
                return Some(i);
            }
            i = i + 1;
        }
        None
    }

    /// Atomically increments the counter under `key` and returns the
    /// new count. A key that does not exist — or whose expiry has
    /// passed — starts again at one, with no expiry set yet.
    pub fn increment(&mut self, key: &str, now: u64) -> (r: u64)
        requires
            old(self).wf(),
            old(self).effective_count(key@, now) < u64::MAX,
        ensures
            final(self).wf(),
            r == old(self).effective_count(key@, now) + 1,
            final(self).has_key(key@),
            final(self).key_at(key@).count == r,
            final(self).key_at(key@).expires_at == (if old(self).effective_count(key@, now) > 0 {
                old(self).key_at(key@).expires_at
            } else {
                None::<u64>
            }),
            counter_live(final(self).key_at(key@), now),
            forall|k: Seq<char>|
                k != key@ ==> #[trigger] final(self).effective_count(k, now) == old(
                    self,
                ).effective_count(k, now),
    {
        match self.find_key(key) {
            Some(i) => {
                let live = match &self.entries[i].expires_at {
                    Some(e) => now < *e,
                    None => true,
                };
                let entry = &mut self.entries[i];
                if live {
                    entry.count = entry.count + 1;
                } else {
                    entry.count = 1;
                    entry.expires_at = None;
                }
                let r = self.entries[i].count;
                proof {
                    assert(self.entries_v() =~= old(self).entries_v().update(
                        i as int,
                        self.entries_v()[i as int],
                    ));
                    assert(self.entries_v()[i as int].key == key@);
                    let w = self.key_idx(key@);
                    assert(w == i as int);
                    assert forall|k: Seq<char>| k != key@ implies #[trigger] self.effective_count(
                        k,
                        now,
                    ) == old(self).effective_count(k, now) by {
                        lemma_count_frame_update(*old(self), *self, i as int, k, now);
                    }
                }
                r
            },
            None => {
                let entry = CounterEntry { key: key.to_owned(), count: 1, expires_at: None };
                let ghost ev = entry@;
                let ghost n = self.entries_v().len();
                self.entries.push(entry);
                proof {
                    assert(self.entries_v() =~= old(self).entries_v().push(ev));
                    assert(self.entries_v()[n as int].key == key@);
                    let w = self.key_idx(key@);
                    assert(w == n as int);
                    assert forall|k: Seq<char>| k != key@ implies #[trigger] self.effective_count(
                        k,
                        now,
                    ) == old(self).effective_count(k, now) by {
                        lemma_count_frame_push(*old(self), *self, k, now);
                    }
                }
                1
            },
        }
    }

    /// Sets the key's expiry to one window ahead of `now`. Called only
    /// right after the increment that created the key; a missing key is
    /// left alone.
    pub fn expire(&mut self, key: &str, window_secs: u64, now: u64)
        requires
            old(self).wf(),
            now + window_secs <= u64::MAX,
        ensures
            final(self).wf(),
            final(self).has_key(key@) <==> old(self).has_key(key@),
            !old(self).has_key(key@) ==> final(self).entries_v() == old(self).entries_v(),
            old(self).has_key(key@) ==> final(self).key_at(key@) == (CounterView {
                expires_at: Some((now + window_secs) as u64),
                ..old(self).key_at(key@)
            }),
            forall|k: Seq<char>|
                k != key@ ==> #[trigger] final(self).effective_count(k, now) == old(
                    self,
                ).effective_count(k, now),
    {
        match self.find_key(key) {
            None => {
            },
            Some(i) => {
                let entry = &mut self.entries[i];
                entry.expires_at = Some(now + window_secs);
                proof {
                    assert(self.entries_v() =~= old(self).entries_v().update(
                        i as int,
                        self.entries_v()[i as int],
                    ));
                    assert(self.entries_v()[i as int].key == key@);
                    let w = self.key_idx(key@);
                    assert(w == i as int);
                    assert forall|k: Seq<char>| k != key@ implies #[trigger] self.effective_count(
                        k,
                        now,
                    ) == old(self).effective_count(k, now) by {
                        lemma_count_frame_update(*old(self), *self, i as int, k, now);
                    }
                }
            },
        }
    }
}

/// A store that changed only at index `i`, keeping that counter's key,
/// has the same effective count for every other key.
proof fn lemma_count_frame_update(
    pre: CounterStore,
    post: CounterStore,
    i: int,
    k: Seq<char>,
    now: u64,
)
    requires
        pre.wf(),
        post.wf(),
        0 <= i < pre.entries_v().len(),
        post.entries_v().len() == pre.entries_v().len(),
        forall|j: int|
            0 <= j < pre.entries_v().len() && j != i ==> #[trigger] post.entries_v()[j]
                == pre.entries_v()[j],
        post.entries_v()[i].key == pre.entries_v()[i].key,
        k != pre.entries_v()[i].key,
    ensures
        post.effective_count(k, now) == pre.effective_count(k, now),
{
    if pre.has_key(k) {
        let j = pre.key_idx(k);
        assert(pre.entries_v()[j].key == k);
        assert(j != i);
        assert(post.entries_v()[j] == pre.entries_v()[j]);
        assert(post.has_key(k));
        let j2 = post.key_idx(k);
        assert(post.entries_v()[j2].key == k);
        if j2 != i {
            assert(pre.entries_v()[j2].key == k);
        }
        assert(j2 == j);
    } else {
        if post.has_key(k) {
            let j2 = post.key_idx(k);
            assert(post.entries_v()[j2].key == k);
            if j2 != i {
                assert(pre.entries_v()[j2].key == k);
            }
            assert(false);
        }
    }
}

/// A store extended by one counter under a fresh key has the same
/// effective count for every other key.
proof fn lemma_count_frame_push(pre: CounterStore, post: CounterStore, k: Seq<char>, now: u64)
    requires
        pre.wf(),
        post.wf(),
        post.entries_v().len() == pre.entries_v().len() + 1,
        forall|j: int|
            0 <= j < pre.entries_v().len() ==> #[trigger] post.entries_v()[j] == pre.entries_v()[j],
        k != post.entries_v()[pre.entries_v().len() as int].key,
    ensures
        post.effective_count(k, now) == pre.effective_count(k, now),
{
    let n = pre.entries_v().len() as int;
    if pre.has_key(k) {
        let j = pre.key_idx(k);
        assert(pre.entries_v()[j].key == k);
        assert(post.entries_v()[j] == pre.entries_v()[j]);
        assert(post.has_key(k));
        let j2 = post.key_idx(k);
        assert(post.entries_v()[j2].key == k);
        if j2 != n {
            assert(pre.entries_v()[j2].key == k);
        }
        assert(j2 == j);
    } else {
        if post.has_key(k) {
            let j2 = post.key_idx(k);
            assert(post.entries_v()[j2].key == k);
            if j2 != n {
                assert(pre.entries_v()[j2].key == k);
            }
            assert(false);
        }
    }
}

/// Admits or denies one request under the fixed-window rule: the key's
/// counter is incremented — starting a new window at one when the key
/// is absent or its window has elapsed — the creating increment arms
/// the expiry one window ahead, and the request is denied exactly when
/// the new count exceeds `max_requests`.
pub fn rate_limit(
    store: &mut CounterStore,
    key: &str,
    max_requests: u32,
    window_secs: u64,
    now: u64,
) -> (r: Result<(), ErrorMessage>)
    requires
        old(store).wf(),
        old(store).effective_count(key@, now) < u64::MAX,
        window_secs >= 1,
        now + window_secs <= u64::MAX,
    ensures
        final(store).wf(),
        r is Ok <==> old(store).effective_count(key@, now) + 1 <= max_requests,
        r matches Err(e) ==> e == ErrorMessage::TooManyRequest,
        final(store).effective_count(key@, now) == old(store).effective_count(key@, now) + 1,
        final(store).key_at(key@).expires_at == (if old(store).effective_count(key@, now) > 0 {
            old(store).key_at(key@).expires_at
        } else {
            Some((now + window_secs) as u64)
        }),
        forall|k: Seq<char>|
            k != key@ ==> #[trigger] final(store).effective_count(k, now) == old(
                store,
            ).effective_count(k, now),
{
    let count = store.increment(key, now);
    if count == 1 {
        store.expire(key, window_secs, now);
    }
    if count > max_requests as u64 {
        Err(ErrorMessage::TooManyRequest)
    } else {
        Ok(())
    }
}

/// Once a key's window has elapsed its count no longer weighs in: the
/// effective count is zero again, so the next request starts a new
/// window and is admitted — the counter resets at the window boundary.
pub proof fn lemma_window_reset(s: CounterStore, key: Seq<char>, now: u64)
    requires
        s.has_key(key),
        s.key_at(key).expires_at matches Some(e) && now >= e,
    ensures
        s.effective_count(key, now) == 0,
{
}

} // verus!
