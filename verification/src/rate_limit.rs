//! Brute-force protection for the login endpoint: a sliding-window counter
//! per key ("IP:username"). A key may make at most `max_attempts` attempts
//! within `window_ms`; a refused attempt is not recorded, and a successful
//! login resets the key. Times are milliseconds on a monotonic clock.

use vstd::prelude::*;
use crate::text::str_eq;

verus! {

/// The attempt at time `t` still counts at time `now` (a time in the
/// future of `now` counts as elapsed zero).
pub open spec fn in_window(now: u64, t: u64, window: u64) -> bool {
    t >= now || now - t < window
}

/// The attempts of `s` that still count at `now`, in order.
pub open spec fn recent(s: Seq<u64>, now: u64, window: u64) -> Seq<u64>
    decreases s.len(),
{
    if s.len() == 0 {
        Seq::<u64>::empty()
    } else {
        let r = recent(s.drop_last(), now, window);
        if in_window(now, s.last(), window) {
            r.push(s.last())
        } else {
            r
        }
    }
}

pub proof fn lemma_recent_len(s: Seq<u64>, now: u64, window: u64)
    ensures
        recent(s, now, window).len() <= s.len(),
    decreases s.len(),
{
    if s.len() > 0 {
        lemma_recent_len(s.drop_last(), now, window);
    }
}

/// An attempt counts at `now` exactly when it is less than `window`
/// milliseconds old, or not yet in the past: pruning keeps every such
/// attempt of the log and drops every older one.
pub proof fn lemma_recent_exact(s: Seq<u64>, now: u64, window: u64, t: u64)
    ensures
        recent(s, now, window).contains(t) <==> (s.contains(t) && (t >= now || now - t < window)),
{
    lemma_recent_members(s, now, window, t);
}

/// When every attempt of a log is less than `window` milliseconds old,
/// all of them still count: pruning keeps the whole log.
pub proof fn lemma_recent_keeps_young(s: Seq<u64>, now: u64, window: u64)
    requires
        forall|i: int| 0 <= i < s.len() ==> s[i] >= now || now - s[i] < window,
    ensures
        recent(s, now, window) == s,
    decreases s.len(),
{
    if s.len() > 0 {
        lemma_recent_keeps_young(s.drop_last(), now, window);
        assert(s.drop_last().push(s.last()) =~= s);
    } else {
        assert(s =~= Seq::<u64>::empty());
    }
}

/// When every attempt of a log is at least `window` milliseconds old, none
/// of them counts any more.
pub proof fn lemma_recent_drops_old(s: Seq<u64>, now: u64, window: u64)
    requires
        forall|i: int| 0 <= i < s.len() ==> s[i] < now && now - s[i] >= window,
    ensures
        recent(s, now, window).len() == 0,
    decreases s.len(),
{
    if s.len() > 0 {
        lemma_recent_drops_old(s.drop_last(), now, window);
    }
}

/// Per-key attempt log with a sliding window.
pub struct RateLimiter {
    attempts: Vec<(String, Vec<u64>)>,
    max_attempts: usize,
    window_ms: u64,
}

impl RateLimiter {
    /// The most attempts a key may make within the window.
    pub closed spec fn max(&self) -> nat {
        self.max_attempts as nat
    }

    /// The length of the window in milliseconds.
    pub closed spec fn window(&self) -> u64 {
        self.window_ms
    }

    closed spec fn has(&self, key: Seq<char>) -> bool {
        exists|i: int| 0 <= i < self.attempts@.len() && #[trigger] self.attempts@[i].0@ == key
    }

    /// The recorded attempt times of a key, oldest first.
    pub closed spec fn log(&self, key: Seq<char>) -> Seq<u64> {
        if self.has(key) {
            self.attempts@[choose|i: int|
                0 <= i < self.attempts@.len() && #[trigger] self.attempts@[i].0@ == key].1@
        } else {
            Seq::<u64>::empty()
        }
    }

    /// Keys are stored once, and no key holds more attempts than allowed.
    pub closed spec fn wf(&self) -> bool {
        &&& forall|i: int, j: int|
            0 <= i < j < self.attempts@.len() ==> #[trigger] self.attempts@[i].0@
                != #[trigger] self.attempts@[j].0@
        &&& forall|i: int|
            0 <= i < self.attempts@.len() ==> #[trigger] self.attempts@[i].1@.len()
                <= self.max_attempts
    }

    proof fn lemma_log_at(&self, i: int)
        requires
            self.wf(),
            0 <= i < self.attempts@.len(),
        ensures
            self.log(self.attempts@[i].0@) == self.attempts@[i].1@,
    {
        let key = self.attempts@[i].0@;
        assert(self.has(key));
        let j = choose|j: int| 0 <= j < self.attempts@.len() && #[trigger] self.attempts@[j].0@ == key;
        if j != i {
            if j < i {
                assert(self.attempts@[j].0@ != self.attempts@[i].0@);
            } else {
                assert(self.attempts@[i].0@ != self.attempts@[j].0@);
            }
        }
    }

    /// No key's log is longer than the limit.
    pub proof fn lemma_log_bounded(&self, key: Seq<char>)
        requires
            self.wf(),
        ensures
            self.log(key).len() <= self.max(),
    {
        if self.has(key) {
            let i = choose|i: int| 0 <= i < self.attempts@.len() && #[trigger] self.attempts@[i].0@ == key;
            assert(self.attempts@[i].1@.len() <= self.max_attempts);
        }
    }

    /// A limiter allowing 5 attempts per 60 seconds, with no attempts yet.
    pub fn new() -> (r: Self)
        ensures
            r.wf(),
            r.max() == 5,
            r.window() == 60_000,
            forall|k: Seq<char>| r.log(k) == Seq::<u64>::empty(),
    {
        RateLimiter { attempts: Vec::new(), max_attempts: 5, window_ms: 60_000 }
    }

    fn index_of(&self, key: &str) -> (r: Option<usize>)
        ensures
            match r {
                Some(i) => i < self.attempts@.len() && self.attempts@[i as int].0@ == key@,
                None => !self.has(key@),
            },
    {
        let mut i: usize = 0;
        while i < self.attempts.len()
            invariant
                i <= self.attempts@.len(),
                forall|j: int| 0 <= j < i ==> #[trigger] self.attempts@[j].0@ != key@,
            decreases self.attempts.len() - i,
        {
            if str_eq(self.attempts[i].0.as_str(), key) {
                return Some(i);
            }
            i = i + 1;
        }
        None
    }

    fn prune(list: &Vec<u64>, now: u64, window: u64) -> (r: Vec<u64>)
        ensures
            r@ == recent(list@, now, window),
    {
        let mut r: Vec<u64> = Vec::new();
        let mut i: usize = 0;
        while i < list.len()
            invariant
                i <= list@.len(),
                r@ == recent(list@.take(i as int), now, window),
            decreases list.len() - i,
        {
            let t = list[i];
            assert(list@.take(i + 1).drop_last() =~= list@.take(i as int));
            if t >= now || now - t < window {
                r.push(t);
            }
            i = i + 1;
        }
        assert(list@.take(list.len() as int) =~= list@);
        r
    }

    /// Allows and records an attempt of `key` at time `now` when fewer
    /// than `max` of its attempts lie within the window; otherwise refuses
    /// it without recording. Attempts that fell out of the window are
    /// forgotten either way.
    pub fn check_and_record(&mut self, key: &str, now: u64) -> (r: bool)
        requires
            old(self).wf(),
        ensures
            final(self).wf(),
            final(self).max() == old(self).max(),
            final(self).window() == old(self).window(),
            r == (recent(old(self).log(key@), now, old(self).window()).len() < old(self).max()),
            final(self).log(key@) == if r {
                recent(old(self).log(key@), now, old(self).window()).push(now)
            } else {
                recent(old(self).log(key@), now, old(self).window())
            },
            forall|k: Seq<char>| k != key@ ==> final(self).log(k) == old(self).log(k),
    {
        let ghost old_self = *self;
        let window = self.window_ms;
        let (idx, pruned) = match self.index_of(key) {
            Some(i) => {
                proof {
                    old_self.lemma_log_at(i as int);
                }
                (Some(i), Self::prune(&self.attempts[i].1, now, window))
            },
            None => (None, Vec::new()),
        };
        proof {
            lemma_recent_len(old_self.log(key@), now, window);
            old_self.lemma_log_bounded(key@);
        }
        let allowed = pruned.len() < self.max_attempts;
        let mut list = pruned;
        if allowed {
            list.push(now);
        }
        let ghost new_list = list@;
        match idx {
            Some(i) => {
                self.attempts.set(i, (String::from_str(key), list));
                proof {
                    assert forall|a: int, b: int|
                        0 <= a < b < self.attempts@.len() implies #[trigger] self.attempts@[a].0@
                        != #[trigger] self.attempts@[b].0@ by {
                        assert(old_self.attempts@[a].0@ != old_self.attempts@[b].0@);
                    }
                    assert forall|a: int|
                        0 <= a < self.attempts@.len() implies #[trigger] self.attempts@[a].1@.len()
                        <= self.max_attempts by {
                        if a != i {
                            assert(self.attempts@[a] == old_self.attempts@[a]);
                        }
                    }
                    self.lemma_log_at(i as int);
                    assert forall|k: Seq<char>| k != key@ implies self.log(k) == old_self.log(k) by {
                        if old_self.has(k) {
                            let j = choose|j: int|
                                0 <= j < old_self.attempts@.len()
                                    && #[trigger] old_self.attempts@[j].0@ == k;
                            old_self.lemma_log_at(j);
                            assert(self.attempts@[j] == old_self.attempts@[j]);
                            self.lemma_log_at(j);
                        } else if self.has(k) {
                            let j = choose|j: int|
                                0 <= j < self.attempts@.len() && #[trigger] self.attempts@[j].0@ == k;
                            assert(j != i);
                            assert(old_self.attempts@[j] == self.attempts@[j]);
                        }
                    }
                }
            },
            None => {
                self.attempts.push((String::from_str(key), list));
                proof {
                    let n = old_self.attempts@.len() as int;
                    assert forall|a: int, b: int|
                        0 <= a < b < self.attempts@.len() implies #[trigger] self.attempts@[a].0@
                        != #[trigger] self.attempts@[b].0@ by {
                        if b == n {
                            assert(old_self.attempts@[a].0@ != key@);
                        } else {
                            assert(old_self.attempts@[a].0@ != old_self.attempts@[b].0@);
                        }
                    }
                    assert forall|a: int|
                        0 <= a < self.attempts@.len() implies #[trigger] self.attempts@[a].1@.len()
                        <= self.max_attempts by {
                        if a != n {
                            assert(self.attempts@[a] == old_self.attempts@[a]);
                        }
                    }
                    self.lemma_log_at(n);
                    assert forall|k: Seq<char>| k != key@ implies self.log(k) == old_self.log(k) by {
                        if old_self.has(k) {
                            let j = choose|j: int|
                                0 <= j < old_self.attempts@.len()
                                    && #[trigger] old_self.attempts@[j].0@ == k;
                            old_self.lemma_log_at(j);
                            assert(self.attempts@[j] == old_self.attempts@[j]);
                            self.lemma_log_at(j);
                        } else if self.has(k) {
                            let j = choose|j: int|
                                0 <= j < self.attempts@.len() && #[trigger] self.attempts@[j].0@ == k;
                            assert(j != n);
                            assert(old_self.attempts@[j] == self.attempts@[j]);
                        }
                    }
                }
            },
        }
        allowed
    }

    /// Forgets all attempts of a key.
    pub fn reset(&mut self, key: &str)
        requires
            old(self).wf(),
        ensures
            final(self).wf(),
            final(self).max() == old(self).max(),
            final(self).window() == old(self).window(),
            final(self).log(key@) == Seq::<u64>::empty(),
            forall|k: Seq<char>| k != key@ ==> final(self).log(k) == old(self).log(k),
    {
        let ghost old_self = *self;
        match self.index_of(key) {
            Some(i) => {
                self.attempts.remove(i);
                proof {
                    let s = old_self.attempts@;
                    assert(self.attempts@ =~= s.remove(i as int));
                    assert forall|a: int, b: int|
                        0 <= a < b < self.attempts@.len() implies #[trigger] self.attempts@[a].0@
                        != #[trigger] self.attempts@[b].0@ by {
                        let a0 = if a < i { a } else { a + 1 };
                        let b0 = if b < i { b } else { b + 1 };
                        assert(s[a0].0@ != s[b0].0@);
                    }
                    assert forall|a: int|
                        0 <= a < self.attempts@.len() implies #[trigger] self.attempts@[a].1@.len()
                        <= self.max_attempts by {
                        let a0 = if a < i { a } else { a + 1 };
                        assert(self.attempts@[a] == s[a0]);
                    }
                    if self.has(key@) {
                        let k = choose|k: int|
                            0 <= k < self.attempts@.len() && #[trigger] self.attempts@[k].0@ == key@;
                        let k0 = if k < i { k } else { k + 1 };
                        assert(s[k0].0@ == key@);
                        if k0 < i {
                            assert(s[k0].0@ != s[i as int].0@);
                        } else {
                            assert(s[i as int].0@ != s[k0].0@);
                        }
                    }
                    assert forall|id: Seq<char>| id != key@ implies self.log(id) == old_self.log(id) by {
                        if old_self.has(id) {
                            let k = choose|k: int|
                                0 <= k < s.len() && #[trigger] old_self.attempts@[k].0@ == id;
                            old_self.lemma_log_at(k);
                            assert(k != i);
                            let k1 = if k < i { k } else { k - 1 };
                            assert(self.attempts@[k1] == s[k]);
                            self.lemma_log_at(k1);
                        } else if self.has(id) {
                            let k = choose|k: int|
                                0 <= k < self.attempts@.len() && #[trigger] self.attempts@[k].0@ == id;
                            let k0 = if k < i { k } else { k + 1 };
                            assert(s[k0].0@ == id);
                        }
                    }
                }
            },
            None => {},
        }
    }

    /// How many attempts of a key count at time `now`.
    pub fn attempts_count(&self, key: &str, now: u64) -> (r: usize)
        requires
            self.wf(),
        ensures
            r == recent(self.log(key@), now, self.window()).len(),
            r <= self.max(),
    {
        match self.index_of(key) {
            Some(i) => {
                proof {
                    self.lemma_log_at(i as int);
                    lemma_recent_len(self.log(key@), now, self.window_ms);
                    self.lemma_log_bounded(key@);
                }
                Self::prune(&self.attempts[i].1, now, self.window_ms).len()
            },
            None => 0,
        }
    }
}

/// Within one window a key is never allowed more than `max` attempts:
/// when `max` of its attempts still count, the next one is refused and the
/// log is left as it was, and an allowed attempt leaves at most `max`
/// attempts in the window.
pub proof fn lemma_window_limit(limiter: RateLimiter, key: Seq<char>, now: u64)
    requires
        limiter.wf(),
    ensures
        recent(limiter.log(key), now, limiter.window()).len() <= limiter.max(),
        recent(limiter.log(key), now, limiter.window()).len() < limiter.max() ==> recent(
            limiter.log(key),
            now,
            limiter.window(),
        ).push(now).len() <= limiter.max(),
{
    limiter.lemma_log_bounded(key);
    lemma_recent_len(limiter.log(key), now, limiter.window());
}

/// A key whose log already holds `max` attempts, each less than a window
/// old at `now`, is refused at `now`: all those attempts still count. With
/// the limiter of `new` (5 attempts per 60 000 ms), five attempts made 40 s
/// before refuse the sixth.
pub proof fn lemma_full_window_refuses(limiter: RateLimiter, key: Seq<char>, now: u64)
    requires
        limiter.wf(),
        limiter.log(key).len() == limiter.max(),
        forall|i: int|
            0 <= i < limiter.log(key).len() ==> limiter.log(key)[i] >= now || now - limiter.log(key)[i]
                < limiter.window(),
    ensures
        recent(limiter.log(key), now, limiter.window()).len() == limiter.max(),
        !(recent(limiter.log(key), now, limiter.window()).len() < limiter.max()),
{
    lemma_recent_keeps_young(limiter.log(key), now, limiter.window());
}

/// The window slides: an attempt counts at `now` exactly when it is less
/// than the window old (or lies ahead of `now`).
pub proof fn lemma_recent_members(s: Seq<u64>, now: u64, window: u64, t: u64)
    ensures
        recent(s, now, window).contains(t) <==> (s.contains(t) && in_window(now, t, window)),
    decreases s.len(),
{
    if s.len() > 0 {
        lemma_recent_members(s.drop_last(), now, window, t);
        let r0 = recent(s.drop_last(), now, window);
        if s.contains(t) && t != s.last() {
            let i = choose|i: int| 0 <= i < s.len() && s[i] == t;
            assert(s.drop_last()[i] == t);
        }
        if s.drop_last().contains(t) {
            let i = choose|i: int| 0 <= i < s.drop_last().len() && s.drop_last()[i] == t;
            assert(s[i] == t);
        }
        if in_window(now, s.last(), window) {
            if r0.push(s.last()).contains(t) && t != s.last() {
                let i = choose|i: int| 0 <= i < r0.push(s.last()).len() && r0.push(s.last())[i] == t;
                assert(r0[i] == t);
            }
            if r0.contains(t) {
                let i = choose|i: int| 0 <= i < r0.len() && r0[i] == t;
                assert(r0.push(s.last())[i] == t);
            }
            assert(r0.push(s.last())[r0.len() as int] == s.last());
            assert(s[s.len() - 1] == s.last());
        }
    }
}

} // verus!
