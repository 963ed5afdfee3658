//! Sliding-window admission control, one window of request times per key.

use crate::clock;
use crate::keyed::KeyedList;
use vstd::prelude::*;

verus! {

/// The test that keeps a timestamp in the window that trails `now` by
/// `window_size` seconds: it is not older than `now - window_size`. A
/// timestamp that is exactly one window old still counts.
pub open spec fn in_window(now: u64, window_size: u64) -> spec_fn(u64) -> bool {
    |stamp: u64| stamp + window_size >= now
}

/// The recorded timestamps that are still inside the trailing window.
pub open spec fn live(stamps: Seq<u64>, now: u64, window_size: u64) -> Seq<u64> {
    stamps.filter(in_window(now, window_size))
}

/// Whether a request at `now` is admitted: fewer than `max_requests`
/// timestamps are left in the trailing window.
pub open spec fn admits(stamps: Seq<u64>, now: u64, window_size: u64, max_requests: u64) -> bool {
    live(stamps, now, window_size).len() < max_requests
}

/// The window after a request at `now`: pruned, and with `now` recorded
/// where the request was admitted.
pub open spec fn after_check(
    stamps: Seq<u64>,
    now: u64,
    window_size: u64,
    max_requests: u64,
) -> Seq<u64> {
    if admits(stamps, now, window_size, max_requests) {
        live(stamps, now, window_size).push(now)
    } else {
        live(stamps, now, window_size)
    }
}

/// The window after requests at each of `times`, in that order.
pub open spec fn after_checks(
    stamps: Seq<u64>,
    times: Seq<u64>,
    window_size: u64,
    max_requests: u64,
) -> Seq<u64>
    decreases times.len(),
{
    if times.len() == 0 {
        stamps
    } else {
        after_check(
            after_checks(stamps, times.drop_last(), window_size, max_requests),
            times.last(),
            window_size,
            max_requests,
        )
    }
}

/// Timestamps in the order in which a clock that never runs backwards hands
/// them out.
pub open spec fn non_decreasing(stamps: Seq<u64>) -> bool {
    forall|i: int, j: int| 0 <= i <= j < stamps.len() ==> stamps[i] <= stamps[j]
}

/// Admits at most `max_requests` requests per key in any trailing
/// `window_size` seconds.
pub struct RateLimiter {
    windows: KeyedList<Vec<u64>>,
    window_size: u64,
    max_requests: u64,
}

/// The timestamps of `stamps` that are inside the trailing window, in order.
fn prune(stamps: &Vec<u64>, now: u64, window_size: u64) -> (kept: Vec<u64>)
    ensures
        kept@ == live(stamps@, now, window_size),
{
    let mut kept: Vec<u64> = Vec::new();
    let mut i: usize = 0;
    proof {
        reveal(Seq::filter);
        assert(stamps@.take(0) =~= Seq::<u64>::empty());
    }
    while i < stamps.len()
        invariant
            i <= stamps.len(),
            kept@ == live(stamps@.take(i as int), now, window_size),
        decreases stamps.len() - i,
    {
        let stamp = stamps[i];
        let keep = if now >= window_size {
            stamp >= now - window_size
        } else {
            true
        };
        proof {
            let next = stamps@.take(i + 1);
            assert(next.drop_last() =~= stamps@.take(i as int));
            assert(next.last() == stamp);
            assert(keep == in_window(now, window_size)(stamp));
            reveal(Seq::filter);
        }
        if keep {
            kept.push(stamp);
        }
        i = i + 1;
    }
    proof {
        assert(stamps@.take(i as int) =~= stamps@);
    }
    kept
}

impl RateLimiter {
    /// The length of the trailing window, in seconds.
    pub closed spec fn size(&self) -> u64 {
        self.window_size
    }

    /// The number of requests admitted per key inside one window.
    pub closed spec fn limit(&self) -> u64 {
        self.max_requests
    }

    /// The timestamps recorded for `key`, oldest first: none for a key that
    /// was never seen or was reset.
    pub closed spec fn window(&self, key: Seq<char>) -> Seq<u64> {
        match self.windows.lookup(key) {
            Some(stamps) => stamps@,
            None => Seq::empty(),
        }
    }

    /// A limiter that has seen no request.
    pub fn new(window_size: u64, max_requests: u64) -> (limiter: RateLimiter)
        ensures
            limiter.size() == window_size,
            limiter.limit() == max_requests,
            forall|key: Seq<char>| limiter.window(key) == Seq::<u64>::empty(),
    {
        RateLimiter { windows: KeyedList::new(), window_size, max_requests }
    }

    /// The length of the trailing window, in seconds.
    pub fn window_size(&self) -> (seconds: u64)
        ensures
            seconds == self.size(),
    {
        self.window_size
    }

    /// The number of requests admitted per key inside one window.
    pub fn max_requests(&self) -> (requests: u64)
        ensures
            requests == self.limit(),
    {
        self.max_requests
    }

    /// The timestamps recorded for `key`, oldest first.
    pub fn recorded(&self, key: &str) -> (stamps: Vec<u64>)
        ensures
            stamps@ == self.window(key@),
    {
        match self.windows.get(key) {
            Some(stamps) => stamps.clone(),
            None => Vec::new(),
        }
    }

    /// Decides a request for `key` made at `now` (unix seconds). Timestamps
    /// that have left the trailing window are dropped first. With fewer than
    /// `max_requests` left the request is admitted and `now` is recorded;
    /// otherwise it is turned away and nothing is recorded. No other key is
    /// touched.
    pub fn check_at(&mut self, key: &str, now: u64) -> (admitted: bool)
        ensures
            admitted == admits(old(self).window(key@), now, old(self).size(), old(self).limit()),
            final(self).window(key@) == after_check(
                old(self).window(key@),
                now,
                old(self).size(),
                old(self).limit(),
            ),
            forall|other: Seq<char>|
                other != key@ ==> final(self).window(other) == old(self).window(other),
            final(self).size() == old(self).size(),
            final(self).limit() == old(self).limit(),
    {
        let mut stamps = match self.windows.get(key) {
            Some(stamps) => prune(stamps, now, self.window_size),
            None => {
                proof {
                    reveal(Seq::filter);
                }
                Vec::new()
            },
        };
        let admitted = (stamps.len() as u64) < self.max_requests;
        if admitted {
            stamps.push(now);
        }
        self.windows.put(key, stamps);
        admitted
    }

    /// Decides a request for `key` made now, by the system clock: what
    /// [`RateLimiter::check_at`] decides for the time that the clock gave.
    pub fn check(&mut self, key: &str) -> (admitted: bool)
        ensures
            exists|now: u64|
                {
                    &&& admitted == admits(
                        old(self).window(key@),
                        now,
                        old(self).size(),
                        old(self).limit(),
                    )
                    &&& final(self).window(key@) == #[trigger] after_check(
                        old(self).window(key@),
                        now,
                        old(self).size(),
                        old(self).limit(),
                    )
                },
            forall|other: Seq<char>|
                other != key@ ==> final(self).window(other) == old(self).window(other),
            final(self).size() == old(self).size(),
            final(self).limit() == old(self).limit(),
    {
        let now = clock::now();
        self.check_at(key, now)
    }

    /// Forgets every timestamp recorded for `key`. No other key is touched.
    pub fn reset(&mut self, key: &str)
        ensures
            final(self).window(key@) == Seq::<u64>::empty(),
            forall|other: Seq<char>|
                other != key@ ==> final(self).window(other) == old(self).window(other),
            final(self).size() == old(self).size(),
            final(self).limit() == old(self).limit(),
    {
        self.windows.remove(key);
    }
}

/// Pruning keeps a window whole where every timestamp in it is inside the
/// trailing window.
proof fn lemma_live_keeps_all(stamps: Seq<u64>, now: u64, window_size: u64)
    requires
        forall|i: int| 0 <= i < stamps.len() ==> stamps[i] + window_size >= now,
    ensures
        live(stamps, now, window_size) == stamps,
    decreases stamps.len(),
{
    reveal(Seq::filter);
    if stamps.len() > 0 {
        lemma_live_keeps_all(stamps.drop_last(), now, window_size);
        assert(in_window(now, window_size)(stamps.last()));
        assert(stamps.drop_last().push(stamps.last()) =~= stamps);
    }
}

/// Pruning never lengthens a window, and shortens one that holds a
/// timestamp outside the trailing window.
proof fn lemma_live_len(stamps: Seq<u64>, now: u64, window_size: u64)
    ensures
        live(stamps, now, window_size).len() <= stamps.len(),
        (exists|i: int| 0 <= i < stamps.len() && stamps[i] + window_size < now) ==> live(
            stamps,
            now,
            window_size,
        ).len() < stamps.len(),
    decreases stamps.len(),
{
    reveal(Seq::filter);
    if stamps.len() > 0 {
        let front = stamps.drop_last();
        lemma_live_len(front, now, window_size);
        if exists|i: int| 0 <= i < stamps.len() && stamps[i] + window_size < now {
            let i = choose|i: int| 0 <= i < stamps.len() && stamps[i] + window_size < now;
            if i < front.len() {
                assert(front[i] + window_size < now);
            } else {
                assert(!in_window(now, window_size)(stamps.last()));
            }
        }
    }
}

/// Every timestamp that pruning keeps was in the window before.
proof fn lemma_live_from(stamps: Seq<u64>, now: u64, window_size: u64)
    ensures
        forall|i: int|
            0 <= i < live(stamps, now, window_size).len() ==> stamps.contains(
                #[trigger] live(stamps, now, window_size)[i],
            ),
    decreases stamps.len(),
{
    reveal(Seq::filter);
    if stamps.len() > 0 {
        let front = stamps.drop_last();
        lemma_live_from(front, now, window_size);
        let kept = live(stamps, now, window_size);
        assert forall|i: int| 0 <= i < kept.len() implies stamps.contains(#[trigger] kept[i]) by {
            if i < live(front, now, window_size).len() {
                let stamp = live(front, now, window_size)[i];
                assert(front.contains(stamp));
                let j = choose|j: int| 0 <= j < front.len() && front[j] == stamp;
                assert(stamps[j] == stamp);
            } else {
                assert(stamps[stamps.len() - 1] == kept[i]);
            }
        }
    }
}

/// Pruning keeps the order of the timestamps.
proof fn lemma_live_ordered(stamps: Seq<u64>, now: u64, window_size: u64)
    requires
        non_decreasing(stamps),
    ensures
        non_decreasing(live(stamps, now, window_size)),
    decreases stamps.len(),
{
    reveal(Seq::filter);
    if stamps.len() > 0 {
        let front = stamps.drop_last();
        assert(non_decreasing(front));
        lemma_live_ordered(front, now, window_size);
        lemma_live_from(front, now, window_size);
        let kept = live(stamps, now, window_size);
        let kept_front = live(front, now, window_size);
        assert forall|i: int, j: int| 0 <= i <= j < kept.len() implies kept[i] <= kept[j] by {
            if j < kept_front.len() {
                assert(kept_front[i] <= kept_front[j]);
            } else if i < kept_front.len() {
                let stamp = kept_front[i];
                assert(front.contains(stamp));
                let k = choose|k: int| 0 <= k < front.len() && front[k] == stamp;
                assert(stamps[k] <= stamps[stamps.len() - 1]);
            }
        }
    }
}

/// A window that holds no more than the limit holds no more than the limit
/// after any request, admitted or not.
pub proof fn law_window_stays_within_limit(
    stamps: Seq<u64>,
    now: u64,
    window_size: u64,
    max_requests: u64,
)
    requires
        stamps.len() <= max_requests,
    ensures
        after_check(stamps, now, window_size, max_requests).len() <= max_requests,
{
    lemma_live_len(stamps, now, window_size);
}

/// Under a clock that never runs backwards a window stays in the order in
/// which its timestamps were recorded, oldest first.
pub proof fn law_window_stays_ordered(
    stamps: Seq<u64>,
    now: u64,
    window_size: u64,
    max_requests: u64,
)
    requires
        non_decreasing(stamps),
        forall|i: int| 0 <= i < stamps.len() ==> stamps[i] <= now,
    ensures
        non_decreasing(after_check(stamps, now, window_size, max_requests)),
        forall|i: int|
            0 <= i < after_check(stamps, now, window_size, max_requests).len() ==> after_check(
                stamps,
                now,
                window_size,
                max_requests,
            )[i] <= now,
{
    lemma_live_ordered(stamps, now, window_size);
    lemma_live_from(stamps, now, window_size);
    let kept = live(stamps, now, window_size);
    assert forall|i: int| 0 <= i < kept.len() implies kept[i] <= now by {
        assert(stamps.contains(kept[i]));
    }
}

/// A burst of requests for a fresh key, no two of them more than a window
/// apart: the window ends up holding the first `max_requests` of them.
proof fn lemma_burst_window(times: Seq<u64>, window_size: u64, max_requests: u64)
    requires
        forall|i: int, j: int|
            0 <= i < times.len() && 0 <= j < times.len() ==> times[i] + window_size >= times[j],
    ensures
        after_checks(Seq::<u64>::empty(), times, window_size, max_requests) == times.take(
            if times.len() <= max_requests {
                times.len() as int
            } else {
                max_requests as int
            },
        ),
    decreases times.len(),
{
    if times.len() == 0 {
        assert(times.take(0) =~= Seq::<u64>::empty());
    } else {
        let front = times.drop_last();
        lemma_burst_window(front, window_size, max_requests);
        let held = after_checks(Seq::<u64>::empty(), front, window_size, max_requests);
        assert forall|i: int| 0 <= i < held.len() implies held[i] + window_size
            >= times.last() by {
            assert(held[i] == times[i]);
        }
        lemma_live_keeps_all(held, times.last(), window_size);
        if front.len() < max_requests {
            assert(held =~= front);
            assert(front.push(times.last()) =~= times.take(times.len() as int));
        } else {
            assert(held =~= times.take(max_requests as int));
        }
    }
}

/// Of a burst of requests for a fresh key, no two of them more than a
/// window apart, exactly the first `max_requests` are admitted: the request at
/// position `k` (counted from nought) is admitted if and only if
/// `k < max_requests`.
pub proof fn law_burst_admits_up_to_limit(
    times: Seq<u64>,
    k: int,
    window_size: u64,
    max_requests: u64,
)
    requires
        0 <= k < times.len(),
        forall|i: int, j: int|
            0 <= i < times.len() && 0 <= j < times.len() ==> times[i] + window_size >= times[j],
    ensures
        admits(
            after_checks(Seq::<u64>::empty(), times.take(k), window_size, max_requests),
            times[k],
            window_size,
            max_requests,
        ) <==> k < max_requests,
{
    let earlier = times.take(k);
    lemma_burst_window(earlier, window_size, max_requests);
    let held = after_checks(Seq::<u64>::empty(), earlier, window_size, max_requests);
    assert forall|i: int| 0 <= i < held.len() implies held[i] + window_size >= times[k] by {
        assert(held[i] == times[i]);
    }
    lemma_live_keeps_all(held, times[k], window_size);
}

/// A full window, oldest timestamp first, turns requests away until its
/// oldest timestamp has left the trailing window, which it has once it is
/// older than `now - window_size`, and admits the first request after that.
pub proof fn law_full_window_reopens_when_oldest_leaves(
    stamps: Seq<u64>,
    now: u64,
    window_size: u64,
    max_requests: u64,
)
    requires
        non_decreasing(stamps),
        stamps.len() == max_requests,
        max_requests > 0,
    ensures
        admits(stamps, now, window_size, max_requests) <==> stamps[0] + window_size < now,
{
    lemma_live_len(stamps, now, window_size);
    if stamps[0] + window_size >= now {
        assert forall|i: int| 0 <= i < stamps.len() implies stamps[i] + window_size >= now by {
            assert(stamps[0] <= stamps[i]);
        }
        lemma_live_keeps_all(stamps, now, window_size);
    }
}

/// A request that is turned away leaves no trace: the window after it holds
/// what pruning left and nothing more.
pub proof fn law_denied_request_records_nothing(
    stamps: Seq<u64>,
    now: u64,
    window_size: u64,
    max_requests: u64,
)
    requires
        !admits(stamps, now, window_size, max_requests),
    ensures
        after_check(stamps, now, window_size, max_requests) == live(stamps, now, window_size),
        !after_check(stamps, now, window_size, max_requests).contains(now) || stamps.contains(now),
{
    lemma_live_from(stamps, now, window_size);
    let kept = live(stamps, now, window_size);
    if kept.contains(now) {
        let i = choose|i: int| 0 <= i < kept.len() && kept[i] == now;
        assert(stamps.contains(kept[i]));
    }
}

/// The number of timestamps that lie between `low` and `high`, both
/// counted in.
pub open spec fn recorded_between(stamps: Seq<u64>, low: int, high: int) -> nat
    decreases stamps.len(),
{
    if stamps.len() == 0 {
        0
    } else {
        recorded_between(stamps.drop_last(), low, high) + if low <= stamps.last() <= high {
            1nat
        } else {
            0nat
        }
    }
}

/// Admission counts the trailing window. Where no recorded timestamp lies
/// after `now`, as under a clock that never runs backwards, pruning leaves
/// exactly the timestamps from `now - window_size` to `now`, and a request
/// is admitted if and only if fewer than `max_requests` of them are
/// recorded.
pub proof fn law_admission_counts_the_trailing_window(
    stamps: Seq<u64>,
    now: u64,
    window_size: u64,
    max_requests: u64,
)
    requires
        forall|i: int| 0 <= i < stamps.len() ==> stamps[i] <= now,
    ensures
        live(stamps, now, window_size).len() == recorded_between(
            stamps,
            now - window_size,
            now as int,
        ),
        admits(stamps, now, window_size, max_requests) <==> recorded_between(
            stamps,
            now - window_size,
            now as int,
        ) < max_requests,
    decreases stamps.len(),
{
    reveal(Seq::filter);
    if stamps.len() > 0 {
        let front = stamps.drop_last();
        law_admission_counts_the_trailing_window(front, now, window_size, max_requests);
        assert(in_window(now, window_size)(stamps.last()) == (now - window_size
            <= stamps.last() <= now));
    }
}

} // verus!
