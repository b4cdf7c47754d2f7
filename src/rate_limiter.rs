//! Sliding-window limiter for outbound requests. The caller supplies the
//! clock: `acquire` either grants a request at the given time or says how long
//! to wait before asking again.
use std::collections::VecDeque;
use vstd::prelude::*;

verus! {

/// Drops the expired times from the front of `s`: those at least `window`
/// before `now`.
pub open spec fn drop_expired(s: Seq<u64>, now: u64, window: u64) -> Seq<u64>
    decreases s.len(),
{
    if s.len() > 0 && now - s[0] >= window {
        drop_expired(s.drop_first(), now, window)
    } else {
        s
    }
}

/// The abstract state of a `RateLimiter`.
pub ghost struct RateLimiterView {
    /// Length of the sliding window, in milliseconds.
    pub window: u64,
    /// Most grants allowed within one window.
    pub max_requests: usize,
    /// Latest time seen.
    pub clock: u64,
    /// Grant times still inside the window, oldest first.
    pub recent: Seq<u64>,
    /// Every grant time so far, oldest first.
    pub granted: Seq<u64>,
}

pub struct RateLimiter {
    requests: VecDeque<u64>,
    window_ms: u64,
    max_requests: usize,
    clock_ms: u64,
    granted: Ghost<Seq<u64>>,
}

impl View for RateLimiter {
    type V = RateLimiterView;

    closed spec fn view(&self) -> RateLimiterView {
        RateLimiterView {
            window: self.window_ms,
            max_requests: self.max_requests,
            clock: self.clock_ms,
            recent: self.requests@,
            granted: self.granted@,
        }
    }
}

/// What `acquire` at time `now` answers on a limiter in state `v`: `None` to
/// grant, or `Some(wait)` in milliseconds.
pub open spec fn acquire_answer(v: RateLimiterView, now: u64) -> Option<u64> {
    let t = if now > v.clock { now } else { v.clock };
    let live = drop_expired(v.recent, t, v.window);
    if live.len() < v.max_requests {
        None
    } else if live.len() == 0 {
        Some(v.window)
    } else {
        Some((v.window - (t - live[0])) as u64)
    }
}

impl RateLimiter {
    pub closed spec fn wf(&self) -> bool {
        let g = self.granted@;
        let r = self.requests@;
        &&& r.len() <= g.len()
        &&& r.len() <= self.max_requests
        &&& r == g.subrange(g.len() - r.len(), g.len() as int)
        &&& forall|i: int, j: int| 0 <= i <= j < g.len() ==> g[i] <= g[j]
        &&& forall|i: int| 0 <= i < g.len() ==> g[i] <= self.clock_ms
        &&& forall|i: int|
            0 <= i < g.len() - r.len() ==> g[i] + self.window_ms <= self.clock_ms
        &&& forall|i: int, j: int|
            0 <= i && i + self.max_requests <= j < g.len() ==> g[i] + self.window_ms <= g[j]
    }

    /// A limiter that grants at most `max_requests` requests in any window of
    /// `window_secs` seconds.
    pub fn new(window_secs: u64, max_requests: usize) -> (r: Self)
        requires
            window_secs <= u64::MAX / 1000,
        ensures
            r.wf(),
            r@.window == window_secs * 1000,
            r@.max_requests == max_requests,
            r@.clock == 0,
            r@.recent.len() == 0,
            r@.granted.len() == 0,
    {
        let r = RateLimiter {
            requests: VecDeque::new(),
            window_ms: window_secs * 1000,
            max_requests,
            clock_ms: 0,
            granted: Ghost(Seq::empty()),
        };
        assert(r.requests@ =~= r.granted@.subrange(0, 0));
        r
    }

    /// Asks for one request at time `now_ms` (milliseconds on the caller's
    /// clock; a reading earlier than one already seen counts as that one).
    /// Times that left the window are forgotten first. Where fewer than
    /// `max_requests` grants remain in the window, the request is granted and
    /// recorded and the answer is `None`; else the answer is the wait until
    /// the oldest grant leaves the window, and nothing is recorded.
    pub fn acquire(&mut self, now_ms: u64) -> (r: Option<u64>)
        requires
            old(self).wf(),
        ensures
            final(self).wf(),
            r == acquire_answer(old(self)@, now_ms),
            ({
                let t = if now_ms > old(self)@.clock { now_ms } else { old(self)@.clock };
                let live = drop_expired(old(self)@.recent, t, old(self)@.window);
                &&& final(self)@.window == old(self)@.window
                &&& final(self)@.max_requests == old(self)@.max_requests
                &&& final(self)@.clock == t
                &&& final(self)@.recent == if r is None {
                    live.push(t)
                } else {
                    live
                }
                &&& final(self)@.granted == if r is None {
                    old(self)@.granted.push(t)
                } else {
                    old(self)@.granted
                }
            }),
    {
        let ghost g = self.granted@;
        let ghost old_r = self.requests@;
        let t: u64 = if now_ms > self.clock_ms {
            now_ms
        } else {
            self.clock_ms
        };
        self.clock_ms = t;
        let ghost mut k: int = 0;
        proof {
            assert forall|i: int| 0 <= i < old_r.len() implies old_r[i] <= t by {
                assert(old_r[i] == g[g.len() - old_r.len() + i]);
            }
        }
        while self.requests.len() > 0 && t - self.requests[0] >= self.window_ms
            invariant
                self.window_ms == old(self).window_ms,
                self.max_requests == old(self).max_requests,
                self.clock_ms == t,
                self.granted@ == g,
                g == old(self).granted@,
                old_r == old(self).requests@,
                old(self).wf(),
                0 <= k <= old_r.len(),
                forall|i: int| 0 <= i < old_r.len() ==> old_r[i] <= t,
                self.requests@ == old_r.subrange(k, old_r.len() as int),
                forall|i: int| 0 <= i < k ==> old_r[i] + self.window_ms <= t,
                drop_expired(self.requests@, t, self.window_ms) == drop_expired(
                    old_r,
                    t,
                    self.window_ms,
                ),
            decreases self.requests.len(),
        {
            proof {
                assert(old_r[k] == g[g.len() - old_r.len() + k]);
            }
            let ghost before = self.requests@;
            self.requests.pop_front();
            proof {
                assert(self.requests@ =~= before.drop_first());
                k = k + 1;
                assert(self.requests@ =~= old_r.subrange(k, old_r.len() as int));
            }
        }
        proof {
            assert(drop_expired(self.requests@, t, self.window_ms) == self.requests@);
        }
        let len = self.requests.len();
        if len >= self.max_requests {
            if len == 0 {
                Some(self.window_ms)
            } else {
                proof {
                    assert(self.requests@[0] == old_r[k]);
                    assert(old_r[k] == g[g.len() - old_r.len() + k]);
                }
                Some(self.window_ms - (t - self.requests[0]))
            }
        } else {
            self.requests.push_back(t);
            proof {
                let ng = g.push(t);
                self.granted = Ghost(ng);
                let n = g.len() as int;
                assert forall|i: int, j: int|
                    0 <= i && i + self.max_requests <= j < ng.len() implies ng[i]
                    + self.window_ms <= ng[j] by {
                    if j < n {
                        assert(ng[i] == g[i] && ng[j] == g[j]);
                    } else {
                        assert(ng[i] == g[i]);
                        if i < n - old_r.len() {
                        } else if i < n - old_r.len() + k {
                            assert(g[i] == old_r[i - (n - old_r.len())]);
                        } else {
                            assert(false);
                        }
                    }
                }
                assert(self.requests@ =~= ng.subrange(
                    ng.len() - self.requests@.len(),
                    ng.len() as int,
                ));
                assert forall|i: int| 0 <= i < ng.len() - self.requests@.len() implies ng[i]
                    + self.window_ms <= t by {
                    assert(ng[i] == g[i]);
                    if i >= n - old_r.len() {
                        assert(g[i] == old_r[i - (n - old_r.len())]);
                    }
                }
            }
            None
        }
    }
}

/// No more than `max_requests` grants fall within any window: two grants
/// `max_requests` or more apart in the order of granting lie at least one
/// window apart in time.
pub proof fn lemma_grant_spacing(rl: &RateLimiter, i: int, j: int)
    requires
        rl.wf(),
        0 <= i,
        i + rl@.max_requests <= j < rl@.granted.len(),
    ensures
        rl@.granted[i] + rl@.window <= rl@.granted[j],
{
}

} // verus!
