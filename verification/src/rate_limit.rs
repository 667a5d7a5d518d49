//! A limit on the requests of each peer: so many in a window of sixty
//! seconds. The table is a value that its owner lends to the handlers; the
//! clock is the caller's.

use crate::text::str_eq;
use vstd::prelude::*;
use vstd::string::*;

verus! {

/// The length of a window in milliseconds.
pub const WINDOW_MS: u64 = 60_000;

/// The requests of one peer in its current window.
#[derive(Debug)]
pub struct Window {
    pub ip: String,
    /// The requests counted in the window; it stays at `u32::MAX` once it
    /// has reached it.
    pub count: u32,
    /// When the window started, in milliseconds of the caller's clock.
    pub started_ms: u64,
}

/// The table of windows, one for each peer that has been seen.
#[derive(Debug)]
pub struct RateLimiter {
    windows: Vec<Window>,
}

/// The time from `since` to `now`; none where the clock went backwards.
pub open spec fn elapsed(now: u64, since: u64) -> nat {
    if now >= since {
        (now - since) as nat
    } else {
        0
    }
}

/// The window in which a request at `now` counts, before it is counted: the
/// peer's window, or a new and empty one that starts at `now` where the peer
/// has none or more than sixty seconds have passed since it started.
pub open spec fn current_window(prior: Option<(u32, u64)>, now: u64) -> (u32, u64) {
    match prior {
        Some((count, started)) => if elapsed(now, started) > WINDOW_MS {
            (0u32, now)
        } else {
            (count, started)
        },
        None => (0u32, now),
    }
}

/// The window after the request has been counted in it.
pub open spec fn counted(w: (u32, u64)) -> (u32, u64) {
    (
        if w.0 < u32::MAX {
            (w.0 + 1) as u32
        } else {
            u32::MAX
        },
        w.1,
    )
}

/// The table after a request of `ip` at `now` under the limit `limit`, and
/// whether the request is admitted. The request is counted in the peer's
/// current window and admitted if fewer than `limit` requests had been
/// counted there before it; under a limit of 0 none is admitted.
pub open spec fn step(m: Map<Seq<char>, (u32, u64)>, ip: Seq<char>, limit: u32, now: u64) -> (
    Map<Seq<char>, (u32, u64)>,
    bool,
) {
    let prior = if m.dom().contains(ip) {
        Some(m[ip])
    } else {
        None
    };
    let w = current_window(prior, now);
    (m.insert(ip, counted(w)), w.0 < limit)
}

impl RateLimiter {
    /// No peer holds two windows.
    pub closed spec fn wf(&self) -> bool {
        forall|i: int, j: int|
            0 <= i < j < self.windows.len() ==> self.windows[i].ip@ != self.windows[j].ip@
    }

    spec fn position(&self, ip: Seq<char>) -> int {
        choose|i: int| 0 <= i < self.windows.len() && self.windows[i].ip@ == ip
    }

    spec fn holds(&self, ip: Seq<char>) -> bool {
        exists|i: int| 0 <= i < self.windows.len() && self.windows[i].ip@ == ip
    }

    /// The count and the start of each peer's window.
    pub closed spec fn view(&self) -> Map<Seq<char>, (u32, u64)> {
        Map::new(
            |ip: Seq<char>| self.holds(ip),
            |ip: Seq<char>|
                (self.windows[self.position(ip)].count, self.windows[self.position(ip)].started_ms),
        )
    }

    /// An empty table.
    pub fn new() -> (l: RateLimiter)
        ensures
            l.wf(),
            l@ == Map::<Seq<char>, (u32, u64)>::empty(),
    {
        let l = RateLimiter { windows: Vec::new() };
        assert(l@ =~= Map::<Seq<char>, (u32, u64)>::empty());
        l
    }

    fn index_of(&self, ip: &str) -> (r: Option<usize>)
        requires
            self.wf(),
        ensures
            match r {
                Some(i) => i < self.windows.len() && self.windows[i as int].ip@ == ip@
                    && self.holds(ip@) && self.position(ip@) == i,
                None => !self.holds(ip@),
            },
    {
        let mut i: usize = 0;
        while i < self.windows.len()
            invariant
                i <= self.windows.len(),
                self.wf(),
                forall|k: int| 0 <= k < i ==> self.windows[k].ip@ != ip@,
            decreases self.windows.len() - i,
        {
            if str_eq(self.windows[i].ip.as_str(), ip) {
                proof {
                    assert(self.windows[i as int].ip@ == ip@);
                    assert(self.holds(ip@));
                    let p = self.position(ip@);
                    assert(0 <= p < self.windows.len() && self.windows[p].ip@ == ip@);
                    if p > i {
                        assert(self.windows[i as int].ip@ != self.windows[p].ip@);
                    }
                }
                return Some(i);
            }
            i += 1;
        }
        None
    }

    /// Counts a request of `ip` at `now_ms` and says whether it is admitted
    /// under `limit` requests a window.
    pub fn check_rate_limit(&mut self, ip: &str, limit: u32, now_ms: u64) -> (admitted: bool)
        requires
            old(self).wf(),
        ensures
            final(self).wf(),
            (final(self)@, admitted) == step(old(self)@, ip@, limit, now_ms),
    {
        let ghost before = *self;
        match self.index_of(ip) {
            Some(i) => {
                let started = self.windows[i].started_ms;
                let count = self.windows[i].count;
                let expired = now_ms >= started && now_ms - started > WINDOW_MS;
                let (base, start): (u32, u64) = if expired {
                    (0, now_ms)
                } else {
                    (count, started)
                };
                let next: u32 = if base < u32::MAX {
                    base + 1
                } else {
                    u32::MAX
                };
                let fresh = Window { ip: String::from_str(ip), count: next, started_ms: start };
                self.windows.set(i, fresh);
                proof {
                    assert(self.wf());
                    assert(before@.dom().contains(ip@));
                    assert(before@[ip@] == (count, started));
                    assert forall|other: Seq<char>| self.holds(other) == before.holds(other) by {
                        if before.holds(other) {
                            let p = before.position(other);
                            assert(self.windows[p].ip@ == other);
                        }
                        if self.holds(other) {
                            let p = self.position(other);
                            assert(before.windows[p].ip@ == other);
                        }
                    }
                    assert forall|other: Seq<char>| #[trigger]
                        self.holds(other) implies self.position(other) == before.position(
                        other,
                    ) by {
                        let p = self.position(other);
                        let q = before.position(other);
                        assert(before.windows[p].ip@ == other);
                        if p < q {
                            assert(before.windows[p].ip@ != before.windows[q].ip@);
                        } else if q < p {
                            assert(before.windows[q].ip@ != before.windows[p].ip@);
                        }
                    }
                    assert(self.position(ip@) == i);
                    assert(self@ =~= before@.insert(ip@, (next, start)));
                }
                base < limit
            },
            None => {
                let fresh = Window { ip: String::from_str(ip), count: 1, started_ms: now_ms };
                self.windows.push(fresh);
                proof {
                    let n = before.windows.len() as int;
                    assert(self.windows[n].ip@ == ip@);
                    assert(self.wf()) by {
                        assert forall|i: int, j: int| 0 <= i < j < self.windows.len() implies self.windows[i].ip@
                            != self.windows[j].ip@ by {
                            if j == n {
                                assert(before.windows[i].ip@ != ip@);
                            } else {
                                assert(before.windows[i].ip@ != before.windows[j].ip@);
                            }
                        }
                    }
                    assert(!before@.dom().contains(ip@));
                    assert(self.holds(ip@));
                    assert forall|other: Seq<char>| self.holds(other) == (before.holds(other)
                        || other == ip@) by {
                        if before.holds(other) {
                            let p = before.position(other);
                            assert(self.windows[p].ip@ == other);
                        }
                        if self.holds(other) && other != ip@ {
                            let p = self.position(other);
                            assert(p != n);
                            assert(before.windows[p].ip@ == other);
                        }
                    }
                    assert forall|other: Seq<char>| #[trigger]
                        before.holds(other) implies self.position(other) == before.position(
                        other,
                    ) by {
                        let q = before.position(other);
                        assert(self.windows[q].ip@ == other);
                        let p = self.position(other);
                        if p < q {
                            assert(self.windows[p].ip@ != self.windows[q].ip@);
                        } else if q < p {
                            assert(self.windows[q].ip@ != self.windows[p].ip@);
                        }
                    }
                    let p = self.position(ip@);
                    assert(p == n) by {
                        if p < n {
                            assert(self.windows[p].ip@ != self.windows[n].ip@);
                        }
                    }
                    assert(self@ =~= before@.insert(ip@, (1u32, now_ms)));
                }
                0 < limit
            },
        }
    }

    /// The requests counted for `ip` in its window and when the window
    /// started, where the peer has one.
    pub fn window(&self, ip: &str) -> (w: Option<(u32, u64)>)
        requires
            self.wf(),
        ensures
            w == if self@.dom().contains(ip@) {
                Some(self@[ip@])
            } else {
                None
            },
    {
        match self.index_of(ip) {
            Some(i) => Some((self.windows[i].count, self.windows[i].started_ms)),
            None => None,
        }
    }
}

/// The table after requests of `ip` at the times `times`, one after the
/// other.
pub open spec fn after_requests(
    m: Map<Seq<char>, (u32, u64)>,
    ip: Seq<char>,
    limit: u32,
    times: Seq<u64>,
) -> Map<Seq<char>, (u32, u64)>
    decreases times.len(),
{
    if times.len() == 0 {
        m
    } else {
        step(after_requests(m, ip, limit, times.drop_last()), ip, limit, times.last()).0
    }
}

/// Whether request number `i` of a run of requests is admitted, counted
/// from 0.
pub open spec fn admitted_at(
    m: Map<Seq<char>, (u32, u64)>,
    ip: Seq<char>,
    limit: u32,
    times: Seq<u64>,
    i: int,
) -> bool {
    step(after_requests(m, ip, limit, times.take(i)), ip, limit, times[i]).1
}

/// The peer starts a window with a request at `now`: it has none yet, or
/// more than sixty seconds have passed since its window started.
pub open spec fn starts_window(m: Map<Seq<char>, (u32, u64)>, ip: Seq<char>, now: u64) -> bool {
    !m.dom().contains(ip) || elapsed(now, m[ip].1) > WINDOW_MS
}

proof fn lemma_window_fills(
    m: Map<Seq<char>, (u32, u64)>,
    ip: Seq<char>,
    limit: u32,
    times: Seq<u64>,
    n: int,
)
    requires
        1 <= n <= times.len(),
        starts_window(m, ip, times[0]),
        forall|i: int| 0 <= i < times.len() ==> elapsed(#[trigger] times[i], times[0]) <= WINDOW_MS,
    ensures
        after_requests(m, ip, limit, times.take(n)).dom().contains(ip),
        after_requests(m, ip, limit, times.take(n))[ip] == (
            if n < u32::MAX {
                n as u32
            } else {
                u32::MAX
            },
            times[0],
        ),
    decreases n,
{
    let now = times.take(n);
    assert(now.drop_last() == times.take(n - 1));
    assert(now.last() == times[n - 1]);
    if n == 1 {
        assert(times.take(0).len() == 0);
        assert(after_requests(m, ip, limit, times.take(0)) == m);
    } else {
        lemma_window_fills(m, ip, limit, times, n - 1);
    }
}

/// Of requests of one peer that start a window and all fall within sixty
/// seconds of the first, exactly the first `limit` are admitted: request
/// number `i`, counted from 0, is admitted if and only if `i < limit`.
pub proof fn lemma_first_requests_admitted(
    m: Map<Seq<char>, (u32, u64)>,
    ip: Seq<char>,
    limit: u32,
    times: Seq<u64>,
)
    requires
        times.len() > 0,
        starts_window(m, ip, times[0]),
        forall|i: int| 0 <= i < times.len() ==> elapsed(#[trigger] times[i], times[0]) <= WINDOW_MS,
    ensures
        forall|i: int| 0 <= i < times.len() ==> #[trigger] admitted_at(m, ip, limit, times, i) == (i
            < limit),
{
    assert forall|i: int| 0 <= i < times.len() implies #[trigger] admitted_at(
        m,
        ip,
        limit,
        times,
        i,
    ) == (i < limit) by {
        if i == 0 {
            assert(times.take(0).len() == 0);
            assert(after_requests(m, ip, limit, times.take(0)) == m);
        } else {
            lemma_window_fills(m, ip, limit, times, i);
            assert(elapsed(times[i], times[0]) <= WINDOW_MS);
        }
    }
}

/// Once more than sixty seconds have passed since a peer's window started,
/// its next request starts a new window: it is the one request counted
/// there, and it is admitted under every limit but 0.
pub proof fn lemma_window_resets(m: Map<Seq<char>, (u32, u64)>, ip: Seq<char>, limit: u32, now: u64)
    requires
        m.dom().contains(ip),
        elapsed(now, m[ip].1) > WINDOW_MS,
    ensures
        step(m, ip, limit, now).1 == (limit > 0),
        step(m, ip, limit, now).0[ip] == (1u32, now),
{
}

/// A request changes the window of the peer that made it and of no other.
pub proof fn lemma_other_windows_stay(
    m: Map<Seq<char>, (u32, u64)>,
    ip: Seq<char>,
    limit: u32,
    now: u64,
    other: Seq<char>,
)
    requires
        other != ip,
    ensures
        step(m, ip, limit, now).0.dom().contains(other) == m.dom().contains(other),
        m.dom().contains(other) ==> step(m, ip, limit, now).0[other] == m[other],
{
}

} // verus!
