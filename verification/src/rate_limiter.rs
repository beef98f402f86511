//! The rate limiter: the one piece of shared mutable state in the pipeline.
//!
//! The external data provider enforces a hard per-minute call quota shared by
//! every concurrent worker. The limiter is a counter against that quota
//! together with the boundary of the window the counter belongs to: a worker
//! asks for a slot before each request, and when the window is exhausted it
//! must wait for the scheduled window reset before asking again. The reset is
//! one shared event per window: however many refused workers wake at the
//! boundary and ask for it, only the first one starts the new window, so no
//! worker's granted slot is ever erased by another's wake-up. The waiting
//! itself (a timer) happens outside the crate; the counter, the boundary and
//! their rules are verified here.

use vstd::prelude::*;

verus! {

/// Tracks how many API call slots of the current window are consumed, and
/// when that window ends.
pub struct RateLimiter {
    used: u32,
    max_per_window: u32,
    next_reset: u64,
}

impl RateLimiter {
    /// Slots consumed in the current window.
    pub closed spec fn used(self) -> nat {
        self.used as nat
    }

    /// The configured per-window call budget.
    pub closed spec fn cap(self) -> nat {
        self.max_per_window as nat
    }

    /// The instant from which the next window may start: a reset asked for
    /// before this instant is a repeat of one already performed and changes
    /// nothing.
    pub closed spec fn next_reset(self) -> u64 {
        self.next_reset
    }

    /// The counter never exceeds the budget, and the budget is positive.
    pub closed spec fn wf(self) -> bool {
        1 <= self.max_per_window && self.used <= self.max_per_window
    }

    /// A fresh limiter with the given per-window budget, an empty window, and
    /// a boundary in the past, so the first scheduled reset starts a window.
    pub fn new(max_per_window: u32) -> (r: Self)
        requires
            max_per_window >= 1,
        ensures
            r.wf(),
            r.used() == 0,
            r.cap() == max_per_window,
            r.next_reset() == 0,
    {
        RateLimiter { used: 0, max_per_window, next_reset: 0 }
    }

    /// Asks for one call slot in the current window. The slot is granted
    /// exactly when the window still has room; a refused caller must wait
    /// until the window reset (and then call `reset_window_at`) before asking
    /// again.
    pub fn try_acquire(&mut self) -> (granted: bool)
        requires
            old(self).wf(),
        ensures
            final(self).wf(),
            final(self).cap() == old(self).cap(),
            final(self).next_reset() == old(self).next_reset(),
            granted <==> old(self).used() < old(self).cap(),
            granted ==> final(self).used() == old(self).used() + 1,
            !granted ==> final(self).used() == old(self).used(),
            final(self).used() == window_step(old(self).used(), old(self).cap()),
    {
        if self.used < self.max_per_window {
            self.used = self.used + 1;
            true
        } else {
            false
        }
    }

    /// Starts the window containing `now` at most once: the first caller to
    /// reach the stored boundary empties the counter and moves the boundary
    /// to one second past the next minute; a caller woken by a reset another
    /// caller already performed finds `now` before the stored boundary and
    /// changes nothing. So concurrent waiters share one reset per window, and
    /// no acquisition granted in the new window is ever erased by a late
    /// wake-up.
    pub fn reset_window_at(&mut self, now: u64)
        requires
            old(self).wf(),
            now <= u64::MAX - 61,
        ensures
            final(self).wf(),
            final(self).cap() == old(self).cap(),
            now >= old(self).next_reset() ==> final(self).used() == 0 && final(self).next_reset()
                == (now / 60 + 1) * 60 + 1 && final(self).next_reset() > now,
            now < old(self).next_reset() ==> *final(self) == *old(self),
    {
        if now >= self.next_reset {
            self.used = 0;
            self.next_reset = window_reset_time(now);
        }
    }

    /// Slots still available in the current window.
    pub fn remaining(&self) -> (r: u32)
        requires
            self.wf(),
        ensures
            r == self.cap() - self.used(),
    {
        self.max_per_window - self.used
    }
}

/// When the window that contains the second `now` resets: one second past
/// the next minute boundary, tolerating clock skew against the provider's
/// stated per-minute window.
pub fn window_reset_time(now: u64) -> (t: u64)
    requires
        now <= u64::MAX - 61,
    ensures
        t == (now / 60 + 1) * 60 + 1,
        now < t <= now + 61,
{
    let t = (now / 60 + 1) * 60 + 1;
    proof {
        vstd::arithmetic::div_mod::lemma_fundamental_div_mod(now as int, 60);
        vstd::arithmetic::div_mod::lemma_mod_bound(now as int, 60);
    }
    t
}

/// How one acquisition attempt moves the counter: a slot is consumed exactly
/// when the window still has room. `try_acquire` ensures it steps the counter
/// by precisely this function.
pub open spec fn window_step(used: nat, cap: nat) -> nat {
    if used < cap {
        used + 1
    } else {
        used
    }
}

/// The counter after `n` acquisition attempts within one window, starting
/// from a fresh window.
pub open spec fn used_after(cap: nat, n: nat) -> nat
    decreases n,
{
    if n == 0 {
        0
    } else {
        window_step(used_after(cap, (n - 1) as nat), cap)
    }
}

/// Within one window the counter is exactly `min(n, cap)` after `n` attempts:
/// no sequence of acquisitions ever pushes consumption past the budget.
pub proof fn law_window_ceiling(cap: nat, n: nat)
    ensures
        used_after(cap, n) == if n <= cap {
            n
        } else {
            cap
        },
    decreases n,
{
    if n > 0 {
        law_window_ceiling(cap, (n - 1) as nat);
    }
}

/// After exactly `cap` acquisitions within one window the window is full, so
/// the next acquisition is not granted and must wait for the window reset.
pub proof fn law_next_acquisition_waits(cap: nat)
    ensures
        used_after(cap, cap) == cap,
        !(used_after(cap, cap) < cap),
{
    law_window_ceiling(cap, cap);
}

} // verus!
