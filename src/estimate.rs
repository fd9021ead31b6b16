use vstd::prelude::*;

verus! {

/// The ceiling of every estimated user frequency.
pub const MAX_USER_FREQ: u32 = 99999999;

/// Uses closer together than this many ticks count as frequent.
pub const SHORT_INTERVAL: u64 = 4000;

/// Uses further apart than this many ticks count as rare.
pub const LONG_INTERVAL: u64 = 50000;

/// The user frequency after one more use of a phrase: the current frequency
/// moves a fifth of the way up to the highest among its homophones, plus
/// one; a phrase not used for a while gets one or two more; the result
/// never passes the ceiling.
pub open spec fn estimated(current: int, max_freq: int, elapsed: int) -> int {
    let base = if current >= max_freq {
        current + 1
    } else {
        current + (max_freq - current) / 5 + 1
    };
    let bonus = if elapsed < SHORT_INTERVAL {
        0int
    } else if elapsed < LONG_INTERVAL {
        1int
    } else {
        2int
    };
    if base + bonus > MAX_USER_FREQ {
        MAX_USER_FREQ as int
    } else {
        base + bonus
    }
}

/// Estimates user frequencies from a clock that advances once per key
/// stroke.
#[derive(Clone, Copy, Debug)]
pub struct UserFreqEstimate {
    pub now: u64,
}

impl UserFreqEstimate {
    pub fn new(now: u64) -> (r: UserFreqEstimate)
        ensures
            r.now == now,
    {
        UserFreqEstimate { now }
    }

    /// Advances the clock by one, saturating at the largest time.
    pub fn tick(&mut self)
        ensures
            final(self).now == if old(self).now == u64::MAX {
                u64::MAX
            } else {
                (old(self).now + 1) as u64
            },
    {
        if self.now < u64::MAX {
            self.now = self.now + 1;
        }
    }

    pub fn now(&self) -> (r: u64)
        ensures
            r == self.now,
    {
        self.now
    }

    /// The new user frequency of a phrase used now, from its current
    /// frequency, the highest frequency among its homophones and when it was
    /// last used (a time after now counts as now).
    pub fn estimate(&self, current: u32, max_freq: u32, last_used: u64) -> (r: u32)
        ensures
            r as int == estimated(
                current as int,
                max_freq as int,
                if last_used <= self.now {
                    self.now - last_used
                } else {
                    0
                },
            ),
    {
        let elapsed: u64 = if last_used <= self.now {
            self.now - last_used
        } else {
            0
        };
        let base: u64 = if current >= max_freq {
            current as u64 + 1
        } else {
            current as u64 + ((max_freq - current) / 5) as u64 + 1
        };
        let bonus: u64 = if elapsed < SHORT_INTERVAL {
            0
        } else if elapsed < LONG_INTERVAL {
            1
        } else {
            2
        };
        if base + bonus > MAX_USER_FREQ as u64 {
            MAX_USER_FREQ
        } else {
            (base + bonus) as u32
        }
    }
}

/// The estimate never decreases when the current frequency grows or when
/// more time has passed, and never passes the ceiling.
pub proof fn law_estimate_monotone_bounded(c1: int, c2: int, m: int, e1: int, e2: int)
    requires
        0 <= c1 <= c2,
        0 <= m,
        0 <= e1 <= e2,
    ensures
        estimated(c1, m, e1) <= estimated(c2, m, e1),
        estimated(c1, m, e1) <= estimated(c1, m, e2),
        estimated(c1, m, e1) <= MAX_USER_FREQ,
{
    if c2 < m {
        assert(c1 + (m - c1) / 5 <= c2 + (m - c2) / 5) by (nonlinear_arith)
            requires
                c1 <= c2,
                c2 < m,
        ;
    } else if c1 < m {
        assert(c1 + (m - c1) / 5 + 1 <= c2 + 1) by (nonlinear_arith)
            requires
                c1 < m,
                m <= c2,
        ;
    }
}

} // verus!
