//! Counters of runs and phase outcomes. Each counter wraps around at
//! `u64::MAX`, as an atomic `fetch_add` does.

use vstd::prelude::*;

verus! {

/// The counters, read at one moment.
#[derive(Debug, Clone, Copy, PartialEq, Eq, Structural)]
pub struct MetricsSnapshot {
    pub simulations_total: u64,
    pub simulations_success: u64,
    pub simulations_error: u64,
    pub simulations_timeout: u64,
    pub simulations_stopped: u64,
    pub phase1_ok: u64,
    pub phase1_timeout: u64,
    pub phase2_ok: u64,
    pub phase2_timeout: u64,
    pub phase3_ok: u64,
    pub phase3_timeout: u64,
}

/// The live counters of the agent.
#[derive(Debug)]
pub struct SimulationMetrics {
    pub simulations_total: u64,
    pub simulations_success: u64,
    pub simulations_error: u64,
    pub simulations_timeout: u64,
    pub simulations_stopped: u64,
    pub phase1_ok: u64,
    pub phase1_timeout: u64,
    pub phase2_ok: u64,
    pub phase2_timeout: u64,
    pub phase3_ok: u64,
    pub phase3_timeout: u64,
}

impl View for SimulationMetrics {
    type V = MetricsSnapshot;

    open spec fn view(&self) -> MetricsSnapshot {
        MetricsSnapshot {
            simulations_total: self.simulations_total,
            simulations_success: self.simulations_success,
            simulations_error: self.simulations_error,
            simulations_timeout: self.simulations_timeout,
            simulations_stopped: self.simulations_stopped,
            phase1_ok: self.phase1_ok,
            phase1_timeout: self.phase1_timeout,
            phase2_ok: self.phase2_ok,
            phase2_timeout: self.phase2_timeout,
            phase3_ok: self.phase3_ok,
            phase3_timeout: self.phase3_timeout,
        }
    }
}

/// `x + 1`, wrapping to 0 past `u64::MAX`.
pub open spec fn bump(x: u64) -> u64 {
    if x == u64::MAX {
        0
    } else {
        (x + 1) as u64
    }
}

/// A count goes up by one, wrapping to 0 only past `u64::MAX`.
pub proof fn law_bump_adds_one(x: u64)
    ensures
        x < u64::MAX ==> bump(x) == x + 1,
        x == u64::MAX ==> bump(x) == 0,
{
}

/// 1 when `c` holds, else 0.
pub open spec fn one_if(c: bool) -> int {
    if c {
        1
    } else {
        0
    }
}

/// Recording the outcome of phase `p` adds one to exactly one counter: that
/// of detections (`ok`) or of misses of phase `p`, for `p` from 1 to 3; any
/// other phase changes nothing, and the run counters are never touched.
pub proof fn law_record_phase_counts_one(m: MetricsSnapshot, p: u8, ok: bool)
    requires
        m.phase1_ok < u64::MAX,
        m.phase1_timeout < u64::MAX,
        m.phase2_ok < u64::MAX,
        m.phase2_timeout < u64::MAX,
        m.phase3_ok < u64::MAX,
        m.phase3_timeout < u64::MAX,
    ensures
        ({
            let r = record_phase_spec(m, p, ok);
            &&& r.phase1_ok == m.phase1_ok + one_if(p == 1 && ok)
            &&& r.phase1_timeout == m.phase1_timeout + one_if(p == 1 && !ok)
            &&& r.phase2_ok == m.phase2_ok + one_if(p == 2 && ok)
            &&& r.phase2_timeout == m.phase2_timeout + one_if(p == 2 && !ok)
            &&& r.phase3_ok == m.phase3_ok + one_if(p == 3 && ok)
            &&& r.phase3_timeout == m.phase3_timeout + one_if(p == 3 && !ok)
            &&& r.simulations_total == m.simulations_total
            &&& r.simulations_success == m.simulations_success
            &&& r.simulations_error == m.simulations_error
            &&& r.simulations_timeout == m.simulations_timeout
            &&& r.simulations_stopped == m.simulations_stopped
        }),
{
}

/// `x` counted up `n` times.
pub open spec fn bumped_times(x: u64, n: nat) -> u64
    decreases n,
{
    if n == 0 {
        x
    } else {
        bump(bumped_times(x, (n - 1) as nat))
    }
}

/// No count is lost: `n` increments of a counter that stands at `k` leave it
/// at `k + n` while that does not pass `u64::MAX` (each `inc_*` adds one to
/// its own counter and leaves the others alone).
pub proof fn law_increments_add_up(k: u64, n: nat)
    requires
        k + n <= u64::MAX,
    ensures
        bumped_times(k, n) == k + n,
    decreases n,
{
    if n > 0 {
        law_increments_add_up(k, (n - 1) as nat);
    }
}

/// All counters at zero.
pub open spec fn zero_metrics() -> MetricsSnapshot {
    MetricsSnapshot {
        simulations_total: 0,
        simulations_success: 0,
        simulations_error: 0,
        simulations_timeout: 0,
        simulations_stopped: 0,
        phase1_ok: 0,
        phase1_timeout: 0,
        phase2_ok: 0,
        phase2_timeout: 0,
        phase3_ok: 0,
        phase3_timeout: 0,
    }
}

/// The counters after recording phase `phase` as `ok` (detected) or not
/// (timed out or failed); a phase number other than 1 to 3 is ignored.
pub open spec fn record_phase_spec(m: MetricsSnapshot, phase: u8, ok: bool) -> MetricsSnapshot {
    if phase == 1 {
        if ok {
            MetricsSnapshot { phase1_ok: bump(m.phase1_ok), ..m }
        } else {
            MetricsSnapshot { phase1_timeout: bump(m.phase1_timeout), ..m }
        }
    } else if phase == 2 {
        if ok {
            MetricsSnapshot { phase2_ok: bump(m.phase2_ok), ..m }
        } else {
            MetricsSnapshot { phase2_timeout: bump(m.phase2_timeout), ..m }
        }
    } else if phase == 3 {
        if ok {
            MetricsSnapshot { phase3_ok: bump(m.phase3_ok), ..m }
        } else {
            MetricsSnapshot { phase3_timeout: bump(m.phase3_timeout), ..m }
        }
    } else {
        m
    }
}

fn bumped(x: u64) -> (r: u64)
    ensures
        r == bump(x),
{
    if x == u64::MAX {
        0
    } else {
        x + 1
    }
}

impl Default for SimulationMetrics {
    fn default() -> (r: Self)
        ensures
            r@ == zero_metrics(),
    {
        SimulationMetrics {
            simulations_total: 0,
            simulations_success: 0,
            simulations_error: 0,
            simulations_timeout: 0,
            simulations_stopped: 0,
            phase1_ok: 0,
            phase1_timeout: 0,
            phase2_ok: 0,
            phase2_timeout: 0,
            phase3_ok: 0,
            phase3_timeout: 0,
        }
    }
}

impl SimulationMetrics {
    /// All counters at zero.
    pub fn new() -> (r: Self)
        ensures
            r@ == zero_metrics(),
    {
        SimulationMetrics {
            simulations_total: 0,
            simulations_success: 0,
            simulations_error: 0,
            simulations_timeout: 0,
            simulations_stopped: 0,
            phase1_ok: 0,
            phase1_timeout: 0,
            phase2_ok: 0,
            phase2_timeout: 0,
            phase3_ok: 0,
            phase3_timeout: 0,
        }
    }

    /// The counters as they stand.
    pub fn snapshot(&self) -> (s: MetricsSnapshot)
        ensures
            s == self@,
    {
        MetricsSnapshot {
            simulations_total: self.simulations_total,
            simulations_success: self.simulations_success,
            simulations_error: self.simulations_error,
            simulations_timeout: self.simulations_timeout,
            simulations_stopped: self.simulations_stopped,
            phase1_ok: self.phase1_ok,
            phase1_timeout: self.phase1_timeout,
            phase2_ok: self.phase2_ok,
            phase2_timeout: self.phase2_timeout,
            phase3_ok: self.phase3_ok,
            phase3_timeout: self.phase3_timeout,
        }
    }

    /// One more run launched.
    pub fn inc_total(&mut self)
        ensures
            final(self)@ == (MetricsSnapshot {
                simulations_total: bump(old(self)@.simulations_total),
                ..old(self)@
            }),
    {
        self.simulations_total = bumped(self.simulations_total);
    }

    /// One more run that ended in success.
    pub fn inc_success(&mut self)
        ensures
            final(self)@ == (MetricsSnapshot {
                simulations_success: bump(old(self)@.simulations_success),
                ..old(self)@
            }),
    {
        self.simulations_success = bumped(self.simulations_success);
    }

    /// One more run that ended in an error.
    pub fn inc_error(&mut self)
        ensures
            final(self)@ == (MetricsSnapshot {
                simulations_error: bump(old(self)@.simulations_error),
                ..old(self)@
            }),
    {
        self.simulations_error = bumped(self.simulations_error);
    }

    /// One more run that ended without enough detections.
    pub fn inc_timeout(&mut self)
        ensures
            final(self)@ == (MetricsSnapshot {
                simulations_timeout: bump(old(self)@.simulations_timeout),
                ..old(self)@
            }),
    {
        self.simulations_timeout = bumped(self.simulations_timeout);
    }

    /// One more run stopped by the Décideur.
    pub fn inc_stopped(&mut self)
        ensures
            final(self)@ == (MetricsSnapshot {
                simulations_stopped: bump(old(self)@.simulations_stopped),
                ..old(self)@
            }),
    {
        self.simulations_stopped = bumped(self.simulations_stopped);
    }

    /// Records the outcome of phase `phase` (1 to 3; others are ignored).
    pub fn record_phase(&mut self, phase: u8, ok: bool)
        ensures
            final(self)@ == record_phase_spec(old(self)@, phase, ok),
    {
        match phase {
            1 => {
                if ok {
                    self.phase1_ok = bumped(self.phase1_ok);
                } else {
                    self.phase1_timeout = bumped(self.phase1_timeout);
                }
            },
            2 => {
                if ok {
                    self.phase2_ok = bumped(self.phase2_ok);
                } else {
                    self.phase2_timeout = bumped(self.phase2_timeout);
                }
            },
            3 => {
                if ok {
                    self.phase3_ok = bumped(self.phase3_ok);
                } else {
                    self.phase3_timeout = bumped(self.phase3_timeout);
                }
            },
            _ => {},
        }
    }
}

} // verus!
