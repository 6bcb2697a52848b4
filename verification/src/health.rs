//! The health-status decision: thresholds and hysteresis over the service
//! metrics. The rate of failing RPC calls is carried as a whole-number
//! percentage, so every threshold of the policy is exact.

use vstd::prelude::*;

verus! {

/// The reported service health.
#[derive(Clone, Copy, Debug, PartialEq, Eq, Structural)]
pub enum StatusKind {
    Ready,
    Degraded,
    Down,
}

/// A snapshot of the service metrics. `rpc_error_rate_pct` is the failing
/// fraction of RPC calls in percent (0..=100).
#[derive(Clone, Copy, Debug, PartialEq, Eq, Structural)]
pub struct Metrics {
    pub db_up: bool,
    pub node_reachable: bool,
    pub unreachable_streak: u32,
    pub indexer_lag_sec: u32,
    pub queue_depth: u32,
    pub rpc_error_rate_pct: u32,
}

pub const LAG_READY: u32 = 30;

pub const LAG_DEG: u32 = 120;

pub const Q_DEG: u32 = 100;

pub const Q_DOWN: u32 = 500;

pub const RPC_DEG_PCT: u32 = 10;

pub const RPC_DOWN_PCT: u32 = 80;

pub const UNR_STREAK_DOWN: u32 = 3;

pub const COOLDOWN_MS: u64 = 30000;

pub const REC_DOWN_LAG: u32 = 100;

pub const REC_DOWN_Q: u32 = 300;

pub const REC_DOWN_RPC_PCT: u32 = 50;

pub const REC_DEG_LAG: u32 = 25;

pub const REC_DEG_Q: u32 = 80;

pub const REC_DEG_RPC_PCT: u32 = 5;

/// Whether the metrics cross a hard-down threshold.
pub open spec fn hard_down(m: Metrics) -> bool {
    ||| !m.db_up
    ||| !m.node_reachable
    ||| m.unreachable_streak >= UNR_STREAK_DOWN
    ||| m.indexer_lag_sec >= LAG_DEG
    ||| m.queue_depth >= Q_DOWN
    ||| m.rpc_error_rate_pct >= RPC_DOWN_PCT
}

/// Whether the metrics sit in a degraded band.
pub open spec fn soft_deg(m: Metrics) -> bool {
    ||| (m.indexer_lag_sec >= LAG_READY && m.indexer_lag_sec < LAG_DEG)
    ||| (m.queue_depth >= Q_DEG && m.queue_depth < Q_DOWN)
    ||| (m.rpc_error_rate_pct >= RPC_DEG_PCT && m.rpc_error_rate_pct < RPC_DOWN_PCT)
    ||| (m.unreachable_streak > 0 && m.node_reachable)
}

/// The raw status the thresholds give, before hysteresis.
pub open spec fn raw_status(m: Metrics) -> StatusKind {
    if hard_down(m) {
        StatusKind::Down
    } else if soft_deg(m) {
        StatusKind::Degraded
    } else {
        StatusKind::Ready
    }
}

/// Whether the metrics are good enough to leave Down inside the cooldown.
pub open spec fn recovered_from_down(m: Metrics) -> bool {
    &&& m.indexer_lag_sec < REC_DOWN_LAG
    &&& m.queue_depth < REC_DOWN_Q
    &&& m.rpc_error_rate_pct < REC_DOWN_RPC_PCT
    &&& m.db_up
    &&& m.node_reachable
    &&& m.unreachable_streak == 0
}

/// Whether the metrics are stable enough to leave Degraded inside the
/// cooldown.
pub open spec fn stable_from_deg(m: Metrics) -> bool {
    &&& m.indexer_lag_sec < REC_DEG_LAG
    &&& m.queue_depth < REC_DEG_Q
    &&& m.rpc_error_rate_pct < REC_DEG_RPC_PCT
    &&& m.db_up
    &&& m.node_reachable
    &&& m.unreachable_streak == 0
}

/// The decision with hysteresis: the status the thresholds give, except
/// that within the cooldown window a recovery from Down or from Degraded
/// is held back ("sticks") until the recovery bands confirm it. The result
/// is the status, its message, and whether the previous status sticks.
pub open spec fn decide_spec(m: Metrics, last: StatusKind, elapsed_ms: u64) -> (
    StatusKind,
    Seq<char>,
    bool,
) {
    let status = raw_status(m);
    let msg = (match status {
        StatusKind::Ready => "OK"@,
        StatusKind::Degraded => "Degraded: thresholds exceeded"@,
        StatusKind::Down => "Down or critical thresholds exceeded"@,
    });
    if elapsed_ms < COOLDOWN_MS {
        if last == StatusKind::Down && status != StatusKind::Down && !recovered_from_down(m) {
            (StatusKind::Down, "Cooling down"@, true)
        } else if last == StatusKind::Degraded && status == StatusKind::Ready && !stable_from_deg(
            m,
        ) {
            (StatusKind::Degraded, "Stabilizing"@, true)
        } else {
            (status, msg, false)
        }
    } else {
        (status, msg, false)
    }
}

/// Decides the health status from a metrics snapshot, the last reported
/// status, and the milliseconds elapsed since it last changed.
pub fn decide(m: &Metrics, last: StatusKind, elapsed_ms: u64) -> (r: (StatusKind, &'static str, bool))
    ensures
        r.0 == decide_spec(*m, last, elapsed_ms).0,
        r.1@ == decide_spec(*m, last, elapsed_ms).1,
        r.2 == decide_spec(*m, last, elapsed_ms).2,
{
    let in_cooldown = elapsed_ms < COOLDOWN_MS;

    let hard = !m.db_up || !m.node_reachable || m.unreachable_streak >= UNR_STREAK_DOWN
        || m.indexer_lag_sec >= LAG_DEG || m.queue_depth >= Q_DOWN || m.rpc_error_rate_pct
        >= RPC_DOWN_PCT;

    let soft = (m.indexer_lag_sec >= LAG_READY && m.indexer_lag_sec < LAG_DEG) || (m.queue_depth
        >= Q_DEG && m.queue_depth < Q_DOWN) || (m.rpc_error_rate_pct >= RPC_DEG_PCT
        && m.rpc_error_rate_pct < RPC_DOWN_PCT) || (m.unreachable_streak > 0 && m.node_reachable);

    let status = if hard {
        StatusKind::Down
    } else if soft {
        StatusKind::Degraded
    } else {
        StatusKind::Ready
    };

    let msg = match status {
        StatusKind::Ready => "OK",
        StatusKind::Degraded => "Degraded: thresholds exceeded",
        StatusKind::Down => "Down or critical thresholds exceeded",
    };

    if in_cooldown {
        if last == StatusKind::Down && status != StatusKind::Down {
            let good = m.indexer_lag_sec < REC_DOWN_LAG && m.queue_depth < REC_DOWN_Q
                && m.rpc_error_rate_pct < REC_DOWN_RPC_PCT && m.db_up && m.node_reachable
                && m.unreachable_streak == 0;
            if !good {
                return (StatusKind::Down, "Cooling down", true);
            }
        } else if last == StatusKind::Degraded && status == StatusKind::Ready {
            let stable = m.indexer_lag_sec < REC_DEG_LAG && m.queue_depth < REC_DEG_Q
                && m.rpc_error_rate_pct < REC_DEG_RPC_PCT && m.db_up && m.node_reachable
                && m.unreachable_streak == 0;
            if !stable {
                return (StatusKind::Degraded, "Stabilizing", true);
            }
        }
    }

    (status, msg, false)
}

/// The metrics an operator's override sets: the preset of each target
/// status, chosen so the thresholds report that status.
pub fn preset_metrics(which: StatusKind) -> (m: Metrics)
    ensures
        raw_status(m) == which,
        m == (match which {
            StatusKind::Ready => Metrics {
                db_up: true,
                node_reachable: true,
                indexer_lag_sec: 5,
                queue_depth: 0,
                rpc_error_rate_pct: 0,
                unreachable_streak: 0,
            },
            StatusKind::Degraded => Metrics {
                db_up: true,
                node_reachable: true,
                indexer_lag_sec: 45,
                queue_depth: 150,
                rpc_error_rate_pct: 20,
                unreachable_streak: 0,
            },
            StatusKind::Down => Metrics {
                db_up: false,
                node_reachable: false,
                indexer_lag_sec: 200,
                queue_depth: 800,
                rpc_error_rate_pct: 90,
                unreachable_streak: 5,
            },
        }),
{
    match which {
        StatusKind::Ready => Metrics {
            db_up: true,
            node_reachable: true,
            indexer_lag_sec: 5,
            queue_depth: 0,
            rpc_error_rate_pct: 0,
            unreachable_streak: 0,
        },
        StatusKind::Degraded => Metrics {
            db_up: true,
            node_reachable: true,
            indexer_lag_sec: 45,
            queue_depth: 150,
            rpc_error_rate_pct: 20,
            unreachable_streak: 0,
        },
        StatusKind::Down => Metrics {
            db_up: false,
            node_reachable: false,
            indexer_lag_sec: 200,
            queue_depth: 800,
            rpc_error_rate_pct: 90,
            unreachable_streak: 5,
        },
    }
}

} // verus!
