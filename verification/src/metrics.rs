//! Process-wide request metrics: six independent counters and an immutable
//! snapshot with a derived success rate.
//!
//! The collector is an explicitly constructed, explicitly passed context
//! object.  Each increment touches exactly one counter; no ordering
//! relationship between counters is imposed by the collector itself — the
//! service pipeline is what increments "total" at entry and exactly one of
//! "successful"/"failed" at exit.  A counter that has reached its maximum
//! stays there rather than wrapping.

use vstd::prelude::*;
use crate::text::{spec_u64_chars, spec_digit_char, u64_to_string, digit_str};
use vstd::string::StringExecFns;

verus! {

/// One saturating increment of a counter.
pub open spec fn sat_inc(n: u64) -> u64 {
    if n == u64::MAX {
        n
    } else {
        (n + 1) as u64
    }
}

/// Request metrics collector.
pub struct Metrics {
    pub total_requests: u64,
    pub successful_requests: u64,
    pub failed_requests: u64,
    pub total_users_created: u64,
    pub total_sessions_created: u64,
    pub total_notifications_sent: u64,
}

/// A point-in-time copy of all six counters.
#[derive(Clone, Copy, PartialEq, Eq, Structural, Debug)]
pub struct MetricsSnapshot {
    pub total_requests: u64,
    pub successful_requests: u64,
    pub failed_requests: u64,
    pub total_users_created: u64,
    pub total_sessions_created: u64,
    pub total_notifications_sent: u64,
}

impl Metrics {
    /// A fresh collector with every counter at zero.
    pub fn new() -> (m: Metrics)
        ensures
            m.total_requests == 0,
            m.successful_requests == 0,
            m.failed_requests == 0,
            m.total_users_created == 0,
            m.total_sessions_created == 0,
            m.total_notifications_sent == 0,
    {
        Metrics {
            total_requests: 0,
            successful_requests: 0,
            failed_requests: 0,
            total_users_created: 0,
            total_sessions_created: 0,
            total_notifications_sent: 0,
        }
    }

    pub fn increment_requests(&mut self)
        ensures
            *final(self) == (Metrics {
                total_requests: sat_inc(old(self).total_requests),
                ..*old(self)
            }),
    {
        if self.total_requests < u64::MAX {
            self.total_requests = self.total_requests + 1;
        }
    }

    pub fn increment_successful(&mut self)
        ensures
            *final(self) == (Metrics {
                successful_requests: sat_inc(old(self).successful_requests),
                ..*old(self)
            }),
    {
        if self.successful_requests < u64::MAX {
            self.successful_requests = self.successful_requests + 1;
        }
    }

    pub fn increment_failed(&mut self)
        ensures
            *final(self) == (Metrics {
                failed_requests: sat_inc(old(self).failed_requests),
                ..*old(self)
            }),
    {
        if self.failed_requests < u64::MAX {
            self.failed_requests = self.failed_requests + 1;
        }
    }

    pub fn increment_users_created(&mut self)
        ensures
            *final(self) == (Metrics {
                total_users_created: sat_inc(old(self).total_users_created),
                ..*old(self)
            }),
    {
        if self.total_users_created < u64::MAX {
            self.total_users_created = self.total_users_created + 1;
        }
    }

    pub fn increment_sessions_created(&mut self)
        ensures
            *final(self) == (Metrics {
                total_sessions_created: sat_inc(old(self).total_sessions_created),
                ..*old(self)
            }),
    {
        if self.total_sessions_created < u64::MAX {
            self.total_sessions_created = self.total_sessions_created + 1;
        }
    }

    pub fn increment_notifications_sent(&mut self)
        ensures
            *final(self) == (Metrics {
                total_notifications_sent: sat_inc(old(self).total_notifications_sent),
                ..*old(self)
            }),
    {
        if self.total_notifications_sent < u64::MAX {
            self.total_notifications_sent = self.total_notifications_sent + 1;
        }
    }

    /// Captures a copy of every counter.
    pub fn get_snapshot(&self) -> (s: MetricsSnapshot)
        ensures
            s == self.spec_snapshot(),
    {
        MetricsSnapshot {
            total_requests: self.total_requests,
            successful_requests: self.successful_requests,
            failed_requests: self.failed_requests,
            total_users_created: self.total_users_created,
            total_sessions_created: self.total_sessions_created,
            total_notifications_sent: self.total_notifications_sent,
        }
    }

    /// The snapshot this collector would report right now.
    pub open spec fn spec_snapshot(&self) -> MetricsSnapshot {
        MetricsSnapshot {
            total_requests: self.total_requests,
            successful_requests: self.successful_requests,
            failed_requests: self.failed_requests,
            total_users_created: self.total_users_created,
            total_sessions_created: self.total_sessions_created,
            total_notifications_sent: self.total_notifications_sent,
        }
    }
}

/// The success rate scaled to hundredths of a percent: zero when no request
/// was counted, otherwise the integer part of successful / total * 10000.
pub open spec fn spec_rate_hundredths(successful: int, total: int) -> int {
    if total == 0 {
        0
    } else {
        successful * 10000 / total
    }
}

/// A value clipped into `u64` range.
pub open spec fn sat_u64(x: int) -> int {
    if x > u64::MAX as int {
        u64::MAX as int
    } else {
        x
    }
}

/// The success rate a snapshot reports, in hundredths of a percent.
pub open spec fn spec_snapshot_rate(s: MetricsSnapshot) -> int {
    sat_u64(spec_rate_hundredths(s.successful_requests as int, s.total_requests as int))
}

/// The JSON text a snapshot renders to: every counter in decimal and the
/// success rate with two decimal places (truncated).
pub open spec fn spec_metrics_json(s: MetricsSnapshot) -> Seq<char> {
    let h = spec_snapshot_rate(s);
    "{\n  \"total_requests\": "@ + spec_u64_chars(s.total_requests as int)
        + ",\n  \"successful_requests\": "@ + spec_u64_chars(s.successful_requests as int)
        + ",\n  \"failed_requests\": "@ + spec_u64_chars(s.failed_requests as int)
        + ",\n  \"success_rate\": "@ + spec_u64_chars(h / 100)
        + seq!['.', spec_digit_char(h % 100 / 10), spec_digit_char(h % 100 % 10)]
        + ",\n  \"total_users_created\": "@ + spec_u64_chars(s.total_users_created as int)
        + ",\n  \"total_sessions_created\": "@ + spec_u64_chars(s.total_sessions_created as int)
        + ",\n  \"total_notifications_sent\": "@ + spec_u64_chars(s.total_notifications_sent as int)
        + "\n}"@
}

impl MetricsSnapshot {
    /// Success rate in hundredths of a percent (10000 means every request
    /// succeeded), truncated toward zero.  The value saturates at
    /// `u64::MAX`, which is reachable only when the snapshot was assembled
    /// by hand with `successful_requests` vastly larger than
    /// `total_requests`.
    pub fn success_rate_hundredths(&self) -> (r: u64)
        ensures
            r == spec_snapshot_rate(*self),
    {
        if self.total_requests == 0 {
            return 0;
        }
        let wide: u128 = (self.successful_requests as u128) * 10000 / (self.total_requests as u128);
        proof {
            assert((self.successful_requests as u128) * 10000 <= u128::MAX) by (nonlinear_arith)
                requires
                    self.successful_requests <= u64::MAX,
            ;
        }
        if wide > u64::MAX as u128 {
            u64::MAX
        } else {
            wide as u64
        }
    }

    /// Renders the snapshot as the JSON object the service reports.  The
    /// success rate is written with two decimal places, truncated rather
    /// than rounded to nearest (one third shows as 33.33, two thirds as
    /// 66.66).
    pub fn to_json(&self) -> (r: String)
        ensures
            r@ == spec_metrics_json(*self),
    {
        let h = self.success_rate_hundredths();
        let mut s = String::from_str("{\n  \"total_requests\": ");
        s.append(u64_to_string(self.total_requests).as_str());
        s.append(",\n  \"successful_requests\": ");
        s.append(u64_to_string(self.successful_requests).as_str());
        s.append(",\n  \"failed_requests\": ");
        s.append(u64_to_string(self.failed_requests).as_str());
        s.append(",\n  \"success_rate\": ");
        s.append(u64_to_string(h / 100).as_str());
        s.append(".");
        s.append(digit_str(h % 100 / 10));
        s.append(digit_str(h % 100 % 10));
        s.append(",\n  \"total_users_created\": ");
        s.append(u64_to_string(self.total_users_created).as_str());
        s.append(",\n  \"total_sessions_created\": ");
        s.append(u64_to_string(self.total_sessions_created).as_str());
        s.append(",\n  \"total_notifications_sent\": ");
        s.append(u64_to_string(self.total_notifications_sent).as_str());
        s.append("\n}");
        proof {
            reveal_strlit(".");
            assert(s@ =~= spec_metrics_json(*self));
        }
        s
    }
}


/// One increment operation on the collector, named by the counter it
/// touches.
pub enum CounterOp {
    Request,
    Successful,
    Failed,
    UserCreated,
    SessionCreated,
    NotificationSent,
}

/// The collector after one increment.
pub open spec fn apply_op(m: Metrics, op: CounterOp) -> Metrics {
    match op {
        CounterOp::Request => Metrics { total_requests: sat_inc(m.total_requests), ..m },
        CounterOp::Successful => Metrics {
            successful_requests: sat_inc(m.successful_requests),
            ..m
        },
        CounterOp::Failed => Metrics { failed_requests: sat_inc(m.failed_requests), ..m },
        CounterOp::UserCreated => Metrics {
            total_users_created: sat_inc(m.total_users_created),
            ..m
        },
        CounterOp::SessionCreated => Metrics {
            total_sessions_created: sat_inc(m.total_sessions_created),
            ..m
        },
        CounterOp::NotificationSent => Metrics {
            total_notifications_sent: sat_inc(m.total_notifications_sent),
            ..m
        },
    }
}

/// The collector after a sequence of increments, applied in order.
pub open spec fn apply_ops(m: Metrics, ops: Seq<CounterOp>) -> Metrics
    decreases ops.len(),
{
    if ops.len() == 0 {
        m
    } else {
        apply_op(apply_ops(m, ops.drop_last()), ops.last())
    }
}

/// How many increments in the sequence touch the successful counter.
pub open spec fn successful_ops(ops: Seq<CounterOp>) -> int {
    ops.filter(|o: CounterOp| o is Successful).len() as int
}

/// Eventual consistency of the successful counter: no ordering holds
/// between counters while increments race — in particular nothing relates
/// successful + failed to total mid-flight — but once a sequence of
/// increments has completed, the successful counter has advanced by
/// exactly the number of successful increments issued (and so by no more
/// than the number of increments observed), as long as it stays below the
/// saturation bound.
pub proof fn lemma_successful_eventually(m: Metrics, ops: Seq<CounterOp>)
    requires
        m.successful_requests + successful_ops(ops) <= u64::MAX,
    ensures
        apply_ops(m, ops).successful_requests == m.successful_requests + successful_ops(ops),
        apply_ops(m, ops).successful_requests <= m.successful_requests + ops.len(),
    decreases ops.len(),
{
    let p = |o: CounterOp| o is Successful;
    broadcast use vstd::seq_lib::group_filter_ensures;

    if ops.len() > 0 {
        let rest = ops.drop_last();
        assert(rest.push(ops.last()) =~= ops);
        crate::seqs::lemma_filter_push(rest, ops.last(), p);
        lemma_successful_eventually(m, rest);
    } else {
        reveal(Seq::filter);
    }
}

} // verus!
