//! Health and readiness reporting.
//!
//! The probe against the persistence collaborator is I/O and happens outside
//! this crate; the caller hands in its outcome as a boolean, together with
//! whether the notification gateway was constructed at start-up, and this
//! module derives the status fresh on every call.

use vstd::prelude::*;
use crate::text::{spec_u64_chars, spec_bool_chars, u64_to_string, bool_to_string};
use vstd::string::StringExecFns;

verus! {

/// Health check status, computed fresh on every probe.
pub struct HealthStatus {
    pub status: String,
    pub database: bool,
    pub firebase: bool,
    pub uptime_seconds: u64,
}

/// The JSON text a health status renders to.
pub open spec fn spec_health_json(s: HealthStatus) -> Seq<char> {
    "{\n  \"status\": \""@ + s.status@
        + "\",\n  \"database\": "@ + spec_bool_chars(s.database)
        + ",\n  \"firebase\": "@ + spec_bool_chars(s.firebase)
        + ",\n  \"uptime_seconds\": "@ + spec_u64_chars(s.uptime_seconds as int)
        + "\n}"@
}

impl HealthStatus {
    /// Renders the status as the JSON object the service reports.
    pub fn to_json(&self) -> (r: String)
        ensures
            r@ == spec_health_json(*self),
    {
        let mut s = String::from_str("{\n  \"status\": \"");
        s.append(self.status.as_str());
        s.append("\",\n  \"database\": ");
        s.append(bool_to_string(self.database).as_str());
        s.append(",\n  \"firebase\": ");
        s.append(bool_to_string(self.firebase).as_str());
        s.append(",\n  \"uptime_seconds\": ");
        s.append(u64_to_string(self.uptime_seconds).as_str());
        s.append("\n}");
        proof {
            assert(s@ =~= spec_health_json(*self));
        }
        s
    }
}

/// Derives the overall health status from the probe outcomes.
///
/// The status is "healthy" exactly when the persistence probe succeeded;
/// whether the notification gateway is configured is reported separately
/// and does not degrade the status.  Uptime is the elapsed time since
/// process start, in whole seconds.
pub fn check_health(database: bool, firebase: bool, start_millis: u64, now_millis: u64) -> (r:
    HealthStatus)
    ensures
        r.database == database,
        r.firebase == firebase,
        database ==> r.status@ == "healthy"@,
        !database ==> r.status@ == "unhealthy"@,
        now_millis >= start_millis ==> r.uptime_seconds == (now_millis - start_millis) / 1000,
        now_millis < start_millis ==> r.uptime_seconds == 0,
{
    let uptime_seconds: u64 = if now_millis >= start_millis {
        (now_millis - start_millis) / 1000
    } else {
        0
    };
    let status = if database {
        String::from_str("healthy")
    } else {
        String::from_str("unhealthy")
    };
    HealthStatus { status, database, firebase, uptime_seconds }
}

/// The readiness gate: strict in that it requires the persistence
/// collaborator to be reachable right now.
pub fn check_readiness(database: bool) -> (r: bool)
    ensures
        r == database,
{
    database
}

} // verus!
