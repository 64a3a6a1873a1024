//! The two durations that the maintenance of the share chain is started
//! with: how often it runs, and how long a share stays in the reward window
//! before it is pruned.

use vstd::prelude::*;

verus! {

/// Seconds in an hour.
pub const SECONDS_PER_HOUR: u64 = 3600;

/// Seconds in a day.
pub const SECONDS_PER_DAY: u64 = 86400;

/// The durations of the maintenance, in seconds.
#[derive(Debug, Clone, Copy, PartialEq, Eq, Structural)]
pub struct MaintenanceSchedule {
    /// Time from one run to the next.
    pub frequency_secs: u64,
    /// Time after which a share leaves the reward window.
    pub ttl_secs: u64,
}

/// Whether both durations, in seconds, fit a `u64`.
pub open spec fn schedule_fits(frequency_hours: u64, ttl_days: u64) -> bool {
    frequency_hours * 3600 <= u64::MAX && ttl_days * 86400 <= u64::MAX
}

/// Turns the configured run frequency, in hours, and retention, in days, into
/// seconds. Returns `None` exactly when one of them does not fit a `u64`.
pub fn maintenance_schedule(frequency_hours: u64, ttl_days: u64) -> (r: Option<
    MaintenanceSchedule,
>)
    ensures
        schedule_fits(frequency_hours, ttl_days) ==> r == Some(
            MaintenanceSchedule {
                frequency_secs: (frequency_hours * 3600) as u64,
                ttl_secs: (ttl_days * 86400) as u64,
            },
        ),
        !schedule_fits(frequency_hours, ttl_days) ==> r is None,
{
    if frequency_hours > u64::MAX / SECONDS_PER_HOUR || ttl_days > u64::MAX / SECONDS_PER_DAY {
        None
    } else {
        Some(
            MaintenanceSchedule {
                frequency_secs: frequency_hours * SECONDS_PER_HOUR,
                ttl_secs: ttl_days * SECONDS_PER_DAY,
            },
        )
    }
}

} // verus!
