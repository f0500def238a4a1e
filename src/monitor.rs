//! Decisions of the certificate monitor.
//!
//! The monitor runs forever: it reads the stored certificate, renews it when
//! it expires within the threshold, and otherwise sleeps until the threshold
//! is reached. The caller performs each action and reports what happened as
//! the next event; every decision is taken here.
use vstd::prelude::*;

verus! {

/// Below this many days before expiry the certificate is renewed.
pub const RENEWAL_THRESHOLD_DAYS: i32 = 10;

/// Wait after a failed renewal before the certificate is checked again.
pub const RETRY_BACKOFF_SECONDS: u64 = 30;

pub const SECONDS_PER_DAY: u64 = 86400;

/// Why the monitor stops.
#[derive(Clone, Copy, Debug, PartialEq, Eq, Structural)]
pub enum MonitorError {
    /// The stored certificate could not be read, parsed or dated.
    CertificateUnreadable,
    /// The time left before the threshold is not a positive duration.
    DurationComputation { days_remaining: i32 },
}

/// What the caller observed since the last action.
#[derive(Clone, Copy, Debug, PartialEq, Eq, Structural)]
pub enum MonitorEvent {
    /// The stored certificate was read: whole days left until it expires.
    Expiry { days_remaining: i32 },
    /// The stored certificate could not be read, parsed or dated.
    CertificateUnreadable,
    /// A new bundle was fetched and all four files were written.
    RenewalSucceeded,
    /// Fetching or writing the new bundle failed.
    RenewalFailed,
}

/// What the caller is to do next.
#[derive(Clone, Copy, Debug, PartialEq, Eq, Structural)]
pub enum MonitorAction {
    /// Fetch the bundle, write its files, and report the outcome.
    Renew,
    /// Read the stored certificate again now.
    Recheck,
    /// Wait this many seconds, then read the stored certificate again.
    Sleep { seconds: u64 },
    /// Stop the monitor with this error.
    Stop { error: MonitorError },
}

/// The wait, in seconds, until a certificate with `days` days left reaches
/// the threshold; `None` when that is not a positive duration.
pub open spec fn spec_sleep_seconds(days: i32) -> Option<int> {
    if days > RENEWAL_THRESHOLD_DAYS {
        Some((days - RENEWAL_THRESHOLD_DAYS) * SECONDS_PER_DAY)
    } else {
        None
    }
}

/// The monitor's transition: the action that follows an event.
pub open spec fn spec_next_action(event: MonitorEvent) -> MonitorAction {
    match event {
        MonitorEvent::Expiry { days_remaining } => {
            if days_remaining < RENEWAL_THRESHOLD_DAYS {
                MonitorAction::Renew
            } else {
                match spec_sleep_seconds(days_remaining) {
                    Some(s) => MonitorAction::Sleep { seconds: s as u64 },
                    None => MonitorAction::Stop {
                        error: MonitorError::DurationComputation { days_remaining },
                    },
                }
            }
        },
        MonitorEvent::CertificateUnreadable => MonitorAction::Stop {
            error: MonitorError::CertificateUnreadable,
        },
        MonitorEvent::RenewalSucceeded => MonitorAction::Recheck,
        MonitorEvent::RenewalFailed => MonitorAction::Sleep { seconds: RETRY_BACKOFF_SECONDS },
    }
}

/// The wait until a certificate with `days_remaining` days left reaches the
/// threshold, or the error that names the day count when it is not positive.
pub fn sleep_seconds(days_remaining: i32) -> (r: Result<u64, MonitorError>)
    ensures
        match spec_sleep_seconds(days_remaining) {
            Some(s) => r == Ok::<u64, MonitorError>(s as u64) && s <= u64::MAX,
            None => r == Err::<u64, MonitorError>(
                MonitorError::DurationComputation { days_remaining },
            ),
        },
{
    if days_remaining > RENEWAL_THRESHOLD_DAYS {
        let days = (days_remaining - RENEWAL_THRESHOLD_DAYS) as u64;
        assert(days * SECONDS_PER_DAY <= u64::MAX) by (nonlinear_arith)
            requires
                days <= i32::MAX,
        ;
        Ok(days * SECONDS_PER_DAY)
    } else {
        Err(MonitorError::DurationComputation { days_remaining })
    }
}

/// The action that follows `event`.
pub fn next_action(event: MonitorEvent) -> (a: MonitorAction)
    ensures
        a == spec_next_action(event),
{
    match event {
        MonitorEvent::Expiry { days_remaining } => {
            if days_remaining < RENEWAL_THRESHOLD_DAYS {
                MonitorAction::Renew
            } else {
                match sleep_seconds(days_remaining) {
                    Ok(seconds) => MonitorAction::Sleep { seconds },
                    Err(error) => MonitorAction::Stop { error },
                }
            }
        },
        MonitorEvent::CertificateUnreadable => MonitorAction::Stop {
            error: MonitorError::CertificateUnreadable,
        },
        MonitorEvent::RenewalSucceeded => MonitorAction::Recheck,
        MonitorEvent::RenewalFailed => MonitorAction::Sleep { seconds: RETRY_BACKOFF_SECONDS },
    }
}

/// The actions that a run of events leads to, one per event.
pub open spec fn run_actions(events: Seq<MonitorEvent>) -> Seq<MonitorAction> {
    events.map_values(|e: MonitorEvent| spec_next_action(e))
}

/// A failed renewal does not end the monitor: it waits the fixed backoff,
/// checks again, renews again while the certificate still expires within the
/// threshold, and once a renewal succeeds it checks the new certificate at
/// once. No step of such a run stops.
pub proof fn lemma_failed_renewal_is_retried(first_days: i32, second_days: i32)
    requires
        first_days < RENEWAL_THRESHOLD_DAYS,
        second_days < RENEWAL_THRESHOLD_DAYS,
    ensures
        run_actions(
            seq![
                MonitorEvent::Expiry { days_remaining: first_days },
                MonitorEvent::RenewalFailed,
                MonitorEvent::Expiry { days_remaining: second_days },
                MonitorEvent::RenewalSucceeded,
            ],
        ) == seq![
            MonitorAction::Renew,
            MonitorAction::Sleep { seconds: RETRY_BACKOFF_SECONDS },
            MonitorAction::Renew,
            MonitorAction::Recheck,
        ],
        forall|e: MonitorEvent|
            e == MonitorEvent::RenewalFailed || e == MonitorEvent::RenewalSucceeded
                ==> !(#[trigger] spec_next_action(e) is Stop),
{
    let events = seq![
        MonitorEvent::Expiry { days_remaining: first_days },
        MonitorEvent::RenewalFailed,
        MonitorEvent::Expiry { days_remaining: second_days },
        MonitorEvent::RenewalSucceeded,
    ];
    assert(run_actions(events) =~= seq![
        MonitorAction::Renew,
        MonitorAction::Sleep { seconds: RETRY_BACKOFF_SECONDS },
        MonitorAction::Renew,
        MonitorAction::Recheck,
    ]);
}

} // verus!
