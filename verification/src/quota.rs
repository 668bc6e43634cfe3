//! The daily quota of one issuer: what it has issued within the calendar day
//! of its last issuance, and the rules by which that total is reset and
//! charged.

use vstd::prelude::*;
use crate::address::Address;

verus! {

/// The length of a calendar day, in seconds.
pub const SECONDS_PER_DAY: i64 = 86_400;

/// The index of the calendar day that a Unix time falls in: the time divided
/// by the length of a day, rounded down.
pub open spec fn day_of(unix_timestamp: i64) -> i64 {
    (unix_timestamp / 86_400) as i64
}

/// The sum of two amounts, held at the largest amount where it would pass it.
pub open spec fn saturating_sum(a: u64, b: u64) -> u64 {
    if a + b > u64::MAX {
        u64::MAX
    } else {
        (a + b) as u64
    }
}

/// The index of the calendar day that `unix_timestamp` falls in. Times before
/// the epoch fall in days below zero.
pub fn day_index(unix_timestamp: i64) -> (day: i64)
    ensures
        day == day_of(unix_timestamp),
        day == unix_timestamp as int / 86_400,
{
    if unix_timestamp >= 0 {
        unix_timestamp / SECONDS_PER_DAY
    } else {
        let whole_days_back: i64 = (-(unix_timestamp + 1)) / SECONDS_PER_DAY;
        -whole_days_back - 1
    }
}

/// One authorised wallet and its quota ledger.
///
/// `issued_today` is what the wallet has issued within day `last_issue_day`;
/// on any other day it stands for nothing issued yet. A record stays bound to
/// its wallet for good.
#[derive(Clone, Copy, Debug, PartialEq, Eq)]
pub struct Issuer {
    pub wallet: Address,
    pub issued_today: u64,
    pub last_issue_day: i64,
    pub active: bool,
}

impl Issuer {
    /// The record of a wallet that has just been admitted.
    pub open spec fn fresh(wallet: Address) -> Issuer {
        Issuer { wallet, issued_today: 0, last_issue_day: 0, active: true }
    }

    /// The record as it counts on `day`: unchanged within the day of the last
    /// issuance, and with nothing issued on any other day.
    pub open spec fn rolled_over(self, day: i64) -> Issuer {
        if self.last_issue_day != day {
            Issuer { issued_today: 0, last_issue_day: day, ..self }
        } else {
            self
        }
    }

    /// Whether `amount` more keeps the total within `cap`.
    pub open spec fn admits(self, amount: u64, cap: u64) -> bool {
        saturating_sum(self.issued_today, amount) <= cap
    }

    /// The record with `amount` more issued.
    pub open spec fn charged(self, amount: u64) -> Issuer {
        Issuer { issued_today: saturating_sum(self.issued_today, amount), ..self }
    }

    /// A record for `wallet`: active, with nothing issued.
    pub fn new(wallet: Address) -> (issuer: Issuer)
        ensures
            issuer == Issuer::fresh(wallet),
    {
        Issuer { wallet, issued_today: 0, last_issue_day: 0, active: true }
    }

    /// Brings the record to `day`. The total starts again from zero when the
    /// day differs from that of the last issuance; there is no other reset.
    pub fn rollover(&mut self, day: i64)
        ensures
            *final(self) == old(self).rolled_over(day),
    {
        if self.last_issue_day != day {
            self.last_issue_day = day;
            self.issued_today = 0;
        }
    }

    /// Whether `amount` more keeps the total within `cap`. A sum that would
    /// leave the range of amounts counts as the largest amount.
    pub fn within_cap(&self, amount: u64, cap: u64) -> (fits: bool)
        ensures
            fits == self.admits(amount, cap),
    {
        self.issued_today.saturating_add(amount) <= cap
    }

    /// Adds `amount` to the total, with the same saturating sum as the check.
    pub fn charge(&mut self, amount: u64)
        ensures
            *final(self) == old(self).charged(amount),
    {
        self.issued_today = self.issued_today.saturating_add(amount);
    }
}

} // verus!
