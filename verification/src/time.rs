//! Points in time at second precision.

use vstd::prelude::*;

verus! {

/// The number of seconds in one day.
pub const SECONDS_IN_A_DAY: i64 = 86_400;

/// A point in time: whole seconds since the Unix epoch.
#[derive(Clone, Copy, Debug, PartialEq, Eq, Structural)]
pub struct Instant {
    pub seconds_since_unix_epoch: i64,
}

/// How two instants are compared.
#[derive(Clone, Copy, Debug, PartialEq, Eq, Structural)]
pub enum TimeComparisonOperator {
    Eq,
    Lt,
    Lte,
    Gt,
    Gte,
}

/// What comparing `left` with `right` under `operator` gives, both in seconds.
pub open spec fn compare_seconds(left: i64, right: i64, operator: TimeComparisonOperator) -> bool {
    match operator {
        TimeComparisonOperator::Eq => left == right,
        TimeComparisonOperator::Lt => left < right,
        TimeComparisonOperator::Lte => left <= right,
        TimeComparisonOperator::Gt => left > right,
        TimeComparisonOperator::Gte => left >= right,
    }
}

/// The second that lies `days` days after `seconds`, where both the length of
/// the span and the sum fit in an `i64`.
pub open spec fn seconds_after_days(seconds: i64, days: i64) -> Option<i64> {
    let span = days * SECONDS_IN_A_DAY;
    if i64::MIN <= span <= i64::MAX && i64::MIN <= seconds + span <= i64::MAX {
        Some((seconds + span) as i64)
    } else {
        None
    }
}

/// Calls `Instant::compare` of scrypto on two instants made of the given
/// seconds. Its source compares the two second counts with the operator
/// given: that is all this contract claims.
#[verifier::external_body]
fn scrypto_compare(left: i64, right: i64, operator: TimeComparisonOperator) -> (holds: bool)
    ensures
        holds == compare_seconds(left, right, operator),
{
    let operator = match operator {
        TimeComparisonOperator::Eq => scrypto::prelude::TimeComparisonOperator::Eq,
        TimeComparisonOperator::Lt => scrypto::prelude::TimeComparisonOperator::Lt,
        TimeComparisonOperator::Lte => scrypto::prelude::TimeComparisonOperator::Lte,
        TimeComparisonOperator::Gt => scrypto::prelude::TimeComparisonOperator::Gt,
        TimeComparisonOperator::Gte => scrypto::prelude::TimeComparisonOperator::Gte,
    };
    scrypto::prelude::Instant::new(left).compare(scrypto::prelude::Instant::new(right), operator)
}

/// Calls `Instant::add_days` of scrypto on an instant made of `seconds`. Its
/// source multiplies the days by 86 400 and adds the product to the seconds,
/// and gives `None` where either step leaves the range of `i64`.
#[verifier::external_body]
fn scrypto_add_days(seconds: i64, days_to_add: i64) -> (sum: Option<i64>)
    ensures
        sum == seconds_after_days(seconds, days_to_add),
{
    scrypto::prelude::Instant::new(seconds)
        .add_days(days_to_add)
        .map(|instant| instant.seconds_since_unix_epoch)
}

impl Instant {
    /// The instant that many seconds after the epoch.
    pub fn new(seconds_since_unix_epoch: i64) -> (instant: Instant)
        ensures
            instant.seconds_since_unix_epoch == seconds_since_unix_epoch,
    {
        Instant { seconds_since_unix_epoch }
    }

    /// Whether `self` stands in the relation `operator` to `other`.
    pub open spec fn spec_compare(self, other: Instant, operator: TimeComparisonOperator) -> bool {
        compare_seconds(self.seconds_since_unix_epoch, other.seconds_since_unix_epoch, operator)
    }

    /// The instant `days` days after `self`, if it can be represented.
    pub open spec fn spec_add_days(self, days: i64) -> Option<Instant> {
        match seconds_after_days(self.seconds_since_unix_epoch, days) {
            Some(seconds) => Some(Instant { seconds_since_unix_epoch: seconds }),
            None => None,
        }
    }

    /// Compares two instants by their seconds.
    pub fn compare(&self, other: Instant, operator: TimeComparisonOperator) -> (holds: bool)
        ensures
            holds == self.spec_compare(other, operator),
    {
        scrypto_compare(self.seconds_since_unix_epoch, other.seconds_since_unix_epoch, operator)
    }

    /// Adds whole days; `None` where the result would leave the range of `i64`.
    pub fn add_days(&self, days_to_add: i64) -> (later: Option<Instant>)
        ensures
            later == self.spec_add_days(days_to_add),
    {
        match scrypto_add_days(self.seconds_since_unix_epoch, days_to_add) {
            Some(seconds) => Some(Instant { seconds_since_unix_epoch: seconds }),
            None => None,
        }
    }
}

} // verus!
