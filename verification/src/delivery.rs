//! The delivery-date check: a delivery is valid only when it lies at
//! least two whole days past the given current instant. Instants are
//! held as seconds of the Unix epoch.

use vstd::prelude::*;

verus! {

/// Two days, in seconds.
pub const TWO_DAYS_IN_SECONDS: i64 = 172800;

/// A scheduled delivery, by its instant in seconds of the Unix epoch.
pub struct Delivery {
    pub date_time: i64,
}

impl Delivery {
    pub fn new(date_time: i64) -> (r: Delivery)
        ensures
            r.date_time == date_time,
    {
        Delivery { date_time }
    }
}

/// A delivery is valid when its instant lies at least two whole days
/// past the current one.
pub open spec fn delivery_is_valid(now: int, delivery: int) -> bool {
    now + TWO_DAYS_IN_SECONDS <= delivery
}

/// What callers need of the delivery check.
pub trait DeliveryService {
    fn is_delivery_valid(&self, now: &i64, delivery: &Delivery) -> (r: bool)
        requires
            *now + TWO_DAYS_IN_SECONDS <= i64::MAX,
        ensures
            r == delivery_is_valid(*now as int, delivery.date_time as int),
    ;
}

pub struct DeliveryServiceImpl {}

impl DeliveryService for DeliveryServiceImpl {
    fn is_delivery_valid(&self, now: &i64, delivery: &Delivery) -> (r: bool) {
        *now + TWO_DAYS_IN_SECONDS <= delivery.date_time
    }
}

} // verus!
