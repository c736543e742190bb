use std::ops::Add;

use chrono::{Duration, Utc};

use testable_design::delivery::{Delivery, DeliveryService, DeliveryServiceImpl};

#[test]
fn delivery_for_a_past_day_is_invalid() {
    let test_cases = vec![(-1, false), (0, false), (1, false), (2, true)];
    let now = Utc::now();

    for (days_from_now, expected) in test_cases.into_iter() {
        let sut = DeliveryServiceImpl {};
        let delivery_date = now.add(Duration::days(days_from_now));
        let delivery = Delivery::new(delivery_date.timestamp());

        let is_valid = sut.is_delivery_valid(&now.timestamp(), &delivery);

        assert_eq!(
            expected, is_valid,
            "a day after {days_from_now} should be {expected}"
        );
    }
}
