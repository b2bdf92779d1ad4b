//! A phone subscriber: billed per minute used.

use vstd::prelude::*;

use crate::subscriber::{Subscriber, SubscriberDetails};

verus! {

/// A subscriber billed at the base rate for every minute used.
pub struct PhoneSubscriber {
    pub details: SubscriberDetails,
    /// Minutes used.
    pub usage: i32,
}

impl Subscriber for PhoneSubscriber {
    open spec fn bill(&self) -> int {
        self.details.base_rate * self.usage
    }

    open spec fn bill_fits(&self) -> bool {
        i32::MIN <= self.details.base_rate * self.usage <= i32::MAX
    }

    fn calculate_bill(&self) -> (r: i32) {
        self.details.base_rate * self.usage
    }
}

} // verus!
