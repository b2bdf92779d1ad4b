//! An internet subscriber: billed per gigabyte beyond the free allowance.

use vstd::prelude::*;

use crate::subscriber::{Subscriber, SubscriberDetails};

verus! {

/// A subscriber billed at the base rate for every gigabyte used beyond the
/// free allowance; usage within the allowance costs nothing.
pub struct ISPSubscriber {
    pub details: SubscriberDetails,
    /// Gigabytes used.
    pub data_usage: i32,
    /// Gigabytes available for free.
    pub free_usage: i32,
}

impl Subscriber for ISPSubscriber {
    open spec fn bill(&self) -> int {
        (if self.data_usage > self.free_usage {
            self.data_usage - self.free_usage
        } else {
            0
        }) * self.details.base_rate
    }

    open spec fn bill_fits(&self) -> bool {
        &&& self.data_usage > self.free_usage ==> self.data_usage - self.free_usage <= i32::MAX
        &&& i32::MIN <= self.bill() <= i32::MAX
    }

    fn calculate_bill(&self) -> (r: i32) {
        let chargeable_usage: i32 = if self.data_usage > self.free_usage {
            self.data_usage - self.free_usage
        } else {
            0
        };
        chargeable_usage * self.details.base_rate
    }
}

} // verus!
