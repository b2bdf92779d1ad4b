//! The subscriber contract: every subscriber kind owes a bill, computed from
//! its own tariff.

use vstd::prelude::*;

verus! {

/// The details shared by every subscriber kind.
pub struct SubscriberDetails {
    pub subscriber_id: String,
    pub address: String,
    pub phone_number: String,
    pub base_rate: i32,
}

/// A billable subscriber. `bill` is the owed amount as a mathematical
/// integer; `bill_fits` says when that amount, and every intermediate value
/// of its computation, stays within machine bounds.
pub trait Subscriber {
    spec fn bill(&self) -> int;

    spec fn bill_fits(&self) -> bool;

    fn calculate_bill(&self) -> (r: i32)
        requires
            self.bill_fits(),
        ensures
            r as int == self.bill(),
    ;
}

} // verus!
