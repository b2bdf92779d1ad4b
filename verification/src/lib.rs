//! A presentation-layer DTO assembled through a dual-discipline builder:
//! a consuming variant whose configuration steps transfer ownership, and a
//! reference variant whose steps mutate in place and permit branching.
//! Alongside it stand small verified services: password authentication,
//! subscriber billing, and entity identity.

use vstd::prelude::*;

mod clock;

pub mod authenticator;
pub mod builder_state;
pub mod consuming;
pub mod entity;
pub mod isp_subscriber;
pub mod non_consuming;
pub mod password;
pub mod phone_subscriber;
pub mod subscriber;
pub mod text;
pub mod user_repository;

verus! {

/// A calendar date held as plain year, month and day. Only the year is
/// consumed by age derivation; month and day are carried for completeness.
pub struct Date {
    pub year: i32,
    pub month: u32,
    pub day: u32,
}

impl Date {
    pub fn from_ymd(year: i32, month: u32, day: u32) -> (r: Date)
        ensures
            r.year == year,
            r.month == month,
            r.day == day,
    {
        Date { year, month, day }
    }
}

} // verus!
