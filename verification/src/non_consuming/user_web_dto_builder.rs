//! The reference builder: every configuration step mutates the builder in
//! place and returns a mutable reference to the same instance, so a partially
//! configured builder can be duplicated and branched, and `build` can be
//! retried after a failure or repeated for several DTOs.

use vstd::prelude::*;
use vstd::string::StringExecFns;

use crate::Date;
use crate::builder_state::{BuildError, BuilderState, ConfigStep, apply_step, build_result};
use crate::clock;
use crate::consuming::address::Address;
use crate::consuming::user_web_dto::UserWebDTO;
use crate::text::{address_text, age_string, age_text, full_name_text};

verus! {

/// The mutation-through-reference builder. `build` borrows rather than
/// consumes, so the same builder can be corrected after a failed build, built
/// several times, and cloned at any intermediate state to branch two
/// independent configuration sequences from a common prefix.
pub struct UserWebDTOBuilder {
    first_name: Option<String>,
    last_name: Option<String>,
    address: Option<String>,
    age: Option<String>,
}

impl View for UserWebDTOBuilder {
    type V = BuilderState;

    closed spec fn view(&self) -> BuilderState {
        BuilderState {
            first_name: match self.first_name {
                Some(s) => Some(s@),
                None => None,
            },
            last_name: match self.last_name {
                Some(s) => Some(s@),
                None => None,
            },
            address: match self.address {
                Some(s) => Some(s@),
                None => None,
            },
            age: match self.age {
                Some(s) => Some(s@),
                None => None,
            },
        }
    }
}

impl Clone for UserWebDTOBuilder {
    /// A duplicate with the same state: the snapshot that branching starts
    /// from. The clone and the original mutate independently afterwards.
    fn clone(&self) -> (r: Self)
        ensures
            r@ == self@,
    {
        let r = UserWebDTOBuilder {
            first_name: match &self.first_name {
                Some(s) => Some(s.clone()),
                None => None,
            },
            last_name: match &self.last_name {
                Some(s) => Some(s.clone()),
                None => None,
            },
            address: match &self.address {
                Some(s) => Some(s.clone()),
                None => None,
            },
            age: match &self.age {
                Some(s) => Some(s.clone()),
                None => None,
            },
        };
        proof {
            assert(r@ =~= self@);
        }
        r
    }
}

impl UserWebDTOBuilder {
    /// An empty builder: no field set yet.
    pub fn new() -> (r: Self)
        ensures
            r@ == BuilderState::empty(),
    {
        let r = UserWebDTOBuilder { first_name: None, last_name: None, address: None, age: None };
        proof {
            assert(r@ =~= BuilderState::empty());
        }
        r
    }

    /// Stores the first name in place, overwriting any prior value and
    /// leaving the other fields untouched; returns the same builder for
    /// chaining.
    pub fn with_first_name(&mut self, first_name: String) -> (r: &mut Self)
        ensures
            (*r)@ == apply_step(old(self)@, ConfigStep::SetFirstName(first_name@)),
            *final(self) == *final(r),
    {
        self.first_name = Some(first_name);
        proof {
            assert(self@ =~= apply_step(old(self)@, ConfigStep::SetFirstName(self.first_name->Some_0@)));
        }
        self
    }

    /// Stores the last name in place, overwriting any prior value and leaving
    /// the other fields untouched; returns the same builder for chaining.
    pub fn with_last_name(&mut self, last_name: String) -> (r: &mut Self)
        ensures
            (*r)@ == apply_step(old(self)@, ConfigStep::SetLastName(last_name@)),
            *final(self) == *final(r),
    {
        self.last_name = Some(last_name);
        proof {
            assert(self@ =~= apply_step(old(self)@, ConfigStep::SetLastName(self.last_name->Some_0@)));
        }
        self
    }

    /// Derives the age from the birth date against an explicitly supplied
    /// current year and stores it as text in place, overwriting any prior
    /// value. The derivation is calendar-year subtraction only: no month or
    /// day adjustment.
    pub fn with_birth_date_as_of(&mut self, birth_date: Date, current_year: i32) -> (r: &mut Self)
        ensures
            (*r)@ == apply_step(
                old(self)@,
                ConfigStep::SetAge(age_text(current_year as int, birth_date.year as int)),
            ),
            *final(self) == *final(r),
    {
        let age = age_string(current_year, birth_date.year);
        self.age = Some(age);
        proof {
            assert(self@ =~= apply_step(
                old(self)@,
                ConfigStep::SetAge(age_text(current_year as int, birth_date.year as int)),
            ));
        }
        self
    }

    /// Derives the age from the birth date against the wall clock, sampled
    /// eagerly at this configuration step, and stores it as text in place.
    /// Which year the clock reports is outside the contract.
    pub fn with_birth_date(&mut self, birth_date: Date) -> (r: &mut Self)
        ensures
            exists|y: int|
                (*r)@ == apply_step(old(self)@, ConfigStep::SetAge(#[trigger] age_text(y, birth_date.year as int))),
            *final(self) == *final(r),
    {
        let current_year = clock::current_local_year();
        let r = self.with_birth_date_as_of(birth_date, current_year);
        proof {
            assert((*r)@ == apply_step(
                old(self)@,
                ConfigStep::SetAge(age_text(current_year as int, birth_date.year as int)),
            ));
        }
        r
    }

    /// Normalizes the structured address into the single comma-and-space
    /// joined text and stores it in place, discarding the structured form and
    /// overwriting any prior value; returns the same builder for chaining.
    pub fn with_address(&mut self, address: Address) -> (r: &mut Self)
        ensures
            (*r)@ == apply_step(
                old(self)@,
                ConfigStep::SetAddress(
                    address_text(
                        address.house_number@,
                        address.street@,
                        address.city@,
                        address.state@,
                        address.zip_code@,
                    ),
                ),
            ),
            *final(self) == *final(r),
    {
        let text = address
            .house_number
            .concat(", ")
            .concat(address.street.as_str())
            .concat(", ")
            .concat(address.city.as_str())
            .concat(", ")
            .concat(address.state.as_str())
            .concat(", ")
            .concat(address.zip_code.as_str());
        proof {
            reveal_strlit(", ");
            assert(text@ =~= address_text(
                address.house_number@,
                address.street@,
                address.city@,
                address.state@,
                address.zip_code@,
            ));
        }
        self.address = Some(text);
        proof {
            assert(self@ =~= apply_step(
                old(self)@,
                ConfigStep::SetAddress(
                    address_text(
                        address.house_number@,
                        address.street@,
                        address.city@,
                        address.state@,
                        address.zip_code@,
                    ),
                ),
            ));
        }
        self
    }

    /// Materializes a DTO from the current state when every required field
    /// has been set; fails with `IncompleteConfiguration`, yielding no partial
    /// DTO, when at least one field is missing. The builder is only borrowed,
    /// so after a failure it stays intact for correction and retry, and after
    /// a success it can be built again or mutated further.
    pub fn build(&self) -> (r: Result<UserWebDTO, BuildError>)
        ensures
            r is Ok <==> self@.complete(),
            r is Ok ==> Some(r->Ok_0@) == build_result(self@),
            r is Err ==> r->Err_0 == BuildError::IncompleteConfiguration,
    {
        match (&self.first_name, &self.last_name, &self.address, &self.age) {
            (Some(first_name), Some(last_name), Some(address), Some(age)) => {
                let name = first_name.clone().concat(" ").concat(last_name.as_str());
                proof {
                    reveal_strlit(" ");
                    assert(name@ =~= full_name_text(first_name@, last_name@));
                }
                let dto = UserWebDTO::new(name, address.clone(), age.clone());
                proof {
                    assert(Some(dto@) =~= build_result(self@));
                }
                Ok(dto)
            },
            _ => Err(BuildError::IncompleteConfiguration),
        }
    }
}

} // verus!
