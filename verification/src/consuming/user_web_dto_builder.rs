//! The consuming builder: every configuration step takes ownership of the
//! builder and returns the updated builder, so a prior binding can never be
//! reused and each chain assembles exactly one DTO. `build` consumes the
//! builder and is terminal.

use vstd::prelude::*;
use vstd::string::StringExecFns;

use crate::Date;
use crate::builder_state::{BuildError, BuilderState, ConfigStep, apply_step, build_result};
use crate::clock;
use crate::consuming::address::Address;
use crate::consuming::user_web_dto::UserWebDTO;
use crate::text::{address_text, age_string, age_text, full_name_text};

verus! {

/// The ownership-transferring builder. Each setter consumes the builder, so
/// reuse or branching of an intermediate configuration state is rejected at
/// compile time; this is the variant's linearity guarantee.
pub struct UserWebDTOBuilder {
    first_name: Option<String>,
    last_name: Option<String>,
    address: Option<String>,
    age: Option<String>,
}

impl View for UserWebDTOBuilder {
    type V = BuilderState;

    closed spec fn view(&self) -> BuilderState {
        BuilderState {
            first_name: match self.first_name {
                Some(s) => Some(s@),
                None => None,
            },
            last_name: match self.last_name {
                Some(s) => Some(s@),
                None => None,
            },
            address: match self.address {
                Some(s) => Some(s@),
                None => None,
            },
            age: match self.age {
                Some(s) => Some(s@),
                None => None,
            },
        }
    }
}

impl UserWebDTOBuilder {
    /// An empty builder: no field set yet.
    pub fn new() -> (r: Self)
        ensures
            r@ == BuilderState::empty(),
    {
        let r = UserWebDTOBuilder { first_name: None, last_name: None, address: None, age: None };
        proof {
            assert(r@ =~= BuilderState::empty());
        }
        r
    }

    /// Stores the first name, overwriting any prior value and leaving the
    /// other fields untouched.
    pub fn with_first_name(self, first_name: String) -> (r: Self)
        ensures
            r@ == apply_step(self@, ConfigStep::SetFirstName(first_name@)),
    {
        let ghost prior = self@;
        let mut b = self;
        b.first_name = Some(first_name);
        proof {
            assert(b@ =~= apply_step(prior, ConfigStep::SetFirstName(first_name@)));
        }
        b
    }

    /// Stores the last name, overwriting any prior value and leaving the
    /// other fields untouched.
    pub fn with_last_name(self, last_name: String) -> (r: Self)
        ensures
            r@ == apply_step(self@, ConfigStep::SetLastName(last_name@)),
    {
        let ghost prior = self@;
        let mut b = self;
        b.last_name = Some(last_name);
        proof {
            assert(b@ =~= apply_step(prior, ConfigStep::SetLastName(last_name@)));
        }
        b
    }

    /// Derives the age from the birth date against an explicitly supplied
    /// current year and stores it as text, overwriting any prior value. The
    /// derivation is calendar-year subtraction only: no month or day
    /// adjustment.
    pub fn with_birth_date_as_of(self, birth_date: Date, current_year: i32) -> (r: Self)
        ensures
            r@ == apply_step(
                self@,
                ConfigStep::SetAge(age_text(current_year as int, birth_date.year as int)),
            ),
    {
        let ghost prior = self@;
        let age = age_string(current_year, birth_date.year);
        let mut b = self;
        b.age = Some(age);
        proof {
            assert(b@ =~= apply_step(
                prior,
                ConfigStep::SetAge(age_text(current_year as int, birth_date.year as int)),
            ));
        }
        b
    }

    /// Derives the age from the birth date against the wall clock, sampled
    /// eagerly at this configuration step, and stores it as text. Which year
    /// the clock reports is outside the contract.
    pub fn with_birth_date(self, birth_date: Date) -> (r: Self)
        ensures
            exists|y: int|
                r@ == apply_step(self@, ConfigStep::SetAge(#[trigger] age_text(y, birth_date.year as int))),
    {
        let ghost prior = self@;
        let current_year = clock::current_local_year();
        let r = self.with_birth_date_as_of(birth_date, current_year);
        proof {
            assert(r@ == apply_step(
                prior,
                ConfigStep::SetAge(age_text(current_year as int, birth_date.year as int)),
            ));
        }
        r
    }

    /// Normalizes the structured address into the single comma-and-space
    /// joined text and stores it, discarding the structured form and
    /// overwriting any prior value.
    pub fn with_address(self, address: Address) -> (r: Self)
        ensures
            r@ == apply_step(
                self@,
                ConfigStep::SetAddress(
                    address_text(
                        address.house_number@,
                        address.street@,
                        address.city@,
                        address.state@,
                        address.zip_code@,
                    ),
                ),
            ),
    {
        let ghost prior = self@;
        let text = address
            .house_number
            .concat(", ")
            .concat(address.street.as_str())
            .concat(", ")
            .concat(address.city.as_str())
            .concat(", ")
            .concat(address.state.as_str())
            .concat(", ")
            .concat(address.zip_code.as_str());
        proof {
            reveal_strlit(", ");
            assert(text@ =~= address_text(
                address.house_number@,
                address.street@,
                address.city@,
                address.state@,
                address.zip_code@,
            ));
        }
        let mut b = self;
        b.address = Some(text);
        proof {
            assert(b@ =~= apply_step(
                prior,
                ConfigStep::SetAddress(
                    address_text(
                        address.house_number@,
                        address.street@,
                        address.city@,
                        address.state@,
                        address.zip_code@,
                    ),
                ),
            ));
        }
        b
    }

    /// Consumes the builder and materializes the DTO when every required
    /// field has been set; fails with `IncompleteConfiguration`, yielding no
    /// partial DTO, when at least one field is missing.
    pub fn build(self) -> (r: Result<UserWebDTO, BuildError>)
        ensures
            r is Ok <==> self@.complete(),
            r is Ok ==> Some(r->Ok_0@) == build_result(self@),
            r is Err ==> r->Err_0 == BuildError::IncompleteConfiguration,
    {
        let ghost prior = self@;
        match (self.first_name, self.last_name, self.address, self.age) {
            (Some(first_name), Some(last_name), Some(address), Some(age)) => {
                let name = first_name.concat(" ").concat(last_name.as_str());
                proof {
                    reveal_strlit(" ");
                    assert(name@ =~= full_name_text(first_name@, last_name@));
                }
                let dto = UserWebDTO::new(name, address, age);
                proof {
                    assert(Some(dto@) =~= build_result(prior));
                }
                Ok(dto)
            },
            _ => Err(BuildError::IncompleteConfiguration),
        }
    }
}

} // verus!
