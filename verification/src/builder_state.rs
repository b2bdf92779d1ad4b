//! The abstract state shared by both builder variants: four optional texts,
//! each overwritten by its configuration step, and the completion check that
//! `build` performs. The lemmas at the end state the construction protocol's
//! laws over arbitrary sequences of configuration steps.

use vstd::prelude::*;

use crate::consuming::user_web_dto::DtoView;
use crate::text::full_name_text;

verus! {

/// The single failure of `build`: at least one required field was never set.
#[derive(Debug, PartialEq, Eq, Structural)]
pub enum BuildError {
    IncompleteConfiguration,
}

/// The abstract builder state: one optional text per required field. A field
/// holds `None` until its configuration step has run at least once, so an
/// unset field can never be confused with a legitimately empty text.
#[verifier::ext_equal]
pub struct BuilderState {
    pub first_name: Option<Seq<char>>,
    pub last_name: Option<Seq<char>>,
    pub address: Option<Seq<char>>,
    pub age: Option<Seq<char>>,
}

impl BuilderState {
    /// The state of a freshly created builder: nothing set.
    pub open spec fn empty() -> BuilderState {
        BuilderState { first_name: None, last_name: None, address: None, age: None }
    }

    /// The completion invariant: each required field has been set at least
    /// once.
    pub open spec fn complete(self) -> bool {
        &&& self.first_name is Some
        &&& self.last_name is Some
        &&& self.address is Some
        &&& self.age is Some
    }
}

/// What `build` yields from a given state: a DTO view when the state is
/// complete, and nothing otherwise.
pub open spec fn build_result(s: BuilderState) -> Option<DtoView> {
    if s.complete() {
        Some(
            DtoView {
                name: full_name_text(s.first_name->Some_0, s.last_name->Some_0),
                address: s.address->Some_0,
                age: s.age->Some_0,
            },
        )
    } else {
        None
    }
}

/// One configuration step, by the field it overwrites and the text stored for
/// it (for the address, the already formatted text; for the birth date, the
/// already derived age text).
pub enum ConfigStep {
    SetFirstName(Seq<char>),
    SetLastName(Seq<char>),
    SetAddress(Seq<char>),
    SetAge(Seq<char>),
}

/// The effect of one configuration step: it overwrites exactly one field and
/// leaves the other three untouched.
pub open spec fn apply_step(s: BuilderState, c: ConfigStep) -> BuilderState {
    match c {
        ConfigStep::SetFirstName(t) => BuilderState { first_name: Some(t), ..s },
        ConfigStep::SetLastName(t) => BuilderState { last_name: Some(t), ..s },
        ConfigStep::SetAddress(t) => BuilderState { address: Some(t), ..s },
        ConfigStep::SetAge(t) => BuilderState { age: Some(t), ..s },
    }
}

/// The effect of a sequence of configuration steps, applied in order.
pub open spec fn apply_steps(s: BuilderState, cs: Seq<ConfigStep>) -> BuilderState
    decreases cs.len(),
{
    if cs.len() == 0 {
        s
    } else {
        apply_step(apply_steps(s, cs.drop_last()), cs.last())
    }
}

/// Whether some step of the sequence sets the first name.
pub open spec fn sets_first_name(cs: Seq<ConfigStep>) -> bool {
    exists|i: int| 0 <= i < cs.len() && cs[i] is SetFirstName
}

/// Whether some step of the sequence sets the last name.
pub open spec fn sets_last_name(cs: Seq<ConfigStep>) -> bool {
    exists|i: int| 0 <= i < cs.len() && cs[i] is SetLastName
}

/// Whether some step of the sequence sets the address.
pub open spec fn sets_address(cs: Seq<ConfigStep>) -> bool {
    exists|i: int| 0 <= i < cs.len() && cs[i] is SetAddress
}

/// Whether some step of the sequence sets the age.
pub open spec fn sets_age(cs: Seq<ConfigStep>) -> bool {
    exists|i: int| 0 <= i < cs.len() && cs[i] is SetAge
}

/// The last value the sequence sets for the first name, if any.
pub open spec fn last_first_name(cs: Seq<ConfigStep>) -> Option<Seq<char>>
    decreases cs.len(),
{
    if cs.len() == 0 {
        None
    } else {
        match cs.last() {
            ConfigStep::SetFirstName(t) => Some(t),
            _ => last_first_name(cs.drop_last()),
        }
    }
}

/// The last value the sequence sets for the last name, if any.
pub open spec fn last_last_name(cs: Seq<ConfigStep>) -> Option<Seq<char>>
    decreases cs.len(),
{
    if cs.len() == 0 {
        None
    } else {
        match cs.last() {
            ConfigStep::SetLastName(t) => Some(t),
            _ => last_last_name(cs.drop_last()),
        }
    }
}

/// The last value the sequence sets for the address, if any.
pub open spec fn last_address(cs: Seq<ConfigStep>) -> Option<Seq<char>>
    decreases cs.len(),
{
    if cs.len() == 0 {
        None
    } else {
        match cs.last() {
            ConfigStep::SetAddress(t) => Some(t),
            _ => last_address(cs.drop_last()),
        }
    }
}

/// The last value the sequence sets for the age, if any.
pub open spec fn last_age(cs: Seq<ConfigStep>) -> Option<Seq<char>>
    decreases cs.len(),
{
    if cs.len() == 0 {
        None
    } else {
        match cs.last() {
            ConfigStep::SetAge(t) => Some(t),
            _ => last_age(cs.drop_last()),
        }
    }
}

/// Each field of the state reached by a step sequence is the last value the
/// sequence set for it, or the starting value where the sequence never set it.
pub proof fn lemma_apply_steps_fields(s: BuilderState, cs: Seq<ConfigStep>)
    ensures
        apply_steps(s, cs).first_name == if last_first_name(cs) is Some {
            last_first_name(cs)
        } else {
            s.first_name
        },
        apply_steps(s, cs).last_name == if last_last_name(cs) is Some {
            last_last_name(cs)
        } else {
            s.last_name
        },
        apply_steps(s, cs).address == if last_address(cs) is Some {
            last_address(cs)
        } else {
            s.address
        },
        apply_steps(s, cs).age == if last_age(cs) is Some {
            last_age(cs)
        } else {
            s.age
        },
    decreases cs.len(),
{
    if cs.len() > 0 {
        lemma_apply_steps_fields(s, cs.drop_last());
    }
}

/// A sequence that contains a step for a field also records a last value for
/// that field, and the other way round.
pub proof fn lemma_sets_iff_last_some(cs: Seq<ConfigStep>)
    ensures
        sets_first_name(cs) <==> last_first_name(cs) is Some,
        sets_last_name(cs) <==> last_last_name(cs) is Some,
        sets_address(cs) <==> last_address(cs) is Some,
        sets_age(cs) <==> last_age(cs) is Some,
    decreases cs.len(),
{
    if cs.len() > 0 {
        lemma_sets_iff_last_some(cs.drop_last());
        assert(sets_first_name(cs.drop_last()) ==> sets_first_name(cs)) by {
            if sets_first_name(cs.drop_last()) {
                let i = choose|i: int|
                    0 <= i < cs.drop_last().len() && cs.drop_last()[i] is SetFirstName;
                assert(cs[i] is SetFirstName);
            }
        }
        assert(sets_last_name(cs.drop_last()) ==> sets_last_name(cs)) by {
            if sets_last_name(cs.drop_last()) {
                let i = choose|i: int|
                    0 <= i < cs.drop_last().len() && cs.drop_last()[i] is SetLastName;
                assert(cs[i] is SetLastName);
            }
        }
        assert(sets_address(cs.drop_last()) ==> sets_address(cs)) by {
            if sets_address(cs.drop_last()) {
                let i = choose|i: int|
                    0 <= i < cs.drop_last().len() && cs.drop_last()[i] is SetAddress;
                assert(cs[i] is SetAddress);
            }
        }
        assert(sets_age(cs.drop_last()) ==> sets_age(cs)) by {
            if sets_age(cs.drop_last()) {
                let i = choose|i: int| 0 <= i < cs.drop_last().len() && cs.drop_last()[i] is SetAge;
                assert(cs[i] is SetAge);
            }
        }
        assert(sets_first_name(cs) ==> last_first_name(cs) is Some) by {
            if sets_first_name(cs) && !(cs.last() is SetFirstName) {
                let i = choose|i: int| 0 <= i < cs.len() && cs[i] is SetFirstName;
                assert(cs.drop_last()[i] is SetFirstName);
            }
        }
        assert(sets_last_name(cs) ==> last_last_name(cs) is Some) by {
            if sets_last_name(cs) && !(cs.last() is SetLastName) {
                let i = choose|i: int| 0 <= i < cs.len() && cs[i] is SetLastName;
                assert(cs.drop_last()[i] is SetLastName);
            }
        }
        assert(sets_address(cs) ==> last_address(cs) is Some) by {
            if sets_address(cs) && !(cs.last() is SetAddress) {
                let i = choose|i: int| 0 <= i < cs.len() && cs[i] is SetAddress;
                assert(cs.drop_last()[i] is SetAddress);
            }
        }
        assert(sets_age(cs) ==> last_age(cs) is Some) by {
            if sets_age(cs) && !(cs.last() is SetAge) {
                let i = choose|i: int| 0 <= i < cs.len() && cs[i] is SetAge;
                assert(cs.drop_last()[i] is SetAge);
            }
        }
        assert(last_first_name(cs) is Some ==> sets_first_name(cs)) by {
            if cs.last() is SetFirstName {
                assert(cs[cs.len() - 1] is SetFirstName);
            }
        }
        assert(last_last_name(cs) is Some ==> sets_last_name(cs)) by {
            if cs.last() is SetLastName {
                assert(cs[cs.len() - 1] is SetLastName);
            }
        }
        assert(last_address(cs) is Some ==> sets_address(cs)) by {
            if cs.last() is SetAddress {
                assert(cs[cs.len() - 1] is SetAddress);
            }
        }
        assert(last_age(cs) is Some ==> sets_age(cs)) by {
            if cs.last() is SetAge {
                assert(cs[cs.len() - 1] is SetAge);
            }
        }
    }
}

/// Completion invariant: a sequence of configuration steps that sets each of
/// the four fields at least once, in any order and any number of times, leaves
/// the builder complete, and building from that state yields exactly the last
/// value set for each field.
pub proof fn lemma_completion_invariant(cs: Seq<ConfigStep>)
    requires
        sets_first_name(cs),
        sets_last_name(cs),
        sets_address(cs),
        sets_age(cs),
    ensures
        ({
            let s = apply_steps(BuilderState::empty(), cs);
            &&& s.complete()
            &&& build_result(s) == Some(
                DtoView {
                    name: full_name_text(last_first_name(cs)->Some_0, last_last_name(cs)->Some_0),
                    address: last_address(cs)->Some_0,
                    age: last_age(cs)->Some_0,
                },
            )
        }),
{
    lemma_sets_iff_last_some(cs);
    lemma_apply_steps_fields(BuilderState::empty(), cs);
}

/// Missing-field failure: a sequence of configuration steps that never sets
/// some field leaves the builder incomplete, and building from that state
/// yields no DTO.
pub proof fn lemma_missing_field_failure(cs: Seq<ConfigStep>)
    requires
        !sets_first_name(cs) || !sets_last_name(cs) || !sets_address(cs) || !sets_age(cs),
    ensures
        !apply_steps(BuilderState::empty(), cs).complete(),
        build_result(apply_steps(BuilderState::empty(), cs)) is None,
{
    lemma_sets_iff_last_some(cs);
    lemma_apply_steps_fields(BuilderState::empty(), cs);
}

/// Non-accumulation: setting the same field twice keeps only the second
/// value, for every field and every starting state.
pub proof fn lemma_non_accumulation(s: BuilderState, a: Seq<char>, b: Seq<char>)
    ensures
        apply_step(apply_step(s, ConfigStep::SetFirstName(a)), ConfigStep::SetFirstName(b))
            == apply_step(s, ConfigStep::SetFirstName(b)),
        apply_step(apply_step(s, ConfigStep::SetLastName(a)), ConfigStep::SetLastName(b))
            == apply_step(s, ConfigStep::SetLastName(b)),
        apply_step(apply_step(s, ConfigStep::SetAddress(a)), ConfigStep::SetAddress(b))
            == apply_step(s, ConfigStep::SetAddress(b)),
        apply_step(apply_step(s, ConfigStep::SetAge(a)), ConfigStep::SetAge(b))
            == apply_step(s, ConfigStep::SetAge(b)),
{
}

} // verus!
