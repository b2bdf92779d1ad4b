use builder_pattern::Date;
use chrono::Datelike;
use builder_pattern::builder_state::BuildError;
use builder_pattern::consuming::address::Address;
use builder_pattern::consuming::user_web_dto::UserWebDTO;
use builder_pattern::consuming::user_web_dto_builder::UserWebDTOBuilder;
use builder_pattern::non_consuming::user_web_dto_builder::UserWebDTOBuilder as RefBuilder;

fn sample_address() -> Address {
    Address {
        house_number: "12".to_string(),
        street: "Elm St".to_string(),
        city: "Springfield".to_string(),
        state: "IL".to_string(),
        zip_code: "62704".to_string(),
    }
}

#[test]
fn dto_accessors_return_what_was_stored() {
    let dto = UserWebDTO::new("a b".to_string(), "c".to_string(), "9".to_string());
    assert_eq!(dto.get_name(), "a b");
    assert_eq!(dto.get_address(), "c");
    assert_eq!(dto.get_age(), "9");
}

#[test]
fn consuming_build_succeeds_with_all_fields_set() {
    let dto = UserWebDTOBuilder::new()
        .with_first_name("Lakshmi".to_string())
        .with_last_name("Narayanan".to_string())
        .with_birth_date_as_of(Date::from_ymd(1996, 10, 8), 2024)
        .with_address(sample_address())
        .build()
        .unwrap();
    assert_eq!(dto.get_name(), "Lakshmi Narayanan");
    assert_eq!(dto.get_address(), "12, Elm St, Springfield, IL, 62704");
    assert_eq!(dto.get_age(), "28");
}

#[test]
fn consuming_build_succeeds_in_another_order() {
    let dto = UserWebDTOBuilder::new()
        .with_address(sample_address())
        .with_birth_date_as_of(Date::from_ymd(1996, 10, 8), 2024)
        .with_last_name("Narayanan".to_string())
        .with_first_name("Lakshmi".to_string())
        .build()
        .unwrap();
    assert_eq!(dto.get_name(), "Lakshmi Narayanan");
    assert_eq!(dto.get_address(), "12, Elm St, Springfield, IL, 62704");
    assert_eq!(dto.get_age(), "28");
}

#[test]
fn non_accumulation_second_value_wins() {
    let dto = UserWebDTOBuilder::new()
        .with_first_name("A".to_string())
        .with_first_name("B".to_string())
        .with_last_name("C".to_string())
        .with_birth_date_as_of(Date::from_ymd(2000, 1, 1), 2024)
        .with_address(sample_address())
        .build()
        .unwrap();
    assert_eq!(dto.get_name(), "B C");
}

#[test]
fn missing_first_name_fails() {
    let r = UserWebDTOBuilder::new()
        .with_last_name("N".to_string())
        .with_birth_date_as_of(Date::from_ymd(1996, 10, 8), 2024)
        .with_address(sample_address())
        .build();
    assert_eq!(r.unwrap_err(), BuildError::IncompleteConfiguration);
}

#[test]
fn missing_last_name_fails() {
    let r = UserWebDTOBuilder::new()
        .with_first_name("L".to_string())
        .with_birth_date_as_of(Date::from_ymd(1996, 10, 8), 2024)
        .with_address(sample_address())
        .build();
    assert_eq!(r.unwrap_err(), BuildError::IncompleteConfiguration);
}

#[test]
fn missing_birth_date_fails() {
    let r = UserWebDTOBuilder::new()
        .with_first_name("L".to_string())
        .with_last_name("N".to_string())
        .with_address(sample_address())
        .build();
    assert_eq!(r.unwrap_err(), BuildError::IncompleteConfiguration);
}

#[test]
fn missing_address_fails() {
    let r = UserWebDTOBuilder::new()
        .with_first_name("L".to_string())
        .with_last_name("N".to_string())
        .with_birth_date_as_of(Date::from_ymd(1996, 10, 8), 2024)
        .build();
    assert_eq!(r.unwrap_err(), BuildError::IncompleteConfiguration);
}

#[test]
fn empty_builder_fails() {
    assert_eq!(
        UserWebDTOBuilder::new().build().unwrap_err(),
        BuildError::IncompleteConfiguration
    );
}

#[test]
fn empty_strings_are_legitimate_values() {
    let dto = UserWebDTOBuilder::new()
        .with_first_name(String::new())
        .with_last_name(String::new())
        .with_birth_date_as_of(Date::from_ymd(2024, 1, 1), 2024)
        .with_address(Address::new())
        .build()
        .unwrap();
    assert_eq!(dto.get_name(), " ");
    assert_eq!(dto.get_address(), ", , , , ");
    assert_eq!(dto.get_age(), "0");
}

#[test]
fn address_formatting_is_exact() {
    let dto = UserWebDTOBuilder::new()
        .with_first_name("L".to_string())
        .with_last_name("N".to_string())
        .with_birth_date_as_of(Date::from_ymd(1996, 10, 8), 2024)
        .with_address(sample_address())
        .build()
        .unwrap();
    assert_eq!(dto.get_address(), "12, Elm St, Springfield, IL, 62704");
}

#[test]
fn age_is_calendar_year_subtraction_only() {
    // Born late in the year: a precise age would be 27 before October, but
    // the derivation subtracts calendar years only.
    let dto = UserWebDTOBuilder::new()
        .with_first_name("L".to_string())
        .with_last_name("N".to_string())
        .with_birth_date_as_of(Date::from_ymd(1996, 12, 31), 2024)
        .with_address(sample_address())
        .build()
        .unwrap();
    assert_eq!(dto.get_age(), "28");
}

#[test]
fn age_can_be_negative_or_large() {
    let b = |birth: i32, now: i32| {
        UserWebDTOBuilder::new()
            .with_first_name("L".to_string())
            .with_last_name("N".to_string())
            .with_birth_date_as_of(Date::from_ymd(birth, 1, 1), now)
            .with_address(sample_address())
            .build()
            .unwrap()
            .get_age()
    };
    assert_eq!(b(2030, 2024), "-6");
    assert_eq!(b(1000, 2024), "1024");
    assert_eq!(b(2024, 2024), "0");
    assert_eq!(b(1914, 2024), "110");
}

#[test]
fn wall_clock_variant_derives_age_from_today() {
    let before = chrono::Local::now().year();
    let dto = UserWebDTOBuilder::new()
        .with_first_name("L".to_string())
        .with_last_name("N".to_string())
        .with_birth_date(Date::from_ymd(1996, 10, 8))
        .with_address(sample_address())
        .build()
        .unwrap();
    let after = chrono::Local::now().year();
    let age: i32 = dto.get_age().parse().unwrap();
    assert!(age == before - 1996 || age == after - 1996);
}

#[test]
fn reference_builder_builds_and_retries() {
    let mut b = RefBuilder::new();
    b.with_first_name("Lakshmi".to_string())
        .with_last_name("Narayanan".to_string())
        .with_birth_date_as_of(Date::from_ymd(1996, 10, 8), 2024);
    // Incomplete: the address is missing, so the build fails and leaves the
    // builder intact for correction.
    assert_eq!(b.build().unwrap_err(), BuildError::IncompleteConfiguration);
    b.with_address(sample_address());
    let dto = b.build().unwrap();
    assert_eq!(dto.get_name(), "Lakshmi Narayanan");
    // Build does not consume: the same builder yields another DTO.
    let again = b.build().unwrap();
    assert_eq!(again.get_name(), "Lakshmi Narayanan");
    assert_eq!(again.get_age(), "28");
}

#[test]
fn reference_branchability() {
    let mut shared = RefBuilder::new();
    shared
        .with_first_name("Lakshmi".to_string())
        .with_last_name("Narayanan".to_string())
        .with_birth_date_as_of(Date::from_ymd(1996, 10, 8), 2024)
        .with_address(sample_address());

    let mut branch = shared.clone();
    branch.with_last_name("Changed".to_string());

    let original = shared.build().unwrap();
    let changed = branch.build().unwrap();
    assert_eq!(original.get_name(), "Lakshmi Narayanan");
    assert_eq!(changed.get_name(), "Lakshmi Changed");
    assert_eq!(original.get_address(), changed.get_address());
    assert_eq!(original.get_age(), changed.get_age());
}

#[test]
fn end_to_end_both_variants_agree() {
    let consuming = UserWebDTOBuilder::new()
        .with_first_name("Lakshmi".to_string())
        .with_last_name("Narayanan".to_string())
        .with_birth_date_as_of(Date::from_ymd(1996, 10, 8), 2024)
        .with_address(sample_address())
        .build()
        .unwrap();

    let mut by_reference = RefBuilder::new();
    by_reference
        .with_first_name("Lakshmi".to_string())
        .with_last_name("Narayanan".to_string())
        .with_birth_date_as_of(Date::from_ymd(1996, 10, 8), 2024)
        .with_address(sample_address());
    let reference = by_reference.build().unwrap();

    for dto in [consuming, reference] {
        assert_eq!(dto.get_name(), "Lakshmi Narayanan");
        assert_eq!(dto.get_address(), "12, Elm St, Springfield, IL, 62704");
        assert_eq!(dto.get_age(), "28");
    }
}
