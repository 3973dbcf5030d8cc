use vehicle_manager::vehicle::Vehicle;

fn vehicle(manufacturer: &str, model: &str, year: &str) -> Vehicle {
    Vehicle {
        id: None,
        manufacturer: manufacturer.to_string(),
        model: model.to_string(),
        year: year.to_string(),
    }
}

#[test]
fn valid_vehicle_passes() {
    assert!(vehicle("Toyota", "Corolla", "2021").validate().is_ok());
}

#[test]
fn manufacturer_length_boundaries() {
    assert!(vehicle("ab", "Corolla", "2021").validate().is_err());
    assert!(vehicle("abc", "Corolla", "2021").validate().is_ok());
    assert!(vehicle("a".repeat(25).as_str(), "Corolla", "2021").validate().is_ok());
    assert!(vehicle("a".repeat(26).as_str(), "Corolla", "2021").validate().is_err());
}

#[test]
fn model_length_boundaries() {
    assert!(vehicle("Toyota", "ab", "2021").validate().is_err());
    assert!(vehicle("Toyota", "abc", "2021").validate().is_ok());
    assert!(vehicle("Toyota", "b".repeat(25).as_str(), "2021").validate().is_ok());
    assert!(vehicle("Toyota", "b".repeat(26).as_str(), "2021").validate().is_err());
}

#[test]
fn year_length_boundaries() {
    assert!(vehicle("Toyota", "Corolla", "999").validate().is_err());
    assert!(vehicle("Toyota", "Corolla", "99999").validate().is_err());
    assert!(vehicle("Toyota", "Corolla", "2021").validate().is_ok());
}

#[test]
fn year_content_is_not_checked() {
    assert!(vehicle("Toyota", "Corolla", "abcd").validate().is_ok());
}

#[test]
fn all_violations_are_collected() {
    let errs = vehicle("ab", "x", "12345").validate().unwrap_err();
    let fields: Vec<String> = errs.errors.iter().map(|e| e.field.clone()).collect();
    assert_eq!(fields, vec!["manufacturer", "model", "year"]);
}

#[test]
fn single_violation_reports_one_error() {
    let errs = vehicle("ab", "Corolla", "2021").validate().unwrap_err();
    assert_eq!(errs.errors.len(), 1);
    assert_eq!(errs.errors[0].field, "manufacturer");
    assert_eq!(
        errs.errors[0].message,
        "manufacturer must be between 3 and 25 characters"
    );
}

#[test]
fn validation_ignores_id_field() {
    let mut v = vehicle("Toyota", "Corolla", "2021");
    v.id = Some("anything".to_string());
    assert!(v.validate().is_ok());
}
