//! The vehicle entity: its data shape, its field-level validation rules,
//! and the structured collection of validation errors.

use vstd::prelude::*;
use vstd::string::StrSliceExecFns;

verus! {

/// A vehicle record. `id` is absent on client-submitted input and always
/// present on stored or returned records.
#[derive(Debug)]
pub struct Vehicle {
    pub id: Option<String>,
    pub manufacturer: String,
    pub model: String,
    pub year: String,
}

/// The mathematical value of a [`Vehicle`]: every text field as a
/// sequence of characters.
pub ghost struct VehicleView {
    pub id: Option<Seq<char>>,
    pub manufacturer: Seq<char>,
    pub model: Seq<char>,
    pub year: Seq<char>,
}

impl DeepView for Vehicle {
    type V = VehicleView;

    open spec fn deep_view(&self) -> VehicleView {
        VehicleView {
            id: self.id.deep_view(),
            manufacturer: self.manufacturer.deep_view(),
            model: self.model.deep_view(),
            year: self.year.deep_view(),
        }
    }
}

/// A single-field wrapper exposing the identifier assigned on creation.
#[derive(Debug)]
pub struct VehicleId {
    pub id: String,
}

/// The manufacturer and model fields must hold between 3 and 25
/// characters inclusive.
pub open spec fn name_len_ok(s: Seq<char>) -> bool {
    3 <= s.len() <= 25
}

/// The year field must hold exactly 4 characters; the characters
/// themselves are unconstrained.
pub open spec fn year_len_ok(s: Seq<char>) -> bool {
    s.len() == 4
}

/// A vehicle passes validation exactly when all three field constraints
/// hold; the `id` field plays no part in validation.
pub open spec fn vehicle_valid(v: VehicleView) -> bool {
    &&& name_len_ok(v.manufacturer)
    &&& name_len_ok(v.model)
    &&& year_len_ok(v.year)
}

/// One violated field constraint: the field's name and its message.
#[derive(Debug)]
pub struct FieldError {
    pub field: String,
    pub message: String,
}

/// The mathematical value of a [`FieldError`].
pub ghost struct FieldErrorView {
    pub field: Seq<char>,
    pub message: Seq<char>,
}

impl DeepView for FieldError {
    type V = FieldErrorView;

    open spec fn deep_view(&self) -> FieldErrorView {
        FieldErrorView { field: self.field.deep_view(), message: self.message.deep_view() }
    }
}

pub open spec fn manufacturer_error() -> FieldErrorView {
    FieldErrorView {
        field: "manufacturer"@,
        message: "manufacturer must be between 3 and 25 characters"@,
    }
}

pub open spec fn model_error() -> FieldErrorView {
    FieldErrorView { field: "model"@, message: "model must be between 3 and 25 characters"@ }
}

pub open spec fn year_error() -> FieldErrorView {
    FieldErrorView { field: "year"@, message: "year must be exactly 4 characters"@ }
}

pub open spec fn manufacturer_part(v: VehicleView) -> Seq<FieldErrorView> {
    if !name_len_ok(v.manufacturer) {
        seq![manufacturer_error()]
    } else {
        Seq::empty()
    }
}

pub open spec fn model_part(v: VehicleView) -> Seq<FieldErrorView> {
    if !name_len_ok(v.model) {
        seq![model_error()]
    } else {
        Seq::empty()
    }
}

pub open spec fn year_part(v: VehicleView) -> Seq<FieldErrorView> {
    if !year_len_ok(v.year) {
        seq![year_error()]
    } else {
        Seq::empty()
    }
}

/// All violated constraints of a vehicle, reported together in field
/// order: manufacturer, then model, then year.
pub open spec fn spec_validation_errors(v: VehicleView) -> Seq<FieldErrorView> {
    manufacturer_part(v) + model_part(v) + year_part(v)
}

/// The structured collection of field-level validation errors.
#[derive(Debug)]
pub struct ValidationErrors {
    pub errors: Vec<FieldError>,
}

impl DeepView for ValidationErrors {
    type V = Seq<FieldErrorView>;

    open spec fn deep_view(&self) -> Seq<FieldErrorView> {
        self.errors.deep_view()
    }
}

/// True exactly when the string holds between 3 and 25 characters.
fn name_len_in_range(s: &String) -> (b: bool)
    ensures
        b == name_len_ok(s@),
{
    let n = s.as_str().unicode_len();
    3 <= n && n <= 25
}

/// True exactly when the string holds exactly 4 characters.
fn year_len_exact(s: &String) -> (b: bool)
    ensures
        b == year_len_ok(s@),
{
    s.as_str().unicode_len() == 4
}

impl Clone for Vehicle {
    /// Cloning keeps every field's value.
    fn clone(&self) -> (r: Self)
        ensures
            r.deep_view() == self.deep_view(),
    {
        Vehicle {
            id: match &self.id {
                Some(s) => Some(s.clone()),
                None => None,
            },
            manufacturer: self.manufacturer.clone(),
            model: self.model.clone(),
            year: self.year.clone(),
        }
    }
}

impl Vehicle {
    /// Checks every field constraint independently and collects all
    /// violations; succeeds exactly when the vehicle is valid, and on
    /// failure reports the violated fields in field order.
    pub fn validate(&self) -> (r: Result<(), ValidationErrors>)
        ensures
            r is Ok <==> vehicle_valid(self.deep_view()),
            r matches Err(e) ==> e.deep_view() == spec_validation_errors(self.deep_view()),
    {
        let mut errors: Vec<FieldError> = Vec::new();
        if !name_len_in_range(&self.manufacturer) {
            errors.push(
                FieldError {
                    field: "manufacturer".to_owned(),
                    message: "manufacturer must be between 3 and 25 characters".to_owned(),
                },
            );
        }
        assert(errors.deep_view() =~= manufacturer_part(self.deep_view()));
        if !name_len_in_range(&self.model) {
            errors.push(
                FieldError {
                    field: "model".to_owned(),
                    message: "model must be between 3 and 25 characters".to_owned(),
                },
            );
        }
        assert(errors.deep_view() =~= manufacturer_part(self.deep_view()) + model_part(
            self.deep_view(),
        ));
        if !year_len_exact(&self.year) {
            errors.push(
                FieldError {
                    field: "year".to_owned(),
                    message: "year must be exactly 4 characters".to_owned(),
                },
            );
        }
        assert(errors.deep_view() =~= spec_validation_errors(self.deep_view()));
        if errors.len() == 0 {
            Ok(())
        } else {
            Err(ValidationErrors { errors })
        }
    }
}

} // verus!
