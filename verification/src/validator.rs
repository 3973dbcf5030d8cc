//! The validated-payload decoder: turns the outcome of parsing a raw
//! request body into a validated entity or a single structured
//! rejection, and renders that rejection as a one-line message.

use vstd::prelude::*;
use vstd::string::StrSliceExecFns;
use vstd::string::StringExecFns;
use crate::vehicle::{
    FieldErrorView, ValidationErrors, Vehicle, spec_validation_errors, vehicle_valid,
};

verus! {

/// A payload that passed both deserialization and validation.
#[derive(Debug, Clone, Copy, Default)]
pub struct ValidatedPayload<T>(pub T);

/// The single rejection type of the decoder: either one or more field
/// constraints were violated, or the body could not be parsed at all (the
/// latter carries the parser's diagnostic).
#[derive(Debug)]
pub enum ServerError {
    ValidationError(ValidationErrors),
    AxumJsonRejection(String),
}

/// The mathematical value of a [`ServerError`].
pub ghost enum ServerErrorView {
    ValidationError(Seq<FieldErrorView>),
    AxumJsonRejection(Seq<char>),
}

impl DeepView for ServerError {
    type V = ServerErrorView;

    open spec fn deep_view(&self) -> ServerErrorView {
        match self {
            ServerError::ValidationError(e) => ServerErrorView::ValidationError(e.deep_view()),
            ServerError::AxumJsonRejection(m) => ServerErrorView::AxumJsonRejection(m.deep_view()),
        }
    }
}

/// One field error rendered as a line: the field's name, a separator,
/// and its message.
pub open spec fn spec_error_line(e: FieldErrorView) -> Seq<char> {
    e.field + ": "@ + e.message
}

/// All field errors rendered on a single line, commas standing where
/// line breaks would otherwise separate them.
pub open spec fn spec_joined_errors(s: Seq<FieldErrorView>) -> Seq<char>
    decreases s.len(),
{
    if s.len() == 0 {
        Seq::empty()
    } else if s.len() == 1 {
        spec_error_line(s[0])
    } else {
        spec_joined_errors(s.drop_last()) + ","@ + spec_error_line(s.last())
    }
}

/// The client-facing body for a rejection: validation failures are
/// wrapped and joined into one line, a parse failure is surfaced with
/// the parser's diagnostic.
pub open spec fn spec_response_message(e: ServerErrorView) -> Seq<char> {
    match e {
        ServerErrorView::ValidationError(errs) => "Input Validation Error: ["@
            + spec_joined_errors(errs) + "]"@,
        ServerErrorView::AxumJsonRejection(m) => m,
    }
}

impl ValidationErrors {
    /// Renders every collected field error on one line, separated by
    /// commas.
    pub fn joined_message(&self) -> (r: String)
        ensures
            r@ == spec_joined_errors(self.deep_view()),
    {
        let n = self.errors.len();
        let mut acc = String::new();
        let mut i: usize = 0;
        while i < n
            invariant
                n == self.deep_view().len(),
                n == self.errors.len(),
                0 <= i <= n,
                acc@ == spec_joined_errors(self.deep_view().take(i as int)),
            decreases n - i,
        {
            let ghost dv = self.deep_view();
            if i > 0 {
                acc.append(",");
            }
            let e = &self.errors[i];
            proof {
                assert(e.deep_view() == dv[i as int]);
            }
            acc.append(e.field.as_str());
            acc.append(": ");
            acc.append(e.message.as_str());
            proof {
                assert(dv.take(i as int + 1).drop_last() =~= dv.take(i as int));
                assert(dv.take(i as int + 1).last() == dv[i as int]);
                if i == 0 {
                    assert(acc@ =~= spec_error_line(dv[0]));
                    assert(dv.take(1).len() == 1);
                    assert(dv.take(1)[0] == dv[0]);
                } else {
                    assert(acc@ =~= spec_joined_errors(dv.take(i as int)) + ","@ + spec_error_line(
                        dv[i as int],
                    ));
                }
                assert(acc@ =~= spec_joined_errors(dv.take(i as int + 1)));
            }
            i += 1;
        }
        proof {
            assert(self.deep_view().take(n as int) =~= self.deep_view());
        }
        acc
    }
}

impl ServerError {
    /// The full client-facing message for this rejection.
    pub fn response_message(&self) -> (r: String)
        ensures
            r@ == spec_response_message(self.deep_view()),
    {
        match self {
            ServerError::ValidationError(errs) => {
                let mut acc = String::from_str("Input Validation Error: [");
                let joined = errs.joined_message();
                acc.append(joined.as_str());
                acc.append("]");
                proof {
                    assert(acc@ =~= spec_response_message(self.deep_view()));
                }
                acc
            },
            ServerError::AxumJsonRejection(m) => m.clone(),
        }
    }
}

/// The decoder's second half: given the outcome of structurally parsing
/// a raw body into a vehicle, surface the parse failure verbatim, or run
/// validation and either hand back the validated payload or report every
/// violated field in one rejection.
pub fn decode_and_validate(parsed: Result<Vehicle, String>) -> (r: Result<
    ValidatedPayload<Vehicle>,
    ServerError,
>)
    ensures
        parsed matches Err(m) ==> (r matches Err(e) && e.deep_view()
            == ServerErrorView::AxumJsonRejection(m@)),
        parsed matches Ok(v) ==> ({
            &&& r is Ok <==> vehicle_valid(v.deep_view())
            &&& vehicle_valid(v.deep_view()) ==> (r matches Ok(p) && p.0.deep_view()
                == v.deep_view())
            &&& !vehicle_valid(v.deep_view()) ==> (r matches Err(e) && e.deep_view()
                == ServerErrorView::ValidationError(spec_validation_errors(v.deep_view())))
        }),
{
    match parsed {
        Ok(v) => match v.validate() {
            Ok(()) => Ok(ValidatedPayload(v)),
            Err(errs) => Err(ServerError::ValidationError(errs)),
        },
        Err(m) => Err(ServerError::AxumJsonRejection(m)),
    }
}

} // verus!
