use vstd::prelude::*;

verus! {

/// The failures a wiki lookup can report.
///
/// Every extraction step fails fast: the first error encountered is returned
/// and no partial result is assembled.
#[derive(Debug)]
pub enum WikiError {
    /// The response status was not a success; carries the offending URL.
    Http(String),
    /// The response body was not valid JSON.
    Decode,
    /// A required JSON field was absent at the named path.
    MissingField(String),
    /// The page set was empty (or not the single page expected).
    EmptyResult,
    /// A field existed but had the wrong JSON type; carries the field name
    /// and the expected type.
    TypeMismatch(String, String),
    /// The pageviews start date did not match the YYYYMMDD calendar format,
    /// or the requested range leaves the four-digit-year calendar.
    DateFormat,
    /// An input selector was not one of the accepted values.
    InvalidInput(String),
    /// A concurrent fan-out failed; carries the first underlying cause.
    AggregateFetch(Box<WikiError>),
}

impl WikiError {
    /// An exact copy of the error, for callers that must keep the original.
    pub fn duplicate(&self) -> (r: WikiError)
        ensures
            r == *self,
        decreases *self,
    {
        match self {
            WikiError::Http(url) => WikiError::Http(url.clone()),
            WikiError::Decode => WikiError::Decode,
            WikiError::MissingField(f) => WikiError::MissingField(f.clone()),
            WikiError::EmptyResult => WikiError::EmptyResult,
            WikiError::TypeMismatch(f, t) => WikiError::TypeMismatch(f.clone(), t.clone()),
            WikiError::DateFormat => WikiError::DateFormat,
            WikiError::InvalidInput(s) => WikiError::InvalidInput(s.clone()),
            WikiError::AggregateFetch(cause) => WikiError::AggregateFetch(
                Box::new(cause.duplicate()),
            ),
        }
    }
}

} // verus!
