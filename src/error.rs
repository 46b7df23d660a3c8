use vstd::prelude::*;

verus! {

/// Why a value sent by the service could not be read.
#[derive(Debug, Clone, PartialEq, Eq, Structural)]
pub enum ParseError {
    /// The body is not well-formed JSON, or lacks a field.
    InvalidJson,
    /// A number is malformed or out of the representable range.
    InvalidNumber,
    /// A date is not of the form `YYYY-MM-DD`, or names no calendar day.
    InvalidDate,
    /// A timestamp is not of the form `YYYY-MM-DD HH:MM:SS`, or names no instant.
    InvalidTimestamp,
    /// A granularity token is none of the known ones.
    UnknownTimeUnit,
    /// A series declares a unit that its kind of quantity does not support.
    UnsupportedUnit,
}

} // verus!

verus! {

/// What can go wrong with a request to the service.
#[derive(Debug, Clone)]
pub enum SolarApiError {
    /// The service could not be reached: no HTTP status came back.
    NetworkError(String),
    /// The service answered with a client or server error other than 403.
    ApiError(String),
    /// The service refused access (HTTP 403): the site id or the API key is not valid.
    ForbiddenError(String),
    /// The answer could not be read.
    ParseError(ParseError),
}

/// The error that a failed transfer stands for, by its HTTP status if one came back.
pub open spec fn transport_error(status: Option<u16>, message: String) -> SolarApiError {
    match status {
        Some(s) => if 400 <= s < 600 {
            if s == 403 {
                SolarApiError::ForbiddenError(message)
            } else {
                SolarApiError::ApiError(message)
            }
        } else {
            SolarApiError::NetworkError(message)
        },
        None => SolarApiError::NetworkError(message),
    }
}

impl SolarApiError {
    /// Classifies a failed transfer: 403 is a refusal, another 4xx or 5xx status an error of
    /// the service, and anything without such a status a network failure.
    pub fn from_transport(status: Option<u16>, message: String) -> (r: SolarApiError)
        ensures
            r == transport_error(status, message),
    {
        match status {
            Some(s) => {
                if 400 <= s && s < 600 {
                    if s == 403 {
                        SolarApiError::ForbiddenError(message)
                    } else {
                        SolarApiError::ApiError(message)
                    }
                } else {
                    SolarApiError::NetworkError(message)
                }
            },
            None => SolarApiError::NetworkError(message),
        }
    }

    /// The error for an answer that could not be read.
    pub fn from_parse(e: ParseError) -> (r: SolarApiError)
        ensures
            r == SolarApiError::ParseError(e),
    {
        SolarApiError::ParseError(e)
    }
}

} // verus!
