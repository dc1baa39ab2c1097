//! Errors of the synchronisation layer.

use vstd::prelude::*;

verus! {

/// Errors of the synchronisation layer.
#[derive(Debug, PartialEq, Eq)]
pub enum UnyoError {
    /// A font could not be loaded by the display layer.
    UiLoadFont,
    /// A request could not be made: the transport's message and the address.
    ApiReq(String, String),
    /// A response was not valid JSON: the parser's message and the address.
    ApiReqFmt(String, String),
    /// A weather payload lacked a required field or held one of the wrong type.
    ApiWeatherFmt,
}

pub type UnyoResult<T> = Result<T, UnyoError>;

} // verus!
