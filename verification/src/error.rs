//! How a resolution can fail.

use vstd::prelude::*;

verus! {

/// Why a remote reference could not be resolved to a destination.
#[derive(Debug)]
pub enum JagoError {
    /// The reference could not be interpreted as any supported URL dialect;
    /// the parser's error is carried along for reporting.
    Parse(url::ParseError),
    /// The reference parsed, but the URL has no host to nest the
    /// destination under.
    InvalidRemote,
}

impl From<url::ParseError> for JagoError {
    fn from(err: url::ParseError) -> (r: JagoError) {
        JagoError::Parse(err)
    }
}

impl vstd::std_specs::convert::FromSpecImpl<url::ParseError> for JagoError {
    open spec fn obeys_from_spec() -> bool {
        true
    }

    open spec fn from_spec(err: url::ParseError) -> JagoError {
        JagoError::Parse(err)
    }
}

} // verus!
