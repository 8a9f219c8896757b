use vstd::prelude::*;
use reqwasm::Error as TransportError;

verus! {

/// gloo-net's error (re-exported by reqwasm), carried through unopened.
#[verifier::external_type_specification]
#[verifier::external_body]
pub struct ExTransportError(TransportError);

/// The closed set of failures that the fetch pipeline reports.
#[derive(Debug)]
pub enum Error {
    /// The transport failed before a status was known, or a body could not be read.
    Reqwasm(TransportError),
    /// The exchange completed with a status other than 200; the body text is a
    /// best-effort capture.
    FailureResponse(u16, String),
}

pub type Result<T> = std::result::Result<T, Error>;

pub type ReqwasmResult<T> = std::result::Result<T, TransportError>;

/// A transport-level failure is reported as such.
impl From<TransportError> for Error {
    fn from(e: TransportError) -> (r: Error)
        ensures
            r == Error::Reqwasm(e),
    {
        Error::Reqwasm(e)
    }
}

impl vstd::std_specs::convert::FromSpecImpl<TransportError> for Error {
    open spec fn obeys_from_spec() -> bool {
        true
    }

    open spec fn from_spec(e: TransportError) -> Error {
        Error::Reqwasm(e)
    }
}

/// A transport-level result with its failure lifted into the pipeline's error type.
pub open spec fn lifted<T>(res: ReqwasmResult<T>) -> Result<T> {
    match res {
        Ok(v) => Ok(v),
        Err(e) => Err(Error::Reqwasm(e)),
    }
}

/// Lifts a transport-level result into the pipeline's error type.
pub fn lift_result<T>(res: ReqwasmResult<T>) -> (r: Result<T>)
    ensures
        r == lifted(res),
{
    match res {
        Ok(v) => Ok(v),
        Err(e) => Err(Error::from(e)),
    }
}

} // verus!
