use vstd::prelude::*;
use vstd::string::StringExecFns;

verus! {

/// The failure conditions of batch construction and value rendering.
#[derive(Debug)]
pub enum BundleError {
    /// No intent was active: nothing to sign.
    NoInstructions,
    /// The requested output rendering mode is not one of `raw`, `idl`, `pp`.
    InvalidOutputType(String),
    /// The canonical binary encoding of a request failed.
    Encode(String),
    /// The binary value could not be decoded in the requested mode.
    Decode(String),
    /// The signing collaborator returned an envelope without a request
    /// identifier, violating its contract.
    MissingRequestId,
    /// A build-time constant of the crate is malformed.
    Config(String),
}

pub open spec fn error_message(e: BundleError) -> Seq<char> {
    match e {
        BundleError::NoInstructions => "No instructions provided"@,
        BundleError::InvalidOutputType(v) => "Invalid output type: "@ + v@,
        BundleError::Encode(m) => m@,
        BundleError::Decode(m) => m@,
        BundleError::MissingRequestId => "No request id for transfer call found"@,
        BundleError::Config(m) => m@,
    }
}

impl BundleError {
    /// The operator-facing description of the failure.
    pub fn message(&self) -> (r: String)
        ensures
            r@ == error_message(*self),
    {
        match self {
            BundleError::NoInstructions => "No instructions provided".to_owned(),
            BundleError::InvalidOutputType(v) => {
                let mut s = "Invalid output type: ".to_owned();
                s.append(v.as_str());
                s
            },
            BundleError::Encode(m) => m.clone(),
            BundleError::Decode(m) => m.clone(),
            BundleError::MissingRequestId => "No request id for transfer call found".to_owned(),
            BundleError::Config(m) => m.clone(),
        }
    }
}

} // verus!
