use vstd::prelude::*;
use vstd::string::StringExecFns;

verus! {

#[verifier::external_type_specification]
#[verifier::external_body]
pub struct ExIoError(std::io::Error);

/// The failures that systems, plugins and the host report.
#[derive(Debug)]
pub enum MarsError {
    /// An unexpected failure inside the engine.
    Internal(String),
    /// A failure of the underlying I/O.
    Io(std::io::Error),
    /// An invalid configuration, such as malformed window parameters.
    Config(String),
}

pub type Result<T> = core::result::Result<T, MarsError>;

impl MarsError {
    /// The human-readable message: a prefix naming the kind, then the detail.
    pub fn to_string(&self) -> (r: String)
        ensures
            self matches MarsError::Internal(m) ==> r@ == "internal engine error: "@ + m@,
            self matches MarsError::Config(m) ==> r@ == "configuration error: "@ + m@,
    {
        match self {
            MarsError::Internal(m) => String::from_str("internal engine error: ").concat(m.as_str()),
            MarsError::Io(e) => String::from_str("I/O error: ").concat(e.to_string().as_str()),
            MarsError::Config(m) => String::from_str("configuration error: ").concat(m.as_str()),
        }
    }
}

impl From<std::io::Error> for MarsError {
    fn from(e: std::io::Error) -> (r: MarsError)
        ensures
            r == MarsError::Io(e),
    {
        MarsError::Io(e)
    }
}

impl vstd::std_specs::convert::FromSpecImpl<std::io::Error> for MarsError {
    open spec fn obeys_from_spec() -> bool {
        true
    }

    open spec fn from_spec(e: std::io::Error) -> MarsError {
        MarsError::Io(e)
    }
}

} // verus!
