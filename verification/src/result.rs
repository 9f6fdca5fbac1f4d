//! The error kinds of the library. Construction-time errors are fatal;
//! `TransactionAborted` is the one retryable kind.
use vstd::prelude::*;

use vstd::string::StringExecFns;

verus! {

#[verifier::external_type_specification]
#[verifier::external_body]
pub struct ExIoError(std::io::Error);

#[derive(Debug)]
pub enum Error {
    /// A workload or generator parameter that no generator can be built from.
    InvalidArgument(String),
    /// A workload specification document that could not be understood.
    UnknownSpecFormat,
    /// The backend could not commit; the same unit of work should be retried.
    TransactionAborted,
    /// An underlying I/O failure.
    Io(std::io::Error),
}

impl From<std::io::Error> for Error {
    fn from(ioe: std::io::Error) -> (r: Error) {
        Error::Io(ioe)
    }
}

impl vstd::std_specs::convert::FromSpecImpl<std::io::Error> for Error {
    open spec fn obeys_from_spec() -> bool {
        true
    }

    open spec fn from_spec(ioe: std::io::Error) -> Error {
        Error::Io(ioe)
    }
}

impl Error {
    /// A human-readable account of the error.
    pub fn describe(&self) -> (r: String)
        ensures
            self matches Error::InvalidArgument(m) ==> r@ == "Invalid argument: "@ + m@,
            self is UnknownSpecFormat ==> r@ == "Unknown workload spec format"@,
            self is TransactionAborted ==> r@ == "Transaction aborted"@,
            self is Io ==> r@ == "IO error"@,
    {
        match self {
            Error::InvalidArgument(m) => {
                let mut s = String::from_str("Invalid argument: ");
                s.append(m.as_str());
                s
            },
            Error::UnknownSpecFormat => String::from_str("Unknown workload spec format"),
            Error::TransactionAborted => String::from_str("Transaction aborted"),
            Error::Io(_) => String::from_str("IO error"),
        }
    }
}

} // verus!
