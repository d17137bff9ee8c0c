//! The error taxonomy shared by the allocators, the engine-facing steps and
//! the persistence layer.
use vstd::prelude::*;
use vstd::string::StringExecFns;

verus! {

/// Every failure the provisioning core can report.
#[derive(Debug, PartialEq, Eq)]
pub enum Error {
    /// The requested row is absent from the store.
    NotFound,
    /// A uniqueness constraint was violated at the store.
    UniqueViolation { details: String },
    /// Another constraint-family violation at the store.
    ModelViolation { details: String },
    /// Any unclassified store error, carried through opaquely.
    UnhandledError { source: String },
    /// A container engine call failed.
    EngineError { msg: String },
    /// The engine created a network but returned no id for it.
    NetworkIdMissing,
    /// The port scan window held no usable port.
    PortRangeExhausted,
    /// No existing network gives a baseline to allocate a subnet from.
    NoBaselineNetwork,
    /// The service configuration is malformed or unreadable.
    ConfigError { msg: String },
    /// A filesystem or subprocess failure in a collaborator.
    IOError { msg: String },
}

impl Error {
    /// The user-visible message for this error, surfaced verbatim by callers.
    pub fn message(&self) -> (r: String)
        ensures
            r@ == self.spec_message(),
    {
        let res = match self {
            Error::NotFound => String::from_str("Entity does not exist"),
            Error::UniqueViolation { details } => {
                let mut s = String::from_str("Operation violates uniqueness constraint: ");
                s.append(details.as_str());
                s
            },
            Error::ModelViolation { details } => {
                let mut s = String::from_str("Operation violates model: ");
                s.append(details.as_str());
                s
            },
            Error::UnhandledError { source } => {
                let mut s = String::from_str("UnHandled Error: ");
                s.append(source.as_str());
                s
            },
            Error::EngineError { msg } => {
                let mut s = String::from_str("Engine error: ");
                s.append(msg.as_str());
                s
            },
            Error::NetworkIdMissing => String::from_str("Could not get network id"),
            Error::PortRangeExhausted => String::from_str("No available port in the scan window"),
            Error::NoBaselineNetwork => String::from_str(
                "No baseline network to allocate a subnet from",
            ),
            Error::ConfigError { msg } => {
                let mut s = String::from_str("Configuration error: ");
                s.append(msg.as_str());
                s
            },
            Error::IOError { msg } => {
                let mut s = String::from_str("IO error: ");
                s.append(msg.as_str());
                s
            },
        };
        res
    }

    /// What `message` returns, variant by variant.
    pub open spec fn spec_message(&self) -> Seq<char> {
        match self {
            Error::NotFound => "Entity does not exist"@,
            Error::UniqueViolation { details } => "Operation violates uniqueness constraint: "@
                + details@,
            Error::ModelViolation { details } => "Operation violates model: "@ + details@,
            Error::UnhandledError { source } => "UnHandled Error: "@ + source@,
            Error::EngineError { msg } => "Engine error: "@ + msg@,
            Error::NetworkIdMissing => "Could not get network id"@,
            Error::PortRangeExhausted => "No available port in the scan window"@,
            Error::NoBaselineNetwork => "No baseline network to allocate a subnet from"@,
            Error::ConfigError { msg } => "Configuration error: "@ + msg@,
            Error::IOError { msg } => "IO error: "@ + msg@,
        }
    }
}

} // verus!
