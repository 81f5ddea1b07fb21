use vstd::prelude::*;

verus! {

/// Why the filtering engine could not form a request.
#[derive(Debug, Clone, Copy, PartialEq, Eq, Structural)]
pub enum RequestRejection {
    /// The request URL's host could not be parsed.
    HostnameParse,
    /// The source URL's host could not be parsed.
    SourceHostnameParse,
    /// The input was not valid Unicode.
    UnicodeDecoding,
}

/// The failures that an operation of the bridge can report to the host.
#[derive(Debug, Clone, PartialEq, Eq, Structural)]
pub enum BridgeError {
    /// No live instance is registered under the handle.
    InstanceNotFound(i64),
    /// A value handed over by the host could not be decoded.
    ValueExtraction,
    /// A result object could not be built on the host side.
    HostObjectConstruction,
    /// The lock that guards the instance table is poisoned.
    LockFailure,
    /// The filtering engine rejected the request, for the reason given.
    EngineRejected(RequestRejection),
    /// Every handle that fits in an `i64` has been handed out.
    HandlesExhausted,
}

} // verus!
