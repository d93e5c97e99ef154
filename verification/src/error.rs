use vstd::prelude::*;

verus! {

/// Failure taxonomy of the library. No failure is recovered here: every one
/// ends the operation that met it and is surfaced to the caller.
#[derive(Clone, Copy, Debug, PartialEq, Eq, Structural)]
pub enum Error {
    /// The transport could not be established or maintained.
    Connection,
    /// The authentication handshake was rejected or cut short.
    Authentication,
    /// A subscribe or keepalive acknowledgement reported failure, or a frame
    /// matched neither the data nor the acknowledgement shape.
    Subscription,
    /// A frame or routed payload did not have the expected shape.
    Decoding,
    /// A data frame's topic matches no channel this store supports.
    Routing,
}

impl Error {
    /// A short description, in place of a Display implementation.
    pub fn message(&self) -> (r: &'static str)
        ensures
            r@ == self.message_spec(),
    {
        match self {
            Error::Connection => "connection failed",
            Error::Authentication => "authentication failed",
            Error::Subscription => "subscription failed",
            Error::Decoding => "failed to decode a frame",
            Error::Routing => "unsupported topic",
        }
    }

    pub open spec fn message_spec(self) -> Seq<char> {
        match self {
            Error::Connection => "connection failed"@,
            Error::Authentication => "authentication failed"@,
            Error::Subscription => "subscription failed"@,
            Error::Decoding => "failed to decode a frame"@,
            Error::Routing => "unsupported topic"@,
        }
    }
}

} // verus!
