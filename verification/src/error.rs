//! Error taxonomy of the monitor.
//!
//! `Fault` covers the transport-level failures raised while talking to the
//! bridge or to the metric sink; the unverified shell maps the concrete
//! transport errors into these variants before handing control back to the
//! library. `ConversionError` covers a sensor payload that does not carry
//! the representation its metric kind requires.

use vstd::prelude::*;

verus! {

/// A transport-level failure reaching the bridge or the sink.
#[derive(Debug, PartialEq, Eq)]
pub enum Fault {
    /// Network or HTTP failure, including a non-success status.
    Transport(String),
    /// Rejected credentials, surfaced as a transport-level error.
    Auth(String),
    /// A response body that did not match the expected schema.
    MalformedResponse(String),
    /// A trust certificate that could not be read or parsed.
    Certificate(String),
    /// An input/output failure outside the network path.
    Io(String),
}

impl Clone for Fault {
    fn clone(&self) -> (r: Self)
        ensures
            r == *self,
    {
        match self {
            Fault::Transport(m) => Fault::Transport(m.clone()),
            Fault::Auth(m) => Fault::Auth(m.clone()),
            Fault::MalformedResponse(m) => Fault::MalformedResponse(m.clone()),
            Fault::Certificate(m) => Fault::Certificate(m.clone()),
            Fault::Io(m) => Fault::Io(m.clone()),
        }
    }
}

impl Fault {
    /// The detail string carried by the fault.
    pub open spec fn spec_detail(self) -> Seq<char> {
        match self {
            Fault::Transport(m) => m@,
            Fault::Auth(m) => m@,
            Fault::MalformedResponse(m) => m@,
            Fault::Certificate(m) => m@,
            Fault::Io(m) => m@,
        }
    }

    /// An operator-readable description: a fixed prefix naming the fault
    /// kind, followed by the detail string.
    pub fn message(&self) -> (r: String)
        ensures
            *self is Transport ==> r@ == "transport error: "@ + self.spec_detail(),
            *self is Auth ==> r@ == "authentication error: "@ + self.spec_detail(),
            *self is MalformedResponse ==> r@ == "malformed response: "@ + self.spec_detail(),
            *self is Certificate ==> r@ == "certificate error: "@ + self.spec_detail(),
            *self is Io ==> r@ == "I/O error: "@ + self.spec_detail(),
    {
        match self {
            Fault::Transport(m) => String::from_str("transport error: ").concat(m.as_str()),
            Fault::Auth(m) => String::from_str("authentication error: ").concat(m.as_str()),
            Fault::MalformedResponse(m) => String::from_str("malformed response: ").concat(m.as_str()),
            Fault::Certificate(m) => String::from_str("certificate error: ").concat(m.as_str()),
            Fault::Io(m) => String::from_str("I/O error: ").concat(m.as_str()),
        }
    }
}

/// A sensor payload that does not carry the representation required by its
/// metric kind.
#[derive(Debug, Clone, Copy, PartialEq, Eq, Structural)]
pub enum ConversionError {
    /// The payload carries no usable numeric value at all.
    NotNumeric,
    /// The payload is not an exact signed 64-bit integer.
    NotInteger,
}

impl ConversionError {
    /// An operator-readable description of the conversion failure.
    pub fn message(&self) -> (r: String)
        ensures
            *self is NotNumeric ==> r@ == "payload is not numeric"@,
            *self is NotInteger ==> r@ == "payload is not an integer"@,
    {
        match self {
            ConversionError::NotNumeric => String::from_str("payload is not numeric"),
            ConversionError::NotInteger => String::from_str("payload is not an integer"),
        }
    }
}

} // verus!
