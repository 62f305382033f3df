//! The error taxonomy of the subsystem.
//!
//! Every fallible operation of the core returns one of these tagged values,
//! with enough context to tell "try again" (connection, timeout) from "fix
//! configuration" from "internal bug" (protocol).

use vstd::prelude::*;

verus! {

/// Mathematical view of an [`SttError`]: the variant with its detail text.
pub enum SttErrorV {
    Configuration(Seq<char>),
    State(Seq<char>),
    Connection(Seq<char>),
    Protocol(Seq<char>),
    Timeout(Seq<char>),
    Io(Seq<char>),
}

/// One concrete failure of the core.
///
/// - `ConfigurationError`: required credentials or setup are absent.
/// - `StateError`: invalid start/stop ordering of the recording session.
/// - `ConnectionError`: transport-level failure or a non-2xx response.
/// - `ProtocolError`: a malformed or error-bearing message, or an empty
///   accumulated result.
/// - `TimeoutError`: the receive deadline elapsed with no terminal signal.
/// - `IoError`: a local file read or write failed.
#[derive(Debug)]
pub enum SttError {
    ConfigurationError(String),
    StateError(String),
    ConnectionError(String),
    ProtocolError(String),
    TimeoutError(String),
    IoError(String),
}

impl View for SttError {
    type V = SttErrorV;

    open spec fn view(&self) -> SttErrorV {
        match self {
            SttError::ConfigurationError(m) => SttErrorV::Configuration(m@),
            SttError::StateError(m) => SttErrorV::State(m@),
            SttError::ConnectionError(m) => SttErrorV::Connection(m@),
            SttError::ProtocolError(m) => SttErrorV::Protocol(m@),
            SttError::TimeoutError(m) => SttErrorV::Timeout(m@),
            SttError::IoError(m) => SttErrorV::Io(m@),
        }
    }
}

impl SttErrorV {
    /// The detail text of the viewed error, whatever its variant.
    pub open spec fn detail(self) -> Seq<char> {
        match self {
            SttErrorV::Configuration(m) => m,
            SttErrorV::State(m) => m,
            SttErrorV::Connection(m) => m,
            SttErrorV::Protocol(m) => m,
            SttErrorV::Timeout(m) => m,
            SttErrorV::Io(m) => m,
        }
    }
}

impl SttError {
    /// The human-readable detail carried by the error.
    pub fn message(&self) -> (r: String)
        ensures
            r@ == self@.detail(),
    {
        match self {
            SttError::ConfigurationError(m) => m.clone(),
            SttError::StateError(m) => m.clone(),
            SttError::ConnectionError(m) => m.clone(),
            SttError::ProtocolError(m) => m.clone(),
            SttError::TimeoutError(m) => m.clone(),
            SttError::IoError(m) => m.clone(),
        }
    }
}

} // verus!
