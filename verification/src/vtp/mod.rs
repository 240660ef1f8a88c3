//! Transport protocol: semantic priorities, replicated sets and registers,
//! delta compression, channels, packets and message framing.

pub mod channel;
pub mod compression;
pub mod framing;
pub mod packet;
pub mod priority;
pub mod sync;

use vstd::prelude::*;

verus! {

/// Errors of the transport protocol.
#[derive(Debug, Clone)]
pub enum VtpError {
    /// Transmission failure.
    TransmissionError(String),
    /// (De)compression failure.
    CompressionError(String),
    /// Timeout.
    Timeout(String),
    /// Channel unavailable.
    ChannelUnavailable(String),
    /// Routing failure.
    RoutingError(String),
}

} // verus!

verus! {

/// The message of a transport error, as its display form writes it.
pub open spec fn vtp_error_message(e: VtpError) -> Seq<char> {
    match e {
        VtpError::TransmissionError(m) => "Errore di trasmissione: "@ + m@,
        VtpError::CompressionError(m) => "Errore di compressione: "@ + m@,
        VtpError::Timeout(m) => "Timeout: "@ + m@,
        VtpError::ChannelUnavailable(m) => "Canale non disponibile: "@ + m@,
        VtpError::RoutingError(m) => "Routing fallito: "@ + m@,
    }
}

impl VtpError {
    /// The error's message (see `vtp_error_message`).
    pub fn to_string(&self) -> (s: String)
        ensures
            s@ == vtp_error_message(*self),
    {
        let (prefix, m) = match self {
            VtpError::TransmissionError(m) => ("Errore di trasmissione: ", m),
            VtpError::CompressionError(m) => ("Errore di compressione: ", m),
            VtpError::Timeout(m) => ("Timeout: ", m),
            VtpError::ChannelUnavailable(m) => ("Canale non disponibile: ", m),
            VtpError::RoutingError(m) => ("Routing fallito: ", m),
        };
        let mut s = String::from_str(prefix);
        s.append(m.as_str());
        s
    }
}

} // verus!
