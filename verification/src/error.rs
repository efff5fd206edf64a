//! The failures that end a subscription attempt, and the reasons for which a
//! single frame is set aside.

use vstd::prelude::*;
use vstd::string::StringExecFns;

verus! {

/// The private key of a credential pair cannot be used for signing.
#[derive(Debug, Clone, Copy, PartialEq, Eq, Structural)]
pub enum CredentialError {
    /// The private key is base64 neither in the standard alphabet nor in the
    /// URL-safe alphabet without padding.
    UndecodableSecret,
}

impl CredentialError {
    /// A sentence for logs and error reports.
    pub fn message(&self) -> (text: String)
        ensures
            text@ == "Failed to decode API secret as Base64"@,
    {
        String::from_str("Failed to decode API secret as Base64")
    }
}

/// The streaming connection cannot be had. The failure ends the
/// subscription attempt; nothing is tried again on the caller's behalf.
#[derive(Debug, Clone, Copy, PartialEq, Eq, Structural)]
pub enum ConnectionError {
    /// The configured address is not a URL.
    InvalidAddress,
    /// The handshake with the endpoint did not complete, or the transport
    /// under it failed.
    HandshakeFailed,
}

impl ConnectionError {
    /// The sentence that [`ConnectionError::message`] returns.
    pub open spec fn message_text(self) -> Seq<char> {
        match self {
            ConnectionError::InvalidAddress => "The feed address is not a valid URL"@,
            ConnectionError::HandshakeFailed => "Failed to connect to the feed"@,
        }
    }

    /// A sentence for logs and error reports.
    pub fn message(&self) -> (text: String)
        ensures
            text@ == self.message_text(),
    {
        match self {
            ConnectionError::InvalidAddress => String::from_str(
                "The feed address is not a valid URL",
            ),
            ConnectionError::HandshakeFailed => String::from_str("Failed to connect to the feed"),
        }
    }
}

/// Why an inbound text frame yields no event.
#[derive(Debug, Clone, Copy, PartialEq, Eq, Structural)]
pub enum FrameDecodeError {
    /// The frame is not a JSON document.
    InvalidJson,
    /// The document is not an array of exactly two elements.
    NotEnvelope,
    /// The body carries no channel name, or one that this client does not
    /// know.
    UnknownChannel,
    /// The body names a known channel but does not have that channel's shape.
    MalformedBody,
}

impl FrameDecodeError {
    /// A sentence for logs and error reports.
    pub fn message(&self) -> (text: String)
        ensures
            text@ == self.message_text(),
    {
        match self {
            FrameDecodeError::InvalidJson => String::from_str("frame is not valid JSON"),
            FrameDecodeError::NotEnvelope => String::from_str(
                "frame is not a two-element envelope",
            ),
            FrameDecodeError::UnknownChannel => String::from_str(
                "frame names no known channel",
            ),
            FrameDecodeError::MalformedBody => String::from_str(
                "frame body does not match its channel",
            ),
        }
    }

    /// The sentence that [`FrameDecodeError::message`] returns.
    pub open spec fn message_text(self) -> Seq<char> {
        match self {
            FrameDecodeError::InvalidJson => "frame is not valid JSON"@,
            FrameDecodeError::NotEnvelope => "frame is not a two-element envelope"@,
            FrameDecodeError::UnknownChannel => "frame names no known channel"@,
            FrameDecodeError::MalformedBody => "frame body does not match its channel"@,
        }
    }
}

} // verus!
