use vstd::prelude::*;
use crate::integrations::vrchat::{chatbox_wire_bytes, vrchat_target_addr};
use crate::osc::StringBoolBoolMessage;
use crate::text::concat;

verus! {

/// Failure to deliver a message to VRChat.
#[derive(Debug)]
pub enum VRChatError {
    SocketError(String),
    SendError(String),
}

impl VRChatError {
    /// The human-readable text of the error.
    pub open spec fn message_spec(&self) -> Seq<char> {
        match self {
            VRChatError::SocketError(msg) => "Socket error: "@ + msg@,
            VRChatError::SendError(msg) => "Send error: "@ + msg@,
        }
    }

    /// The text that the error displays as: `Socket error: <msg>` or
    /// `Send error: <msg>`.
    pub fn message(&self) -> (r: String)
        ensures
            r@ == self.message_spec(),
    {
        match self {
            VRChatError::SocketError(msg) => concat("Socket error: ", msg.as_str()),
            VRChatError::SendError(msg) => concat("Send error: ", msg.as_str()),
        }
    }

    /// The error for a UDP socket that could not be bound.
    pub fn bind_failed(detail: &str) -> (r: VRChatError)
        ensures
            r matches VRChatError::SocketError(m) && m@ == "Failed to bind socket: "@ + detail@,
    {
        VRChatError::SocketError(concat("Failed to bind socket: ", detail))
    }

    /// The error for a datagram that could not be sent.
    pub fn send_failed(detail: &str) -> (r: VRChatError)
        ensures
            r matches VRChatError::SendError(m) && m@ == "Failed to send OSC message: "@ + detail@,
    {
        VRChatError::SendError(concat("Failed to send OSC message: ", detail))
    }
}

/// Sends chat messages to VRChat over OSC.
pub struct VRChatClient {
    pub target_addr: String,
}

impl VRChatClient {
    /// A client for VRChat's default OSC input port on the local machine.
    pub fn new() -> (r: Self)
        ensures
            r.target_addr@ == vrchat_target_addr(),
    {
        VRChatClient { target_addr: "127.0.0.1:9000".to_string() }
    }

    /// The datagram that sends `message` to the chatbox; the caller binds a
    /// UDP socket and sends it to `target_addr`.
    pub fn chatbox_datagram(&self, message: &str) -> (r: Vec<u8>)
        ensures
            r@ == chatbox_wire_bytes(message@),
            crate::osc::has_no_nul(message@) ==> crate::osc::osc_udp_decoding(r@)
                == crate::osc::string_bool_bool_decoded("/chatbox/input"@, message@, true, true),
    {
        proof {
            reveal_strlit("/chatbox/input");
        }
        build_chatbox_packet(message).encode()
    }
}

impl Default for VRChatClient {
    fn default() -> (r: Self)
        ensures
            r.target_addr@ == vrchat_target_addr(),
    {
        Self::new()
    }
}

/// The `/chatbox/input` message for `text`: the text, `true` (show it
/// immediately) and `true` (play the notification sound).
pub fn build_chatbox_packet(text: &str) -> (r: StringBoolBoolMessage)
    ensures
        r.addr@ == crate::integrations::vrchat::chatbox_addr(),
        r.text@ == text@,
        r.first_flag,
        r.second_flag,
{
    crate::integrations::vrchat::build_chatbox_packet(text)
}

} // verus!
