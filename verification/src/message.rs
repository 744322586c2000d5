//! The message forwarded to the subscriber for each decoded datagram.

use vstd::prelude::*;
use vstd::utf8::*;

verus! {

/// One datagram's text together with the address it came from.
#[derive(Clone, Debug, PartialEq, Eq)]
pub struct UdpMessage {
    data: String,
    source_address: String,
}

/// What a `UdpMessage` stands for: its two texts.
pub struct UdpMessageView {
    pub data: Seq<char>,
    pub source_address: Seq<char>,
}

impl View for UdpMessage {
    type V = UdpMessageView;

    closed spec fn view(&self) -> UdpMessageView {
        UdpMessageView { data: self.data@, source_address: self.source_address@ }
    }
}

impl UdpMessage {
    pub fn new(data: String, source_address: String) -> (message: UdpMessage)
        ensures
            message@ == (UdpMessageView { data: data@, source_address: source_address@ }),
    {
        UdpMessage { data, source_address }
    }

    /// The datagram's payload as text.
    pub fn data(&self) -> (text: &String)
        ensures
            text@ == self@.data,
    {
        &self.data
    }

    /// The sender's address and port, as text.
    pub fn source_address(&self) -> (text: &String)
        ensures
            text@ == self@.source_address,
    {
        &self.source_address
    }
}

/// The text that a payload carries: its decoding where the bytes are well-formed
/// UTF-8, and nothing otherwise.
pub open spec fn payload_text(payload: Seq<u8>) -> Option<Seq<char>> {
    if valid_utf8(payload) {
        Some(decode_utf8(payload))
    } else {
        None
    }
}

/// `String::from_utf8`: gives the string made of exactly these bytes when they
/// are well-formed UTF-8, and an error, here `None`, when they are not.
#[verifier::external_body]
pub(crate) fn text_from_utf8(payload: Vec<u8>) -> (text: Option<String>)
    ensures
        text is Some <==> valid_utf8(payload@),
        text matches Some(s) ==> s@ == decode_utf8(payload@),
{
    match String::from_utf8(payload) {
        Ok(s) => Some(s),
        Err(_) => None,
    }
}

} // verus!
