use vstd::prelude::*;
use bytes::Bytes;

verus! {

#[verifier::external_type_specification]
#[verifier::external_body]
pub struct ExBytes(bytes::Bytes);

/// The bytes that a `Bytes` buffer holds, in order.
pub uninterp spec fn bytes_content(b: Bytes) -> Seq<u8>;

/// `Bytes::clone` gives a second handle on the same buffer: it holds the
/// same bytes.
pub assume_specification[ <bytes::Bytes as std::clone::Clone>::clone ](b: &bytes::Bytes) -> (res: bytes::Bytes)
    ensures
        bytes_content(res) == bytes_content(*b),
;

/// Calls `<Bytes as From<String>>::from`, which takes over the string's
/// UTF-8 encoding: the buffer holds exactly the encoded bytes of `s`.
#[verifier::external_body]
pub(crate) fn bytes_from_string(s: String) -> (b: Bytes)
    ensures
        bytes_content(b) == vstd::utf8::encode_utf8(s@),
{
    Bytes::from(s)
}

/// Calls `<Bytes as From<Vec<u8>>>::from`: the buffer holds exactly the
/// bytes of the vector.
#[verifier::external_body]
pub(crate) fn bytes_from_vec(v: Vec<u8>) -> (b: Bytes)
    ensures
        bytes_content(b) == v@,
{
    Bytes::from(v)
}

/// Calls `to_vec` on the slice that `Bytes` dereferences to: the vector
/// holds exactly the buffer's bytes.
#[verifier::external_body]
pub(crate) fn bytes_to_vec(b: &Bytes) -> (v: Vec<u8>)
    ensures
        v@ == bytes_content(*b),
{
    b.to_vec()
}

/// What an event on the bus asks for or carries.
#[derive(Debug, PartialEq, Eq, Structural, Copy, Clone)]
pub enum Action {
    Empty,
    WebCalibPointsResult,
    EndOfCalib,
    HTTPStreamSend,
}

/// An event: its action and the bytes it carries.
#[derive(Debug, Clone)]
pub struct EventObject {
    pub action: Action,
    pub data: Bytes,
}

/// An event as a web client writes it: the payload is text.
#[derive(Debug, Clone)]
pub struct EventObjectBuilder {
    pub action: Action,
    pub data: String,
}

impl EventObject {
    pub fn new(action: Action, data: Bytes) -> (res: Self)
        ensures
            res.action == action,
            res.data == data,
    {
        Self { action, data }
    }

    /// The event that a client's message describes: the same action, and the
    /// UTF-8 encoding of its text as payload.
    pub fn from_event_builder(builder: EventObjectBuilder) -> (res: Self)
        ensures
            res.action == builder.action,
            bytes_content(res.data) == vstd::utf8::encode_utf8(builder.data@),
    {
        Self { action: builder.action, data: bytes_from_string(builder.data) }
    }
}


/// Law: an event made from a client's message carries the message's text:
/// its payload is valid UTF-8 and decodes to exactly that text.
pub proof fn lemma_event_payload_decodes_to_text(builder: EventObjectBuilder, event: EventObject)
    requires
        event.action == builder.action,
        bytes_content(event.data) == vstd::utf8::encode_utf8(builder.data@),
    ensures
        vstd::utf8::valid_utf8(bytes_content(event.data)),
        vstd::utf8::decode_utf8(bytes_content(event.data)) == builder.data@,
{
    vstd::utf8::encode_utf8_valid_utf8(builder.data@);
    vstd::utf8::encode_utf8_decode_utf8(builder.data@);
}

} // verus!
