use vstd::prelude::*;
use bytes::Bytes;
use crate::share::event::{bytes_content, bytes_from_vec, bytes_to_vec};

verus! {

/// `--frame\r\n`: the boundary line that opens each part of the image stream.
pub open spec fn part_boundary() -> Seq<u8> {
    seq![45, 45, 102, 114, 97, 109, 101, 13, 10]
}

/// `Content-Type: image/jpeg\r\n\r\n`: the header of each part.
pub open spec fn part_header() -> Seq<u8> {
    seq![
        67, 111, 110, 116, 101, 110, 116, 45, 84, 121, 112, 101, 58, 32,
        105, 109, 97, 103, 101, 47, 106, 112, 101, 103, 13, 10, 13, 10,
    ]
}

/// `\r\n`: what closes each part.
pub open spec fn part_end() -> Seq<u8> {
    seq![13, 10]
}

/// One part of the `multipart/x-mixed-replace; boundary=frame` stream that
/// carries the JPEG image `jpeg`.
pub open spec fn stream_part(jpeg: Seq<u8>) -> Seq<u8> {
    part_boundary() + part_header() + jpeg + part_end()
}

/// Law: a part of the image stream carries the whole image, whatever its
/// length: nine bytes of boundary (`--frame\r\n`), the 28-byte header
/// (`Content-Type: image/jpeg\r\n\r\n`), every byte of the image in order
/// from offset 37, then `\r\n`; 39 bytes more than the image in all.
pub proof fn lemma_part_carries_whole_image(jpeg: Seq<u8>)
    ensures
        stream_part(jpeg).len() == 39 + jpeg.len(),
        stream_part(jpeg).subrange(0, 9) == part_boundary(),
        stream_part(jpeg).subrange(9, 37) == part_header(),
        stream_part(jpeg).subrange(37, 37 + jpeg.len() as int) == jpeg,
        stream_part(jpeg).subrange(37 + jpeg.len() as int, 39 + jpeg.len() as int) == part_end(),
        part_boundary().len() == 9,
        part_header().len() == 28,
        part_end().len() == 2,
{
    let p = stream_part(jpeg);
    assert(part_boundary().len() == 9);
    assert(part_header().len() == 28);
    assert(part_end().len() == 2);
    assert(p.subrange(0, 9) =~= part_boundary());
    assert(p.subrange(9, 37) =~= part_header());
    assert(p.subrange(37, 37 + jpeg.len() as int) =~= jpeg);
    assert(p.subrange(37 + jpeg.len() as int, 39 + jpeg.len() as int) =~= part_end());
}

/// Law: the boundary line, the header and the closing of a part are the
/// UTF-8 text `--frame\r\n`, `Content-Type: image/jpeg\r\n\r\n` and `\r\n`.
pub proof fn lemma_part_texts()
    ensures
        part_boundary() == vstd::utf8::encode_utf8("--frame\r\n"@),
        part_header() == vstd::utf8::encode_utf8("Content-Type: image/jpeg\r\n\r\n"@),
        part_end() == vstd::utf8::encode_utf8("\r\n"@),
{
    reveal_strlit("--frame\r\n");
    reveal_strlit("Content-Type: image/jpeg\r\n\r\n");
    reveal_strlit("\r\n");
    vstd::utf8::is_ascii_chars_encode_utf8("--frame\r\n"@);
    vstd::utf8::is_ascii_chars_encode_utf8("Content-Type: image/jpeg\r\n\r\n"@);
    vstd::utf8::is_ascii_chars_encode_utf8("\r\n"@);
    assert(part_boundary() =~= vstd::utf8::encode_utf8("--frame\r\n"@));
    assert(part_header() =~= vstd::utf8::encode_utf8("Content-Type: image/jpeg\r\n\r\n"@));
    assert(part_end() =~= vstd::utf8::encode_utf8("\r\n"@));
}

fn append_bytes(out: &mut Vec<u8>, more: &Vec<u8>)
    ensures
        final(out)@ == old(out)@ + more@,
{
    let mut i: usize = 0;
    while i < more.len()
        invariant
            i <= more.len(),
            out@ == old(out)@ + more@.take(i as int),
        decreases more.len() - i,
    {
        out.push(more[i]);
        i = i + 1;
        assert(more@.take(i as int) =~= more@.take(i - 1).push(more@[i - 1]));
    }
    assert(more@.take(more.len() as int) =~= more@);
}

/// Wraps a JPEG image into one part of the image stream.
pub fn frame_part(jpeg: &Bytes) -> (res: Bytes)
    ensures
        bytes_content(res) == stream_part(bytes_content(*jpeg)),
        bytes_content(res).len() == 39 + bytes_content(*jpeg).len(),
        bytes_content(res).subrange(0, 9) == part_boundary(),
        bytes_content(res).subrange(9, 37) == part_header(),
        bytes_content(res).subrange(37, 37 + bytes_content(*jpeg).len() as int) == bytes_content(*jpeg),
        bytes_content(res).subrange(37 + bytes_content(*jpeg).len() as int, 39 + bytes_content(*jpeg).len() as int)
            == part_end(),
{
    proof {
        lemma_part_carries_whole_image(bytes_content(*jpeg));
    }
    let mut raw: Vec<u8> = vec![45, 45, 102, 114, 97, 109, 101, 13, 10];
    let header: Vec<u8> = vec![
        67, 111, 110, 116, 101, 110, 116, 45, 84, 121, 112, 101, 58, 32,
        105, 109, 97, 103, 101, 47, 106, 112, 101, 103, 13, 10, 13, 10,
    ];
    let end: Vec<u8> = vec![13, 10];
    assert(raw@ =~= part_boundary());
    assert(header@ =~= part_header());
    assert(end@ =~= part_end());
    append_bytes(&mut raw, &header);
    let image = bytes_to_vec(jpeg);
    append_bytes(&mut raw, &image);
    append_bytes(&mut raw, &end);
    bytes_from_vec(raw)
}


/// A message from a web socket client.
#[derive(Debug, Clone)]
pub enum WsMessage {
    Text(String),
    Binary(Vec<u8>),
    Ping(Vec<u8>),
    Pong(Vec<u8>),
    Close,
}

/// What the server does with a client's message.
#[derive(Debug, Clone)]
pub enum WsReply {
    /// Answer a keep-alive ping with this pong payload.
    Pong(Vec<u8>),
    /// Read this text as an event and put it on the bus.
    ParseEvent(String),
    /// Refuse the message: it is not of a type that carries an event.
    Reject,
}

/// The keep-alive ping that the web client sends: one byte, 9.
pub open spec fn keepalive_payload() -> Seq<u8> {
    seq![9]
}

/// Decides what to do with a message from a web socket client: a keep-alive
/// ping is answered with a pong of the same payload, a text message is read
/// as an event, and every other message is refused.
pub fn ws_step(message: WsMessage) -> (res: WsReply)
    ensures
        match message {
            WsMessage::Ping(p) => if p@ == keepalive_payload() {
                res matches WsReply::Pong(q) && q@ == keepalive_payload()
            } else {
                res is Reject
            },
            WsMessage::Text(t) => res matches WsReply::ParseEvent(u) && u@ == t@,
            _ => res is Reject,
        },
{
    match message {
        WsMessage::Ping(p) => {
            if p.len() == 1 && p[0] == 9 {
                assert(p@ =~= keepalive_payload());
                let q: Vec<u8> = vec![9];
                assert(q@ =~= keepalive_payload());
                WsReply::Pong(q)
            } else {
                assert(p@ != keepalive_payload()) by {
                    if p@ == keepalive_payload() {
                        assert(p@.len() == 1 && p@[0] == 9);
                    }
                }
                WsReply::Reject
            }
        },
        WsMessage::Text(t) => WsReply::ParseEvent(t),
        _ => WsReply::Reject,
    }
}

} // verus!
