//! Executable encoding and decoding of messages, verified against the
//! mathematical codec: `serialize_message` produces exactly the bytes of
//! [`crate::codec::enc_message`] on the message's wire form, and
//! `deserialize_message` is its inverse on whole buffers.

use vstd::prelude::*;
use vstd::slice::{slice_subrange, slice_to_vec};
use vstd::string::StrSliceExecFns;

use crate::codec::{
    enc_bool, enc_bytes, enc_code, enc_message, enc_opt_bytes, enc_opt_meta, enc_opt_string,
    enc_opt_version, enc_payload, enc_string, enc_u32, enc_u64, enc_version, wf_code, wf_message,
};
use crate::schema::{Message, SpecMessage};
use crate::transform::{
    spec_schema_of_wire_message, spec_wire_of_message,
};
use crate::wire::{
    WireBenchmarkStart, WireClientHello, WireError, WireMessage, WirePayload, WireServerHello,
    WireStreamClose, WireStreamCreateMeta, WireStreamOpen, WireVersion,
};

verus! {

// ---------------------------------------------------------------------------
// Encoding
// ---------------------------------------------------------------------------
fn put_u64(out: &mut Vec<u8>, x: u64)
    ensures
        final(out)@ == old(out)@ + enc_u64(x),
{
    let mut b = vstd::bytes::u64_to_le_bytes(x);
    out.append(&mut b);
}

fn put_u32(out: &mut Vec<u8>, x: u32)
    ensures
        final(out)@ == old(out)@ + enc_u32(x),
{
    let mut b = vstd::bytes::u32_to_le_bytes(x);
    out.append(&mut b);
}

fn put_bool(out: &mut Vec<u8>, x: bool)
    ensures
        final(out)@ == old(out)@ + enc_bool(x),
{
    out.push(if x { 1u8 } else { 0u8 });
    assert(final(out)@ =~= old(out)@ + enc_bool(x));
}

fn put_tag(out: &mut Vec<u8>, t: u8)
    ensures
        final(out)@ == old(out)@ + seq![t],
{
    out.push(t);
    assert(final(out)@ =~= old(out)@ + seq![t]);
}

fn put_code(out: &mut Vec<u8>, c: i32)
    requires
        wf_code(c),
    ensures
        final(out)@ == old(out)@ + enc_code(c),
{
    out.push(c as u8);
    assert(final(out)@ =~= old(out)@ + enc_code(c));
}

fn put_bytes(out: &mut Vec<u8>, b: &Vec<u8>)
    ensures
        final(out)@ == old(out)@ + enc_bytes(b@),
{
    let n = b.len();
    put_u64(out, n as u64);
    let mut copy = slice_to_vec(b.as_slice());
    out.append(&mut copy);
    assert(final(out)@ =~= old(out)@ + enc_bytes(b@));
}

fn put_string(out: &mut Vec<u8>, s: &String)
    ensures
        final(out)@ == old(out)@ + enc_string(s@),
{
    let mut utf8 = s.as_str().as_bytes_vec();
    let n = utf8.len();
    put_u64(out, n as u64);
    out.append(&mut utf8);
    assert(final(out)@ =~= old(out)@ + enc_string(s@));
}

fn put_opt_bytes(out: &mut Vec<u8>, o: &Option<Vec<u8>>)
    ensures
        final(out)@ == old(out)@ + enc_opt_bytes(crate::schema::view_opt_bytes(*o)),
{
    match o {
        Option::None => {
            put_tag(out, 0);
        },
        Option::Some(b) => {
            put_tag(out, 1);
            put_bytes(out, b);
            assert(final(out)@ =~= old(out)@ + enc_opt_bytes(
                crate::schema::view_opt_bytes(*o),
            ));
        },
    }
}

fn put_opt_string(out: &mut Vec<u8>, o: &Option<String>)
    ensures
        final(out)@ == old(out)@ + enc_opt_string(crate::schema::view_opt_string(*o)),
{
    match o {
        Option::None => {
            put_tag(out, 0);
        },
        Option::Some(s) => {
            put_tag(out, 1);
            put_string(out, s);
            assert(final(out)@ =~= old(out)@ + enc_opt_string(
                crate::schema::view_opt_string(*o),
            ));
        },
    }
}

fn put_version(out: &mut Vec<u8>, v: &WireVersion)
    ensures
        final(out)@ == old(out)@ + enc_version(*v),
{
    put_u32(out, v.major);
    put_u32(out, v.minor);
    put_u32(out, v.patch);
    assert(final(out)@ =~= old(out)@ + enc_version(*v));
}

fn put_opt_version(out: &mut Vec<u8>, o: &Option<WireVersion>)
    ensures
        final(out)@ == old(out)@ + enc_opt_version(*o),
{
    match o {
        Option::None => {
            put_tag(out, 0);
        },
        Option::Some(v) => {
            put_tag(out, 1);
            put_version(out, v);
            assert(final(out)@ =~= old(out)@ + enc_opt_version(*o));
        },
    }
}

fn put_opt_meta(out: &mut Vec<u8>, o: &Option<WireStreamCreateMeta>)
    requires
        (*o matches Option::Some(m) ==> wf_code(m.stream_integrity)),
    ensures
        final(out)@ == old(out)@ + enc_opt_meta(*o),
{
    match o {
        Option::None => {
            put_tag(out, 0);
        },
        Option::Some(m) => {
            put_tag(out, 1);
            put_code(out, m.stream_integrity);
            assert(final(out)@ =~= old(out)@ + enc_opt_meta(*o));
        },
    }
}

fn put_payload(out: &mut Vec<u8>, p: &WirePayload)
    requires
        crate::codec::wf_codes_payload(p@),
    ensures
        final(out)@ == old(out)@ + enc_payload(p@),
{
    match p {
        WirePayload::ClientHello(h) => {
            put_tag(out, 0);
            put_opt_version(out, &h.version);
            put_opt_bytes(out, &h.resume_connection_token);
        },
        WirePayload::ServerHello(h) => {
            put_tag(out, 1);
            put_opt_version(out, &h.version);
            put_bool(out, h.ok);
            put_opt_bytes(out, &h.connection_token);
            put_opt_string(out, &h.message);
        },
        WirePayload::Okay => {
            put_tag(out, 2);
        },
        WirePayload::Error(e) => {
            put_tag(out, 3);
            put_code(out, e.error_type);
            put_string(out, &e.message);
        },
        WirePayload::StreamOpen(o) => {
            put_tag(out, 4);
            put_u64(out, o.stream_id);
            put_opt_meta(out, &o.meta);
        },
        WirePayload::StreamClose(c) => {
            put_tag(out, 5);
            put_u64(out, c.stream_id);
        },
        WirePayload::ArbitaryData(d) => {
            put_tag(out, 6);
            put_bytes(out, &d.content);
        },
        WirePayload::Keepalive => {
            put_tag(out, 7);
        },
        WirePayload::Close => {
            put_tag(out, 8);
        },
        WirePayload::BenchmarkStart(b) => {
            put_tag(out, 9);
            put_code(out, b.integrity_type);
            put_u64(out, b.byte_count);
        },
        WirePayload::BenchmarkEnd => {
            put_tag(out, 10);
        },
    }
    assert(final(out)@ =~= old(out)@ + enc_payload(p@));
}

/// Encodes one wire message into its canonical bytes.
pub fn encode_wire_message(m: &WireMessage) -> (r: Vec<u8>)
    requires
        crate::codec::wf_codes_message(m@),
    ensures
        r@ == enc_message(m@),
{
    let mut out: Vec<u8> = Vec::new();
    put_u64(&mut out, m.context_id);
    match &m.payload {
        Option::None => {
            put_tag(&mut out, 0);
        },
        Option::Some(p) => {
            put_tag(&mut out, 1);
            put_payload(&mut out, p);
        },
    }
    assert(out@ =~= enc_message(m@));
    out
}

// ---------------------------------------------------------------------------
// Decoding
// ---------------------------------------------------------------------------
/// Relies on `String::from_utf8`: it succeeds exactly when the bytes are
/// valid UTF-8, and then returns the string whose UTF-8 encoding is those
/// bytes.
#[verifier::external_body]
fn bytes_to_string(v: Vec<u8>) -> (r: Option<String>)
    ensures
        (r matches Option::Some(s) ==> vstd::utf8::valid_utf8(v@) && vstd::utf8::encode_utf8(s@)
            == v@),
        (r is None ==> !vstd::utf8::valid_utf8(v@)),
{
    match String::from_utf8(v) {
        Ok(s) => Some(s),
        Err(_) => None,
    }
}

fn take_u8(buf: &[u8], pos: usize) -> (r: Option<(u8, usize)>)
    ensures
        match r {
            Option::Some((v, j)) => crate::codec::par_u8(buf@, pos as int) == Option::Some(
                (v, j as int),
            ) && pos < j <= buf@.len(),
            Option::None => crate::codec::par_u8(buf@, pos as int) is None,
        },
{
    if pos < buf.len() {
        Option::Some((buf[pos], pos + 1))
    } else {
        Option::None
    }
}

pub(crate) fn take_u64(buf: &[u8], pos: usize) -> (r: Option<(u64, usize)>)
    ensures
        match r {
            Option::Some((v, j)) => crate::codec::par_u64(buf@, pos as int) == Option::Some(
                (v, j as int),
            ) && pos < j <= buf@.len(),
            Option::None => crate::codec::par_u64(buf@, pos as int) is None,
        },
{
    if pos <= buf.len() && buf.len() - pos >= 8 {
        let sub = slice_subrange(buf, pos, pos + 8);
        let x = vstd::bytes::u64_from_le_bytes(sub);
        Option::Some((x, pos + 8))
    } else {
        Option::None
    }
}

fn take_u32(buf: &[u8], pos: usize) -> (r: Option<(u32, usize)>)
    ensures
        match r {
            Option::Some((v, j)) => crate::codec::par_u32(buf@, pos as int) == Option::Some(
                (v, j as int),
            ) && pos < j <= buf@.len(),
            Option::None => crate::codec::par_u32(buf@, pos as int) is None,
        },
{
    if pos <= buf.len() && buf.len() - pos >= 4 {
        let sub = slice_subrange(buf, pos, pos + 4);
        let x = vstd::bytes::u32_from_le_bytes(sub);
        Option::Some((x, pos + 4))
    } else {
        Option::None
    }
}

fn take_bool(buf: &[u8], pos: usize) -> (r: Option<(bool, usize)>)
    ensures
        match r {
            Option::Some((v, j)) => crate::codec::par_bool(buf@, pos as int) == Option::Some(
                (v, j as int),
            ) && pos < j <= buf@.len(),
            Option::None => crate::codec::par_bool(buf@, pos as int) is None,
        },
{
    match take_u8(buf, pos) {
        Option::Some((b, j)) => {
            if b == 0 {
                Option::Some((false, j))
            } else if b == 1 {
                Option::Some((true, j))
            } else {
                Option::None
            }
        },
        Option::None => Option::None,
    }
}

fn take_code(buf: &[u8], pos: usize) -> (r: Option<(i32, usize)>)
    ensures
        match r {
            Option::Some((v, j)) => crate::codec::par_code(buf@, pos as int) == Option::Some(
                (v, j as int),
            ) && pos < j <= buf@.len(),
            Option::None => crate::codec::par_code(buf@, pos as int) is None,
        },
{
    match take_u8(buf, pos) {
        Option::Some((b, j)) => Option::Some((b as i32, j)),
        Option::None => Option::None,
    }
}

fn take_bytes(buf: &[u8], pos: usize) -> (r: Option<(Vec<u8>, usize)>)
    ensures
        match r {
            Option::Some((v, j)) => crate::codec::par_bytes(buf@, pos as int) == Option::Some(
                (v@, j as int),
            ) && pos < j <= buf@.len(),
            Option::None => crate::codec::par_bytes(buf@, pos as int) is None,
        },
{
    match take_u64(buf, pos) {
        Option::Some((n, j)) => {
            if n <= (buf.len() - j) as u64 {
                let nn = n as usize;
                let v = slice_to_vec(slice_subrange(buf, j, j + nn));
                Option::Some((v, j + nn))
            } else {
                Option::None
            }
        },
        Option::None => Option::None,
    }
}

fn take_string(buf: &[u8], pos: usize) -> (r: Option<(String, usize)>)
    ensures
        match r {
            Option::Some((v, j)) => crate::codec::par_string(buf@, pos as int) == Option::Some(
                (v@, j as int),
            ) && pos < j <= buf@.len(),
            Option::None => crate::codec::par_string(buf@, pos as int) is None,
        },
{
    match take_bytes(buf, pos) {
        Option::Some((v, j)) => {
            let ghost vb = v@;
            match bytes_to_string(v) {
                Option::Some(s) => {
                    proof {
                        vstd::utf8::encode_utf8_decode_utf8(s@);
                    }
                    Option::Some((s, j))
                },
                Option::None => Option::None,
            }
        },
        Option::None => Option::None,
    }
}

fn take_opt_bytes(buf: &[u8], pos: usize) -> (r: Option<(Option<Vec<u8>>, usize)>)
    ensures
        match r {
            Option::Some((v, j)) => crate::codec::par_opt_bytes(buf@, pos as int) == Option::Some(
                (crate::schema::view_opt_bytes(v), j as int),
            ) && pos < j <= buf@.len(),
            Option::None => crate::codec::par_opt_bytes(buf@, pos as int) is None,
        },
{
    match take_u8(buf, pos) {
        Option::Some((t, j)) => {
            if t == 0 {
                Option::Some((Option::None, j))
            } else if t == 1 {
                match take_bytes(buf, j) {
                    Option::Some((v, k)) => Option::Some((Option::Some(v), k)),
                    Option::None => Option::None,
                }
            } else {
                Option::None
            }
        },
        Option::None => Option::None,
    }
}

fn take_opt_string(buf: &[u8], pos: usize) -> (r: Option<(Option<String>, usize)>)
    ensures
        match r {
            Option::Some((v, j)) => crate::codec::par_opt_string(buf@, pos as int) == Option::Some(
                (crate::schema::view_opt_string(v), j as int),
            ) && pos < j <= buf@.len(),
            Option::None => crate::codec::par_opt_string(buf@, pos as int) is None,
        },
{
    match take_u8(buf, pos) {
        Option::Some((t, j)) => {
            if t == 0 {
                Option::Some((Option::None, j))
            } else if t == 1 {
                match take_string(buf, j) {
                    Option::Some((v, k)) => Option::Some((Option::Some(v), k)),
                    Option::None => Option::None,
                }
            } else {
                Option::None
            }
        },
        Option::None => Option::None,
    }
}

fn take_version(buf: &[u8], pos: usize) -> (r: Option<(WireVersion, usize)>)
    ensures
        match r {
            Option::Some((v, j)) => crate::codec::par_version(buf@, pos as int) == Option::Some(
                (v, j as int),
            ) && pos < j <= buf@.len(),
            Option::None => crate::codec::par_version(buf@, pos as int) is None,
        },
{
    match take_u32(buf, pos) {
        Option::Some((major, j)) => match take_u32(buf, j) {
            Option::Some((minor, k)) => match take_u32(buf, k) {
                Option::Some((patch, l)) => Option::Some((WireVersion { major, minor, patch }, l)),
                Option::None => Option::None,
            },
            Option::None => Option::None,
        },
        Option::None => Option::None,
    }
}

fn take_opt_version(buf: &[u8], pos: usize) -> (r: Option<(Option<WireVersion>, usize)>)
    ensures
        match r {
            Option::Some((v, j)) => crate::codec::par_opt_version(buf@, pos as int)
                == Option::Some((v, j as int)) && pos < j <= buf@.len(),
            Option::None => crate::codec::par_opt_version(buf@, pos as int) is None,
        },
{
    match take_u8(buf, pos) {
        Option::Some((t, j)) => {
            if t == 0 {
                Option::Some((Option::None, j))
            } else if t == 1 {
                match take_version(buf, j) {
                    Option::Some((v, k)) => Option::Some((Option::Some(v), k)),
                    Option::None => Option::None,
                }
            } else {
                Option::None
            }
        },
        Option::None => Option::None,
    }
}

fn take_opt_meta(buf: &[u8], pos: usize) -> (r: Option<(Option<WireStreamCreateMeta>, usize)>)
    ensures
        match r {
            Option::Some((v, j)) => crate::codec::par_opt_meta(buf@, pos as int) == Option::Some(
                (v, j as int),
            ) && pos < j <= buf@.len(),
            Option::None => crate::codec::par_opt_meta(buf@, pos as int) is None,
        },
{
    match take_u8(buf, pos) {
        Option::Some((t, j)) => {
            if t == 0 {
                Option::Some((Option::None, j))
            } else if t == 1 {
                match take_code(buf, j) {
                    Option::Some((c, k)) => Option::Some(
                        (Option::Some(WireStreamCreateMeta { stream_integrity: c }), k),
                    ),
                    Option::None => Option::None,
                }
            } else {
                Option::None
            }
        },
        Option::None => Option::None,
    }
}

fn take_payload(buf: &[u8], pos: usize) -> (r: Option<(WirePayload, usize)>)
    ensures
        match r {
            Option::Some((p, j)) => crate::codec::par_payload(buf@, pos as int) == Option::Some(
                (p@, j as int),
            ) && pos < j <= buf@.len(),
            Option::None => crate::codec::par_payload(buf@, pos as int) is None,
        },
{
    match take_u8(buf, pos) {
        Option::Some((tag, j)) => {
            if tag == 0 {
                match take_opt_version(buf, j) {
                    Option::Some((version, k)) => match take_opt_bytes(buf, k) {
                        Option::Some((token, l)) => Option::Some(
                            (
                                WirePayload::ClientHello(
                                    WireClientHello {
                                        version,
                                        resume_connection_token: token,
                                    },
                                ),
                                l,
                            ),
                        ),
                        Option::None => Option::None,
                    },
                    Option::None => Option::None,
                }
            } else if tag == 1 {
                match take_opt_version(buf, j) {
                    Option::Some((version, k)) => match take_bool(buf, k) {
                        Option::Some((ok, l)) => match take_opt_bytes(buf, l) {
                            Option::Some((token, m)) => match take_opt_string(buf, m) {
                                Option::Some((message, n)) => Option::Some(
                                    (
                                        WirePayload::ServerHello(
                                            WireServerHello {
                                                version,
                                                ok,
                                                connection_token: token,
                                                message,
                                            },
                                        ),
                                        n,
                                    ),
                                ),
                                Option::None => Option::None,
                            },
                            Option::None => Option::None,
                        },
                        Option::None => Option::None,
                    },
                    Option::None => Option::None,
                }
            } else if tag == 2 {
                Option::Some((WirePayload::Okay, j))
            } else if tag == 3 {
                match take_code(buf, j) {
                    Option::Some((c, k)) => match take_string(buf, k) {
                        Option::Some((message, l)) => Option::Some(
                            (WirePayload::Error(WireError { error_type: c, message }), l),
                        ),
                        Option::None => Option::None,
                    },
                    Option::None => Option::None,
                }
            } else if tag == 4 {
                match take_u64(buf, j) {
                    Option::Some((stream_id, k)) => match take_opt_meta(buf, k) {
                        Option::Some((meta, l)) => Option::Some(
                            (WirePayload::StreamOpen(WireStreamOpen { stream_id, meta }), l),
                        ),
                        Option::None => Option::None,
                    },
                    Option::None => Option::None,
                }
            } else if tag == 5 {
                match take_u64(buf, j) {
                    Option::Some((stream_id, k)) => Option::Some(
                        (WirePayload::StreamClose(WireStreamClose { stream_id }), k),
                    ),
                    Option::None => Option::None,
                }
            } else if tag == 6 {
                match take_bytes(buf, j) {
                    Option::Some((content, k)) => Option::Some(
                        (
                            WirePayload::ArbitaryData(
                                crate::wire::WireArbitaryData { content },
                            ),
                            k,
                        ),
                    ),
                    Option::None => Option::None,
                }
            } else if tag == 7 {
                Option::Some((WirePayload::Keepalive, j))
            } else if tag == 8 {
                Option::Some((WirePayload::Close, j))
            } else if tag == 9 {
                match take_code(buf, j) {
                    Option::Some((c, k)) => match take_u64(buf, k) {
                        Option::Some((byte_count, l)) => Option::Some(
                            (
                                WirePayload::BenchmarkStart(
                                    WireBenchmarkStart { integrity_type: c, byte_count },
                                ),
                                l,
                            ),
                        ),
                        Option::None => Option::None,
                    },
                    Option::None => Option::None,
                }
            } else if tag == 10 {
                Option::Some((WirePayload::BenchmarkEnd, j))
            } else {
                Option::None
            }
        },
        Option::None => Option::None,
    }
}

fn take_message(buf: &[u8], pos: usize) -> (r: Option<(WireMessage, usize)>)
    ensures
        match r {
            Option::Some((m, j)) => crate::codec::par_message(buf@, pos as int) == Option::Some(
                (m@, j as int),
            ) && pos < j <= buf@.len(),
            Option::None => crate::codec::par_message(buf@, pos as int) is None,
        },
{
    match take_u64(buf, pos) {
        Option::Some((context_id, j)) => match take_u8(buf, j) {
            Option::Some((t, k)) => {
                if t == 0 {
                    Option::Some((WireMessage { context_id, payload: Option::None }, k))
                } else if t == 1 {
                    match take_payload(buf, k) {
                        Option::Some((p, l)) => Option::Some(
                            (WireMessage { context_id, payload: Option::Some(p) }, l),
                        ),
                        Option::None => Option::None,
                    }
                } else {
                    Option::None
                }
            },
            Option::None => Option::None,
        },
        Option::None => Option::None,
    }
}

/// Decodes one wire message from a buffer that must hold exactly its bytes.
pub fn decode_wire_message(buf: &[u8]) -> (r: Option<WireMessage>)
    ensures
        match r {
            Option::Some(m) => crate::codec::spec_decode(buf@) == Option::Some(m@),
            Option::None => crate::codec::spec_decode(buf@) is None,
        },
{
    match take_message(buf, 0) {
        Option::Some((m, j)) => {
            if j == buf.len() {
                Option::Some(m)
            } else {
                Option::None
            }
        },
        Option::None => Option::None,
    }
}

// ---------------------------------------------------------------------------
// The schema-level codec
// ---------------------------------------------------------------------------
/// The bytes a schema message serialises to.
pub open spec fn spec_serialize(m: SpecMessage) -> Seq<u8> {
    enc_message(spec_wire_of_message(m))
}

/// The schema message a buffer deserialises to, if it holds exactly one
/// well-formed message.
pub open spec fn spec_deserialize(s: Seq<u8>) -> Option<SpecMessage> {
    match crate::codec::spec_decode(s) {
        Option::Some(w) => spec_schema_of_wire_message(w),
        Option::None => Option::None,
    }
}

/// Serialises a message into its canonical frame body.
pub fn serialize_message(message: Message) -> (r: Vec<u8>)
    ensures
        r@ == spec_serialize(message@),
{
    let wire = message.to_wire();
    proof {
        crate::transform::lemma_wire_of_codes(message@);
    }
    encode_wire_message(&wire)
}

/// Deserialises a frame body; yields nothing exactly when the bytes are not
/// the canonical encoding of one well-formed message.
pub fn deserialize_message(buf: &[u8]) -> (r: Option<Message>)
    ensures
        match r {
            Option::Some(m) => spec_deserialize(buf@) == Option::Some(m@),
            Option::None => spec_deserialize(buf@) is None,
        },
{
    match decode_wire_message(buf) {
        Option::Some(w) => w.to_schema(),
        Option::None => Option::None,
    }
}

/// Bounds under which a message's buffers fit the 64-bit length prefixes of
/// the encoding; every message held in executable form satisfies them.
pub open spec fn spec_message_wf(m: SpecMessage) -> bool {
    wf_message(spec_wire_of_message(m))
}

/// Deserialisation inverts serialisation: every message within the size
/// bounds of the wire format survives the round trip through the codec.
pub proof fn lemma_codec_round_trip(m: SpecMessage)
    requires
        spec_message_wf(m),
    ensures
        spec_deserialize(spec_serialize(m)) == Option::Some(m),
{
    let w = spec_wire_of_message(m);
    crate::codec::lemma_decode_of_enc(w);
    crate::transform::lemma_transform_round_trip(m);
}

} // verus!
