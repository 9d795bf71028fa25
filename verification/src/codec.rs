//! The byte encoding of wire messages, as a mathematical function, with its
//! inverse and the proof that the two compose to the identity.
//!
//! The encoding is a canonical tagged form: integers travel little-endian,
//! a byte buffer travels as a 64-bit length followed by its bytes, a string
//! as the length-prefixed UTF-8 encoding of its characters, an optional
//! field as a presence byte followed by the field, an enum as a single code
//! byte, and a payload as a variant tag byte followed by the variant's
//! fields.

use vstd::bytes::{
    spec_u32_from_le_bytes, spec_u32_to_le_bytes, spec_u64_from_le_bytes, spec_u64_to_le_bytes,
};
use vstd::prelude::*;
use vstd::utf8::{decode_utf8, encode_utf8, valid_utf8};

use crate::wire::{
    SpecWireArbitaryData, SpecWireClientHello, SpecWireError, SpecWireMessage, SpecWirePayload,
    SpecWireServerHello, WireBenchmarkStart, WireStreamClose, WireStreamCreateMeta, WireStreamOpen,
    WireVersion,
};

verus! {

// ---------------------------------------------------------------------------
// Well-formedness: what the encoding can carry
// ---------------------------------------------------------------------------
/// An enum code that fits in its single wire byte.
pub open spec fn wf_code(c: i32) -> bool {
    0 <= c < 256
}

/// A byte buffer whose length fits in the 64-bit length prefix.
pub open spec fn wf_bytes(b: Seq<u8>) -> bool {
    b.len() <= u64::MAX
}

/// A string whose UTF-8 encoding fits behind the 64-bit length prefix.
pub open spec fn wf_string(s: Seq<char>) -> bool {
    encode_utf8(s).len() <= u64::MAX
}

pub open spec fn wf_client_hello(h: SpecWireClientHello) -> bool {
    match h.resume_connection_token {
        Option::Some(b) => wf_bytes(b),
        Option::None => true,
    }
}

pub open spec fn wf_server_hello(h: SpecWireServerHello) -> bool {
    &&& match h.connection_token {
        Option::Some(b) => wf_bytes(b),
        Option::None => true,
    }
    &&& match h.message {
        Option::Some(s) => wf_string(s),
        Option::None => true,
    }
}

pub open spec fn wf_error(e: SpecWireError) -> bool {
    wf_code(e.error_type) && wf_string(e.message)
}

pub open spec fn wf_meta(m: WireStreamCreateMeta) -> bool {
    wf_code(m.stream_integrity)
}

pub open spec fn wf_stream_open(o: WireStreamOpen) -> bool {
    match o.meta {
        Option::Some(m) => wf_meta(m),
        Option::None => true,
    }
}

pub open spec fn wf_benchmark_start(b: WireBenchmarkStart) -> bool {
    wf_code(b.integrity_type)
}

pub open spec fn wf_payload(p: SpecWirePayload) -> bool {
    match p {
        SpecWirePayload::ClientHello(h) => wf_client_hello(h),
        SpecWirePayload::ServerHello(h) => wf_server_hello(h),
        SpecWirePayload::Okay => true,
        SpecWirePayload::Error(e) => wf_error(e),
        SpecWirePayload::StreamOpen(o) => wf_stream_open(o),
        SpecWirePayload::StreamClose(c) => true,
        SpecWirePayload::ArbitaryData(d) => wf_bytes(d.content),
        SpecWirePayload::Keepalive => true,
        SpecWirePayload::Close => true,
        SpecWirePayload::BenchmarkStart(b) => wf_benchmark_start(b),
        SpecWirePayload::BenchmarkEnd => true,
    }
}

pub open spec fn wf_message(m: SpecWireMessage) -> bool {
    match m.payload {
        Option::Some(p) => wf_payload(p),
        Option::None => true,
    }
}

/// The part of well-formedness that does not come for free from holding a
/// value in executable form: every enum code fits its wire byte.
pub open spec fn wf_codes_payload(p: SpecWirePayload) -> bool {
    match p {
        SpecWirePayload::Error(e) => wf_code(e.error_type),
        SpecWirePayload::StreamOpen(o) => match o.meta {
            Option::Some(m) => wf_code(m.stream_integrity),
            Option::None => true,
        },
        SpecWirePayload::BenchmarkStart(b) => wf_code(b.integrity_type),
        _ => true,
    }
}

pub open spec fn wf_codes_message(m: SpecWireMessage) -> bool {
    match m.payload {
        Option::Some(p) => wf_codes_payload(p),
        Option::None => true,
    }
}

// ---------------------------------------------------------------------------
// Encoders
// ---------------------------------------------------------------------------
pub open spec fn enc_u64(x: u64) -> Seq<u8> {
    spec_u64_to_le_bytes(x)
}

pub open spec fn enc_u32(x: u32) -> Seq<u8> {
    spec_u32_to_le_bytes(x)
}

pub open spec fn enc_bool(b: bool) -> Seq<u8> {
    seq![if b { 1u8 } else { 0u8 }]
}

/// An enum code travels as one byte.
pub open spec fn enc_code(c: i32) -> Seq<u8>
    recommends
        wf_code(c),
{
    seq![c as u8]
}

pub open spec fn enc_bytes(b: Seq<u8>) -> Seq<u8>
    recommends
        wf_bytes(b),
{
    enc_u64(b.len() as u64) + b
}

pub open spec fn enc_string(s: Seq<char>) -> Seq<u8>
    recommends
        wf_string(s),
{
    enc_bytes(encode_utf8(s))
}

pub open spec fn enc_opt_bytes(o: Option<Seq<u8>>) -> Seq<u8> {
    match o {
        Option::None => seq![0u8],
        Option::Some(b) => seq![1u8] + enc_bytes(b),
    }
}

pub open spec fn enc_opt_string(o: Option<Seq<char>>) -> Seq<u8> {
    match o {
        Option::None => seq![0u8],
        Option::Some(s) => seq![1u8] + enc_string(s),
    }
}

pub open spec fn enc_version(v: WireVersion) -> Seq<u8> {
    enc_u32(v.major) + enc_u32(v.minor) + enc_u32(v.patch)
}

pub open spec fn enc_opt_version(o: Option<WireVersion>) -> Seq<u8> {
    match o {
        Option::None => seq![0u8],
        Option::Some(v) => seq![1u8] + enc_version(v),
    }
}

pub open spec fn enc_meta(m: WireStreamCreateMeta) -> Seq<u8> {
    enc_code(m.stream_integrity)
}

pub open spec fn enc_opt_meta(o: Option<WireStreamCreateMeta>) -> Seq<u8> {
    match o {
        Option::None => seq![0u8],
        Option::Some(m) => seq![1u8] + enc_meta(m),
    }
}

pub open spec fn enc_client_hello(h: SpecWireClientHello) -> Seq<u8> {
    enc_opt_version(h.version) + enc_opt_bytes(h.resume_connection_token)
}

pub open spec fn enc_server_hello(h: SpecWireServerHello) -> Seq<u8> {
    enc_opt_version(h.version) + enc_bool(h.ok) + enc_opt_bytes(h.connection_token)
        + enc_opt_string(h.message)
}

pub open spec fn enc_error(e: SpecWireError) -> Seq<u8> {
    enc_code(e.error_type) + enc_string(e.message)
}

pub open spec fn enc_stream_open(o: WireStreamOpen) -> Seq<u8> {
    enc_u64(o.stream_id) + enc_opt_meta(o.meta)
}

pub open spec fn enc_stream_close(c: WireStreamClose) -> Seq<u8> {
    enc_u64(c.stream_id)
}

pub open spec fn enc_arbitary_data(d: SpecWireArbitaryData) -> Seq<u8> {
    enc_bytes(d.content)
}

pub open spec fn enc_benchmark_start(b: WireBenchmarkStart) -> Seq<u8> {
    enc_code(b.integrity_type) + enc_u64(b.byte_count)
}

/// The variant tag of a payload.
pub open spec fn payload_tag(p: SpecWirePayload) -> u8 {
    match p {
        SpecWirePayload::ClientHello(_) => 0u8,
        SpecWirePayload::ServerHello(_) => 1u8,
        SpecWirePayload::Okay => 2u8,
        SpecWirePayload::Error(_) => 3u8,
        SpecWirePayload::StreamOpen(_) => 4u8,
        SpecWirePayload::StreamClose(_) => 5u8,
        SpecWirePayload::ArbitaryData(_) => 6u8,
        SpecWirePayload::Keepalive => 7u8,
        SpecWirePayload::Close => 8u8,
        SpecWirePayload::BenchmarkStart(_) => 9u8,
        SpecWirePayload::BenchmarkEnd => 10u8,
    }
}

/// The fields of a payload, without its tag.
pub open spec fn enc_payload_body(p: SpecWirePayload) -> Seq<u8> {
    match p {
        SpecWirePayload::ClientHello(h) => enc_client_hello(h),
        SpecWirePayload::ServerHello(h) => enc_server_hello(h),
        SpecWirePayload::Okay => Seq::empty(),
        SpecWirePayload::Error(e) => enc_error(e),
        SpecWirePayload::StreamOpen(o) => enc_stream_open(o),
        SpecWirePayload::StreamClose(c) => enc_stream_close(c),
        SpecWirePayload::ArbitaryData(d) => enc_arbitary_data(d),
        SpecWirePayload::Keepalive => Seq::empty(),
        SpecWirePayload::Close => Seq::empty(),
        SpecWirePayload::BenchmarkStart(b) => enc_benchmark_start(b),
        SpecWirePayload::BenchmarkEnd => Seq::empty(),
    }
}

pub open spec fn enc_payload(p: SpecWirePayload) -> Seq<u8> {
    seq![payload_tag(p)] + enc_payload_body(p)
}

pub open spec fn enc_opt_payload(o: Option<SpecWirePayload>) -> Seq<u8> {
    match o {
        Option::None => seq![0u8],
        Option::Some(p) => seq![1u8] + enc_payload(p),
    }
}

/// The full byte encoding of one wire message.
pub open spec fn enc_message(m: SpecWireMessage) -> Seq<u8> {
    enc_u64(m.context_id) + enc_opt_payload(m.payload)
}

// ---------------------------------------------------------------------------
// Parsers
// ---------------------------------------------------------------------------
// Each parser reads at position `i` of `s` and yields the parsed value with
// the position just past it, or nothing if the bytes there do not encode
// one.
pub open spec fn par_u8(s: Seq<u8>, i: int) -> Option<(u8, int)> {
    if 0 <= i && i + 1 <= s.len() {
        Option::Some((s[i], i + 1))
    } else {
        Option::None
    }
}

pub open spec fn par_u64(s: Seq<u8>, i: int) -> Option<(u64, int)> {
    if 0 <= i && i + 8 <= s.len() {
        Option::Some((spec_u64_from_le_bytes(s.subrange(i, i + 8)), i + 8))
    } else {
        Option::None
    }
}

pub open spec fn par_u32(s: Seq<u8>, i: int) -> Option<(u32, int)> {
    if 0 <= i && i + 4 <= s.len() {
        Option::Some((spec_u32_from_le_bytes(s.subrange(i, i + 4)), i + 4))
    } else {
        Option::None
    }
}

pub open spec fn par_bool(s: Seq<u8>, i: int) -> Option<(bool, int)> {
    match par_u8(s, i) {
        Option::Some((b, j)) => if b == 0 {
            Option::Some((false, j))
        } else if b == 1 {
            Option::Some((true, j))
        } else {
            Option::None
        },
        Option::None => Option::None,
    }
}

pub open spec fn par_code(s: Seq<u8>, i: int) -> Option<(i32, int)> {
    match par_u8(s, i) {
        Option::Some((b, j)) => Option::Some((b as i32, j)),
        Option::None => Option::None,
    }
}

pub open spec fn par_bytes(s: Seq<u8>, i: int) -> Option<(Seq<u8>, int)> {
    match par_u64(s, i) {
        Option::Some((n, j)) => if j + n <= s.len() {
            Option::Some((s.subrange(j, j + n), j + n))
        } else {
            Option::None
        },
        Option::None => Option::None,
    }
}

pub open spec fn par_string(s: Seq<u8>, i: int) -> Option<(Seq<char>, int)> {
    match par_bytes(s, i) {
        Option::Some((b, j)) => if valid_utf8(b) {
            Option::Some((decode_utf8(b), j))
        } else {
            Option::None
        },
        Option::None => Option::None,
    }
}

pub open spec fn par_opt_bytes(s: Seq<u8>, i: int) -> Option<(Option<Seq<u8>>, int)> {
    match par_u8(s, i) {
        Option::Some((t, j)) => if t == 0 {
            Option::Some((Option::None, j))
        } else if t == 1 {
            match par_bytes(s, j) {
                Option::Some((b, k)) => Option::Some((Option::Some(b), k)),
                Option::None => Option::None,
            }
        } else {
            Option::None
        },
        Option::None => Option::None,
    }
}

pub open spec fn par_opt_string(s: Seq<u8>, i: int) -> Option<(Option<Seq<char>>, int)> {
    match par_u8(s, i) {
        Option::Some((t, j)) => if t == 0 {
            Option::Some((Option::None, j))
        } else if t == 1 {
            match par_string(s, j) {
                Option::Some((v, k)) => Option::Some((Option::Some(v), k)),
                Option::None => Option::None,
            }
        } else {
            Option::None
        },
        Option::None => Option::None,
    }
}

pub open spec fn par_version(s: Seq<u8>, i: int) -> Option<(WireVersion, int)> {
    match par_u32(s, i) {
        Option::Some((major, j)) => match par_u32(s, j) {
            Option::Some((minor, k)) => match par_u32(s, k) {
                Option::Some((patch, l)) => Option::Some(
                    (WireVersion { major, minor, patch }, l),
                ),
                Option::None => Option::None,
            },
            Option::None => Option::None,
        },
        Option::None => Option::None,
    }
}

pub open spec fn par_opt_version(s: Seq<u8>, i: int) -> Option<(Option<WireVersion>, int)> {
    match par_u8(s, i) {
        Option::Some((t, j)) => if t == 0 {
            Option::Some((Option::None, j))
        } else if t == 1 {
            match par_version(s, j) {
                Option::Some((v, k)) => Option::Some((Option::Some(v), k)),
                Option::None => Option::None,
            }
        } else {
            Option::None
        },
        Option::None => Option::None,
    }
}

pub open spec fn par_meta(s: Seq<u8>, i: int) -> Option<(WireStreamCreateMeta, int)> {
    match par_code(s, i) {
        Option::Some((c, j)) => Option::Some((WireStreamCreateMeta { stream_integrity: c }, j)),
        Option::None => Option::None,
    }
}

pub open spec fn par_opt_meta(s: Seq<u8>, i: int) -> Option<(Option<WireStreamCreateMeta>, int)> {
    match par_u8(s, i) {
        Option::Some((t, j)) => if t == 0 {
            Option::Some((Option::None, j))
        } else if t == 1 {
            match par_meta(s, j) {
                Option::Some((m, k)) => Option::Some((Option::Some(m), k)),
                Option::None => Option::None,
            }
        } else {
            Option::None
        },
        Option::None => Option::None,
    }
}

pub open spec fn par_client_hello(s: Seq<u8>, i: int) -> Option<(SpecWireClientHello, int)> {
    match par_opt_version(s, i) {
        Option::Some((version, j)) => match par_opt_bytes(s, j) {
            Option::Some((token, k)) => Option::Some(
                (SpecWireClientHello { version, resume_connection_token: token }, k),
            ),
            Option::None => Option::None,
        },
        Option::None => Option::None,
    }
}

pub open spec fn par_server_hello(s: Seq<u8>, i: int) -> Option<(SpecWireServerHello, int)> {
    match par_opt_version(s, i) {
        Option::Some((version, j)) => match par_bool(s, j) {
            Option::Some((ok, k)) => match par_opt_bytes(s, k) {
                Option::Some((token, l)) => match par_opt_string(s, l) {
                    Option::Some((message, m)) => Option::Some(
                        (
                            SpecWireServerHello {
                                version,
                                ok,
                                connection_token: token,
                                message,
                            },
                            m,
                        ),
                    ),
                    Option::None => Option::None,
                },
                Option::None => Option::None,
            },
            Option::None => Option::None,
        },
        Option::None => Option::None,
    }
}

pub open spec fn par_error(s: Seq<u8>, i: int) -> Option<(SpecWireError, int)> {
    match par_code(s, i) {
        Option::Some((c, j)) => match par_string(s, j) {
            Option::Some((message, k)) => Option::Some(
                (SpecWireError { error_type: c, message }, k),
            ),
            Option::None => Option::None,
        },
        Option::None => Option::None,
    }
}

pub open spec fn par_stream_open(s: Seq<u8>, i: int) -> Option<(WireStreamOpen, int)> {
    match par_u64(s, i) {
        Option::Some((stream_id, j)) => match par_opt_meta(s, j) {
            Option::Some((meta, k)) => Option::Some((WireStreamOpen { stream_id, meta }, k)),
            Option::None => Option::None,
        },
        Option::None => Option::None,
    }
}

pub open spec fn par_stream_close(s: Seq<u8>, i: int) -> Option<(WireStreamClose, int)> {
    match par_u64(s, i) {
        Option::Some((stream_id, j)) => Option::Some((WireStreamClose { stream_id }, j)),
        Option::None => Option::None,
    }
}

pub open spec fn par_arbitary_data(s: Seq<u8>, i: int) -> Option<(SpecWireArbitaryData, int)> {
    match par_bytes(s, i) {
        Option::Some((content, j)) => Option::Some((SpecWireArbitaryData { content }, j)),
        Option::None => Option::None,
    }
}

pub open spec fn par_benchmark_start(s: Seq<u8>, i: int) -> Option<(WireBenchmarkStart, int)> {
    match par_code(s, i) {
        Option::Some((c, j)) => match par_u64(s, j) {
            Option::Some((byte_count, k)) => Option::Some(
                (WireBenchmarkStart { integrity_type: c, byte_count }, k),
            ),
            Option::None => Option::None,
        },
        Option::None => Option::None,
    }
}

pub open spec fn par_payload(s: Seq<u8>, i: int) -> Option<(SpecWirePayload, int)> {
    match par_u8(s, i) {
        Option::Some((tag, j)) => if tag == 0 {
            match par_client_hello(s, j) {
                Option::Some((h, k)) => Option::Some((SpecWirePayload::ClientHello(h), k)),
                Option::None => Option::None,
            }
        } else if tag == 1 {
            match par_server_hello(s, j) {
                Option::Some((h, k)) => Option::Some((SpecWirePayload::ServerHello(h), k)),
                Option::None => Option::None,
            }
        } else if tag == 2 {
            Option::Some((SpecWirePayload::Okay, j))
        } else if tag == 3 {
            match par_error(s, j) {
                Option::Some((e, k)) => Option::Some((SpecWirePayload::Error(e), k)),
                Option::None => Option::None,
            }
        } else if tag == 4 {
            match par_stream_open(s, j) {
                Option::Some((o, k)) => Option::Some((SpecWirePayload::StreamOpen(o), k)),
                Option::None => Option::None,
            }
        } else if tag == 5 {
            match par_stream_close(s, j) {
                Option::Some((c, k)) => Option::Some((SpecWirePayload::StreamClose(c), k)),
                Option::None => Option::None,
            }
        } else if tag == 6 {
            match par_arbitary_data(s, j) {
                Option::Some((d, k)) => Option::Some((SpecWirePayload::ArbitaryData(d), k)),
                Option::None => Option::None,
            }
        } else if tag == 7 {
            Option::Some((SpecWirePayload::Keepalive, j))
        } else if tag == 8 {
            Option::Some((SpecWirePayload::Close, j))
        } else if tag == 9 {
            match par_benchmark_start(s, j) {
                Option::Some((b, k)) => Option::Some((SpecWirePayload::BenchmarkStart(b), k)),
                Option::None => Option::None,
            }
        } else if tag == 10 {
            Option::Some((SpecWirePayload::BenchmarkEnd, j))
        } else {
            Option::None
        },
        Option::None => Option::None,
    }
}

pub open spec fn par_opt_payload(s: Seq<u8>, i: int) -> Option<(Option<SpecWirePayload>, int)> {
    match par_u8(s, i) {
        Option::Some((t, j)) => if t == 0 {
            Option::Some((Option::None, j))
        } else if t == 1 {
            match par_payload(s, j) {
                Option::Some((p, k)) => Option::Some((Option::Some(p), k)),
                Option::None => Option::None,
            }
        } else {
            Option::None
        },
        Option::None => Option::None,
    }
}

pub open spec fn par_message(s: Seq<u8>, i: int) -> Option<(SpecWireMessage, int)> {
    match par_u64(s, i) {
        Option::Some((context_id, j)) => match par_opt_payload(s, j) {
            Option::Some((payload, k)) => Option::Some((SpecWireMessage { context_id, payload }, k)),
            Option::None => Option::None,
        },
        Option::None => Option::None,
    }
}

/// The inverse of [`enc_message`] on whole buffers: a buffer decodes to a
/// message exactly when it is one message's encoding with nothing left over.
pub open spec fn spec_decode(s: Seq<u8>) -> Option<SpecWireMessage> {
    match par_message(s, 0) {
        Option::Some((m, n)) => if n == s.len() {
            Option::Some(m)
        } else {
            Option::None
        },
        Option::None => Option::None,
    }
}

// ---------------------------------------------------------------------------
// Round trip: each parser recovers what its encoder wrote
// ---------------------------------------------------------------------------
/// Splits a window of `s` that holds a concatenation into the two
/// concatenated pieces.
pub(crate) proof fn lemma_split2(s: Seq<u8>, i: int, a: Seq<u8>, b: Seq<u8>)
    requires
        0 <= i,
        i + a.len() + b.len() <= s.len(),
        s.subrange(i, i + a.len() + b.len()) == a + b,
    ensures
        s.subrange(i, i + a.len()) == a,
        s.subrange(i + a.len(), i + a.len() + b.len()) == b,
{
    let w = s.subrange(i, i + a.len() + b.len());
    assert forall|k: int| 0 <= k < a.len() implies s.subrange(i, i + a.len())[k] == a[k] by {
        assert(w[k] == s[i + k]);
        assert(w[k] == (a + b)[k]);
    }
    assert(s.subrange(i, i + a.len()) =~= a);
    assert forall|k: int| 0 <= k < b.len() implies s.subrange(
        i + a.len(),
        i + a.len() + b.len(),
    )[k] == b[k] by {
        assert(w[a.len() + k] == s[i + a.len() + k]);
        assert(w[a.len() + k] == (a + b)[a.len() + k]);
    }
    assert(s.subrange(i + a.len(), i + a.len() + b.len()) =~= b);
}

proof fn lemma_par_u8_enc(s: Seq<u8>, i: int, x: u8)
    requires
        0 <= i,
        i + 1 <= s.len(),
        s.subrange(i, i + 1) == seq![x],
    ensures
        par_u8(s, i) == Option::Some((x, i + 1)),
{
    assert(s[i] == s.subrange(i, i + 1)[0]);
}

proof fn lemma_par_u64_enc(s: Seq<u8>, i: int, x: u64)
    requires
        0 <= i,
        i + enc_u64(x).len() <= s.len(),
        s.subrange(i, i + enc_u64(x).len()) == enc_u64(x),
    ensures
        par_u64(s, i) == Option::Some((x, i + 8)),
        enc_u64(x).len() == 8,
{
    vstd::bytes::lemma_auto_spec_u64_to_from_le_bytes();
}

proof fn lemma_par_u32_enc(s: Seq<u8>, i: int, x: u32)
    requires
        0 <= i,
        i + enc_u32(x).len() <= s.len(),
        s.subrange(i, i + enc_u32(x).len()) == enc_u32(x),
    ensures
        par_u32(s, i) == Option::Some((x, i + 4)),
        enc_u32(x).len() == 4,
{
    vstd::bytes::lemma_auto_spec_u32_to_from_le_bytes();
}

proof fn lemma_par_bool_enc(s: Seq<u8>, i: int, x: bool)
    requires
        0 <= i,
        i + 1 <= s.len(),
        s.subrange(i, i + 1) == enc_bool(x),
    ensures
        par_bool(s, i) == Option::Some((x, i + 1)),
{
    lemma_par_u8_enc(s, i, if x { 1u8 } else { 0u8 });
}

proof fn lemma_par_code_enc(s: Seq<u8>, i: int, c: i32)
    requires
        wf_code(c),
        0 <= i,
        i + 1 <= s.len(),
        s.subrange(i, i + 1) == enc_code(c),
    ensures
        par_code(s, i) == Option::Some((c, i + 1)),
{
    lemma_par_u8_enc(s, i, c as u8);
}

proof fn lemma_par_bytes_enc(s: Seq<u8>, i: int, b: Seq<u8>)
    requires
        wf_bytes(b),
        0 <= i,
        i + enc_bytes(b).len() <= s.len(),
        s.subrange(i, i + enc_bytes(b).len()) == enc_bytes(b),
    ensures
        par_bytes(s, i) == Option::Some((b, i + enc_bytes(b).len())),
        enc_bytes(b).len() == 8 + b.len(),
{
    vstd::bytes::lemma_auto_spec_u64_to_from_le_bytes();
    let lenb = enc_u64(b.len() as u64);
    lemma_split2(s, i, lenb, b);
    lemma_par_u64_enc(s, i, b.len() as u64);
}

proof fn lemma_par_string_enc(s: Seq<u8>, i: int, t: Seq<char>)
    requires
        wf_string(t),
        0 <= i,
        i + enc_string(t).len() <= s.len(),
        s.subrange(i, i + enc_string(t).len()) == enc_string(t),
    ensures
        par_string(s, i) == Option::Some((t, i + enc_string(t).len())),
{
    lemma_par_bytes_enc(s, i, encode_utf8(t));
    vstd::utf8::encode_utf8_valid_utf8(t);
    vstd::utf8::encode_utf8_decode_utf8(t);
}

proof fn lemma_par_opt_bytes_enc(s: Seq<u8>, i: int, o: Option<Seq<u8>>)
    requires
        (o matches Option::Some(b) ==> wf_bytes(b)),
        0 <= i,
        i + enc_opt_bytes(o).len() <= s.len(),
        s.subrange(i, i + enc_opt_bytes(o).len()) == enc_opt_bytes(o),
    ensures
        par_opt_bytes(s, i) == Option::Some((o, i + enc_opt_bytes(o).len())),
{
    match o {
        Option::None => {
            lemma_par_u8_enc(s, i, 0u8);
        },
        Option::Some(b) => {
            lemma_split2(s, i, seq![1u8], enc_bytes(b));
            lemma_par_u8_enc(s, i, 1u8);
            lemma_par_bytes_enc(s, i + 1, b);
        },
    }
}

proof fn lemma_par_opt_string_enc(s: Seq<u8>, i: int, o: Option<Seq<char>>)
    requires
        (o matches Option::Some(t) ==> wf_string(t)),
        0 <= i,
        i + enc_opt_string(o).len() <= s.len(),
        s.subrange(i, i + enc_opt_string(o).len()) == enc_opt_string(o),
    ensures
        par_opt_string(s, i) == Option::Some((o, i + enc_opt_string(o).len())),
{
    match o {
        Option::None => {
            lemma_par_u8_enc(s, i, 0u8);
        },
        Option::Some(t) => {
            lemma_split2(s, i, seq![1u8], enc_string(t));
            lemma_par_u8_enc(s, i, 1u8);
            lemma_par_string_enc(s, i + 1, t);
        },
    }
}

proof fn lemma_par_version_enc(s: Seq<u8>, i: int, v: WireVersion)
    requires
        0 <= i,
        i + enc_version(v).len() <= s.len(),
        s.subrange(i, i + enc_version(v).len()) == enc_version(v),
    ensures
        par_version(s, i) == Option::Some((v, i + enc_version(v).len())),
        enc_version(v).len() == 12,
{
    vstd::bytes::lemma_auto_spec_u32_to_from_le_bytes();
    let a = enc_u32(v.major);
    let b = enc_u32(v.minor);
    let c = enc_u32(v.patch);
    lemma_split2(s, i, a + b, c);
    lemma_split2(s, i, a, b);
    lemma_par_u32_enc(s, i, v.major);
    lemma_par_u32_enc(s, i + 4, v.minor);
    lemma_par_u32_enc(s, i + 8, v.patch);
}

proof fn lemma_par_opt_version_enc(s: Seq<u8>, i: int, o: Option<WireVersion>)
    requires
        0 <= i,
        i + enc_opt_version(o).len() <= s.len(),
        s.subrange(i, i + enc_opt_version(o).len()) == enc_opt_version(o),
    ensures
        par_opt_version(s, i) == Option::Some((o, i + enc_opt_version(o).len())),
{
    match o {
        Option::None => {
            lemma_par_u8_enc(s, i, 0u8);
        },
        Option::Some(v) => {
            lemma_split2(s, i, seq![1u8], enc_version(v));
            lemma_par_u8_enc(s, i, 1u8);
            lemma_par_version_enc(s, i + 1, v);
        },
    }
}

proof fn lemma_par_meta_enc(s: Seq<u8>, i: int, m: WireStreamCreateMeta)
    requires
        wf_meta(m),
        0 <= i,
        i + enc_meta(m).len() <= s.len(),
        s.subrange(i, i + enc_meta(m).len()) == enc_meta(m),
    ensures
        par_meta(s, i) == Option::Some((m, i + enc_meta(m).len())),
{
    lemma_par_code_enc(s, i, m.stream_integrity);
}

proof fn lemma_par_opt_meta_enc(s: Seq<u8>, i: int, o: Option<WireStreamCreateMeta>)
    requires
        (o matches Option::Some(m) ==> wf_meta(m)),
        0 <= i,
        i + enc_opt_meta(o).len() <= s.len(),
        s.subrange(i, i + enc_opt_meta(o).len()) == enc_opt_meta(o),
    ensures
        par_opt_meta(s, i) == Option::Some((o, i + enc_opt_meta(o).len())),
{
    match o {
        Option::None => {
            lemma_par_u8_enc(s, i, 0u8);
        },
        Option::Some(m) => {
            lemma_split2(s, i, seq![1u8], enc_meta(m));
            lemma_par_u8_enc(s, i, 1u8);
            lemma_par_meta_enc(s, i + 1, m);
        },
    }
}

proof fn lemma_par_client_hello_enc(s: Seq<u8>, i: int, h: SpecWireClientHello)
    requires
        wf_client_hello(h),
        0 <= i,
        i + enc_client_hello(h).len() <= s.len(),
        s.subrange(i, i + enc_client_hello(h).len()) == enc_client_hello(h),
    ensures
        par_client_hello(s, i) == Option::Some((h, i + enc_client_hello(h).len())),
{
    let a = enc_opt_version(h.version);
    let b = enc_opt_bytes(h.resume_connection_token);
    lemma_split2(s, i, a, b);
    lemma_par_opt_version_enc(s, i, h.version);
    lemma_par_opt_bytes_enc(s, i + a.len(), h.resume_connection_token);
    assert(par_client_hello(s, i) matches Option::Some((g, _)) && g =~= h);
}

proof fn lemma_par_server_hello_enc(s: Seq<u8>, i: int, h: SpecWireServerHello)
    requires
        wf_server_hello(h),
        0 <= i,
        i + enc_server_hello(h).len() <= s.len(),
        s.subrange(i, i + enc_server_hello(h).len()) == enc_server_hello(h),
    ensures
        par_server_hello(s, i) == Option::Some((h, i + enc_server_hello(h).len())),
{
    let a = enc_opt_version(h.version);
    let b = enc_bool(h.ok);
    let c = enc_opt_bytes(h.connection_token);
    let d = enc_opt_string(h.message);
    lemma_split2(s, i, a + b + c, d);
    lemma_split2(s, i, a + b, c);
    lemma_split2(s, i, a, b);
    lemma_par_opt_version_enc(s, i, h.version);
    lemma_par_bool_enc(s, i + a.len(), h.ok);
    lemma_par_opt_bytes_enc(s, i + a.len() + 1, h.connection_token);
    lemma_par_opt_string_enc(s, i + a.len() + 1 + c.len(), h.message);
    assert(par_server_hello(s, i) matches Option::Some((g, _)) && g =~= h);
}

proof fn lemma_par_error_enc(s: Seq<u8>, i: int, e: SpecWireError)
    requires
        wf_error(e),
        0 <= i,
        i + enc_error(e).len() <= s.len(),
        s.subrange(i, i + enc_error(e).len()) == enc_error(e),
    ensures
        par_error(s, i) == Option::Some((e, i + enc_error(e).len())),
{
    let a = enc_code(e.error_type);
    let b = enc_string(e.message);
    lemma_split2(s, i, a, b);
    lemma_par_code_enc(s, i, e.error_type);
    lemma_par_string_enc(s, i + 1, e.message);
    assert(par_error(s, i) matches Option::Some((g, _)) && g =~= e);
}

proof fn lemma_par_stream_open_enc(s: Seq<u8>, i: int, o: WireStreamOpen)
    requires
        wf_stream_open(o),
        0 <= i,
        i + enc_stream_open(o).len() <= s.len(),
        s.subrange(i, i + enc_stream_open(o).len()) == enc_stream_open(o),
    ensures
        par_stream_open(s, i) == Option::Some((o, i + enc_stream_open(o).len())),
{
    let a = enc_u64(o.stream_id);
    let b = enc_opt_meta(o.meta);
    vstd::bytes::lemma_auto_spec_u64_to_from_le_bytes();
    lemma_split2(s, i, a, b);
    lemma_par_u64_enc(s, i, o.stream_id);
    lemma_par_opt_meta_enc(s, i + 8, o.meta);
}

proof fn lemma_par_stream_close_enc(s: Seq<u8>, i: int, c: WireStreamClose)
    requires
        0 <= i,
        i + enc_stream_close(c).len() <= s.len(),
        s.subrange(i, i + enc_stream_close(c).len()) == enc_stream_close(c),
    ensures
        par_stream_close(s, i) == Option::Some((c, i + enc_stream_close(c).len())),
{
    lemma_par_u64_enc(s, i, c.stream_id);
}

proof fn lemma_par_arbitary_data_enc(s: Seq<u8>, i: int, d: SpecWireArbitaryData)
    requires
        wf_bytes(d.content),
        0 <= i,
        i + enc_arbitary_data(d).len() <= s.len(),
        s.subrange(i, i + enc_arbitary_data(d).len()) == enc_arbitary_data(d),
    ensures
        par_arbitary_data(s, i) == Option::Some((d, i + enc_arbitary_data(d).len())),
{
    lemma_par_bytes_enc(s, i, d.content);
    assert(par_arbitary_data(s, i) matches Option::Some((g, _)) && g =~= d);
}

proof fn lemma_par_benchmark_start_enc(s: Seq<u8>, i: int, b: WireBenchmarkStart)
    requires
        wf_benchmark_start(b),
        0 <= i,
        i + enc_benchmark_start(b).len() <= s.len(),
        s.subrange(i, i + enc_benchmark_start(b).len()) == enc_benchmark_start(b),
    ensures
        par_benchmark_start(s, i) == Option::Some((b, i + enc_benchmark_start(b).len())),
{
    let a = enc_code(b.integrity_type);
    let c = enc_u64(b.byte_count);
    lemma_split2(s, i, a, c);
    lemma_par_code_enc(s, i, b.integrity_type);
    lemma_par_u64_enc(s, i + 1, b.byte_count);
}

proof fn lemma_par_payload_enc(s: Seq<u8>, i: int, p: SpecWirePayload)
    requires
        wf_payload(p),
        0 <= i,
        i + enc_payload(p).len() <= s.len(),
        s.subrange(i, i + enc_payload(p).len()) == enc_payload(p),
    ensures
        par_payload(s, i) == Option::Some((p, i + enc_payload(p).len())),
{
    lemma_split2(s, i, seq![payload_tag(p)], enc_payload_body(p));
    lemma_par_u8_enc(s, i, payload_tag(p));
    match p {
        SpecWirePayload::ClientHello(h) => {
            lemma_par_client_hello_enc(s, i + 1, h);
        },
        SpecWirePayload::ServerHello(h) => {
            lemma_par_server_hello_enc(s, i + 1, h);
        },
        SpecWirePayload::Okay => {},
        SpecWirePayload::Error(e) => {
            lemma_par_error_enc(s, i + 1, e);
        },
        SpecWirePayload::StreamOpen(o) => {
            lemma_par_stream_open_enc(s, i + 1, o);
        },
        SpecWirePayload::StreamClose(c) => {
            lemma_par_stream_close_enc(s, i + 1, c);
        },
        SpecWirePayload::ArbitaryData(d) => {
            lemma_par_arbitary_data_enc(s, i + 1, d);
        },
        SpecWirePayload::Keepalive => {},
        SpecWirePayload::Close => {},
        SpecWirePayload::BenchmarkStart(b) => {
            lemma_par_benchmark_start_enc(s, i + 1, b);
        },
        SpecWirePayload::BenchmarkEnd => {},
    }
}

proof fn lemma_par_opt_payload_enc(s: Seq<u8>, i: int, o: Option<SpecWirePayload>)
    requires
        (o matches Option::Some(p) ==> wf_payload(p)),
        0 <= i,
        i + enc_opt_payload(o).len() <= s.len(),
        s.subrange(i, i + enc_opt_payload(o).len()) == enc_opt_payload(o),
    ensures
        par_opt_payload(s, i) == Option::Some((o, i + enc_opt_payload(o).len())),
{
    match o {
        Option::None => {
            lemma_par_u8_enc(s, i, 0u8);
        },
        Option::Some(p) => {
            lemma_split2(s, i, seq![1u8], enc_payload(p));
            lemma_par_u8_enc(s, i, 1u8);
            lemma_par_payload_enc(s, i + 1, p);
        },
    }
}

/// Anywhere the encoding of a well-formed message stands inside a byte
/// sequence, the message parser reads exactly that message back and stops
/// just past it.
pub proof fn lemma_par_message_enc(s: Seq<u8>, i: int, m: SpecWireMessage)
    requires
        wf_message(m),
        0 <= i,
        i + enc_message(m).len() <= s.len(),
        s.subrange(i, i + enc_message(m).len()) == enc_message(m),
    ensures
        par_message(s, i) == Option::Some((m, i + enc_message(m).len())),
{
    let a = enc_u64(m.context_id);
    let b = enc_opt_payload(m.payload);
    vstd::bytes::lemma_auto_spec_u64_to_from_le_bytes();
    lemma_split2(s, i, a, b);
    lemma_par_u64_enc(s, i, m.context_id);
    lemma_par_opt_payload_enc(s, i + 8, m.payload);
    assert(par_message(s, i) matches Option::Some((g, _)) && g =~= m);
}

/// Decoding inverts encoding: every well-formed wire message survives the
/// round trip through the codec.
pub proof fn lemma_decode_of_enc(m: SpecWireMessage)
    requires
        wf_message(m),
    ensures
        spec_decode(enc_message(m)) == Option::Some(m),
{
    let s = enc_message(m);
    assert(s.subrange(0, s.len() as int) =~= s);
    lemma_par_message_enc(s, 0, m);
}

} // verus!
