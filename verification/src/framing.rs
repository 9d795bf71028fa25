//! The frame layer of the primary messaging channel: each frame is a 64-bit
//! little-endian length followed by the serialised message. The reader walks
//! a byte stream frame by frame; a frame whose body does not decode is
//! dropped and reading continues, as the protocol prescribes.

use vstd::prelude::*;

use crate::codec::{enc_u64, lemma_split2, par_u64};
use crate::schema::{Message, SpecMessage};
use crate::serialize::{
    deserialize_message, serialize_message, spec_deserialize, spec_message_wf, spec_serialize,
};

verus! {

/// The bytes one message contributes to the stream: its length-prefixed
/// serialisation.
pub open spec fn spec_frame(m: SpecMessage) -> Seq<u8> {
    enc_u64(spec_serialize(m).len() as u64) + spec_serialize(m)
}

/// A message whose serialisation fits behind the 64-bit length prefix;
/// every message held in executable form qualifies.
pub open spec fn spec_frame_wf(m: SpecMessage) -> bool {
    spec_message_wf(m) && spec_serialize(m).len() <= u64::MAX
}

/// The concatenation of the frames of a message sequence.
pub open spec fn spec_frames(ms: Seq<SpecMessage>) -> Seq<u8>
    decreases ms.len(),
{
    if ms.len() == 0 {
        Seq::empty()
    } else {
        spec_frame(ms[0]) + spec_frames(ms.drop_first())
    }
}

/// The messages the reader emits from position `i` of a byte stream: it
/// stops where no whole frame remains, and it skips a frame whose body does
/// not decode.
pub open spec fn spec_read_frames_at(s: Seq<u8>, i: int) -> Seq<SpecMessage>
    decreases s.len() - i,
{
    match par_u64(s, i) {
        Option::Some((n, j)) => if j + n <= s.len() {
            (match spec_deserialize(s.subrange(j, j + n)) {
                Option::Some(m) => seq![m],
                Option::None => Seq::empty(),
            }) + spec_read_frames_at(s, j + n)
        } else {
            Seq::empty()
        },
        Option::None => Seq::empty(),
    }
}

/// The messages the reader emits from a whole byte stream.
pub open spec fn spec_read_frames(s: Seq<u8>) -> Seq<SpecMessage> {
    spec_read_frames_at(s, 0)
}

/// The views of a vector of messages.
pub open spec fn seq_views(ms: Seq<Message>) -> Seq<SpecMessage> {
    ms.map_values(|m: Message| m@)
}

/// Encodes one frame: the length prefix followed by the serialised message.
pub fn encode_frame(message: Message) -> (r: Vec<u8>)
    ensures
        r@ == spec_frame(message@),
{
    let body = serialize_message(message);
    let mut out = vstd::bytes::u64_to_le_bytes(body.len() as u64);
    let mut body = body;
    out.append(&mut body);
    out
}

/// Reads every frame out of a buffer, dropping bodies that do not decode.
pub fn decode_frames(buf: &[u8]) -> (r: Vec<Message>)
    ensures
        seq_views(r@) == spec_read_frames(buf@),
{
    let mut out: Vec<Message> = Vec::new();
    let mut pos: usize = 0;
    proof {
        assert(seq_views(out@) + spec_read_frames_at(buf@, 0) =~= spec_read_frames(buf@));
    }
    loop
        invariant
            pos <= buf@.len(),
            seq_views(out@) + spec_read_frames_at(buf@, pos as int) == spec_read_frames(buf@),
        decreases buf@.len() - pos,
    {
        match crate::serialize::take_u64(buf, pos) {
            Option::Some((n, j)) => {
                if n <= (buf.len() - j) as u64 {
                    let nn = n as usize;
                    let body = vstd::slice::slice_subrange(buf, j, j + nn);
                    let ghost prev = out@;
                    match deserialize_message(body) {
                        Option::Some(m) => {
                            out.push(m);
                            proof {
                                assert(seq_views(out@) =~= seq_views(prev) + seq![m@]);
                                assert(seq_views(out@) + spec_read_frames_at(buf@, (j + nn) as int)
                                    =~= spec_read_frames(buf@));
                            }
                        },
                        Option::None => {
                            proof {
                                assert(seq_views(out@) + spec_read_frames_at(buf@, (j + nn) as int)
                                    =~= spec_read_frames(buf@));
                            }
                        },
                    }
                    pos = j + nn;
                } else {
                    proof {
                        assert(spec_read_frames_at(buf@, pos as int) =~= Seq::<
                            SpecMessage,
                        >::empty());
                        assert(seq_views(out@) =~= spec_read_frames(buf@));
                    }
                    return out;
                }
            },
            Option::None => {
                proof {
                    assert(spec_read_frames_at(buf@, pos as int) =~= Seq::<SpecMessage>::empty());
                    assert(seq_views(out@) =~= spec_read_frames(buf@));
                }
                return out;
            },
        }
    }
}

/// Framing round trip: a stream that concatenates the frames of messages
/// `m1, m2, ...` makes the reader emit exactly `m1, m2, ...`, in order.
pub proof fn lemma_framing_round_trip(ms: Seq<SpecMessage>)
    requires
        forall|i: int| 0 <= i < ms.len() ==> spec_frame_wf(#[trigger] ms[i]),
    ensures
        spec_read_frames(spec_frames(ms)) == ms,
{
    let s = spec_frames(ms);
    assert(s.subrange(0, s.len() as int) =~= s);
    lemma_framing_at(s, 0, ms);
}

/// The inductive step behind the framing round trip: where the tail of a
/// stream holds exactly the frames of `ms`, the reader emits `ms` from
/// there.
proof fn lemma_framing_at(s: Seq<u8>, i: int, ms: Seq<SpecMessage>)
    requires
        forall|k: int| 0 <= k < ms.len() ==> spec_frame_wf(#[trigger] ms[k]),
        0 <= i,
        i + spec_frames(ms).len() == s.len(),
        s.subrange(i, s.len() as int) == spec_frames(ms),
    ensures
        spec_read_frames_at(s, i) == ms,
    decreases ms.len(),
{
    if ms.len() == 0 {
        assert(spec_read_frames_at(s, i) =~= ms);
    } else {
        let m0 = ms[0];
        let body = spec_serialize(m0);
        let a = enc_u64(body.len() as u64);
        let rest = spec_frames(ms.drop_first());
        vstd::bytes::lemma_auto_spec_u64_to_from_le_bytes();
        assert(spec_frames(ms) =~= a + (body + rest));
        lemma_split2(s, i, a, body + rest);
        assert(par_u64(s, i) == Option::Some((body.len() as u64, i + 8)));
        lemma_split2(s, i + 8, body, rest);
        assert(s.subrange(i + 8, i + 8 + body.len()) == body);
        crate::serialize::lemma_codec_round_trip(m0);
        let next = i + 8 + body.len();
        assert(s.subrange(next, s.len() as int) == rest);
        lemma_framing_at(s, next, ms.drop_first());
        assert(spec_read_frames_at(s, i) =~= seq![m0] + ms.drop_first());
        assert(seq![m0] + ms.drop_first() =~= ms);
    }
}

} // verus!
