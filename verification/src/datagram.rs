//! The datagram router's framing rules: an unreliable sub-stream's bytes
//! travel in datagrams of the form `le64(stream_id) ++ payload`. A write
//! larger than one datagram's payload capacity is split into consecutive
//! chunks; an inbound datagram shorter than its 8-byte prefix is discarded.

use vstd::prelude::*;

use crate::codec::enc_u64;

verus! {

/// Bytes of the stream-id prefix in front of every datagram payload.
pub const DATAGRAM_PREFIX_LEN: usize = 8;

/// The concatenation of a sequence of byte chunks.
pub open spec fn concat_chunks(cs: Seq<Seq<u8>>) -> Seq<u8>
    decreases cs.len(),
{
    if cs.len() == 0 {
        Seq::empty()
    } else {
        cs[0] + concat_chunks(cs.drop_first())
    }
}

/// Appending one chunk appends its bytes to the concatenation.
pub proof fn lemma_concat_chunks_push(cs: Seq<Seq<u8>>, x: Seq<u8>)
    ensures
        concat_chunks(cs.push(x)) == concat_chunks(cs) + x,
    decreases cs.len(),
{
    if cs.len() == 0 {
        assert(cs.push(x).drop_first() =~= Seq::<Seq<u8>>::empty());
        assert(cs.push(x)[0] == x);
        assert(concat_chunks(Seq::<Seq<u8>>::empty()) =~= Seq::<u8>::empty());
        assert(concat_chunks(cs.push(x)) =~= x + Seq::<u8>::empty());
        assert(concat_chunks(cs.push(x)) =~= x);
        assert(concat_chunks(cs) + x =~= x);
    } else {
        assert(cs.push(x)[0] == cs[0]);
        assert(cs.push(x).drop_first() =~= cs.drop_first().push(x));
        lemma_concat_chunks_push(cs.drop_first(), x);
        assert(cs[0] + (concat_chunks(cs.drop_first()) + x) =~= (cs[0] + concat_chunks(
            cs.drop_first(),
        )) + x);
    }
}

/// How many datagrams a write of `n` bytes produces when each carries at
/// most `c` payload bytes: `ceil(n / c)`.
pub open spec fn spec_num_chunks(n: int, c: int) -> int
    recommends
        c > 0,
{
    if n == 0 {
        0
    } else {
        (n - 1) / c + 1
    }
}

/// The views of a vector of byte chunks.
pub open spec fn chunk_views(cs: Seq<Vec<u8>>) -> Seq<Seq<u8>> {
    cs.map_values(|v: Vec<u8>| v@)
}

/// Splits a buffer into consecutive chunks of at most `c` bytes each; every
/// chunk but the last is full, and together they spell the buffer.
pub fn split_chunks(data: &[u8], c: usize) -> (r: Vec<Vec<u8>>)
    requires
        c > 0,
    ensures
        r@.len() == spec_num_chunks(data@.len() as int, c as int),
        concat_chunks(chunk_views(r@)) == data@,
        forall|i: int| 0 <= i < r@.len() ==> 0 < (#[trigger] r@[i])@.len() <= c,
{
    let mut chunks: Vec<Vec<u8>> = Vec::new();
    let mut start: usize = 0;
    let n = data.len();
    proof {
        assert(concat_chunks(chunk_views(chunks@)) =~= data@.subrange(0, 0));
    }
    while start < n
        invariant
            n == data@.len(),
            start <= n,
            c > 0,
            start % c == 0 || start == n,
            chunks@.len() == spec_num_chunks(start as int, c as int),
            concat_chunks(chunk_views(chunks@)) == data@.subrange(0, start as int),
            forall|i: int| 0 <= i < chunks@.len() ==> 0 < (#[trigger] chunks@[i])@.len() <= c,
        decreases n - start,
    {
        let end = if n - start < c {
            n
        } else {
            start + c
        };
        let piece = vstd::slice::slice_to_vec(vstd::slice::slice_subrange(data, start, end));
        proof {
            lemma_concat_chunks_push(chunk_views(chunks@), piece@);
            assert(chunk_views(chunks@.push(piece)) =~= chunk_views(chunks@).push(piece@));
            assert(data@.subrange(0, start as int) + data@.subrange(start as int, end as int)
                =~= data@.subrange(0, end as int));
            let d = end - start;
            assert((start as int + (d as int - 1)) / (c as int) == start as int / (c as int))
                by (nonlinear_arith)
                requires
                    start % c == 0,
                    0 < d <= c,
                    c > 0,
                    start >= 0,
            ;
            assert(start > 0 ==> (start as int - 1) / (c as int) + 1 == start as int / (c as int))
                by (nonlinear_arith)
                requires
                    start % c == 0,
                    c > 0,
                    start >= 0,
            ;
            assert(start == 0 ==> start as int / (c as int) == 0) by (nonlinear_arith)
                requires
                    c > 0,
            ;
            assert(spec_num_chunks(end as int, c as int) == spec_num_chunks(start as int, c as int)
                + 1);
            if end != n {
                assert(end % c == 0) by (nonlinear_arith)
                    requires
                        start % c == 0,
                        end == start + c,
                        c > 0,
                        start >= 0,
                ;
            }
        }
        chunks.push(piece);
        start = end;
    }
    proof {
        assert(data@.subrange(0, n as int) =~= data@);
    }
    chunks
}

/// Encodes one datagram: the stream id, little-endian, followed by the
/// payload chunk.
pub fn encode_datagram(stream_id: u64, chunk: &[u8]) -> (r: Vec<u8>)
    ensures
        r@ == enc_u64(stream_id) + chunk@,
{
    let mut out = vstd::bytes::u64_to_le_bytes(stream_id);
    let mut payload = vstd::slice::slice_to_vec(chunk);
    out.append(&mut payload);
    out
}

/// The datagrams one write of `data` produces on stream `stream_id` when a
/// datagram holds at most `datagram_chunk_size` bytes including the prefix:
/// `ceil(len / (datagram_chunk_size - 8))` datagrams, each the prefixed
/// next chunk, whose payloads together spell `data`.
pub fn datagrams_for_write(stream_id: u64, data: &[u8], datagram_chunk_size: usize) -> (r: Vec<
    Vec<u8>,
>)
    requires
        datagram_chunk_size > DATAGRAM_PREFIX_LEN,
    ensures
        r@.len() == spec_num_chunks(
            data@.len() as int,
            datagram_chunk_size - DATAGRAM_PREFIX_LEN,
        ),
        forall|i: int| 0 <= i < r@.len() ==> {
            &&& (#[trigger] r@[i])@.len() <= datagram_chunk_size
            &&& r@[i]@.len() > DATAGRAM_PREFIX_LEN
            &&& r@[i]@.subrange(0, DATAGRAM_PREFIX_LEN as int) == enc_u64(stream_id)
        },
        concat_chunks(
            chunk_views(r@).map_values(
                |d: Seq<u8>| d.subrange(DATAGRAM_PREFIX_LEN as int, d.len() as int),
            ),
        ) == data@,
{
    let c = datagram_chunk_size - DATAGRAM_PREFIX_LEN;
    let chunks = split_chunks(data, c);
    let mut out: Vec<Vec<u8>> = Vec::new();
    let mut k: usize = 0;
    proof {
        vstd::bytes::lemma_auto_spec_u64_to_from_le_bytes();
    }
    while k < chunks.len()
        invariant
            k <= chunks@.len(),
            chunks@.len() == spec_num_chunks(
                data@.len() as int,
                datagram_chunk_size - DATAGRAM_PREFIX_LEN,
            ),
            concat_chunks(chunk_views(chunks@)) == data@,
            forall|i: int|
                0 <= i < chunks@.len() ==> 0 < (#[trigger] chunks@[i])@.len()
                    <= datagram_chunk_size - DATAGRAM_PREFIX_LEN,
            out@.len() == k,
            forall|i: int| 0 <= i < k ==> {
                &&& (#[trigger] out@[i])@.len() <= datagram_chunk_size
                &&& out@[i]@.len() > DATAGRAM_PREFIX_LEN
                &&& out@[i]@.subrange(0, DATAGRAM_PREFIX_LEN as int) == enc_u64(stream_id)
                &&& out@[i]@.subrange(DATAGRAM_PREFIX_LEN as int, out@[i]@.len() as int)
                    == chunks@[i]@
            },
        decreases chunks@.len() - k,
    {
        let d = encode_datagram(stream_id, chunks[k].as_slice());
        proof {
            vstd::bytes::lemma_auto_spec_u64_to_from_le_bytes();
            assert(d@.subrange(0, DATAGRAM_PREFIX_LEN as int) =~= enc_u64(stream_id));
            assert(d@.subrange(DATAGRAM_PREFIX_LEN as int, d@.len() as int) =~= chunks@[
                k as int
            ]@);
        }
        out.push(d);
        k = k + 1;
    }
    proof {
        assert(chunk_views(out@).map_values(
            |d: Seq<u8>| d.subrange(DATAGRAM_PREFIX_LEN as int, d.len() as int),
        ) =~= chunk_views(chunks@));
    }
    out
}

/// Classifies one inbound datagram: nothing if it is shorter than its
/// 8-byte prefix — such a datagram is discarded — and otherwise the stream
/// id it names together with its payload bytes.
pub fn parse_datagram(datagram: &[u8]) -> (r: Option<(u64, Vec<u8>)>)
    ensures
        datagram@.len() < DATAGRAM_PREFIX_LEN <==> r is None,
        r matches Option::Some((id, payload)) ==> {
            &&& id == vstd::bytes::spec_u64_from_le_bytes(
                datagram@.subrange(0, DATAGRAM_PREFIX_LEN as int),
            )
            &&& payload@ == datagram@.subrange(DATAGRAM_PREFIX_LEN as int, datagram@.len() as int)
        },
{
    if datagram.len() < DATAGRAM_PREFIX_LEN {
        Option::None
    } else {
        let id_bytes = vstd::slice::slice_subrange(datagram, 0, DATAGRAM_PREFIX_LEN);
        let id = vstd::bytes::u64_from_le_bytes(id_bytes);
        let payload = vstd::slice::slice_to_vec(
            vstd::slice::slice_subrange(datagram, DATAGRAM_PREFIX_LEN, datagram.len()),
        );
        Option::Some((id, payload))
    }
}

/// A round trip through the datagram framing: what `encode_datagram` wrote,
/// `parse_datagram` reads back with the same stream id and payload.
pub proof fn lemma_datagram_round_trip(stream_id: u64, chunk: Seq<u8>)
    ensures
        vstd::bytes::spec_u64_from_le_bytes(
            (enc_u64(stream_id) + chunk).subrange(0, DATAGRAM_PREFIX_LEN as int),
        ) == stream_id,
        (enc_u64(stream_id) + chunk).subrange(
            DATAGRAM_PREFIX_LEN as int,
            (enc_u64(stream_id) + chunk).len() as int,
        ) == chunk,
{
    vstd::bytes::lemma_auto_spec_u64_to_from_le_bytes();
    let d = enc_u64(stream_id) + chunk;
    assert(d.subrange(0, DATAGRAM_PREFIX_LEN as int) =~= enc_u64(stream_id));
    assert(d.subrange(DATAGRAM_PREFIX_LEN as int, d.len() as int) =~= chunk);
}

} // verus!
