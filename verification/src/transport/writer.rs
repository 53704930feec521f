//! Framing of responses and their cutting into transfers for the IN endpoint.

use vstd::prelude::*;
use vstd::slice::{slice_subrange, slice_to_vec};

use crate::transport::line;

verus! {

/// Most bytes in one transfer.
pub const CHUNK_BYTES: usize = 64;

/// How many transfers `len` bytes take.
pub open spec fn chunk_count(len: nat) -> nat {
    (len + 63) / 64
}

/// The bytes of transfer `i`.
pub open spec fn chunk_at(bytes: Seq<u8>, i: int) -> Seq<u8> {
    bytes.subrange(64 * i, vstd::math::min(64 * (i + 1), bytes.len() as int))
}

/// `bytes` cut into transfers.
pub open spec fn chunked(bytes: Seq<u8>) -> Seq<Seq<u8>> {
    Seq::new(chunk_count(bytes.len()), |i: int| chunk_at(bytes, i))
}

/// The first `k` transfers put together.
proof fn lemma_chunks_prefix(bytes: Seq<u8>, k: int)
    requires
        0 <= k <= chunk_count(bytes.len()),
    ensures
        chunked(bytes).take(k).flatten() == bytes.take(vstd::math::min(64 * k, bytes.len() as int)),
    decreases k,
{
    let chunks = chunked(bytes);
    if k == 0 {
        assert(chunks.take(0) =~= Seq::empty());
        assert(chunks.take(0).flatten() =~= bytes.take(0));
    } else {
        lemma_chunks_prefix(bytes, k - 1);
        assert(chunks.take(k) =~= chunks.take(k - 1).push(chunks[k - 1]));
        chunks.take(k - 1).lemma_flatten_push(chunks[k - 1]);
        assert(bytes.take(vstd::math::min(64 * (k - 1), bytes.len() as int)) + chunks[k - 1] =~= bytes.take(
            vstd::math::min(64 * k, bytes.len() as int),
        ));
    }
}

/// The transfers, put together, are the bytes again.
pub proof fn law_chunks_rebuild(bytes: Seq<u8>)
    ensures
        chunked(bytes).flatten() == bytes,
{
    let n = chunk_count(bytes.len()) as int;
    lemma_chunks_prefix(bytes, n);
    assert(chunked(bytes).take(n) =~= chunked(bytes));
    assert(bytes.take(vstd::math::min(64 * n, bytes.len() as int)) =~= bytes);
}

/// No transfer is empty or larger than an endpoint takes, and every transfer
/// but the last is full.
pub proof fn law_chunk_sizes(bytes: Seq<u8>, i: int)
    requires
        0 <= i < chunked(bytes).len(),
    ensures
        0 < chunked(bytes)[i].len() <= CHUNK_BYTES,
        i < chunked(bytes).len() - 1 ==> chunked(bytes)[i].len() == CHUNK_BYTES,
{
}

/// The lines that a host completes when it collects bytes until each line feed.
pub open spec fn host_lines(s: Seq<u8>) -> Seq<Seq<u8>>
    decreases s.len(),
{
    if s.len() == 0 {
        Seq::empty()
    } else if s.last() == line::LF {
        host_lines(s.drop_last()).push(line::last_line(s.drop_last()))
    } else {
        host_lines(s.drop_last())
    }
}

/// Bytes without a line feed complete no line, they extend the last one.
proof fn lemma_host_collects(s: Seq<u8>, t: Seq<u8>)
    requires
        !t.contains(line::LF),
    ensures
        host_lines(s + t) == host_lines(s),
        line::last_line(s + t) == line::last_line(s) + t,
    decreases t.len(),
{
    if t.len() == 0 {
        assert(s + t =~= s);
        assert(line::last_line(s) + t =~= line::last_line(s));
    } else {
        let u = t.drop_last();
        assert forall|x: u8| u.contains(x) implies t.contains(x) by {
            let i = choose|i: int| 0 <= i < u.len() && u[i] == x;
            assert(t[i] == x);
        }
        lemma_host_collects(s, u);
        assert((s + t).drop_last() =~= s + u);
        assert(t.contains(t.last()));
        assert((line::last_line(s) + u).push(t.last()) =~= line::last_line(s) + t);
    }
}

/// The stream of framed responses ends a line.
proof fn lemma_framed_ends_a_line(responses: Seq<Seq<u8>>)
    ensures
        line::last_line(line::framed(responses)) == Seq::<u8>::empty(),
{
    if responses.len() > 0 {
        let s = line::framed(responses.drop_last()) + responses.last().push(line::LF);
        assert(s.last() == line::LF);
    }
}

/// A host that collects bytes until each line feed reads back exactly the
/// responses that were framed, in order.
pub proof fn law_responses_arrive(responses: Seq<Seq<u8>>)
    requires
        forall|i: int|
            0 <= i < responses.len() ==> !(#[trigger] responses[i]).contains(line::LF),
    ensures
        host_lines(line::framed(responses)) == responses,
    decreases responses.len(),
{
    if responses.len() == 0 {
        assert(host_lines(line::framed(responses)) =~= responses);
    } else {
        let earlier = responses.drop_last();
        let r = responses.last();
        assert forall|i: int| 0 <= i < earlier.len() implies !(#[trigger] earlier[i]).contains(
            line::LF,
        ) by {
            assert(earlier[i] == responses[i]);
        }
        law_responses_arrive(earlier);
        lemma_framed_ends_a_line(earlier);
        lemma_host_collects(line::framed(earlier), r);
        let s = line::framed(earlier) + r.push(line::LF);
        assert(s.drop_last() =~= line::framed(earlier) + r);
        assert(Seq::<u8>::empty() + r =~= r);
        assert(earlier.push(r) =~= responses);
    }
}

/// The transfers of a series of responses, each framed.
pub open spec fn transfers(responses: Seq<Seq<u8>>) -> Seq<Seq<u8>>
    decreases responses.len(),
{
    if responses.len() == 0 {
        Seq::empty()
    } else {
        transfers(responses.drop_last()) + chunked(responses.last().push(line::LF))
    }
}

/// The transfers of a series of responses, put together, are the responses
/// framed.
proof fn lemma_transfers_flatten(responses: Seq<Seq<u8>>)
    ensures
        transfers(responses).flatten() == line::framed(responses),
    decreases responses.len(),
{
    if responses.len() == 0 {
        assert(transfers(responses).flatten() =~= line::framed(responses));
    } else {
        let last = chunked(responses.last().push(line::LF));
        lemma_transfers_flatten(responses.drop_last());
        law_chunks_rebuild(responses.last().push(line::LF));
        vstd::seq_lib::lemma_flatten_concat(transfers(responses.drop_last()), last);
    }
}

/// A host that puts the transfers together and collects bytes until each line
/// feed reads back exactly the responses, in order.
pub proof fn law_transferred_responses_arrive(responses: Seq<Seq<u8>>)
    requires
        forall|i: int|
            0 <= i < responses.len() ==> !(#[trigger] responses[i]).contains(line::LF),
    ensures
        host_lines(transfers(responses).flatten()) == responses,
{
    lemma_transfers_flatten(responses);
    law_responses_arrive(responses);
}

/// The bytes of each of a series of transfers.
pub open spec fn byte_views(chunks: Seq<Vec<u8>>) -> Seq<Seq<u8>> {
    chunks.map_values(|c: Vec<u8>| c@)
}

/// Appends the line feed that ends a response.
pub fn frame(response: Vec<u8>) -> (framed: Vec<u8>)
    ensures
        framed@ == response@.push(line::LF),
{
    let mut framed: Vec<u8> = response;
    framed.push(line::LF);
    framed
}

/// Cuts `bytes` into transfers.
pub fn chunks(bytes: &[u8]) -> (chunks: Vec<Vec<u8>>)
    ensures
        byte_views(chunks@) == chunked(bytes@),
{
    let mut chunks: Vec<Vec<u8>> = Vec::new();
    let mut start: usize = 0;
    while start < bytes.len()
        invariant
            start == vstd::math::min(64 * chunks@.len() as int, bytes@.len() as int),
            chunks@.len() <= chunk_count(bytes@.len()),
            forall|i: int|
                #![trigger chunks@[i]]
                0 <= i < chunks@.len() ==> chunks@[i]@ == chunked(bytes@)[i],
        decreases bytes@.len() - start,
    {
        let end: usize = if bytes.len() - start > CHUNK_BYTES {
            start + CHUNK_BYTES
        } else {
            bytes.len()
        };
        let chunk: Vec<u8> = slice_to_vec(slice_subrange(bytes, start, end));
        assert(chunk@ =~= chunked(bytes@)[chunks@.len() as int]);
        chunks.push(chunk);
        start = end;
    }
    assert(byte_views(chunks@) =~= chunked(bytes@));
    chunks
}

/// No transfer is empty or over 64 bytes, every one but the last is full, and
/// each byte stands where the transfers put together have it.
pub proof fn law_transfers_hold_64_bytes(bytes: Seq<u8>, k: int)
    requires
        0 <= k < bytes.len(),
    ensures
        k / 64 < chunked(bytes).len(),
        k % 64 < chunked(bytes)[k / 64].len() <= 64,
        chunked(bytes)[k / 64][k % 64] == bytes[k],
        k / 64 < chunked(bytes).len() - 1 ==> chunked(bytes)[k / 64].len() == 64,
        chunked(bytes).flatten() == bytes,
{
    law_chunks_rebuild(bytes);
}

/// The view of transfers loses nothing: as many, in the same order, with the same
/// bytes.
pub proof fn law_byte_views_are_faithful(chunks: Seq<Vec<u8>>, i: int)
    requires
        0 <= i < chunks.len(),
    ensures
        byte_views(chunks).len() == chunks.len(),
        byte_views(chunks)[i] == chunks[i]@,
{
}

} // verus!
