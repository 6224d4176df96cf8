//! Cutting a byte string into consecutive pieces of bounded size.
//!
//! Two sizes matter to the protocol: a command report carries at most
//! `MAX_FRAGMENT_LEN` payload bytes, and the image is written in chunks of
//! `IMAGE_CHUNK_LEN` bytes.

use vstd::prelude::*;
use vstd::arithmetic::div_mod::lemma_fundamental_div_mod;
use vstd::slice::{slice_subrange, slice_to_vec};

verus! {

/// The most payload bytes that one command report carries.
pub const MAX_FRAGMENT_LEN: usize = 0x39;

/// The number of image bytes that one write command transfers.
pub const IMAGE_CHUNK_LEN: usize = 0x8000;

/// How many pieces of `size` bytes cover `len` bytes: `len / size`, rounded up.
pub open spec fn piece_count(len: nat, size: nat) -> nat
    recommends
        size > 0,
{
    if len % size == 0 {
        len / size
    } else {
        len / size + 1
    }
}

/// Where piece `i` ends: `size` bytes after its start, or at the end of the
/// bytes if that comes first.
pub open spec fn piece_end(len: nat, size: nat, i: int) -> int {
    if (i + 1) * size <= len {
        (i + 1) * size
    } else {
        len as int
    }
}

/// Piece `i` of `bytes` when cut every `size` bytes.
pub open spec fn piece(bytes: Seq<u8>, size: nat, i: int) -> Seq<u8> {
    bytes.subrange(i * size, piece_end(bytes.len(), size, i))
}

/// `bytes` cut every `size` bytes, in order. Empty bytes give no piece.
pub open spec fn pieces(bytes: Seq<u8>, size: nat) -> Seq<Seq<u8>> {
    Seq::new(piece_count(bytes.len(), size), |i: int| piece(bytes, size, i))
}

/// The payload fragments of one command: the payload cut every
/// `MAX_FRAGMENT_LEN` bytes, and a single empty fragment for an empty payload.
pub open spec fn fragments(payload: Seq<u8>) -> Seq<Seq<u8>> {
    if payload.len() == 0 {
        seq![Seq::<u8>::empty()]
    } else {
        pieces(payload, MAX_FRAGMENT_LEN as nat)
    }
}

/// The chunks in which an image is written.
pub open spec fn image_chunks(image: Seq<u8>) -> Seq<Seq<u8>> {
    pieces(image, IMAGE_CHUNK_LEN as nat)
}

/// The parts joined end to end.
pub open spec fn concat(parts: Seq<Seq<u8>>) -> Seq<u8>
    decreases parts.len(),
{
    if parts.len() == 0 {
        Seq::empty()
    } else {
        concat(parts.drop_last()) + parts.last()
    }
}

/// The piece count is the one number `n` with `(n - 1) * size < len <= n * size`.
pub proof fn lemma_piece_count_bounds(len: nat, size: nat)
    requires
        size > 0,
    ensures
        len <= piece_count(len, size) * size,
        len > 0 ==> (piece_count(len, size) - 1) * size < len,
        len == 0 <==> piece_count(len, size) == 0,
{
    let d = len as int / size as int;
    let r = len as int % size as int;
    lemma_fundamental_div_mod(len as int, size as int);
    assert(len == size * d + r);
    assert(size * d == d * size) by (nonlinear_arith);
    assert((d + 1) * size == d * size + size) by (nonlinear_arith);
    assert((d - 1) * size == d * size - size) by (nonlinear_arith);
    if d == 0 {
        assert(d * size == 0) by (nonlinear_arith)
            requires
                d == 0,
        ;
    }
    if d < 0 {
        assert(d * size <= -(size as int)) by (nonlinear_arith)
            requires
                d <= -1,
                size > 0,
        ;
    }
}

/// A count that brackets `len` as the piece count does is the piece count.
pub proof fn lemma_piece_count_unique(len: nat, size: nat, n: nat)
    requires
        size > 0,
        len <= n * size,
        n > 0 ==> (n - 1) * size < len,
    ensures
        n == piece_count(len, size),
{
    lemma_piece_count_bounds(len, size);
    let m = piece_count(len, size);
    if n < m {
        assert(n * size <= (m - 1) * size) by (nonlinear_arith)
            requires
                n <= m - 1,
                size > 0,
        ;
    } else if m < n {
        assert(m * size <= (n - 1) * size) by (nonlinear_arith)
            requires
                m <= n - 1,
                size > 0,
        ;
    }
}

/// Piece `i` starts inside the bytes and holds between one and `size` bytes;
/// every piece but the last holds exactly `size`.
pub proof fn lemma_piece_len(bytes: Seq<u8>, size: nat, i: int)
    requires
        size > 0,
        0 <= i < piece_count(bytes.len(), size),
    ensures
        0 <= i * size < bytes.len(),
        i * size < piece_end(bytes.len(), size, i) <= bytes.len(),
        piece(bytes, size, i).len() == piece_end(bytes.len(), size, i) - i * size,
        1 <= piece(bytes, size, i).len() <= size,
        i + 1 < piece_count(bytes.len(), size) ==> piece(bytes, size, i).len() == size,
{
    let n = piece_count(bytes.len(), size);
    lemma_piece_count_bounds(bytes.len(), size);
    assert(i * size <= (n - 1) * size) by (nonlinear_arith)
        requires
            i <= n - 1,
            size > 0,
    ;
    assert(0 <= i * size) by (nonlinear_arith)
        requires
            0 <= i,
            size > 0,
    ;
    assert((i + 1) * size == i * size + size) by (nonlinear_arith);
    if i + 1 < n {
        assert((i + 1) * size <= (n - 1) * size) by (nonlinear_arith)
            requires
                i + 1 <= n - 1,
                size > 0,
        ;
    }
}

/// The last piece holds what is left over: `len % size` bytes, or a full
/// `size` where the bytes divide evenly.
pub proof fn lemma_last_piece_len(bytes: Seq<u8>, size: nat)
    requires
        size > 0,
        bytes.len() > 0,
    ensures
        piece_count(bytes.len(), size) >= 1,
        pieces(bytes, size).last().len() == if bytes.len() % size == 0 {
            size
        } else {
            bytes.len() % size
        },
{
    let len = bytes.len();
    let n = piece_count(len, size);
    lemma_piece_count_bounds(len, size);
    lemma_piece_len(bytes, size, n - 1);
    let d = len as int / size as int;
    let r = len as int % size as int;
    lemma_fundamental_div_mod(len as int, size as int);
    assert(size * d == d * size) by (nonlinear_arith);
    assert((d + 1) * size == d * size + size) by (nonlinear_arith);
    assert((d - 1) * size == d * size - size) by (nonlinear_arith);
    assert(n * size == (n - 1) * size + size) by (nonlinear_arith);
}

/// The first `k` pieces, joined, are the bytes up to where piece `k` starts.
proof fn lemma_concat_prefix(bytes: Seq<u8>, size: nat, k: int)
    requires
        size > 0,
        0 <= k <= piece_count(bytes.len(), size),
    ensures
        concat(pieces(bytes, size).take(k)) == bytes.subrange(
            0,
            if k * size <= bytes.len() {
                k * size
            } else {
                bytes.len() as int
            },
        ),
    decreases k,
{
    let all = pieces(bytes, size);
    if k == 0 {
        assert(0 * size == 0) by (nonlinear_arith);
        assert(concat(all.take(0)) =~= bytes.subrange(0, 0));
    } else {
        lemma_concat_prefix(bytes, size, k - 1);
        lemma_piece_len(bytes, size, k - 1);
        assert((k - 1 + 1) * size == k * size);
        let head = all.take(k);
        assert(head.drop_last() =~= all.take(k - 1));
        assert(head.last() == piece(bytes, size, k - 1));
        let start = (k - 1) * size;
        let end = piece_end(bytes.len(), size, k - 1);
        assert(bytes.subrange(0, start) + bytes.subrange(start, end) =~= bytes.subrange(0, end));
    }
}

/// Cutting loses nothing and adds nothing: the pieces, joined in order, are
/// the bytes.
pub proof fn lemma_concat_pieces(bytes: Seq<u8>, size: nat)
    requires
        size > 0,
    ensures
        concat(pieces(bytes, size)) == bytes,
{
    let n = piece_count(bytes.len(), size);
    lemma_piece_count_bounds(bytes.len(), size);
    lemma_concat_prefix(bytes, size, n as int);
    assert(pieces(bytes, size).take(n as int) =~= pieces(bytes, size));
    assert(bytes.subrange(0, bytes.len() as int) =~= bytes);
}

/// A payload of `L` bytes goes out in `L / 0x39` fragments, rounded up, and in
/// one empty fragment when `L` is zero. No fragment exceeds `0x39` bytes, and
/// the fragments joined in order are the payload.
pub proof fn lemma_fragments(payload: Seq<u8>)
    ensures
        payload.len() == 0 ==> fragments(payload) == seq![Seq::<u8>::empty()],
        payload.len() > 0 ==> fragments(payload).len() == piece_count(payload.len(), 0x39),
        fragments(payload).len() >= 1,
        forall|i: int|
            0 <= i < fragments(payload).len() ==> (#[trigger] fragments(payload)[i]).len() <= 0x39,
        forall|i: int|
            0 <= i < fragments(payload).len() - 1 ==> (#[trigger] fragments(payload)[i]).len()
                == 0x39,
        concat(fragments(payload)) == payload,
{
    if payload.len() == 0 {
        let one = seq![Seq::<u8>::empty()];
        assert(one.drop_last() =~= Seq::<Seq<u8>>::empty());
        assert(concat(one.drop_last()) =~= Seq::<u8>::empty());
        assert(concat(one) =~= payload);
    } else {
        lemma_piece_count_bounds(payload.len(), 0x39);
        lemma_concat_pieces(payload, 0x39);
        assert forall|i: int| 0 <= i < fragments(payload).len() implies (#[trigger] fragments(
            payload,
        )[i]).len() <= 0x39 && (i < fragments(payload).len() - 1 ==> fragments(payload)[i].len()
            == 0x39) by {
            lemma_piece_len(payload, 0x39, i);
        }
    }
}

/// An image of `L` bytes is written in `L / 0x8000` chunks, rounded up. Every
/// chunk but the last holds `0x8000` bytes; the last holds `L % 0x8000`, or
/// `0x8000` where that is zero. The chunks joined in order are the image.
pub proof fn lemma_image_chunks(image: Seq<u8>)
    ensures
        image_chunks(image).len() == piece_count(image.len(), 0x8000),
        forall|i: int|
            0 <= i < image_chunks(image).len() - 1 ==> (#[trigger] image_chunks(image)[i]).len()
                == 0x8000,
        image.len() > 0 ==> image_chunks(image).len() >= 1 && image_chunks(image).last().len()
            == if image.len() % 0x8000 == 0 {
            0x8000
        } else {
            image.len() % 0x8000
        },
        concat(image_chunks(image)) == image,
{
    lemma_concat_pieces(image, 0x8000);
    if image.len() > 0 {
        lemma_last_piece_len(image, 0x8000);
    }
    assert forall|i: int| 0 <= i < image_chunks(image).len() - 1 implies (#[trigger] image_chunks(
        image,
    )[i]).len() == 0x8000 by {
        lemma_piece_len(image, 0x8000, i);
    }
}

/// Cuts `bytes` every `size` bytes.
pub fn split(bytes: &[u8], size: usize) -> (parts: Vec<Vec<u8>>)
    requires
        size > 0,
    ensures
        parts.deep_view() == pieces(bytes@, size as nat),
{
    let len = bytes.len();
    let mut parts: Vec<Vec<u8>> = Vec::new();
    let mut offset: usize = 0;
    proof {
        assert(0 * size == 0) by (nonlinear_arith);
    }
    while offset < len
        invariant
            size > 0,
            len == bytes@.len(),
            offset <= len,
            offset < len ==> offset == parts.len() * size,
            offset == len ==> len <= parts.len() * size,
            parts.len() > 0 ==> (parts.len() - 1) * size < len,
            forall|i: int|
                0 <= i < parts.len() ==> (#[trigger] parts[i])@ == piece(bytes@, size as nat, i),
        decreases len - offset,
    {
        let ghost k = parts.len() as int;
        let end: usize = if len - offset <= size {
            len
        } else {
            offset + size
        };
        proof {
            assert((k + 1) * size == k * size + size) by (nonlinear_arith);
        }
        let part = slice_to_vec(slice_subrange(bytes, offset, end));
        parts.push(part);
        offset = end;
    }
    proof {
        lemma_piece_count_unique(len as nat, size as nat, parts.len() as nat);
        assert(parts.deep_view() =~~= pieces(bytes@, size as nat));
    }
    parts
}

/// Cuts a command payload into the fragments that go out one per report. An
/// empty payload gives one empty fragment, so that the command is still sent.
pub fn split_payload(payload: &[u8]) -> (parts: Vec<Vec<u8>>)
    ensures
        parts.deep_view() == fragments(payload@),
{
    if payload.len() == 0 {
        let mut parts: Vec<Vec<u8>> = Vec::new();
        parts.push(Vec::new());
        proof {
            assert(parts.deep_view() =~~= fragments(payload@));
        }
        parts
    } else {
        split(payload, MAX_FRAGMENT_LEN)
    }
}

/// Cuts an image into the chunks in which it is written.
pub fn split_image(image: &[u8]) -> (chunks: Vec<Vec<u8>>)
    ensures
        chunks.deep_view() == image_chunks(image@),
{
    split(image, IMAGE_CHUNK_LEN)
}

} // verus!
