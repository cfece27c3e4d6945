//! The VP9 superframe index: a packet may end with an index whose marker
//! byte announces up to 8 embedded frames, with their sizes stored as
//! little-endian integers even though every other multi-bit field of the
//! bitstream is big-endian.

use vstd::prelude::*;

use crate::error::ParserError;

verus! {

/// True when `b` has the superframe marker pattern: top three bits 0b110.
pub open spec fn is_superframe_marker(b: u8) -> bool {
    b & 0xE0u8 == 0xC0u8
}

/// The width in bytes of each size entry of the index, 1 to 4.
pub open spec fn bytes_per_framesize(b: u8) -> nat {
    ((((b >> 3u8) & 3u8) + 1) as nat)
}

/// The number of frames the index announces, 1 to 8.
pub open spec fn frame_count(b: u8) -> nat {
    (((b & 7u8) + 1) as nat)
}

/// The byte length of the whole index: the marker byte at each end plus
/// one size entry per frame.
pub open spec fn index_size(b: u8) -> nat {
    2 + frame_count(b) * bytes_per_framesize(b)
}

/// True when the packet carries a superframe index: the final byte has
/// the marker pattern, the index fits inside the packet, and the first
/// index byte repeats the marker byte.
pub open spec fn has_superframe_index(d: Seq<u8>) -> bool {
    &&& d.len() >= 1
    &&& is_superframe_marker(d.last())
    &&& index_size(d.last()) <= d.len()
    &&& d[d.len() - index_size(d.last())] == d.last()
}

/// The value of `d` read as one little-endian integer.
pub open spec fn le_value(d: Seq<u8>) -> nat
    decreases d.len(),
{
    if d.len() == 0 {
        0
    } else {
        ((d[0] + 256 * le_value(d.drop_first())) as nat)
    }
}

/// 256 to the power `n`.
pub open spec fn pow256(n: nat) -> nat
    decreases n,
{
    if n == 0 {
        1
    } else {
        256 * pow256((n - 1) as nat)
    }
}

/// `pow256` is monotone.
proof fn lemma_pow256_monotone(a: nat, b: nat)
    requires
        a <= b,
    ensures
        pow256(a) <= pow256(b),
    decreases b,
{
    if a < b {
        lemma_pow256_monotone(a, (b - 1) as nat);
    }
}

/// A little-endian integer of `n` bytes is smaller than 256 to the `n`.
pub proof fn lemma_le_value_bound(d: Seq<u8>)
    ensures
        le_value(d) < pow256(d.len()),
    decreases d.len(),
{
    if d.len() > 0 {
        lemma_le_value_bound(d.drop_first());
    }
}

/// The size of frame `i` of a superframe: entry `i` of the index, read
/// little-endian.
pub open spec fn frame_size_entry(d: Seq<u8>, i: nat) -> nat
    recommends
        has_superframe_index(d),
        i < frame_count(d.last()),
{
    let b = bytes_per_framesize(d.last());
    let start = d.len() - index_size(d.last()) + 1 + i * b;
    le_value(d.subrange(start as int, start as int + b))
}

/// The marker pattern is exactly the byte range 0xC0 to 0xDF.
pub proof fn lemma_marker_range(b: u8)
    ensures
        is_superframe_marker(b) <==> 0xC0 <= b <= 0xDF,
{
    assert((b & 0xE0u8 == 0xC0u8) <==> (0xC0 <= b && b <= 0xDF)) by (bit_vector);
}

/// The marker byte fields and their bounds, as the splitter computes
/// them.
pub proof fn lemma_marker_fields(b: u8)
    ensures
        bytes_per_framesize(b) == (((b & 0b11000u8) >> 3u8) + 1) as nat,
        1 <= bytes_per_framesize(b) <= 4,
        1 <= frame_count(b) <= 8,
        frame_count(b) * bytes_per_framesize(b) <= 32,
        index_size(b) <= 34,
{
    assert(((b & 0b11000u8) >> 3u8) == ((b >> 3u8) & 3u8)) by (bit_vector);
    assert(((b >> 3u8) & 3u8) <= 3) by (bit_vector);
    assert((b & 7u8) <= 7) by (bit_vector);
    assert(frame_count(b) * bytes_per_framesize(b) <= 32) by (nonlinear_arith)
        requires
            1 <= frame_count(b) <= 8 && 1 <= bytes_per_framesize(b) <= 4,
    ;
}

/// Size entry `i` of the index, seen inside the entry byte region, is
/// the size of frame `i`.
pub proof fn lemma_entry_is_frame_size(d: Seq<u8>, i: nat)
    requires
        has_superframe_index(d),
        i < frame_count(d.last()),
    ensures
        ({
            let b = bytes_per_framesize(d.last());
            let es = d.len() - index_size(d.last()) + 1;
            frame_size_entry(d, i) == le_value(
                d.subrange(es, es + frame_count(d.last()) * b).subrange(
                    (i * b) as int,
                    (i * b + b) as int,
                ),
            )
        }),
{
    let b = bytes_per_framesize(d.last());
    let fc = frame_count(d.last());
    let es = d.len() - index_size(d.last()) + 1;
    lemma_marker_fields(d.last());
    assert(i * b + b == (i + 1) * b) by (nonlinear_arith);
    assert((i + 1) * b <= fc * b) by (nonlinear_arith)
        requires
            i + 1 <= fc && b >= 0,
    ;
    assert(i * b >= 0) by (nonlinear_arith)
        requires
            i >= 0 && b >= 0,
    ;
    let entries = d.subrange(es, es + fc * b);
    assert(entries.subrange((i * b) as int, (i * b + b) as int) =~= d.subrange(
        es + i * b,
        es + i * b + b,
    ));
}

/// Reads size entry `index` out of the index entry bytes `entry_data`,
/// as a little-endian integer of `bytes_size` bytes.  Raises
/// InvalidFrameSizeByteSize outside the 1 to 4 byte widths and
/// NumericRange when the value does not fit a usize.
pub(crate) fn read_frame_size(entry_data: &[u8], bytes_size: usize, index: usize) -> (r: Result<
    usize,
    ParserError,
>)
    requires
        (index + 1) * bytes_size <= entry_data@.len(),
    ensures
        match r {
            Ok(v) => {
                &&& 1 <= bytes_size <= 4
                &&& v as nat == le_value(
                    entry_data@.subrange(
                        (index * bytes_size) as int,
                        (index * bytes_size + bytes_size) as int,
                    ),
                )
            },
            Err(e) => match e {
                ParserError::InvalidFrameSizeByteSize(b) => {
                    &&& b == bytes_size
                    &&& !(1 <= bytes_size <= 4)
                },
                ParserError::NumericRange => {
                    &&& 1 <= bytes_size <= 4
                    &&& le_value(
                        entry_data@.subrange(
                            (index * bytes_size) as int,
                            (index * bytes_size + bytes_size) as int,
                        ),
                    ) > usize::MAX
                },
                _ => false,
            },
        },
{
    if bytes_size < 1 || bytes_size > 4 {
        return Err(ParserError::InvalidFrameSizeByteSize(bytes_size));
    }
    let n = entry_data.len();
    proof {
        assert(index * bytes_size + bytes_size == (index + 1) * bytes_size) by (nonlinear_arith);
        assert(index * bytes_size >= 0) by (nonlinear_arith)
            requires
                index >= 0 && bytes_size >= 0,
        ;
        assert(index * bytes_size + bytes_size <= n);
    }
    let start = index * bytes_size;
    let ghost entry = entry_data@.subrange(start as int, start as int + bytes_size as int);
    let mut acc: u64 = 0;
    let mut k = bytes_size;
    while k > 0
        invariant
            k <= bytes_size <= 4,
            n == entry_data@.len(),
            start + bytes_size <= n,
            entry == entry_data@.subrange(start as int, start as int + bytes_size as int),
            acc as nat == le_value(entry.subrange(k as int, bytes_size as int)),
            (acc as nat) < pow256((bytes_size - k) as nat),
        decreases k,
    {
        k = k - 1;
        let b = entry_data[start + k];
        proof {
            let tail = entry.subrange(k as int, bytes_size as int);
            assert(tail.drop_first() =~= entry.subrange(k + 1, bytes_size as int));
            assert(tail[0] == entry_data@[start + k]);
            lemma_le_value_bound(tail);
            lemma_pow256_monotone((bytes_size - (k + 1)) as nat, 3);
            assert(pow256(3) == 0x1000000 && pow256(4) == 0x100000000) by {
                reveal_with_fuel(pow256, 5);
            }
        }
        acc = (b as u64) + 256 * acc;
    }
    proof {
        assert(entry.subrange(0, bytes_size as int) =~= entry);
    }
    if acc > usize::MAX as u64 {
        return Err(ParserError::NumericRange);
    }
    Ok(acc as usize)
}

} // verus!
