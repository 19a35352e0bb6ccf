//! The byte-level primitives of the wire format: fixed-width little-endian
//! integers, compact integers, optional values and concatenation.

use vstd::prelude::*;

verus! {

/// The `width` least significant bytes of `n`, least significant first.
pub open spec fn le_bytes(n: nat, width: nat) -> Seq<u8>
    decreases width,
{
    if width == 0 {
        Seq::empty()
    } else {
        seq![(n % 256) as u8] + le_bytes(n / 256, (width - 1) as nat)
    }
}

/// The number of bytes that `n` needs: the least `w` with `n < 256^w`.
pub open spec fn byte_width(n: nat) -> nat
    decreases n,
{
    if n == 0 {
        0
    } else {
        1 + byte_width(n / 256)
    }
}

/// The compact encoding of `n`.
///
/// The two low bits of the first byte select the mode: one byte for values
/// below 2^6, two bytes below 2^14, four bytes below 2^30, and otherwise a
/// header byte that tells how many bytes follow, then the value itself.
pub open spec fn compact(n: nat) -> Seq<u8> {
    if n < 0x40 {
        le_bytes(4 * n, 1)
    } else if n < 0x4000 {
        le_bytes(4 * n + 1, 2)
    } else if n < 0x4000_0000 {
        le_bytes(4 * n + 2, 4)
    } else {
        seq![(3 + 4 * (byte_width(n) - 4)) as u8] + le_bytes(n, byte_width(n))
    }
}

/// The encoding of an optional value whose own encoding is `inner`: a zero
/// byte when absent, a one byte followed by the value when present.
pub open spec fn optional(inner: Option<Seq<u8>>) -> Seq<u8> {
    match inner {
        None => seq![0u8],
        Some(bytes) => seq![1u8] + bytes,
    }
}

/// The weight of the byte at position `width`: 256 to the power `width`.
pub open spec fn radix(width: nat) -> nat
    decreases width,
{
    if width == 0 {
        1
    } else {
        256 * radix((width - 1) as nat)
    }
}

/// A fixed-width integer has as many bytes as its width.
pub proof fn lemma_le_bytes_len(n: nat, width: nat)
    ensures
        le_bytes(n, width).len() == width,
    decreases width,
{
    if width > 0 {
        lemma_le_bytes_len(n / 256, (width - 1) as nat);
    }
}

/// A number below `256^width` needs at most `width` bytes.
pub proof fn lemma_byte_width_at_most(n: nat, width: nat)
    requires
        n < radix(width),
    ensures
        byte_width(n) <= width,
    decreases width,
{
    if n > 0 {
        assert(width > 0);
        lemma_byte_width_at_most(n / 256, (width - 1) as nat);
    }
}

/// A number of at least `256^width` needs more than `width` bytes.
pub proof fn lemma_byte_width_above(n: nat, width: nat)
    requires
        n >= radix(width),
    ensures
        byte_width(n) > width,
    decreases width,
{
    if width > 0 {
        lemma_byte_width_above(n / 256, (width - 1) as nat);
    }
}

/// The weights of the positions that the compact encoding distinguishes.
pub proof fn lemma_radix_values()
    ensures
        radix(1) == 0x100,
        radix(2) == 0x1_0000,
        radix(3) == 0x100_0000,
        radix(4) == 0x1_0000_0000,
        radix(16) == 0x1_0000_0000_0000_0000_0000_0000_0000_0000,
{
    reveal_with_fuel(radix, 17);
}

/// The compact encoding of a 128-bit number has between 1 and 17 bytes, and
/// that of a 32-bit number at most 5.
pub proof fn lemma_compact_len(n: nat)
    requires
        n <= u128::MAX,
    ensures
        1 <= compact(n).len() <= 17,
        n <= u32::MAX ==> compact(n).len() <= 5,
        n >= 0x4000_0000 ==> compact(n).len() == 1 + byte_width(n) && 4 <= byte_width(n) <= 16,
{
    lemma_radix_values();
    lemma_le_bytes_len(4 * n, 1);
    lemma_le_bytes_len(4 * n + 1, 2);
    lemma_le_bytes_len(4 * n + 2, 4);
    lemma_le_bytes_len(n, byte_width(n));
    lemma_byte_width_at_most(n, 16);
    if n <= u32::MAX {
        lemma_byte_width_at_most(n, 4);
    }
    if n >= 0x4000_0000 {
        lemma_byte_width_above(n, 3);
    }
}

/// The number whose bytes, least significant first, are `bytes`.
pub open spec fn from_le(bytes: Seq<u8>) -> nat
    decreases bytes.len(),
{
    if bytes.len() == 0 {
        0
    } else {
        bytes[0] as nat + 256 * from_le(bytes.subrange(1, bytes.len() as int))
    }
}

/// Reads a compact integer from the front of `bytes`: the number and the
/// bytes that follow it, or nothing if `bytes` ends too early.
///
/// The reader accepts every encoding that `compact` produces. It does not
/// reject a number that was written in a wider mode than it needs.
pub open spec fn read_compact(bytes: Seq<u8>) -> Option<(nat, Seq<u8>)> {
    if bytes.len() == 0 {
        None
    } else if bytes[0] % 4 == 3 {
        let width = (bytes[0] / 4 + 4) as int;
        if bytes.len() < 1 + width {
            None
        } else {
            Some(
                (
                    from_le(bytes.subrange(1, 1 + width)),
                    bytes.subrange(1 + width, bytes.len() as int),
                ),
            )
        }
    } else {
        let width: nat = if bytes[0] % 4 == 0 {
            1
        } else if bytes[0] % 4 == 1 {
            2
        } else {
            4
        };
        if bytes.len() < width {
            None
        } else {
            Some(
                (
                    from_le(bytes.subrange(0, width as int)) / 4,
                    bytes.subrange(width as int, bytes.len() as int),
                ),
            )
        }
    }
}

/// Reading the `width` bytes of a number that fits in them gives the number.
pub proof fn lemma_from_le_bytes(n: nat, width: nat)
    requires
        n < radix(width),
    ensures
        from_le(le_bytes(n, width)) == n,
    decreases width,
{
    if width > 0 {
        let tail = le_bytes(n / 256, (width - 1) as nat);
        let all = le_bytes(n, width);
        lemma_le_bytes_len(n / 256, (width - 1) as nat);
        assert(all.subrange(1, all.len() as int) =~= tail);
        lemma_from_le_bytes(n / 256, (width - 1) as nat);
    }
}

/// Every number is below the weight of the first position it does not need.
pub proof fn lemma_fits_own_width(n: nat)
    ensures
        n < radix(byte_width(n)),
    decreases n,
{
    if n > 0 {
        lemma_fits_own_width(n / 256);
    }
}

/// The first byte of a fixed-width integer is the number modulo 256.
pub proof fn lemma_le_bytes_first(n: nat, width: nat)
    requires
        width > 0,
    ensures
        le_bytes(n, width).len() == width,
        le_bytes(n, width)[0] == (n % 256) as u8,
{
    lemma_le_bytes_len(n, width);
}

/// What follows a sequence in a concatenation, and the sequence itself, are
/// its two parts.
pub proof fn lemma_split_concat(head: Seq<u8>, rest: Seq<u8>)
    ensures
        (head + rest).subrange(0, head.len() as int) == head,
        (head + rest).subrange(head.len() as int, (head + rest).len() as int) == rest,
{
    assert((head + rest).subrange(0, head.len() as int) =~= head);
    assert((head + rest).subrange(head.len() as int, (head + rest).len() as int) =~= rest);
}

/// Reading a compact integer that is followed by `rest` gives the number
/// back, and `rest`.
pub proof fn lemma_read_compact(n: nat, rest: Seq<u8>)
    requires
        n <= u128::MAX,
    ensures
        read_compact(compact(n) + rest) == Some((n, rest)),
{
    lemma_radix_values();
    lemma_compact_len(n);
    let bytes = compact(n) + rest;
    if n < 0x40 {
        lemma_le_bytes_first(4 * n, 1);
        lemma_from_le_bytes(4 * n, 1);
        lemma_split_concat(le_bytes(4 * n, 1), rest);
    } else if n < 0x4000 {
        lemma_le_bytes_first(4 * n + 1, 2);
        lemma_from_le_bytes(4 * n + 1, 2);
        lemma_split_concat(le_bytes(4 * n + 1, 2), rest);
    } else if n < 0x4000_0000 {
        lemma_le_bytes_first(4 * n + 2, 4);
        lemma_from_le_bytes(4 * n + 2, 4);
        lemma_split_concat(le_bytes(4 * n + 2, 4), rest);
    } else {
        let width = byte_width(n);
        let digits = le_bytes(n, width);
        lemma_le_bytes_len(n, width);
        lemma_fits_own_width(n);
        lemma_from_le_bytes(n, width);
        assert(bytes[0] == (3 + 4 * (width - 4)) as u8);
        assert(bytes.subrange(1, 1 + width as int) =~= digits);
        assert(bytes.subrange(1 + width as int, bytes.len() as int) =~= rest);
    }
}

/// Calls `parity_scale_codec::Compact::<u32>::encode`. The contract claims
/// that the bytes returned are the compact encoding of `n`, as the crate's
/// `encode_to` for `CompactRef<u32>` lays them out.
#[verifier::external_body]
pub(crate) fn compact_u32(n: u32) -> (bytes: Vec<u8>)
    ensures
        bytes@ == compact(n as nat),
{
    parity_scale_codec::Encode::encode(&parity_scale_codec::Compact(n))
}

/// Calls `parity_scale_codec::Compact::<u128>::encode`. The contract claims
/// that the bytes returned are the compact encoding of `n`, as the crate's
/// `encode_to` for `CompactRef<u128>` lays them out.
#[verifier::external_body]
pub(crate) fn compact_u128(n: u128) -> (bytes: Vec<u8>)
    ensures
        bytes@ == compact(n as nat),
{
    parity_scale_codec::Encode::encode(&parity_scale_codec::Compact(n))
}

/// Calls `parity_scale_codec::Encode::encode` on a `u32`. The contract claims
/// that the result is the four bytes of `n`, least significant first.
#[verifier::external_body]
pub(crate) fn fixed_u32(n: u32) -> (bytes: Vec<u8>)
    ensures
        bytes@ == le_bytes(n as nat, 4),
{
    parity_scale_codec::Encode::encode(&n)
}

/// Appends a copy of `src` to `dst`.
pub fn append_bytes(dst: &mut Vec<u8>, src: &[u8])
    ensures
        final(dst)@ == old(dst)@ + src@,
{
    let mut i: usize = 0;
    while i < src.len()
        invariant
            i <= src@.len(),
            dst@ == old(dst)@ + src@.subrange(0, i as int),
        decreases src@.len() - i,
    {
        dst.push(src[i]);
        i = i + 1;
        assert(dst@ =~= old(dst)@ + src@.subrange(0, i as int));
    }
    assert(src@.subrange(0, i as int) =~= src@);
}

/// Appends the encoding of an optional `u32`.
pub fn append_optional_u32(dst: &mut Vec<u8>, value: Option<u32>)
    ensures
        final(dst)@ == old(dst)@ + optional(
            match value {
                Some(v) => Some(le_bytes(v as nat, 4)),
                None => None,
            },
        ),
{
    match value {
        None => {
            dst.push(0u8);
        },
        Some(v) => {
            dst.push(1u8);
            let inner = fixed_u32(v);
            append_bytes(dst, inner.as_slice());
        },
    }
    assert(dst@ =~= old(dst)@ + optional(
        match value {
            Some(v) => Some(le_bytes(v as nat, 4)),
            None => None,
        },
    ));
}

} // verus!
