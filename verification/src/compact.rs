//! The compact variable-length encoding of unsigned integers.
//!
//! The two low bits of the first byte tell the form: one byte for numbers
//! below 2^6, two bytes below 2^14, four bytes below 2^30, and beyond that a
//! length byte followed by the number's significant bytes. Multi-byte parts
//! are little-endian.

use vstd::prelude::*;

verus! {

/// One more than the largest number of the one-byte form.
pub const SINGLE_BYTE_LIMIT: u128 = 0x40;

/// One more than the largest number of the two-byte form.
pub const TWO_BYTE_LIMIT: u128 = 0x4000;

/// One more than the largest number of the four-byte form.
pub const FOUR_BYTE_LIMIT: u128 = 0x4000_0000;

/// 256 to the power `k`.
pub open spec fn pow256(k: nat) -> nat
    decreases k,
{
    if k == 0 {
        1
    } else {
        256 * pow256((k - 1) as nat)
    }
}

/// The `width` low-order bytes of `n`, least significant first.
pub open spec fn le_bytes(n: nat, width: nat) -> Seq<u8>
    decreases width,
{
    if width == 0 {
        Seq::empty()
    } else {
        seq![(n % 256) as u8] + le_bytes(n / 256, (width - 1) as nat)
    }
}

/// The number that a little-endian byte string stands for.
pub open spec fn le_value(bytes: Seq<u8>) -> nat
    decreases bytes.len(),
{
    if bytes.len() == 0 {
        0
    } else {
        bytes[0] as nat + 256 * le_value(bytes.skip(1))
    }
}

/// The number of bytes up to and including the most significant non-zero
/// one; 1 for zero.
pub open spec fn byte_width(n: nat) -> nat
    decreases n,
{
    if n < 256 {
        1
    } else {
        1 + byte_width(n / 256)
    }
}

/// The compact encoding of `n`.
pub open spec fn compact_encoding(n: nat) -> Seq<u8> {
    if n < SINGLE_BYTE_LIMIT {
        le_bytes(4 * n, 1)
    } else if n < TWO_BYTE_LIMIT {
        le_bytes(4 * n + 1, 2)
    } else if n < FOUR_BYTE_LIMIT {
        le_bytes(4 * n + 2, 4)
    } else {
        seq![(4 * (byte_width(n) - 4) + 3) as u8] + le_bytes(n, byte_width(n))
    }
}

/// The length of the compact encoding of `n`.
pub open spec fn compact_size(n: nat) -> nat {
    if n < SINGLE_BYTE_LIMIT {
        1
    } else if n < TWO_BYTE_LIMIT {
        2
    } else if n < FOUR_BYTE_LIMIT {
        4
    } else {
        1 + byte_width(n)
    }
}

/// The number whose compact encoding `bytes` begins with, if there is one
/// among the 128-bit numbers.
pub open spec fn compact_decoding(bytes: Seq<u8>) -> Option<u128> {
    if exists|n: u128| #[trigger] compact_encoding(n as nat).is_prefix_of(bytes) {
        Some(choose|n: u128| #[trigger] compact_encoding(n as nat).is_prefix_of(bytes))
    } else {
        None
    }
}

/// `width` bytes are written, whatever the number.
pub proof fn lemma_le_bytes_len(n: nat, width: nat)
    ensures
        le_bytes(n, width).len() == width,
    decreases width,
{
    if width > 0 {
        lemma_le_bytes_len(n / 256, (width - 1) as nat);
    }
}

/// A number below 256^width is read back from its `width` bytes.
pub proof fn lemma_le_value_of_le_bytes(n: nat, width: nat)
    requires
        n < pow256(width),
    ensures
        le_value(le_bytes(n, width)) == n,
    decreases width,
{
    if width > 0 {
        let tail = le_bytes(n / 256, (width - 1) as nat);
        let all = le_bytes(n, width);
        lemma_le_value_of_le_bytes(n / 256, (width - 1) as nat);
        lemma_le_bytes_len(n / 256, (width - 1) as nat);
        assert(all.skip(1) =~= tail);
        assert(all[0] == (n % 256) as u8);
    }
}

/// A byte string is written back from the number it stands for.
pub proof fn lemma_le_bytes_of_le_value(bytes: Seq<u8>)
    ensures
        le_bytes(le_value(bytes), bytes.len()) == bytes,
        le_value(bytes) < pow256(bytes.len()),
    decreases bytes.len(),
{
    if bytes.len() > 0 {
        let rest = bytes.skip(1);
        lemma_le_bytes_of_le_value(rest);
        let v = le_value(bytes);
        assert(v == bytes[0] as nat + 256 * le_value(rest));
        assert(v % 256 == bytes[0] as nat);
        assert(v / 256 == le_value(rest));
        assert((seq![bytes[0]] + rest) =~= bytes);
    }
}

/// A number lies between the powers of 256 that its width names.
pub proof fn lemma_byte_width_bounds(n: nat)
    ensures
        byte_width(n) >= 1,
        n < pow256(byte_width(n)),
        n > 0 ==> pow256((byte_width(n) - 1) as nat) <= n,
    decreases n,
{
    reveal_with_fuel(pow256, 2);
    if n >= 256 {
        lemma_byte_width_bounds(n / 256);
    }
}

/// A number below 256^k has at most `k` bytes.
pub proof fn lemma_byte_width_at_most(n: nat, k: nat)
    requires
        k >= 1,
        n < pow256(k),
    ensures
        byte_width(n) <= k,
    decreases k,
{
    reveal_with_fuel(pow256, 2);
    if n >= 256 {
        if k == 1 {
            assert(false);
        } else {
            lemma_byte_width_at_most(n / 256, (k - 1) as nat);
        }
    }
}

/// The powers of 256 that bound the fixed-width integers.
pub proof fn lemma_pow256_values()
    ensures
        pow256(1) == 0x100,
        pow256(2) == 0x1_0000,
        pow256(4) == 0x1_0000_0000,
        pow256(16) == 0x1_0000_0000_0000_0000_0000_0000_0000_0000,
{
    reveal_with_fuel(pow256, 17);
}

/// Larger exponents give larger powers.
pub proof fn lemma_pow256_increases(a: nat, b: nat)
    requires
        a <= b,
    ensures
        pow256(a) <= pow256(b),
        pow256(a) >= 1,
    decreases b,
{
    if a < b {
        lemma_pow256_increases(a, (b - 1) as nat);
    } else if a > 0 {
        lemma_pow256_increases((a - 1) as nat, (a - 1) as nat);
    }
}

/// The length of an encoding is that of its form.
pub proof fn lemma_compact_size(n: nat)
    ensures
        compact_encoding(n).len() == compact_size(n),
{
    lemma_le_bytes_len(4 * n, 1);
    lemma_le_bytes_len(4 * n + 1, 2);
    lemma_le_bytes_len(4 * n + 2, 4);
    lemma_le_bytes_len(n, byte_width(n));
}

/// A number of the last form has between 4 and 16 significant bytes.
pub proof fn lemma_wide_width(n: u128)
    requires
        n >= FOUR_BYTE_LIMIT,
    ensures
        4 <= byte_width(n as nat) <= 16,
{
    lemma_pow256_values();
    lemma_byte_width_at_most(n as nat, 16);
    lemma_byte_width_bounds(n as nat);
    if byte_width(n as nat) < 4 {
        lemma_pow256_increases(byte_width(n as nat), 3);
        reveal_with_fuel(pow256, 4);
    }
}

/// What a byte string that begins with the encoding of `n` holds.
pub proof fn lemma_prefix_shape(n: u128, bytes: Seq<u8>)
    requires
        compact_encoding(n as nat).is_prefix_of(bytes),
    ensures
        bytes.len() >= compact_size(n as nat),
        n < SINGLE_BYTE_LIMIT ==> bytes[0] % 4 == 0 && bytes[0] / 4 == n,
        SINGLE_BYTE_LIMIT <= n < TWO_BYTE_LIMIT ==> bytes[0] % 4 == 1 && le_value(bytes.take(2))
            == 4 * n + 1,
        TWO_BYTE_LIMIT <= n < FOUR_BYTE_LIMIT ==> bytes[0] % 4 == 2 && le_value(bytes.take(4))
            == 4 * n + 2,
        n >= FOUR_BYTE_LIMIT ==> bytes[0] % 4 == 3 && bytes[0] / 4 + 4 == byte_width(n as nat)
            && le_value(bytes.subrange(1, 1 + byte_width(n as nat) as int)) == n,
{
    let e = compact_encoding(n as nat);
    lemma_compact_size(n as nat);
    lemma_pow256_values();
    assert(e =~= bytes.subrange(0, e.len() as int));
    assert(e[0] == bytes[0]);
    if n < SINGLE_BYTE_LIMIT {
        reveal_with_fuel(le_bytes, 2);
    } else if n < TWO_BYTE_LIMIT {
        lemma_le_value_of_le_bytes((4 * n + 1) as nat, 2);
        assert(bytes.take(2) =~= e);
        reveal_with_fuel(le_bytes, 2);
    } else if n < FOUR_BYTE_LIMIT {
        lemma_le_value_of_le_bytes((4 * n + 2) as nat, 4);
        assert(bytes.take(4) =~= e);
        reveal_with_fuel(le_bytes, 2);
    } else {
        let w = byte_width(n as nat);
        lemma_wide_width(n);
        lemma_byte_width_bounds(n as nat);
        lemma_le_value_of_le_bytes(n as nat, w);
        lemma_le_bytes_len(n as nat, w);
        let body = le_bytes(n as nat, w);
        assert forall|i: int| 0 <= i < w implies bytes[1 + i] == body[i] by {
            assert(e[1 + i] == bytes.subrange(0, e.len() as int)[1 + i]);
        }
        assert(bytes.subrange(1, 1 + w as int) =~= body);
    }
}

/// No byte string begins with the encodings of two numbers.
pub proof fn lemma_prefix_unique(m: u128, n: u128, bytes: Seq<u8>)
    requires
        compact_encoding(m as nat).is_prefix_of(bytes),
        compact_encoding(n as nat).is_prefix_of(bytes),
    ensures
        m == n,
{
    lemma_prefix_shape(m, bytes);
    lemma_prefix_shape(n, bytes);
}

/// A byte string that begins with the encoding of `n` decodes to `n`.
pub proof fn lemma_decoding_of_prefix(n: u128, bytes: Seq<u8>)
    requires
        compact_encoding(n as nat).is_prefix_of(bytes),
    ensures
        compact_decoding(bytes) == Some(n),
{
    let m = choose|m: u128| #[trigger] compact_encoding(m as nat).is_prefix_of(bytes);
    lemma_prefix_unique(m, n, bytes);
}

/// Decoding undoes encoding, whatever follows the encoded number.
pub proof fn lemma_compact_round_trip(n: u128, rest: Seq<u8>)
    ensures
        compact_decoding(compact_encoding(n as nat) + rest) == Some(n),
        compact_decoding(compact_encoding(n as nat)) == Some(n),
{
    let e = compact_encoding(n as nat);
    assert((e + rest).subrange(0, e.len() as int) =~= e);
    assert(e.subrange(0, e.len() as int) =~= e);
    lemma_decoding_of_prefix(n, e + rest);
    lemma_decoding_of_prefix(n, e);
}

/// Only the encoding of `n` decodes to `n`: a byte string that decodes
/// begins with the encoding of the number it gives.
pub proof fn lemma_compact_canonical(bytes: Seq<u8>)
    ensures
        compact_decoding(bytes) matches Some(n) ==> compact_encoding(n as nat).is_prefix_of(bytes),
{
}

/// The number of significant bytes of `n`.
fn significant_bytes(n: u128) -> (w: usize)
    ensures
        w == byte_width(n as nat),
        1 <= w <= 16,
{
    proof {
        lemma_pow256_values();
        lemma_byte_width_at_most(n as nat, 16);
    }
    let mut w: usize = 1;
    let mut rest: u128 = n;
    while rest >= 256
        invariant
            w >= 1,
            byte_width(n as nat) == byte_width(rest as nat) + w - 1,
            byte_width(n as nat) <= 16,
        decreases rest,
    {
        rest = rest / 256;
        w = w + 1;
    }
    w
}

/// Writes the `width` low-order bytes of `n`, least significant first.
pub fn le_encode(n: u128, width: usize) -> (out: Vec<u8>)
    ensures
        out@ == le_bytes(n as nat, width as nat),
{
    let mut out: Vec<u8> = Vec::new();
    let mut rest: u128 = n;
    let mut i: usize = 0;
    while i < width
        invariant
            i <= width,
            out@ + le_bytes(rest as nat, (width - i) as nat) == le_bytes(n as nat, width as nat),
        decreases width - i,
    {
        proof {
            let tail = le_bytes((rest / 256) as nat, (width - i - 1) as nat);
            assert(out@.push((rest % 256) as u8) + tail =~= out@ + (seq![(rest % 256) as u8] + tail));
        }
        out.push((rest % 256) as u8);
        rest = rest / 256;
        i = i + 1;
    }
    assert(out@ + Seq::<u8>::empty() =~= out@);
    out
}

/// Reads a little-endian number of at most 16 bytes.
pub fn le_decode(bytes: &[u8]) -> (n: u128)
    requires
        bytes@.len() <= 16,
    ensures
        n == le_value(bytes@),
{
    let mut acc: u128 = 0;
    let mut i: usize = bytes.len();
    proof {
        assert(bytes@.skip(bytes@.len() as int) =~= Seq::<u8>::empty());
    }
    while i > 0
        invariant
            i <= bytes@.len() <= 16,
            acc == le_value(bytes@.skip(i as int)),
            acc < pow256((bytes@.len() - i) as nat),
        decreases i,
    {
        i = i - 1;
        proof {
            let s = bytes@.skip(i as int);
            assert(s.skip(1) =~= bytes@.skip(i + 1));
            lemma_pow256_increases((bytes@.len() - i) as nat, 16);
            lemma_pow256_values();
        }
        acc = acc * 256 + bytes[i] as u128;
    }
    assert(bytes@.skip(0) =~= bytes@);
    acc
}

/// Encodes `n` in the compact form.
pub fn encode_compact(n: u128) -> (out: Vec<u8>)
    ensures
        out@ == compact_encoding(n as nat),
        out@.len() == compact_size(n as nat),
{
    proof {
        lemma_compact_size(n as nat);
    }
    if n < SINGLE_BYTE_LIMIT {
        le_encode(4 * n, 1)
    } else if n < TWO_BYTE_LIMIT {
        le_encode(4 * n + 1, 2)
    } else if n < FOUR_BYTE_LIMIT {
        le_encode(4 * n + 2, 4)
    } else {
        let w = significant_bytes(n);
        proof {
            lemma_wide_width(n);
        }
        let mut out: Vec<u8> = Vec::new();
        out.push((4 * (w - 4) + 3) as u8);
        let mut body = le_encode(n, w);
        out.append(&mut body);
        assert(out@ =~= compact_encoding(n as nat));
        out
    }
}

/// Decodes the compact number that `bytes` begins with, and says how many
/// bytes it took. `None` where `bytes` begins with the encoding of no 128-bit
/// number: where it is cut short, or where the number is written in a longer
/// form than it needs.
pub fn decode_compact(bytes: &[u8]) -> (res: Option<(u128, usize)>)
    ensures
        match res {
            Some((n, used)) => compact_decoding(bytes@) == Some(n) && used == compact_size(
                n as nat,
            ) && used <= bytes@.len(),
            None => compact_decoding(bytes@) is None,
        },
{
    let ghost b = bytes@;
    if bytes.len() == 0 {
        assert forall|n: u128| !#[trigger] compact_encoding(n as nat).is_prefix_of(b) by {
            lemma_compact_size(n as nat);
        }
        return None;
    }
    let first = bytes[0];
    let mode = first % 4;
    let need: usize = if mode == 0 {
        1
    } else if mode == 1 {
        2
    } else if mode == 2 {
        4
    } else {
        (first / 4) as usize + 5
    };
    if bytes.len() < need || need > 17 {
        assert forall|n: u128| !#[trigger] compact_encoding(n as nat).is_prefix_of(b) by {
            if compact_encoding(n as nat).is_prefix_of(b) {
                lemma_prefix_shape(n, b);
                if n >= FOUR_BYTE_LIMIT {
                    lemma_wide_width(n);
                }
            }
        }
        return None;
    }
    let start: usize = if mode == 3 {
        1
    } else {
        0
    };
    let field = vstd::slice::slice_subrange(bytes, start, need);
    let raw = le_decode(field);
    let n: u128 = if mode == 3 {
        raw
    } else {
        raw / 4
    };
    let canonical = if mode == 0 {
        true
    } else if mode == 1 {
        n >= SINGLE_BYTE_LIMIT
    } else if mode == 2 {
        n >= TWO_BYTE_LIMIT
    } else {
        n >= FOUR_BYTE_LIMIT && significant_bytes(n) + 1 == need
    };
    proof {
        lemma_pow256_values();
        lemma_le_bytes_of_le_value(field@);
        if mode != 3 {
            assert(field@ =~= b.take(need as int));
            reveal_with_fuel(le_value, 2);
            assert(raw % 4 == mode as int) by {
                assert(raw == b[0] as nat + 256 * le_value(field@.skip(1)));
            }
        }
    }
    if !canonical {
        assert forall|m: u128| !#[trigger] compact_encoding(m as nat).is_prefix_of(b) by {
            if compact_encoding(m as nat).is_prefix_of(b) {
                lemma_prefix_shape(m, b);
                if m >= FOUR_BYTE_LIMIT {
                    lemma_wide_width(m);
                }
            }
        }
        return None;
    }
    proof {
        lemma_compact_size(n as nat);
        assert(compact_encoding(n as nat) =~= b.subrange(0, need as int));
        lemma_decoding_of_prefix(n, b);
    }
    Some((n, need))
}

} // verus!
