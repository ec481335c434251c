//! Numbers as little-endian bytes.
//!
//! The lengths and tags of the wire layout are numbers of a fixed width, the
//! byte that counts least first.

use vstd::prelude::*;

verus! {

/// The number 256 raised to `width`: how many numbers `width` bytes can tell
/// apart.
pub open spec fn pow256(width: nat) -> nat
    decreases width,
{
    if width == 0 {
        1
    } else {
        256 * pow256((width - 1) as nat)
    }
}

/// The `width` little-endian bytes of `value`: the byte that counts least
/// comes first. What of `value` does not fit into `width` bytes is left out.
pub open spec fn le_bytes(value: nat, width: nat) -> Seq<u8>
    decreases width,
{
    if width == 0 {
        Seq::empty()
    } else {
        seq![(value % 256) as u8] + le_bytes(value / 256, (width - 1) as nat)
    }
}

/// The number that bytes are when read little-endian.
pub open spec fn le_value(bytes: Seq<u8>) -> nat
    decreases bytes.len(),
{
    if bytes.len() == 0 {
        0
    } else {
        bytes[0] as nat + 256 * le_value(bytes.drop_first())
    }
}

/// A number of `width` bytes is `width` bytes long.
pub proof fn lemma_le_bytes_len(value: nat, width: nat)
    ensures
        le_bytes(value, width).len() == width,
    decreases width,
{
    if width > 0 {
        lemma_le_bytes_len(value / 256, (width - 1) as nat);
    }
}

/// Bytes read as a number stay below what their count can tell apart.
pub proof fn lemma_le_value_bound(bytes: Seq<u8>)
    ensures
        le_value(bytes) < pow256(bytes.len()),
    decreases bytes.len(),
{
    if bytes.len() > 0 {
        lemma_le_value_bound(bytes.drop_first());
    }
}

/// A number that fits into `width` bytes is read back from its bytes.
pub proof fn lemma_le_value_of_bytes(value: nat, width: nat)
    requires
        value < pow256(width),
    ensures
        le_value(le_bytes(value, width)) == value,
    decreases width,
{
    if width > 0 {
        let rest = le_bytes(value / 256, (width - 1) as nat);
        lemma_le_value_of_bytes(value / 256, (width - 1) as nat);
        assert(le_bytes(value, width).drop_first() =~= rest);
    }
}

/// Bytes are the little-endian bytes of the number that they are read as.
pub proof fn lemma_le_bytes_of_value(bytes: Seq<u8>)
    ensures
        le_bytes(le_value(bytes), bytes.len()) == bytes,
    decreases bytes.len(),
{
    if bytes.len() > 0 {
        let rest = bytes.drop_first();
        lemma_le_bytes_of_value(rest);
        let value = le_value(bytes);
        assert(value % 256 == bytes[0] as nat);
        assert(value / 256 == le_value(rest));
        assert(le_bytes(value, bytes.len()) =~= bytes);
    }
}

/// Four bytes tell apart the numbers of a `u32`, and eight those of a `u64`.
pub proof fn lemma_pow256_of_widths()
    ensures
        pow256(4) == 0x1_0000_0000,
        pow256(7) == 0x100_0000_0000_0000,
        pow256(8) == 0x1_0000_0000_0000_0000,
{
    reveal_with_fuel(pow256, 9);
}

/// More bytes tell more numbers apart.
pub proof fn lemma_pow256_grows(narrow: nat, wide: nat)
    requires
        narrow <= wide,
    ensures
        pow256(narrow) <= pow256(wide),
    decreases wide,
{
    if narrow < wide {
        lemma_pow256_grows(narrow, (wide - 1) as nat);
    }
}

/// Appends the `width` little-endian bytes of `value` to `out`.
pub fn put_le(out: &mut Vec<u8>, value: u64, width: usize)
    ensures
        final(out)@ == old(out)@ + le_bytes(value as nat, width as nat),
{
    let ghost start = out@;
    let mut rest: u64 = value;
    let mut i: usize = 0;
    while i < width
        invariant
            i <= width,
            start + le_bytes(value as nat, width as nat) == out@ + le_bytes(
                rest as nat,
                (width - i) as nat,
            ),
        decreases width - i,
    {
        let ghost before = out@;
        out.push((rest % 256) as u8);
        proof {
            let tail = le_bytes((rest / 256) as nat, (width - i - 1) as nat);
            assert(le_bytes(rest as nat, (width - i) as nat) == seq![(rest % 256) as u8] + tail);
            assert(before + (seq![(rest % 256) as u8] + tail) =~= out@ + tail);
        }
        rest = rest / 256;
        i += 1;
    }
    assert(out@ + le_bytes(rest as nat, 0) =~= out@);
}

/// Reads at most eight bytes as a little-endian number.
pub fn read_le(bytes: &[u8]) -> (value: u64)
    requires
        bytes@.len() <= 8,
    ensures
        value == le_value(bytes@),
{
    let len = bytes.len();
    let mut value: u64 = 0;
    let mut i: usize = len;
    assert(bytes@.subrange(len as int, len as int) =~= Seq::<u8>::empty());
    while i > 0
        invariant
            i <= len,
            len == bytes@.len(),
            len <= 8,
            value == le_value(bytes@.subrange(i as int, len as int)),
        decreases i,
    {
        proof {
            let suffix = bytes@.subrange(i as int, len as int);
            lemma_le_value_bound(suffix);
            lemma_pow256_grows(suffix.len(), 7);
            lemma_pow256_of_widths();
            assert(bytes@.subrange(i - 1, len as int).drop_first() =~= suffix);
        }
        i -= 1;
        value = bytes[i] as u64 + 256 * value;
    }
    assert(bytes@.subrange(0, len as int) =~= bytes@);
    value
}

} // verus!
