//! Scalars of secp256k1 as thirty-two big-endian bytes.
//!
//! A signature is made of two scalars. The curve admits a scalar for a
//! signature when it is not zero and lies below the order of the group.

use vstd::prelude::*;

verus! {

/// The number that bytes are when read big-endian: the first byte counts most.
pub open spec fn be_value(bytes: Seq<u8>) -> nat
    decreases bytes.len(),
{
    if bytes.len() == 0 {
        0
    } else {
        be_value(bytes.drop_last()) * 256 + bytes.last() as nat
    }
}

/// The order of the group of secp256k1 as thirty-two big-endian bytes:
/// `FFFFFFFF FFFFFFFF FFFFFFFF FFFFFFFE BAAEDCE6 AF48A03B BFD25E8C D0364141`.
pub open spec fn group_order_bytes() -> Seq<u8> {
    seq![
        0xffu8, 0xff, 0xff, 0xff, 0xff, 0xff, 0xff, 0xff,
        0xff, 0xff, 0xff, 0xff, 0xff, 0xff, 0xff, 0xfe,
        0xba, 0xae, 0xdc, 0xe6, 0xaf, 0x48, 0xa0, 0x3b,
        0xbf, 0xd2, 0x5e, 0x8c, 0xd0, 0x36, 0x41, 0x41,
    ]
}

/// The order of the group of secp256k1.
pub open spec fn group_order() -> nat {
    be_value(group_order_bytes())
}

/// Whether bytes are a scalar that a signature may hold: a number from 1 up to
/// the order of the group, the order itself left out.
pub open spec fn scalar_in_range(bytes: Seq<u8>) -> bool {
    0 < be_value(bytes) < group_order()
}

/// The order of the group of secp256k1 as thirty-two big-endian bytes.
pub fn group_order_word() -> (order: [u8; 32])
    ensures
        order@ == group_order_bytes(),
{
    let order: [u8; 32] = [
        0xff, 0xff, 0xff, 0xff, 0xff, 0xff, 0xff, 0xff,
        0xff, 0xff, 0xff, 0xff, 0xff, 0xff, 0xff, 0xfe,
        0xba, 0xae, 0xdc, 0xe6, 0xaf, 0x48, 0xa0, 0x3b,
        0xbf, 0xd2, 0x5e, 0x8c, 0xd0, 0x36, 0x41, 0x41,
    ];
    assert(order@ =~= group_order_bytes());
    order
}

/// Bytes are the number zero exactly when each of them is zero.
pub proof fn lemma_zero_value(bytes: Seq<u8>)
    ensures
        be_value(bytes) == 0 <==> (forall|i: int| 0 <= i < bytes.len() ==> bytes[i] == 0),
    decreases bytes.len(),
{
    if bytes.len() > 0 {
        let front = bytes.drop_last();
        lemma_zero_value(front);
        if be_value(bytes) == 0 {
            assert forall|i: int| 0 <= i < bytes.len() implies bytes[i] == 0 by {
                if i < bytes.len() - 1 {
                    assert(front[i] == bytes[i]);
                }
            }
        } else if forall|i: int| 0 <= i < bytes.len() ==> bytes[i] == 0 {
            assert forall|i: int| 0 <= i < front.len() implies front[i] == 0 by {
                assert(front[i] == bytes[i]);
            }
        }
    }
}

/// A scalar of thirty-two zero bytes is out of range, and so is the order of
/// the group itself.
pub proof fn lemma_scalars_out_of_range()
    ensures
        !scalar_in_range(Seq::new(32, |i: int| 0u8)),
        !scalar_in_range(group_order_bytes()),
{
    lemma_zero_value(Seq::new(32, |i: int| 0u8));
}

/// Of two byte strings of one length that agree before the place `at`, the one
/// with the smaller byte at that place is the smaller number.
pub proof fn lemma_first_difference_decides(a: Seq<u8>, b: Seq<u8>, at: int)
    requires
        a.len() == b.len(),
        0 <= at < a.len(),
        a.subrange(0, at) == b.subrange(0, at),
        a[at] < b[at],
    ensures
        be_value(a) < be_value(b),
    decreases a.len(),
{
    let front_a = a.drop_last();
    let front_b = b.drop_last();
    if at == a.len() - 1 {
        assert(front_a =~= a.subrange(0, at));
        assert(front_b =~= b.subrange(0, at));
    } else {
        assert(front_a.subrange(0, at) =~= a.subrange(0, at));
        assert(front_b.subrange(0, at) =~= b.subrange(0, at));
        lemma_first_difference_decides(front_a, front_b, at);
    }
}

/// Whether each of the thirty-two bytes is zero.
pub fn is_zero_scalar(bytes: &[u8; 32]) -> (zero: bool)
    ensures
        zero == (be_value(bytes@) == 0),
{
    let mut i: usize = 0;
    while i < 32
        invariant
            i <= 32,
            forall|j: int| 0 <= j < i ==> bytes@[j] == 0,
        decreases 32 - i,
    {
        if bytes[i] != 0 {
            proof {
                lemma_zero_value(bytes@);
            }
            return false;
        }
        i += 1;
    }
    proof {
        lemma_zero_value(bytes@);
    }
    true
}

/// Whether the thirty-two bytes are a number below the order of the group.
pub fn is_below_group_order(bytes: &[u8; 32]) -> (below: bool)
    ensures
        below == (be_value(bytes@) < group_order()),
{
    let order = group_order_word();
    let mut i: usize = 0;
    while i < 32
        invariant
            i <= 32,
            order@ == group_order_bytes(),
            bytes@.subrange(0, i as int) == order@.subrange(0, i as int),
        decreases 32 - i,
    {
        if bytes[i] < order[i] {
            proof {
                lemma_first_difference_decides(bytes@, order@, i as int);
            }
            return true;
        }
        if bytes[i] > order[i] {
            proof {
                lemma_first_difference_decides(order@, bytes@, i as int);
            }
            return false;
        }
        assert(bytes@.subrange(0, i + 1) =~= bytes@.subrange(0, i as int).push(bytes@[i as int]));
        assert(order@.subrange(0, i + 1) =~= order@.subrange(0, i as int).push(order@[i as int]));
        i += 1;
    }
    assert(bytes@ =~= bytes@.subrange(0, 32));
    assert(order@ =~= order@.subrange(0, 32));
    false
}

/// Whether the thirty-two bytes are a scalar that a signature may hold.
pub fn is_scalar_in_range(bytes: &[u8; 32]) -> (in_range: bool)
    ensures
        in_range == scalar_in_range(bytes@),
{
    !is_zero_scalar(bytes) && is_below_group_order(bytes)
}

} // verus!
