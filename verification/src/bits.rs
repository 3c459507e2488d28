//! Bit fields in quadlets shared by the protocol modules.

use vstd::prelude::*;

verus! {

/// The bits of `mask` if `on`, else no bit.
#[verifier::opaque]
pub open spec fn flag_bits(on: bool, mask: u32) -> u32 {
    if on {
        mask
    } else {
        0
    }
}

/// The quadlet after replacing the bits of `mask` by `flag`.
pub open spec fn put_field(q: u32, mask: u32, flag: u32) -> u32 {
    (q & !mask) | flag
}

/// The quadlet after setting the bits of `bits`.
pub open spec fn or_bits(q: u32, bits: u32) -> u32 {
    q | bits
}

/// The quadlet after clearing the bits of `mask` and setting them again if `on`.
pub open spec fn put_flag(q: u32, mask: u32, on: bool) -> u32 {
    put_field(q, mask, flag_bits(on, mask))
}

/// The quadlet after setting the bits of `mask` if `on`, leaving it as it is otherwise.
pub open spec fn or_flag(q: u32, mask: u32, on: bool) -> u32 {
    or_bits(q, flag_bits(on, mask))
}

/// The bits of a switch are either all of the mask or none, and some of them are set exactly when
/// the switch is on.
pub proof fn lemma_flag_bits(on: bool, mask: u32)
    requires
        mask != 0,
    ensures
        flag_bits(on, mask) & !mask == 0,
        (flag_bits(on, mask) > 0) == on,
{
    reveal(flag_bits);
    lemma_mask_bits(mask);
}

/// The bits of a field are read back after replacing them.
pub proof fn lemma_put_field_bits(q: u32, mask: u32, v: u32) by (bit_vector)
    requires
        v & !mask == 0,
    ensures
        put_field(q, mask, v) & mask == v,
{
}

/// The least significant byte of a quadlet is its remainder by 256.
pub proof fn lemma_low_byte(v: u32) by (bit_vector)
    ensures
        v & 0xff == v % 256,
{
}

/// No bit of a mask, and no bit of zero, lies outside of the mask.
proof fn lemma_mask_bits(mask: u32) by (bit_vector)
    ensures
        mask & !mask == 0,
        0u32 & !mask == 0,
{
}

/// Whether any bit of `mask` is set in the quadlet.
pub open spec fn has_flag(q: u32, mask: u32) -> bool {
    q & mask > 0
}

/// Clear the bits of `mask` in the quadlet and set them again if `on`.
pub fn set_flag(q: u32, mask: u32, on: bool) -> (r: u32)
    ensures
        r == put_flag(q, mask, on),
{
    proof {
        reveal(flag_bits);
    }
    let bits = if on {
        mask
    } else {
        0
    };
    (q & !mask) | bits
}

/// Set the bits of `mask` in the quadlet if `on`.
pub fn add_flag(q: u32, mask: u32, on: bool) -> (r: u32)
    ensures
        r == or_flag(q, mask, on),
{
    proof {
        reveal(flag_bits);
    }
    let bits = if on {
        mask
    } else {
        0
    };
    q | bits
}

/// Replace the bits of `mask` in the quadlet by `flag`.
pub fn set_field(q: u32, mask: u32, flag: u32) -> (r: u32)
    ensures
        r == put_field(q, mask, flag),
{
    (q & !mask) | flag
}

/// Whether any bit of `mask` is set in the quadlet.
pub fn check_flag(q: u32, mask: u32) -> (r: bool)
    ensures
        r == has_flag(q, mask),
{
    q & mask > 0
}

/// Writing four fields of disjoint masks one after another reads each of them back.
pub proof fn lemma_four_fields(
    q: u32,
    m0: u32,
    v0: u32,
    m1: u32,
    v1: u32,
    m2: u32,
    v2: u32,
    m3: u32,
    v3: u32,
) by (bit_vector)
    requires
        m0 & m1 == 0,
        m0 & m2 == 0,
        m0 & m3 == 0,
        m1 & m2 == 0,
        m1 & m3 == 0,
        m2 & m3 == 0,
        v0 & !m0 == 0,
        v1 & !m1 == 0,
        v2 & !m2 == 0,
        v3 & !m3 == 0,
    ensures
        put_field(put_field(put_field(put_field(q, m0, v0), m1, v1), m2, v2), m3, v3) & m0 == v0,
        put_field(put_field(put_field(put_field(q, m0, v0), m1, v1), m2, v2), m3, v3) & m1 == v1,
        put_field(put_field(put_field(put_field(q, m0, v0), m1, v1), m2, v2), m3, v3) & m2 == v2,
        put_field(put_field(put_field(put_field(q, m0, v0), m1, v1), m2, v2), m3, v3) & m3 == v3,
{
}

/// Bits within a mask whose bits were clear are read back after adding them.
pub proof fn lemma_or_reads(q: u32, v: u32, mask: u32) by (bit_vector)
    requires
        q & mask == 0,
        v & !mask == 0,
    ensures
        (q | v) & mask == v,
{
}

/// Writing three fields of disjoint masks one after another reads each of them back.
pub proof fn lemma_three_fields(q: u32, m0: u32, v0: u32, m1: u32, v1: u32, m2: u32, v2: u32) by (bit_vector)
    requires
        m0 & m1 == 0,
        m0 & m2 == 0,
        m1 & m2 == 0,
        v0 & !m0 == 0,
        v1 & !m1 == 0,
        v2 & !m2 == 0,
    ensures
        put_field(put_field(put_field(q, m0, v0), m1, v1), m2, v2) & m0 == v0,
        put_field(put_field(put_field(q, m0, v0), m1, v1), m2, v2) & m1 == v1,
        put_field(put_field(put_field(q, m0, v0), m1, v1), m2, v2) & m2 == v2,
{
}

/// The quadlet whose bit `i` is set exactly when the `i`-th of the first `n` switches is on.
pub open spec fn flags_mask(flags: Seq<bool>, n: nat) -> u32
    decreases n,
{
    if n == 0 {
        0
    } else {
        or_flag(flags_mask(flags, (n - 1) as nat), 1u32 << ((n - 1) as u32), flags[n - 1])
    }
}

/// Setting the bit `k` if `on` sets bit `j` exactly when it was set or it is the bit `k`.
proof fn lemma_or_flag_bit(q: u32, k: u32, on: bool, j: u32)
    requires
        k < 32,
        j < 32,
    ensures
        has_flag(or_flag(q, 1u32 << k, on), 1u32 << j) == (has_flag(q, 1u32 << j) || (on && j
            == k)),
{
    reveal(flag_bits);
    if on {
        assert(((q | (1u32 << k)) & (1u32 << j) > 0) == ((q & (1u32 << j) > 0) || j == k))
            by (bit_vector)
            requires
                k < 32,
                j < 32,
        ;
    } else {
        assert(q | 0u32 == q) by (bit_vector);
    }
}

/// The switches are read back from the bits of their quadlet, and no other bit is set.
pub proof fn lemma_flags_mask(flags: Seq<bool>, n: nat, j: u32)
    requires
        n <= 32,
        n <= flags.len(),
        j < 32,
    ensures
        has_flag(flags_mask(flags, n), 1u32 << j) == (j < n && flags[j as int]),
    decreases n,
{
    if n > 0 {
        lemma_flags_mask(flags, (n - 1) as nat, j);
        lemma_or_flag_bit(flags_mask(flags, (n - 1) as nat), (n - 1) as u32, flags[n - 1], j);
    } else {
        assert(0u32 & (1u32 << j) == 0) by (bit_vector);
    }
}

/// The quadlet of bits for the first `n` switches.
pub fn flags_to_mask(flags: &[bool], n: usize) -> (r: u32)
    requires
        n <= 32,
        n <= flags@.len(),
    ensures
        r == flags_mask(flags@, n as nat),
{
    let mut val: u32 = 0;
    let mut i: usize = 0;
    while i < n
        invariant
            i <= n,
            n <= 32,
            n <= flags@.len(),
            val == flags_mask(flags@, i as nat),
        decreases n - i,
    {
        val = add_flag(val, 1u32 << (i as u32), flags[i]);
        i = i + 1;
    }
    val
}

/// Read the first `n` switches from the bits of the quadlet.
pub fn mask_to_flags(flags: &mut [bool], val: u32, n: usize)
    requires
        n <= 32,
        n <= old(flags)@.len(),
    ensures
        final(flags)@.len() == old(flags)@.len(),
        forall|i: int| 0 <= i < n ==> #[trigger] final(flags)@[i] == has_flag(val, 1u32 << (i as u32)),
        forall|i: int| n <= i < old(flags)@.len() ==> #[trigger] final(flags)@[i] == old(flags)@[i],
{
    let mut i: usize = 0;
    while i < n
        invariant
            i <= n,
            n <= 32,
            n <= old(flags)@.len(),
            flags@.len() == old(flags)@.len(),
            forall|k: int| 0 <= k < i ==> #[trigger] flags@[k] == has_flag(val, 1u32 << (k as u32)),
            forall|k: int| i <= k < old(flags)@.len() ==> #[trigger] flags@[k] == old(flags)@[k],
        decreases n - i,
    {
        flags[i] = check_flag(val, 1u32 << (i as u32));
        i = i + 1;
    }
}

/// The position of the lowest of the first `n` bits from `i` which is set, if any.
pub open spec fn lowest_flag_from(val: u32, i: nat, n: nat) -> Option<nat>
    decreases n - i,
{
    if i >= n {
        None
    } else if has_flag(val, 1u32 << (i as u32)) {
        Some(i)
    } else {
        lowest_flag_from(val, i + 1, n)
    }
}

/// The position of the lowest of the first `n` bits which is set, if any.
pub fn lowest_flag(val: u32, n: usize) -> (r: Option<usize>)
    requires
        n <= 32,
    ensures
        r matches Some(p) ==> lowest_flag_from(val, 0, n as nat) == Some(p as nat),
        r is None ==> lowest_flag_from(val, 0, n as nat) is None,
{
    let mut i: usize = 0;
    while i < n
        invariant
            i <= n,
            n <= 32,
            lowest_flag_from(val, 0, n as nat) == lowest_flag_from(val, i as nat, n as nat),
        decreases n - i,
    {
        if check_flag(val, 1u32 << (i as u32)) {
            return Some(i);
        }
        i = i + 1;
    }
    None
}

/// The lowest bit set in the quadlet of a single bit is that bit, if it is within the first `n`.
pub proof fn lemma_lowest_flag_single(p: nat, i: nat, n: nat)
    requires
        p < 32,
        i <= p,
        n <= 32,
    ensures
        lowest_flag_from(1u32 << (p as u32), i, n) == if p < n {
            Some(p)
        } else {
            None::<nat>
        },
    decreases n - i,
{
    if i < n {
        let pp = p as u32;
        let ii = i as u32;
        assert(((1u32 << pp) & (1u32 << ii) > 0) == (ii == pp)) by (bit_vector)
            requires
                pp < 32,
                ii < 32,
        ;
        if i < p {
            lemma_lowest_flag_single(p, i + 1, n);
        }
    }
}

/// No bit is set in zero.
pub proof fn lemma_lowest_flag_zero(i: nat, n: nat)
    requires
        n <= 32,
    ensures
        lowest_flag_from(0, i, n) is None,
    decreases n - i,
{
    if i < n {
        let ii = i as u32;
        assert(0u32 & (1u32 << ii) == 0) by (bit_vector);
        lemma_lowest_flag_zero(i + 1, n);
    }
}

} // verus!
