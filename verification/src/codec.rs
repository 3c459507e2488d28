//! Quadlet codecs shared by the protocol modules.

use vstd::prelude::*;

verus! {

/// The first (most significant) byte of a quadlet.
pub open spec fn byte0(v: u32) -> u8 {
    (v >> 24u32) as u8
}

/// The second byte of a quadlet.
pub open spec fn byte1(v: u32) -> u8 {
    (v >> 16u32) as u8
}

/// The third byte of a quadlet.
pub open spec fn byte2(v: u32) -> u8 {
    (v >> 8u32) as u8
}

/// The fourth (least significant) byte of a quadlet.
pub open spec fn byte3(v: u32) -> u8 {
    v as u8
}

/// The quadlet whose bytes are `b0`..`b3` from the most significant one.
pub open spec fn quad_from_bytes(b0: u8, b1: u8, b2: u8, b3: u8) -> u32 {
    ((b0 as u32) << 24u32) | ((b1 as u32) << 16u32) | ((b2 as u32) << 8u32) | (b3 as u32)
}

/// The quadlet stored in big-endian order at `pos`.
pub closed spec fn be_quad_at(s: Seq<u8>, pos: int) -> u32 {
    quad_from_bytes(s[pos], s[pos + 1], s[pos + 2], s[pos + 3])
}

/// The signed quadlet stored in big-endian order at `pos`.
pub open spec fn be_i32_at(s: Seq<u8>, pos: int) -> i32 {
    be_quad_at(s, pos) as i32
}

/// The boolean stored as big-endian quadlet at `pos`: any non-zero value stands for true.
pub open spec fn be_bool_at(s: Seq<u8>, pos: int) -> bool {
    be_quad_at(s, pos) > 0
}

/// The bytes after storing `v` in big-endian order at `pos`.
pub closed spec fn put_be_quad(s: Seq<u8>, pos: int, v: u32) -> Seq<u8> {
    Seq::new(
        s.len(),
        |i: int|
            if i == pos {
                byte0(v)
            } else if i == pos + 1 {
                byte1(v)
            } else if i == pos + 2 {
                byte2(v)
            } else if i == pos + 3 {
                byte3(v)
            } else {
                s[i]
            },
    )
}

/// The bytes after storing `v` in big-endian order at `pos`.
pub open spec fn put_be_i32(s: Seq<u8>, pos: int, v: i32) -> Seq<u8> {
    put_be_quad(s, pos, v as u32)
}

/// The bytes after storing `v` as big-endian quadlet (1 or 0) at `pos`.
pub open spec fn put_be_bool(s: Seq<u8>, pos: int, v: bool) -> Seq<u8> {
    put_be_quad(s, pos, if v { 1 } else { 0 })
}

/// The quadlet stored in little-endian order at `pos`.
pub open spec fn le_quad_at(s: Seq<u8>, pos: int) -> u32 {
    quad_from_bytes(s[pos + 3], s[pos + 2], s[pos + 1], s[pos])
}

/// The four bytes of `v` in little-endian order.
pub open spec fn le_bytes(v: u32) -> Seq<u8> {
    seq![byte3(v), byte2(v), byte1(v), byte0(v)]
}

/// Storing a quadlet and reading it back gives the quadlet.
pub broadcast proof fn lemma_quad_bytes_roundtrip(v: u32)
    ensures
        #[trigger] quad_from_bytes(byte0(v), byte1(v), byte2(v), byte3(v)) == v,
{
    assert(((((v >> 24u32) as u8) as u32) << 24u32) | ((((v >> 16u32) as u8) as u32) << 16u32)
        | ((((v >> 8u32) as u8) as u32) << 8u32) | ((v as u8) as u32) == v) by (bit_vector);
}

/// Reading a quadlet from bytes and splitting it gives the bytes back.
pub broadcast proof fn lemma_bytes_quad_roundtrip(b0: u8, b1: u8, b2: u8, b3: u8)
    ensures
        byte0(#[trigger] quad_from_bytes(b0, b1, b2, b3)) == b0,
        byte1(quad_from_bytes(b0, b1, b2, b3)) == b1,
        byte2(quad_from_bytes(b0, b1, b2, b3)) == b2,
        byte3(quad_from_bytes(b0, b1, b2, b3)) == b3,
{
    let q = quad_from_bytes(b0, b1, b2, b3);
    assert((((((b0 as u32) << 24u32) | ((b1 as u32) << 16u32) | ((b2 as u32) << 8u32) | (
    b3 as u32)) >> 24u32) as u8) == b0) by (bit_vector);
    assert((((((b0 as u32) << 24u32) | ((b1 as u32) << 16u32) | ((b2 as u32) << 8u32) | (
    b3 as u32)) >> 16u32) as u8) == b1) by (bit_vector);
    assert((((((b0 as u32) << 24u32) | ((b1 as u32) << 16u32) | ((b2 as u32) << 8u32) | (
    b3 as u32)) >> 8u32) as u8) == b2) by (bit_vector);
    assert(((((b0 as u32) << 24u32) | ((b1 as u32) << 16u32) | ((b2 as u32) << 8u32) | (
    b3 as u32)) as u8) == b3) by (bit_vector);
}

/// A signed quadlet survives the trip through its unsigned representation.
pub broadcast proof fn lemma_i32_u32_roundtrip(v: i32)
    ensures
        #[trigger] ((v as u32) as i32) == v,
{
    assert(((v as u32) as i32) == v) by (bit_vector);
}

/// Storing a quadlet keeps the length of bytes.
pub broadcast proof fn lemma_put_be_quad_len(s: Seq<u8>, pos: int, v: u32)
    ensures
        #[trigger] put_be_quad(s, pos, v).len() == s.len(),
{
}

/// Reading a quadlet after storing one: the stored one at the same position, the former one at
/// any position which does not overlap.
pub broadcast proof fn lemma_be_quad_at_put(s: Seq<u8>, pos: int, v: u32, other: int)
    requires
        0 <= pos,
        pos + 4 <= s.len(),
        0 <= other,
        other + 4 <= s.len(),
    ensures
        other == pos ==> #[trigger] be_quad_at(put_be_quad(s, pos, v), other) == v,
        other + 4 <= pos || pos + 4 <= other ==> be_quad_at(put_be_quad(s, pos, v), other)
            == be_quad_at(s, other),
{
    lemma_quad_bytes_roundtrip(v);
}

pub broadcast group group_quad_lemmas {
    lemma_i32_u32_roundtrip,
    lemma_put_be_quad_len,
    lemma_be_quad_at_put,
}

/// The quadlets which lie wholly in `lo..hi` are the same in both bytes.
pub open spec fn quads_agree(a: Seq<u8>, b: Seq<u8>, lo: int, hi: int) -> bool {
    forall|q: int|
        #![trigger be_quad_at(a, q)]
        #![trigger be_quad_at(b, q)]
        lo <= q && q + 4 <= hi ==> be_quad_at(a, q) == be_quad_at(b, q)
}

/// Agreement on quadlets carries over from one bytes to another through a third one, on any
/// range that lies in both ranges of agreement.
pub proof fn lemma_quads_agree_chain(
    a: Seq<u8>,
    b: Seq<u8>,
    c: Seq<u8>,
    lo1: int,
    hi1: int,
    lo2: int,
    hi2: int,
    lo: int,
    hi: int,
)
    requires
        quads_agree(a, b, lo1, hi1),
        quads_agree(b, c, lo2, hi2),
        lo1 <= lo,
        lo2 <= lo,
        hi <= hi1,
        hi <= hi2,
    ensures
        quads_agree(a, c, lo, hi),
{
    assert forall|q: int| lo <= q && q + 4 <= hi implies be_quad_at(a, q) == be_quad_at(c, q) by {
        assert(be_quad_at(a, q) == be_quad_at(b, q));
        assert(be_quad_at(b, q) == be_quad_at(c, q));
    }
}

/// Write `v` in big-endian order at `pos`.
pub fn write_be_quad(raw: &mut [u8], pos: usize, v: u32)
    requires
        pos + 4 <= old(raw)@.len(),
    ensures
        final(raw)@ == put_be_quad(old(raw)@, pos as int, v),
        final(raw)@.len() == old(raw)@.len(),
{
    raw[pos] = (v >> 24u32) as u8;
    raw[pos + 1] = (v >> 16u32) as u8;
    raw[pos + 2] = (v >> 8u32) as u8;
    raw[pos + 3] = v as u8;
    proof {
        assert(raw@ =~= put_be_quad(old(raw)@, pos as int, v));
    }
}

/// Read the big-endian quadlet at `pos`.
pub fn read_be_quad(raw: &[u8], pos: usize) -> (v: u32)
    requires
        pos + 4 <= raw@.len(),
    ensures
        v == be_quad_at(raw@, pos as int),
{
    ((raw[pos] as u32) << 24u32) | ((raw[pos + 1] as u32) << 16u32) | ((raw[pos + 2] as u32)
        << 8u32) | (raw[pos + 3] as u32)
}

/// Write a signed value in big-endian order at `pos`.
pub fn write_be_i32(raw: &mut [u8], pos: usize, v: i32)
    requires
        pos + 4 <= old(raw)@.len(),
    ensures
        final(raw)@ == put_be_i32(old(raw)@, pos as int, v),
        final(raw)@.len() == old(raw)@.len(),
{
    write_be_quad(raw, pos, v as u32)
}

/// Read the signed big-endian quadlet at `pos`.
pub fn read_be_i32(raw: &[u8], pos: usize) -> (v: i32)
    requires
        pos + 4 <= raw@.len(),
    ensures
        v == be_i32_at(raw@, pos as int),
{
    read_be_quad(raw, pos) as i32
}

/// Write a boolean as big-endian quadlet (1 or 0) at `pos`.
pub fn write_be_bool(raw: &mut [u8], pos: usize, v: bool)
    requires
        pos + 4 <= old(raw)@.len(),
    ensures
        final(raw)@ == put_be_bool(old(raw)@, pos as int, v),
        final(raw)@.len() == old(raw)@.len(),
{
    write_be_quad(raw, pos, if v { 1 } else { 0 })
}

/// Read a boolean from the big-endian quadlet at `pos`.
pub fn read_be_bool(raw: &[u8], pos: usize) -> (v: bool)
    requires
        pos + 4 <= raw@.len(),
    ensures
        v == be_bool_at(raw@, pos as int),
{
    read_be_quad(raw, pos) > 0
}

/// Reading back what was written at the same position.
pub proof fn lemma_put_get_same(s: Seq<u8>, pos: int, v: u32)
    requires
        0 <= pos,
        pos + 4 <= s.len(),
    ensures
        be_quad_at(put_be_quad(s, pos, v), pos) == v,
        put_be_quad(s, pos, v).len() == s.len(),
{
    lemma_be_quad_at_put(s, pos, v, pos);
}

/// An entry of a table whose position in the table is its wire value.
pub trait TableEntry: Copy {
    /// Whether two entries are the same.
    fn same(&self, other: &Self) -> (r: bool)
        ensures
            r == (*self == *other),
    ;
}

/// `idx` is the first position of `e` in `table`.
pub open spec fn is_first_position<T>(table: Seq<T>, e: T, idx: int) -> bool {
    &&& 0 <= idx < table.len()
    &&& table[idx] == e
    &&& forall|j: int| 0 <= j < idx ==> table[j] != e
}

/// The first position of `e` in `table`.
pub open spec fn position_of<T>(table: Seq<T>, e: T) -> int {
    choose|i: int| is_first_position(table, e, i)
}

/// The first position is unique.
pub proof fn lemma_first_position_unique<T>(table: Seq<T>, e: T, i: int)
    requires
        is_first_position(table, e, i),
    ensures
        position_of(table, e) == i,
{
    let j = position_of(table, e);
    assert(is_first_position(table, e, j));
    if j < i {
        assert(table[j] != e);
    } else if i < j {
        assert(table[i] != e);
    }
}

/// An entry which is in the table has its first position.
pub proof fn lemma_position_of_contained<T>(table: Seq<T>, e: T)
    requires
        table.contains(e),
    ensures
        is_first_position(table, e, position_of(table, e)),
    decreases table.len(),
{
    if table[0] == e {
        assert(is_first_position(table, e, 0));
        lemma_first_position_unique(table, e, 0);
    } else {
        let rest = table.drop_first();
        let k = choose|k: int| 0 <= k < table.len() && table[k] == e;
        assert(rest[k - 1] == e);
        lemma_position_of_contained(rest, e);
        let j = position_of(rest, e);
        assert(is_first_position(table, e, j + 1)) by {
            assert forall|m: int| 0 <= m < j + 1 implies table[m] != e by {
                if m > 0 {
                    assert(table[m] == rest[m - 1]);
                }
            }
        }
        lemma_first_position_unique(table, e, j + 1);
    }
}

/// Find the first position of `e` in `table`.
pub fn find_position<T: TableEntry>(table: &[T], e: &T) -> (r: Option<usize>)
    ensures
        match r {
            Some(i) => is_first_position(table@, *e, i as int),
            None => !table@.contains(*e),
        },
{
    let mut i: usize = 0;
    while i < table.len()
        invariant
            i <= table@.len(),
            forall|j: int| 0 <= j < i ==> table@[j] != *e,
        decreases table@.len() - i,
    {
        if table[i].same(e) {
            return Some(i);
        }
        i = i + 1;
    }
    None
}

/// The message of error for a value which has no position in a table.
///
/// Formatted by `std::format!`; the contract claims nothing of the text.
#[verifier::external_body]
fn unsupported_entry_message(label: &str) -> String {
    format!("{} is not supported", label)
}

/// The message of error for a position out of a table.
///
/// Formatted by `std::format!`; the contract claims nothing of the text.
#[verifier::external_body]
fn missing_entry_message(label: &str, pos: u32) -> String {
    format!("{} not found for index {}", label, pos)
}

/// Write the position of `e` in `table` as big-endian quadlet at `pos`.
pub fn serialize_position<T: TableEntry>(
    table: &[T],
    e: &T,
    raw: &mut [u8],
    pos: usize,
    label: &str,
) -> (r: Result<(), String>)
    requires
        pos + 4 <= old(raw)@.len(),
    ensures
        r.is_ok() <==> table@.contains(*e),
        r.is_ok() ==> final(raw)@ == put_be_quad(
            old(raw)@,
            pos as int,
            position_of(table@, *e) as u32,
        ),
        r.is_err() ==> final(raw)@ == old(raw)@,
        final(raw)@.len() == old(raw)@.len(),
{
    match find_position(table, e) {
        Some(i) => {
            proof {
                lemma_first_position_unique(table@, *e, i as int);
            }
            write_be_quad(raw, pos, i as u32);
            Ok(())
        },
        None => Err(unsupported_entry_message(label)),
    }
}

/// Read the big-endian quadlet at `pos` as position in `table`.
pub fn deserialize_position<T: TableEntry>(
    table: &[T],
    e: &mut T,
    raw: &[u8],
    pos: usize,
    label: &str,
) -> (r: Result<(), String>)
    requires
        pos + 4 <= raw@.len(),
    ensures
        r.is_ok() <==> (be_quad_at(raw@, pos as int) as int) < table@.len(),
        r.is_ok() ==> *final(e) == table@[be_quad_at(raw@, pos as int) as int],
        r.is_err() ==> *final(e) == *old(e),
{
    let val = read_be_quad(raw, pos);
    if (val as usize) < table.len() {
        *e = table[val as usize];
        Ok(())
    } else {
        Err(missing_entry_message(label, val))
    }
}

/// The position written for an entry is read back as the entry.
pub proof fn lemma_position_roundtrip<T>(table: Seq<T>, e: T, s: Seq<u8>, pos: int)
    requires
        table.contains(e),
        table.len() <= u32::MAX,
        0 <= pos,
        pos + 4 <= s.len(),
    ensures
        (be_quad_at(put_be_quad(s, pos, position_of(table, e) as u32), pos) as int)
            < table.len(),
        table[be_quad_at(put_be_quad(s, pos, position_of(table, e) as u32), pos) as int] == e,
{
    lemma_position_of_contained(table, e);
    lemma_put_get_same(s, pos, position_of(table, e) as u32);
}

/// The byte at `k` (0 is the least significant) of a quadlet.
pub open spec fn le_byte(v: u32, k: int) -> u8 {
    if k == 0 {
        byte3(v)
    } else if k == 1 {
        byte2(v)
    } else if k == 2 {
        byte1(v)
    } else {
        byte0(v)
    }
}

/// The quadlets laid out in little-endian order one after another.
pub open spec fn le_quads_bytes(qs: Seq<u32>) -> Seq<u8> {
    Seq::new(4 * qs.len(), |k: int| le_byte(qs[k / 4], k % 4))
}

/// Each quadlet laid out in little-endian order is read back at its place.
pub proof fn lemma_le_quads_bytes(qs: Seq<u32>, i: int)
    requires
        0 <= i < qs.len(),
    ensures
        le_quads_bytes(qs).len() == 4 * qs.len(),
        le_quad_at(le_quads_bytes(qs), 4 * i) == qs[i],
{
    let s = le_quads_bytes(qs);
    assert((4 * i) / 4 == i && (4 * i) % 4 == 0);
    assert((4 * i + 1) / 4 == i && (4 * i + 1) % 4 == 1);
    assert((4 * i + 2) / 4 == i && (4 * i + 2) % 4 == 2);
    assert((4 * i + 3) / 4 == i && (4 * i + 3) % 4 == 3);
    lemma_quad_bytes_roundtrip(qs[i]);
}

/// Lay out the quadlets in little-endian order one after another.
pub fn quads_to_le_bytes(quads: &[u32]) -> (r: Vec<u8>)
    requires
        4 * quads@.len() <= usize::MAX,
    ensures
        r@ == le_quads_bytes(quads@),
{
    let mut r: Vec<u8> = Vec::new();
    let mut i: usize = 0;
    while i < quads.len()
        invariant
            i <= quads@.len(),
            r@.len() == 4 * i,
            forall|k: int| 0 <= k < 4 * i ==> #[trigger] r@[k] == le_byte(quads@[k / 4], k % 4),
        decreases quads@.len() - i,
    {
        let v = quads[i];
        r.push(v as u8);
        r.push((v >> 8u32) as u8);
        r.push((v >> 16u32) as u8);
        r.push((v >> 24u32) as u8);
        proof {
            assert forall|k: int| 0 <= k < 4 * (i + 1) implies #[trigger] r@[k] == le_byte(
                quads@[k / 4],
                k % 4,
            ) by {
                if k >= 4 * i {
                    assert(k / 4 == i as int);
                }
            }
        }
        i = i + 1;
    }
    proof {
        assert(r@ =~= le_quads_bytes(quads@));
    }
    r
}

/// Read the little-endian quadlet at `pos`.
pub fn read_le_quad(raw: &[u8], pos: usize) -> (v: u32)
    requires
        pos + 4 <= raw@.len(),
    ensures
        v == le_quad_at(raw@, pos as int),
{
    let b3 = raw[pos] as u32;
    let b2 = raw[pos + 1] as u32;
    let b1 = raw[pos + 2] as u32;
    let b0 = raw[pos + 3] as u32;
    (b0 << 24u32) | (b1 << 16u32) | (b2 << 8u32) | b3
}

/// The bytes after storing the signed values in big-endian order from `pos`, one quadlet each.
pub open spec fn put_be_i32s(s: Seq<u8>, pos: int, vals: Seq<i32>) -> Seq<u8>
    decreases vals.len(),
{
    if vals.len() == 0 {
        s
    } else {
        put_be_i32(put_be_i32s(s, pos, vals.drop_last()), pos + 4 * (vals.len() - 1), vals.last())
    }
}

/// Storing signed values keeps the length of bytes.
pub proof fn lemma_put_be_i32s_len(s: Seq<u8>, pos: int, vals: Seq<i32>)
    ensures
        put_be_i32s(s, pos, vals).len() == s.len(),
    decreases vals.len(),
{
    broadcast use group_quad_lemmas;
    if vals.len() > 0 {
        lemma_put_be_i32s_len(s, pos, vals.drop_last());
    }
}

/// After storing signed values from `pos`, each of them is read back at its place, and the
/// quadlets outside them are as they were.
pub proof fn lemma_put_be_i32s_read(s: Seq<u8>, pos: int, vals: Seq<i32>, q: int)
    requires
        0 <= pos,
        pos + 4 * vals.len() <= s.len(),
        0 <= q,
        q + 4 <= s.len(),
    ensures
        put_be_i32s(s, pos, vals).len() == s.len(),
        forall|k: int|
            0 <= k < vals.len() && q == pos + 4 * k ==> be_i32_at(put_be_i32s(s, pos, vals), q)
                == #[trigger] vals[k],
        q + 4 <= pos || pos + 4 * vals.len() <= q ==> be_quad_at(put_be_i32s(s, pos, vals), q)
            == be_quad_at(s, q),
    decreases vals.len(),
{
    broadcast use group_quad_lemmas;
    lemma_put_be_i32s_len(s, pos, vals);
    if vals.len() > 0 {
        let prev = vals.drop_last();
        let n = vals.len() as int;
        lemma_put_be_i32s_read(s, pos, prev, q);
        lemma_put_be_i32s_len(s, pos, prev);
        let t = put_be_i32s(s, pos, prev);
        lemma_be_quad_at_put(t, pos + 4 * (n - 1), vals.last() as u32, q);
        assert forall|k: int| 0 <= k < vals.len() && q == pos + 4 * k implies be_i32_at(
            put_be_i32s(s, pos, vals),
            q,
        ) == #[trigger] vals[k] by {
            if k < n - 1 {
                assert(prev[k] == vals[k]);
            }
        }
    }
}

/// Write the first `count` signed values in big-endian order from `pos`, one quadlet each.
pub fn write_be_i32s(raw: &mut [u8], pos: usize, vals: &[i32], count: usize)
    requires
        count <= vals@.len(),
        pos + 4 * count <= old(raw)@.len(),
    ensures
        final(raw)@ == put_be_i32s(old(raw)@, pos as int, vals@.take(count as int)),
        final(raw)@.len() == old(raw)@.len(),
{
    let len = raw.len();
    let mut i: usize = 0;
    while i < count
        invariant
            i <= count,
            count <= vals@.len(),
            len == raw@.len(),
            raw@.len() == old(raw)@.len(),
            pos + 4 * count <= raw@.len(),
            raw@ == put_be_i32s(old(raw)@, pos as int, vals@.take(i as int)),
        decreases count - i,
    {
        write_be_i32(raw, pos + 4 * i, vals[i]);
        proof {
            assert(vals@.take(i + 1).drop_last() =~= vals@.take(i as int));
        }
        i = i + 1;
    }
}

/// Read signed values in big-endian order from `pos` into the first `count` elements.
pub fn read_be_i32s(vals: &mut [i32], raw: &[u8], pos: usize, count: usize)
    requires
        count <= old(vals)@.len(),
        pos + 4 * count <= raw@.len(),
    ensures
        final(vals)@.len() == old(vals)@.len(),
        forall|i: int| 0 <= i < count ==> #[trigger] final(vals)@[i] == be_i32_at(raw@, pos + 4 * i),
        forall|i: int| count <= i < old(vals)@.len() ==> #[trigger] final(vals)@[i] == old(vals)@[i],
{
    let len = raw.len();
    let mut i: usize = 0;
    while i < count
        invariant
            i <= count,
            count <= vals@.len(),
            vals@.len() == old(vals)@.len(),
            len == raw@.len(),
            pos + 4 * count <= raw@.len(),
            forall|j: int| 0 <= j < i ==> #[trigger] vals@[j] == be_i32_at(raw@, pos + 4 * j),
            forall|j: int| i <= j < old(vals)@.len() ==> #[trigger] vals@[j] == old(vals)@[j],
        decreases count - i,
    {
        vals[i] = read_be_i32(raw, pos + 4 * i);
        i = i + 1;
    }
}

/// Build a vector of zeros.
pub fn zeroed_i32s(n: usize) -> (r: Vec<i32>)
    ensures
        r@ == Seq::new(n as nat, |i: int| 0i32),
{
    let mut r: Vec<i32> = Vec::new();
    let mut i: usize = 0;
    while i < n
        invariant
            i <= n,
            r@ == Seq::new(i as nat, |k: int| 0i32),
        decreases n - i,
    {
        r.push(0);
        i = i + 1;
        proof {
            assert(r@ =~= Seq::new(i as nat, |k: int| 0i32));
        }
    }
    r
}

/// Build a vector of switches which are off.
pub fn cleared_flags(n: usize) -> (r: Vec<bool>)
    ensures
        r@ == Seq::new(n as nat, |i: int| false),
{
    let mut r: Vec<bool> = Vec::new();
    let mut i: usize = 0;
    while i < n
        invariant
            i <= n,
            r@ == Seq::new(i as nat, |k: int| false),
        decreases n - i,
    {
        r.push(false);
        i = i + 1;
        proof {
            assert(r@ =~= Seq::new(i as nat, |k: int| false));
        }
    }
    r
}

/// Build a vector holding `n` copies of the value.
pub fn filled<T: Copy>(n: usize, v: T) -> (r: Vec<T>)
    ensures
        r@ == Seq::new(n as nat, |i: int| v),
{
    let mut r: Vec<T> = Vec::new();
    let mut i: usize = 0;
    while i < n
        invariant
            i <= n,
            r@ == Seq::new(i as nat, |k: int| v),
        decreases n - i,
    {
        r.push(v);
        i = i + 1;
        proof {
            assert(r@ =~= Seq::new(i as nat, |k: int| v));
        }
    }
    r
}

/// Append the values of the slice to the vector.
pub fn push_all<T: Copy>(r: &mut Vec<T>, s: &[T])
    ensures
        final(r)@ == old(r)@ + s@,
{
    let ghost start = r@;
    let mut i: usize = 0;
    while i < s.len()
        invariant
            i <= s@.len(),
            r@ == start + s@.take(i as int),
        decreases s@.len() - i,
    {
        r.push(s[i]);
        i = i + 1;
        proof {
            assert(r@ =~= start + s@.take(i as int));
        }
    }
    proof {
        assert(s@.take(s@.len() as int) =~= s@);
    }
}

} // verus!
