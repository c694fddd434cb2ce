use vstd::prelude::*;

use crate::config::{low_mask, valid_layout, Field, FieldKind};
use crate::generator::VeigoIdParts;

verus! {

/// Position in the layout of the field of kind `k` (0 is the most significant).
pub open spec fn index_of(l: Seq<Field>, k: FieldKind) -> int {
    if l[0].kind() == k {
        0
    } else if l[1].kind() == k {
        1
    } else if l[2].kind() == k {
        2
    } else {
        3
    }
}

/// Sum of the widths of the fields after position `i`, that is, below it.
pub open spec fn offset_below(l: Seq<Field>, i: int) -> nat
    decreases 3 - i,
{
    if i >= 3 {
        0
    } else {
        l[i + 1].width() + offset_below(l, i + 1)
    }
}

/// How far the field of kind `k` is shifted left in a packed identifier.
pub open spec fn shift_of(l: Seq<Field>, k: FieldKind) -> nat {
    offset_below(l, index_of(l, k))
}

/// The largest value the field of kind `k` can hold; also its mask.
pub open spec fn max_of(l: Seq<Field>, k: FieldKind) -> u128 {
    l[index_of(l, k)].max_spec()
}

/// The value that `p` holds for kind `k`.
pub open spec fn part(p: VeigoIdParts, k: FieldKind) -> u128 {
    match k {
        FieldKind::Timestamp => p.timestamp,
        FieldKind::Context => p.context,
        FieldKind::Counter => p.counter,
        FieldKind::NodeId => p.node_id,
    }
}

/// The bits that the field of kind `k` contributes to the packed identifier.
pub open spec fn placed(l: Seq<Field>, p: VeigoIdParts, k: FieldKind) -> u128 {
    part(p, k) << (shift_of(l, k) as u128)
}

/// All four fields packed into one integer.
pub open spec fn pack_with(l: Seq<Field>, p: VeigoIdParts) -> u128 {
    placed(l, p, FieldKind::Timestamp) | placed(l, p, FieldKind::Context) | placed(
        l,
        p,
        FieldKind::NodeId,
    ) | placed(l, p, FieldKind::Counter)
}

/// The field of kind `k` read back out of `raw`.
pub open spec fn extract(l: Seq<Field>, raw: u128, k: FieldKind) -> u128 {
    (raw >> (shift_of(l, k) as u128)) & max_of(l, k)
}

/// A packed integer split into its four fields.
pub open spec fn unpack_with(l: Seq<Field>, raw: u128) -> VeigoIdParts {
    VeigoIdParts {
        timestamp: extract(l, raw, FieldKind::Timestamp),
        context: extract(l, raw, FieldKind::Context),
        counter: extract(l, raw, FieldKind::Counter),
        node_id: extract(l, raw, FieldKind::NodeId),
    }
}

/// Every field of `p` fits in its configured width.
pub open spec fn fits(l: Seq<Field>, p: VeigoIdParts) -> bool {
    &&& p.timestamp <= max_of(l, FieldKind::Timestamp)
    &&& p.context <= max_of(l, FieldKind::Context)
    &&& p.counter <= max_of(l, FieldKind::Counter)
    &&& p.node_id <= max_of(l, FieldKind::NodeId)
}

proof fn lemma_own_field(a: u128, s: u128, b: u128)
    by (bit_vector)
    requires
        b <= 127,
        s + b <= 127,
        a <= low_mask(b),
    ensures
        ((a << s) >> s) & low_mask(b) == a,
{
}

proof fn lemma_higher_field(y: u128, t: u128, c: u128, s: u128, b: u128)
    by (bit_vector)
    requires
        c <= 127,
        b <= 127,
        t + c <= 127,
        s + b <= t,
        y <= low_mask(c),
    ensures
        ((y << t) >> s) & low_mask(b) == 0,
{
}

proof fn lemma_lower_field(y: u128, t: u128, c: u128, s: u128, m: u128)
    by (bit_vector)
    requires
        c <= 127,
        t + c <= s,
        s <= 127,
        y <= low_mask(c),
    ensures
        ((y << t) >> s) & m == 0,
{
}

proof fn lemma_shr_or(x: u128, y: u128, s: u128)
    by (bit_vector)
    ensures
        (x | y) >> s == (x >> s) | (y >> s),
{
}

proof fn lemma_and_or(x: u128, y: u128, m: u128)
    by (bit_vector)
    ensures
        (x | y) & m == (x & m) | (y & m),
{
}

proof fn lemma_or_zero(a: u128)
    by (bit_vector)
    ensures
        a | 0 == a,
        0 | a == a,
{
}

/// In a valid layout each kind sits at its own position, and the fields do not overlap.
pub proof fn lemma_layout_positions(l: Seq<Field>)
    requires
        valid_layout(l),
    ensures
        forall|k: FieldKind| #[trigger] l[index_of(l, k)].kind() == k,
        forall|k: FieldKind| 0 <= #[trigger] index_of(l, k) < 4,
        forall|i: int| 0 <= i < 4 ==> index_of(l, #[trigger] l[i].kind()) == i,
        forall|i: int| 0 <= i < 4 ==> #[trigger] offset_below(l, i) + l[i].width() <= 127,
        forall|i: int, j: int|
            0 <= i < j < 4 ==> #[trigger] offset_below(l, j) + l[j].width() <= #[trigger] offset_below(
                l,
                i,
            ),
{
    reveal_with_fuel(offset_below, 4);
}

/// Reading field `k` back out of the bits that field `k2` contributes.
proof fn lemma_extract_placed(l: Seq<Field>, p: VeigoIdParts, k: FieldKind, k2: FieldKind)
    requires
        valid_layout(l),
        fits(l, p),
    ensures
        (placed(l, p, k2) >> (shift_of(l, k) as u128)) & max_of(l, k) == if k == k2 {
            part(p, k)
        } else {
            0
        },
{
    lemma_layout_positions(l);
    let i = index_of(l, k);
    let j = index_of(l, k2);
    let s = shift_of(l, k) as u128;
    let b = l[i].width() as u128;
    let t = shift_of(l, k2) as u128;
    let c = l[j].width() as u128;
    let y = part(p, k2);
    assert(l[i].kind() == k);
    assert(l[j].kind() == k2);
    assert(offset_below(l, i) + l[i].width() <= 127);
    assert(offset_below(l, j) + l[j].width() <= 127);
    assert(max_of(l, k) == low_mask(b));
    assert(y <= low_mask(c)) by {
        assert(max_of(l, k2) == low_mask(c));
        match k2 {
            FieldKind::Timestamp => {},
            FieldKind::Context => {},
            FieldKind::Counter => {},
            FieldKind::NodeId => {},
        }
    }
    if k == k2 {
        lemma_own_field(y, s, b);
    } else if i < j {
        assert(offset_below(l, j) + l[j].width() <= offset_below(l, i));
        lemma_lower_field(y, t, c, s, low_mask(b));
    } else {
        assert(j < i);
        assert(offset_below(l, i) + l[i].width() <= offset_below(l, j));
        lemma_higher_field(y, t, c, s, b);
    }
}

/// Field `k` read back out of a packed identifier is the value that was packed.
proof fn lemma_extract_pack(l: Seq<Field>, p: VeigoIdParts, k: FieldKind)
    requires
        valid_layout(l),
        fits(l, p),
    ensures
        extract(l, pack_with(l, p), k) == part(p, k),
{
    let s = shift_of(l, k) as u128;
    let m = max_of(l, k);
    let a = placed(l, p, FieldKind::Timestamp);
    let b = placed(l, p, FieldKind::Context);
    let c = placed(l, p, FieldKind::NodeId);
    let d = placed(l, p, FieldKind::Counter);
    lemma_shr_or(a | b | c, d, s);
    lemma_shr_or(a | b, c, s);
    lemma_shr_or(a, b, s);
    lemma_and_or((a >> s) | (b >> s) | (c >> s), d >> s, m);
    lemma_and_or((a >> s) | (b >> s), c >> s, m);
    lemma_and_or(a >> s, b >> s, m);
    lemma_extract_placed(l, p, k, FieldKind::Timestamp);
    lemma_extract_placed(l, p, k, FieldKind::Context);
    lemma_extract_placed(l, p, k, FieldKind::NodeId);
    lemma_extract_placed(l, p, k, FieldKind::Counter);
    lemma_or_zero(part(p, k));
    lemma_or_zero(0);
}

/// Decoding undoes packing: for every valid layout and all field values within their
/// widths, splitting the packed integer gives back exactly the values that went in.
pub proof fn lemma_round_trip(l: Seq<Field>, p: VeigoIdParts)
    requires
        valid_layout(l),
        fits(l, p),
    ensures
        unpack_with(l, pack_with(l, p)) == p,
{
    lemma_extract_pack(l, p, FieldKind::Timestamp);
    lemma_extract_pack(l, p, FieldKind::Context);
    lemma_extract_pack(l, p, FieldKind::Counter);
    lemma_extract_pack(l, p, FieldKind::NodeId);
}

/// Distinct field values that fit give distinct identifiers: packing loses nothing.
pub proof fn lemma_pack_injective(l: Seq<Field>, p: VeigoIdParts, q: VeigoIdParts)
    requires
        valid_layout(l),
        fits(l, p),
        fits(l, q),
        p != q,
    ensures
        pack_with(l, p) != pack_with(l, q),
{
    lemma_round_trip(l, p);
    lemma_round_trip(l, q);
}

} // verus!
