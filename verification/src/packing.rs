//! How the fields of a record or a tuple lie within it.
//!
//! A descriptor records the offsets and the total size that the platform
//! chose; it does not choose them. Three kinds of layout are told apart here,
//! each narrower than the one before:
//!
//! - *disjoint*: every field lies within the total size and no two fields
//!   overlap, in whatever order they lie in memory;
//! - *sequential*: the fields lie in declaration order, none beginning
//!   before the one before it ends;
//! - *packed*: the fields lie in declaration order without any gap.
//!
//! The lemmas say what each kind implies for offsets and sizes.

use crate::descriptor::TypeView;
use vstd::prelude::*;

verus! {

/// The first `count` of `sizes`, added up.
pub open spec fn sizes_sum(sizes: Seq<nat>, count: int) -> nat
    decreases count,
{
    if count <= 0 {
        0
    } else {
        sizes_sum(sizes, count - 1) + sizes[count - 1]
    }
}

/// The byte after the last byte of field `i`.
pub open spec fn end_at(offsets: Seq<nat>, sizes: Seq<nat>, i: int) -> nat {
    offsets[i] + sizes[i]
}

/// Every field lies within `total` bytes, and no two fields overlap.
pub open spec fn layout_is_disjoint(offsets: Seq<nat>, sizes: Seq<nat>, total: nat) -> bool {
    &&& offsets.len() == sizes.len()
    &&& forall|i: int| 0 <= i < offsets.len() ==> #[trigger] end_at(offsets, sizes, i) <= total
    &&& forall|i: int, j: int|
        #![trigger offsets[i], offsets[j]]
        0 <= i < j < offsets.len() ==> end_at(offsets, sizes, i) <= offsets[j] || end_at(
            offsets,
            sizes,
            j,
        ) <= offsets[i]
}

/// No field begins before the one declared before it ends, and the last
/// one ends within `total` bytes.
pub open spec fn layout_is_sequential(offsets: Seq<nat>, sizes: Seq<nat>, total: nat) -> bool {
    &&& offsets.len() == sizes.len()
    &&& forall|i: int|
        0 < i < offsets.len() ==> end_at(offsets, sizes, i - 1) <= #[trigger] offsets[i]
    &&& offsets.len() > 0 ==> end_at(offsets, sizes, offsets.len() - 1) <= total
}

/// The first field lies at the start, each other one begins where the one
/// declared before it ends, and the last one ends after `total` bytes.
pub open spec fn layout_is_packed(offsets: Seq<nat>, sizes: Seq<nat>, total: nat) -> bool {
    &&& offsets.len() == sizes.len()
    &&& offsets.len() > 0 ==> offsets[0] == 0
    &&& forall|i: int|
        0 < i < offsets.len() ==> #[trigger] offsets[i] == end_at(offsets, sizes, i - 1)
    &&& total == if offsets.len() == 0 {
        0
    } else {
        end_at(offsets, sizes, offsets.len() - 1)
    }
}

impl TypeView {
    /// A record or a tuple whose fields all lie within its total size, no
    /// two of them overlapping.
    pub open spec fn is_disjoint(self) -> bool {
        self.has_fields() && layout_is_disjoint(
            self.field_offsets(),
            self.field_sizes(),
            self.size(),
        )
    }

    /// A record or a tuple whose fields lie in declaration order without
    /// overlap, within its total size.
    pub open spec fn is_sequential(self) -> bool {
        self.has_fields() && layout_is_sequential(
            self.field_offsets(),
            self.field_sizes(),
            self.size(),
        )
    }

    /// A record or a tuple whose fields lie in declaration order without a
    /// gap, from its start to its end.
    pub open spec fn is_packed(self) -> bool {
        self.has_fields() && layout_is_packed(
            self.field_offsets(),
            self.field_sizes(),
            self.size(),
        )
    }
}

/// In a packed layout each field lies where the sizes of the fields before
/// it add up to.
pub proof fn lemma_packed_offset(offsets: Seq<nat>, sizes: Seq<nat>, total: nat, i: int)
    requires
        layout_is_packed(offsets, sizes, total),
        0 <= i < offsets.len(),
    ensures
        offsets[i] == sizes_sum(sizes, i),
        end_at(offsets, sizes, i) == sizes_sum(sizes, i + 1),
    decreases i,
{
    if i > 0 {
        lemma_packed_offset(offsets, sizes, total, i - 1);
    }
}

/// In a sequential layout no field lies before the place where the sizes of
/// the fields before it add up to.
pub proof fn lemma_sequential_offset(offsets: Seq<nat>, sizes: Seq<nat>, total: nat, i: int)
    requires
        layout_is_sequential(offsets, sizes, total),
        0 <= i < offsets.len(),
    ensures
        offsets[i] >= sizes_sum(sizes, i),
    decreases i,
{
    if i > 0 {
        lemma_sequential_offset(offsets, sizes, total, i - 1);
    }
}

/// In a sequential layout a field ends before every later one begins, and
/// every field ends within the total size.
pub proof fn lemma_sequential_ends(offsets: Seq<nat>, sizes: Seq<nat>, total: nat, i: int, j: int)
    requires
        layout_is_sequential(offsets, sizes, total),
        0 <= i <= j < offsets.len(),
    ensures
        i < j ==> end_at(offsets, sizes, i) <= offsets[j],
        end_at(offsets, sizes, i) <= end_at(offsets, sizes, j),
        end_at(offsets, sizes, i) <= total,
    decreases offsets.len() - i,
{
    if i + 1 < offsets.len() {
        lemma_sequential_ends(offsets, sizes, total, i + 1, if i < j {
            j
        } else {
            i + 1
        });
    }
}

/// A packed layout is sequential.
pub proof fn lemma_packed_is_sequential(offsets: Seq<nat>, sizes: Seq<nat>, total: nat)
    requires
        layout_is_packed(offsets, sizes, total),
    ensures
        layout_is_sequential(offsets, sizes, total),
{
}

/// A sequential layout is disjoint.
pub proof fn lemma_sequential_is_disjoint(offsets: Seq<nat>, sizes: Seq<nat>, total: nat)
    requires
        layout_is_sequential(offsets, sizes, total),
    ensures
        layout_is_disjoint(offsets, sizes, total),
{
    assert forall|i: int| 0 <= i < offsets.len() implies #[trigger] end_at(offsets, sizes, i)
        <= total by {
        lemma_sequential_ends(offsets, sizes, total, i, i);
    }
    assert forall|i: int, j: int|
        #![trigger offsets[i], offsets[j]]
        0 <= i < j < offsets.len() implies end_at(offsets, sizes, i) <= offsets[j] || end_at(
        offsets,
        sizes,
        j,
    ) <= offsets[i] by {
        lemma_sequential_ends(offsets, sizes, total, i, j);
    }
}

proof fn lemma_sum_of_prefix(sizes: Seq<nat>, shorter: Seq<nat>, count: int)
    requires
        0 <= count <= shorter.len() <= sizes.len(),
        forall|i: int| 0 <= i < shorter.len() ==> shorter[i] == sizes[i],
    ensures
        sizes_sum(shorter, count) == sizes_sum(sizes, count),
    decreases count,
{
    if count > 0 {
        lemma_sum_of_prefix(sizes, shorter, count - 1);
    }
}

/// Fields that do not overlap and lie within the total size take no more
/// bytes together than the total size, in whatever order they lie.
pub proof fn lemma_disjoint_fields_fit(offsets: Seq<nat>, sizes: Seq<nat>, total: nat)
    requires
        layout_is_disjoint(offsets, sizes, total),
    ensures
        sizes_sum(sizes, sizes.len() as int) <= total,
    decreases offsets.len(),
{
    let count = offsets.len() as int;
    if count > 0 {
        // Take the last declared field out, and move every field that lies
        // after it down by its width: what is left is disjoint within the
        // total size less that width.
        let last = count - 1;
        let width = sizes[last];
        let stop = end_at(offsets, sizes, last);
        let rest_offsets = Seq::new(
            last as nat,
            |j: int|
                if offsets[j] >= stop {
                    (offsets[j] - width) as nat
                } else {
                    offsets[j]
                },
        );
        let rest_sizes = Seq::new(last as nat, |j: int| sizes[j]);
        let rest_total = (total - width) as nat;
        assert forall|j: int| 0 <= j < last implies #[trigger] end_at(
            rest_offsets,
            rest_sizes,
            j,
        ) <= rest_total by {
            assert(end_at(offsets, sizes, j) <= offsets[last] || stop <= offsets[j]);
        }
        assert forall|j: int, k: int|
            #![trigger rest_offsets[j], rest_offsets[k]]
            0 <= j < k < last implies end_at(rest_offsets, rest_sizes, j) <= rest_offsets[k]
            || end_at(rest_offsets, rest_sizes, k) <= rest_offsets[j] by {
            // either both lie on one side of the field taken out, and keep
            // their distance, or the one lies before it and the other after
            assert(end_at(offsets, sizes, j) <= offsets[k] || end_at(offsets, sizes, k)
                <= offsets[j]);
            assert(end_at(offsets, sizes, j) <= offsets[last] || stop <= offsets[j]);
            assert(end_at(offsets, sizes, k) <= offsets[last] || stop <= offsets[k]);
        }
        lemma_disjoint_fields_fit(rest_offsets, rest_sizes, rest_total);
        lemma_sum_of_prefix(sizes, rest_sizes, last);
    }
}

/// In a packed record or tuple each field lies where the sizes of the
/// fields before it add up to, and the total size is the sum of the sizes
/// of all the fields.
pub proof fn lemma_packed_offsets(ty: TypeView)
    requires
        ty.is_packed(),
    ensures
        forall|i: int|
            0 <= i < ty.field_offsets().len() ==> #[trigger] ty.field_offsets()[i] == sizes_sum(
                ty.field_sizes(),
                i,
            ),
        ty.size() == sizes_sum(ty.field_sizes(), ty.field_sizes().len() as int),
{
    let offsets = ty.field_offsets();
    let sizes = ty.field_sizes();
    assert forall|i: int| 0 <= i < offsets.len() implies #[trigger] offsets[i] == sizes_sum(
        sizes,
        i,
    ) by {
        lemma_packed_offset(offsets, sizes, ty.size(), i);
    }
    if offsets.len() > 0 {
        lemma_packed_offset(offsets, sizes, ty.size(), offsets.len() - 1);
    }
}

/// Of two records with fields of the same sizes, one packed and one
/// disjoint, the packed one is not the larger, and in both every field ends
/// within the total size. Where the other one is sequential, the two are of
/// one size exactly when it is packed too: otherwise the packed one is
/// strictly smaller.
pub proof fn lemma_packed_is_smallest(packed: TypeView, other: TypeView)
    requires
        packed.is_packed(),
        other.is_disjoint(),
        packed.field_sizes() == other.field_sizes(),
    ensures
        packed.size() <= other.size(),
        forall|i: int|
            0 <= i < other.field_sizes().len() ==> other.field_offsets()[i]
                + #[trigger] other.field_sizes()[i] <= other.size(),
        forall|i: int|
            0 <= i < packed.field_sizes().len() ==> packed.field_offsets()[i]
                + #[trigger] packed.field_sizes()[i] <= packed.size(),
        other.is_sequential() ==> (packed.size() == other.size() <==> other.is_packed()),
{
    let sizes = other.field_sizes();
    let count = sizes.len() as int;
    lemma_packed_offsets(packed);
    lemma_disjoint_fields_fit(other.field_offsets(), sizes, other.size());
    assert forall|i: int| 0 <= i < count implies other.field_offsets()[i]
        + #[trigger] other.field_sizes()[i] <= other.size() by {
        assert(end_at(other.field_offsets(), sizes, i) <= other.size());
    }
    assert forall|i: int| 0 <= i < count implies packed.field_offsets()[i]
        + #[trigger] packed.field_sizes()[i] <= packed.size() by {
        lemma_packed_is_sequential(packed.field_offsets(), sizes, packed.size());
        lemma_sequential_ends(packed.field_offsets(), sizes, packed.size(), i, i);
    }
    if other.is_packed() {
        lemma_packed_offsets(other);
    }
    if other.is_sequential() && packed.size() == other.size() {
        lemma_tight_is_packed(other.field_offsets(), sizes, other.size());
    }
}

/// A sequential layout whose total size is no more than the sum of the
/// sizes of its fields has no room for a gap: it is packed.
pub proof fn lemma_tight_is_packed(offsets: Seq<nat>, sizes: Seq<nat>, total: nat)
    requires
        layout_is_sequential(offsets, sizes, total),
        total <= sizes_sum(sizes, sizes.len() as int),
    ensures
        layout_is_packed(offsets, sizes, total),
{
    let count = offsets.len() as int;
    if count > 0 {
        lemma_tight_offset(offsets, sizes, total, 0);
        lemma_tight_offset(offsets, sizes, total, count - 1);
    }
    assert forall|i: int| 0 < i < count implies #[trigger] offsets[i] == end_at(
        offsets,
        sizes,
        i - 1,
    ) by {
        lemma_tight_offset(offsets, sizes, total, i);
        lemma_tight_offset(offsets, sizes, total, i - 1);
    }
}

proof fn lemma_tight_offset(offsets: Seq<nat>, sizes: Seq<nat>, total: nat, i: int)
    requires
        layout_is_sequential(offsets, sizes, total),
        total <= sizes_sum(sizes, sizes.len() as int),
        0 <= i < offsets.len(),
    ensures
        offsets[i] == sizes_sum(sizes, i),
        end_at(offsets, sizes, i) == sizes_sum(sizes, i + 1),
    decreases offsets.len() - i,
{
    lemma_sequential_offset(offsets, sizes, total, i);
    if i + 1 < offsets.len() {
        lemma_tight_offset(offsets, sizes, total, i + 1);
    }
}

} // verus!
