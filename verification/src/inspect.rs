//! Telling of a descriptor which kind of layout it shows: whether the fields
//! of a record or a tuple are disjoint, sequential, or packed.

use crate::descriptor::{lemma_view_compound, lemma_view_tuple, Field, NamedField, Type};
use crate::packing::{end_at, layout_is_disjoint, layout_is_packed, layout_is_sequential};
use crate::packing::{lemma_packed_is_sequential, lemma_sequential_ends};
use vstd::prelude::*;

verus! {

/// Machine integers as the natural numbers that they hold.
spec fn nats(values: Seq<usize>) -> Seq<nat> {
    Seq::new(values.len(), |i: int| values[i] as nat)
}

/// Where the fields of a record or a tuple lie: offset and size of each, in
/// declaration order, and the total size.
struct Extents {
    offsets: Vec<usize>,
    sizes: Vec<usize>,
    total: usize,
}

fn extents_of_named(fields: &Vec<NamedField>, total: usize) -> (found: Option<Extents>)
    ensures
        match found {
            Some(extents) => {
                &&& extents.offsets@.len() == fields@.len()
                &&& extents.sizes@.len() == fields@.len()
                &&& extents.total == total
                &&& forall|i: int|
                    0 <= i < fields@.len() ==> extents.offsets@[i] == fields@[i].offset
                        && extents.sizes@[i] == fields@[i]@.ty.size()
            },
            None => exists|i: int| 0 <= i < fields@.len() && fields@[i]@.ty.size() > usize::MAX,
        },
{
    let mut offsets: Vec<usize> = Vec::new();
    let mut sizes: Vec<usize> = Vec::new();
    let mut i: usize = 0;
    while i < fields.len()
        invariant
            i <= fields.len(),
            offsets.len() == i,
            sizes.len() == i,
            forall|k: int|
                0 <= k < i ==> offsets@[k] == fields@[k].offset && sizes@[k]
                    == fields@[k]@.ty.size(),
        decreases fields.len() - i,
    {
        match fields[i].ty.checked_size() {
            Some(size) => {
                offsets.push(fields[i].offset);
                sizes.push(size);
            },
            None => {
                return None;
            },
        }
        i += 1;
    }
    Some(Extents { offsets, sizes, total })
}

fn extents_of_unnamed(fields: &Vec<Field>, total: usize) -> (found: Option<Extents>)
    ensures
        match found {
            Some(extents) => {
                &&& extents.offsets@.len() == fields@.len()
                &&& extents.sizes@.len() == fields@.len()
                &&& extents.total == total
                &&& forall|i: int|
                    0 <= i < fields@.len() ==> extents.offsets@[i] == fields@[i].offset
                        && extents.sizes@[i] == fields@[i]@.ty.size()
            },
            None => exists|i: int| 0 <= i < fields@.len() && fields@[i]@.ty.size() > usize::MAX,
        },
{
    let mut offsets: Vec<usize> = Vec::new();
    let mut sizes: Vec<usize> = Vec::new();
    let mut i: usize = 0;
    while i < fields.len()
        invariant
            i <= fields.len(),
            offsets.len() == i,
            sizes.len() == i,
            forall|k: int|
                0 <= k < i ==> offsets@[k] == fields@[k].offset && sizes@[k]
                    == fields@[k]@.ty.size(),
        decreases fields.len() - i,
    {
        match fields[i].ty.checked_size() {
            Some(size) => {
                offsets.push(fields[i].offset);
                sizes.push(size);
            },
            None => {
                return None;
            },
        }
        i += 1;
    }
    Some(Extents { offsets, sizes, total })
}

/// The offsets, the sizes and the total size of a record or a tuple; `None`
/// for another shape, and where a field's size is more than a `usize` can
/// hold.
fn extents(ty: &Type) -> (found: Option<Extents>)
    ensures
        match found {
            Some(extents) => {
                &&& ty@.has_fields()
                &&& extents.offsets@.len() == extents.sizes@.len()
                &&& nats(extents.offsets@) == ty@.field_offsets()
                &&& nats(extents.sizes@) == ty@.field_sizes()
                &&& extents.total == ty@.size()
            },
            None => !ty@.has_fields() || exists|i: int|
                0 <= i < ty@.field_sizes().len() && #[trigger] ty@.field_sizes()[i] > usize::MAX,
        },
{
    match ty {
        Type::Compound(fields, total) => {
            proof {
                lemma_view_compound(*fields, *total);
            }
            let found = extents_of_named(fields, *total);
            proof {
                if found is None {
                    let i = choose|i: int|
                        0 <= i < fields@.len() && fields@[i]@.ty.size() > usize::MAX;
                    assert(ty@.field_sizes()[i] > usize::MAX);
                }
            }
            found
        },
        Type::Tuple(fields, total) => {
            proof {
                lemma_view_tuple(*fields, *total);
            }
            let found = extents_of_unnamed(fields, *total);
            proof {
                if found is None {
                    let i = choose|i: int|
                        0 <= i < fields@.len() && fields@[i]@.ty.size() > usize::MAX;
                    assert(ty@.field_sizes()[i] > usize::MAX);
                }
            }
            found
        },
        _ => None,
    }
}

fn extents_are_packed(extents: &Extents) -> (yes: bool)
    requires
        extents.offsets@.len() == extents.sizes@.len(),
    ensures
        yes == layout_is_packed(
            nats(extents.offsets@),
            nats(extents.sizes@),
            extents.total as nat,
        ),
{
    let ghost offsets = nats(extents.offsets@);
    let ghost sizes = nats(extents.sizes@);
    let count = extents.offsets.len();
    let mut next: usize = 0;
    let mut i: usize = 0;
    while i < count
        invariant
            i <= count,
            count == extents.offsets@.len(),
            count == extents.sizes@.len(),
            offsets == nats(extents.offsets@),
            sizes == nats(extents.sizes@),
            i > 0 ==> offsets[0] == 0,
            forall|k: int| 0 < k < i ==> #[trigger] offsets[k] == end_at(offsets, sizes, k - 1),
            next == if i == 0 {
                0
            } else {
                end_at(offsets, sizes, i - 1)
            },
        decreases count - i,
    {
        if extents.offsets[i] != next {
            assert(offsets[i as int] != next);
            return false;
        }
        match next.checked_add(extents.sizes[i]) {
            Some(end) => {
                next = end;
            },
            None => {
                assert(i + 1 < count ==> offsets[i + 1] <= usize::MAX);
                return false;
            },
        }
        i += 1;
    }
    extents.total == next
}

fn extents_are_sequential(extents: &Extents) -> (yes: bool)
    requires
        extents.offsets@.len() == extents.sizes@.len(),
    ensures
        yes == layout_is_sequential(
            nats(extents.offsets@),
            nats(extents.sizes@),
            extents.total as nat,
        ),
{
    let ghost offsets = nats(extents.offsets@);
    let ghost sizes = nats(extents.sizes@);
    let count = extents.offsets.len();
    let mut floor: usize = 0;
    let mut i: usize = 0;
    while i < count
        invariant
            i <= count,
            count == extents.offsets@.len(),
            count == extents.sizes@.len(),
            offsets == nats(extents.offsets@),
            sizes == nats(extents.sizes@),
            forall|k: int| 0 < k < i ==> end_at(offsets, sizes, k - 1) <= #[trigger] offsets[k],
            floor == if i == 0 {
                0
            } else {
                end_at(offsets, sizes, i - 1)
            },
        decreases count - i,
    {
        if extents.offsets[i] < floor {
            assert(end_at(offsets, sizes, i - 1) > offsets[i as int]);
            return false;
        }
        match extents.offsets[i].checked_add(extents.sizes[i]) {
            Some(end) => {
                floor = end;
            },
            None => {
                assert(i + 1 < count ==> offsets[i + 1] <= usize::MAX);
                return false;
            },
        }
        i += 1;
    }
    count == 0 || floor <= extents.total
}

fn extents_are_disjoint(extents: &Extents) -> (yes: bool)
    requires
        extents.offsets@.len() == extents.sizes@.len(),
    ensures
        yes == layout_is_disjoint(
            nats(extents.offsets@),
            nats(extents.sizes@),
            extents.total as nat,
        ),
{
    let ghost offsets = nats(extents.offsets@);
    let ghost sizes = nats(extents.sizes@);
    let count = extents.offsets.len();
    let mut ends: Vec<usize> = Vec::new();
    let mut i: usize = 0;
    while i < count
        invariant
            i <= count,
            count == extents.offsets@.len(),
            count == extents.sizes@.len(),
            offsets == nats(extents.offsets@),
            sizes == nats(extents.sizes@),
            ends.len() == i,
            forall|k: int|
                0 <= k < i ==> ends@[k] == #[trigger] end_at(offsets, sizes, k) && ends@[k]
                    <= extents.total,
        decreases count - i,
    {
        match extents.offsets[i].checked_add(extents.sizes[i]) {
            Some(end) => {
                if end > extents.total {
                    assert(end_at(offsets, sizes, i as int) > extents.total);
                    return false;
                }
                ends.push(end);
            },
            None => {
                return false;
            },
        }
        i += 1;
    }
    let mut j: usize = 0;
    while j < count
        invariant
            j <= count,
            count == extents.offsets@.len(),
            count == extents.sizes@.len(),
            offsets == nats(extents.offsets@),
            sizes == nats(extents.sizes@),
            ends.len() == count,
            forall|k: int|
                0 <= k < count ==> ends@[k] == #[trigger] end_at(offsets, sizes, k) && ends@[k]
                    <= extents.total,
            forall|a: int, b: int|
                #![trigger offsets[a], offsets[b]]
                0 <= a < b < j ==> end_at(offsets, sizes, a) <= offsets[b] || end_at(
                    offsets,
                    sizes,
                    b,
                ) <= offsets[a],
        decreases count - j,
    {
        let mut a: usize = 0;
        while a < j
            invariant
                a <= j,
                j < count,
                count == extents.offsets@.len(),
                count == extents.sizes@.len(),
                offsets == nats(extents.offsets@),
                sizes == nats(extents.sizes@),
                ends.len() == count,
                forall|k: int|
                    0 <= k < count ==> ends@[k] == #[trigger] end_at(offsets, sizes, k),
                forall|c: int|
                    0 <= c < a ==> end_at(offsets, sizes, c) <= offsets[j as int] || end_at(
                        offsets,
                        sizes,
                        j as int,
                    ) <= #[trigger] offsets[c],
            decreases j - a,
        {
            if !(ends[a] <= extents.offsets[j] || ends[j] <= extents.offsets[a]) {
                assert(end_at(offsets, sizes, j as int) > offsets[a as int]);
                return false;
            }
            a += 1;
        }
        j += 1;
    }
    true
}

impl Type {
    /// Returns true if this is a record or a tuple whose fields all lie
    /// within its total size, no two of them overlapping.
    pub fn is_disjoint(&self) -> (yes: bool)
        ensures
            yes == self@.is_disjoint(),
    {
        match extents(self) {
            Some(found) => extents_are_disjoint(&found),
            None => {
                proof {
                    if self@.is_disjoint() {
                        let i = choose|i: int|
                            0 <= i < self@.field_sizes().len() && #[trigger] self@.field_sizes()[i]
                                > usize::MAX;
                        assert(end_at(self@.field_offsets(), self@.field_sizes(), i)
                            <= self@.size());
                        lemma_size_of_fields_fits(*self);
                    }
                }
                false
            },
        }
    }

    /// Returns true if this is a record or a tuple whose fields lie in
    /// declaration order without overlap, within its total size.
    pub fn is_sequential(&self) -> (yes: bool)
        ensures
            yes == self@.is_sequential(),
    {
        match extents(self) {
            Some(found) => extents_are_sequential(&found),
            None => {
                proof {
                    if self@.is_sequential() {
                        let i = choose|i: int|
                            0 <= i < self@.field_sizes().len() && #[trigger] self@.field_sizes()[i]
                                > usize::MAX;
                        lemma_sequential_ends(
                            self@.field_offsets(),
                            self@.field_sizes(),
                            self@.size(),
                            i,
                            i,
                        );
                        lemma_size_of_fields_fits(*self);
                    }
                }
                false
            },
        }
    }

    /// Returns true if this is a record or a tuple whose fields lie in
    /// declaration order without a gap, from its start to its end.
    pub fn is_packed(&self) -> (yes: bool)
        ensures
            yes == self@.is_packed(),
    {
        match extents(self) {
            Some(found) => extents_are_packed(&found),
            None => {
                proof {
                    if self@.is_packed() {
                        let i = choose|i: int|
                            0 <= i < self@.field_sizes().len() && #[trigger] self@.field_sizes()[i]
                                > usize::MAX;
                        lemma_packed_is_sequential(
                            self@.field_offsets(),
                            self@.field_sizes(),
                            self@.size(),
                        );
                        lemma_sequential_ends(
                            self@.field_offsets(),
                            self@.field_sizes(),
                            self@.size(),
                            i,
                            i,
                        );
                        lemma_size_of_fields_fits(*self);
                    }
                }
                false
            },
        }
    }
}

/// The total size that a record or a tuple records is one that a `usize`
/// holds.
proof fn lemma_size_of_fields_fits(ty: Type)
    requires
        ty@.has_fields(),
    ensures
        ty@.size() <= usize::MAX,
{
}

} // verus!
