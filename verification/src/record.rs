//! Deriving the descriptor of a record or a tuple from its declaration: the
//! fields in declaration order, each with the offset at which the platform
//! placed it, and the size that the platform gave the whole.
//!
//! Each field's layout is asked of the field's own type, so that nested
//! records and arrays come out fully resolved. Offsets and the total size
//! are recorded as observed: nothing here sums field sizes.

use crate::descriptor::{fields_view, named_fields_view, Field, NamedField, Type};
use crate::descriptor::{lemma_view_compound, lemma_view_tuple};
use crate::descriptor::{FieldView, NamedFieldView, TypeView};
use crate::type_info::TypeInfo;
use vstd::layout::size_of;
use vstd::prelude::*;

verus! {

/// Collects the named fields of a record, in declaration order.
pub struct CompoundBuilder {
    fields: Vec<NamedField>,
}

impl View for CompoundBuilder {
    type V = Seq<NamedFieldView>;

    /// The fields collected so far.
    closed spec fn view(&self) -> Seq<NamedFieldView> {
        named_fields_view(self.fields@)
    }
}

impl CompoundBuilder {
    /// Starts a record without fields.
    pub fn new() -> (builder: CompoundBuilder)
        ensures
            builder@ == Seq::<NamedFieldView>::empty(),
    {
        CompoundBuilder { fields: Vec::new() }
    }

    /// Adds the next declared field: its layout, its name, and the offset
    /// at which it lies in the record.
    pub fn field_of(self, ty: &Type, name: &str, offset: usize) -> (builder: CompoundBuilder)
        ensures
            builder@ == self@.push(
                NamedFieldView { ty: ty@, name: name@, offset: offset as nat },
            ),
    {
        let mut fields = self.fields;
        fields.push(NamedField::new(ty, name, offset));
        CompoundBuilder { fields }
    }

    /// Adds the next declared field, of type `F`: its layout is the one that
    /// `F` gives of itself.
    pub fn field<F: TypeInfo>(self, name: &str, offset: usize) -> (builder: CompoundBuilder)
        ensures
            builder@ == self@.push(
                NamedFieldView { ty: F::layout(), name: name@, offset: offset as nat },
            ),
    {
        let ty = F::type_info();
        self.field_of(&ty, name, offset)
    }

    /// Finishes the record with the total size `size`.
    pub fn build_sized(self, size: usize) -> (ty: Type)
        ensures
            ty@ == TypeView::Compound(self@, size as nat),
    {
        proof {
            lemma_view_compound(self.fields, size);
        }
        Type::Compound(self.fields, size)
    }

    /// Finishes the descriptor of the record type `S`: its total size is the
    /// size that the platform gives `S`.
    pub fn build<S>(self) -> (ty: Type)
        ensures
            ty@ == TypeView::Compound(self@, size_of::<S>()),
            ty@.size() == size_of::<S>(),
    {
        self.build_sized(core::mem::size_of::<S>())
    }
}

/// Collects the fields of a tuple or a tuple struct, in declaration order.
pub struct TupleBuilder {
    fields: Vec<Field>,
}

impl View for TupleBuilder {
    type V = Seq<FieldView>;

    /// The fields collected so far.
    closed spec fn view(&self) -> Seq<FieldView> {
        fields_view(self.fields@)
    }
}

impl TupleBuilder {
    /// Starts a tuple without fields.
    pub fn new() -> (builder: TupleBuilder)
        ensures
            builder@ == Seq::<FieldView>::empty(),
    {
        TupleBuilder { fields: Vec::new() }
    }

    /// Adds the next declared field: its layout, and the offset at which it
    /// lies in the tuple.
    pub fn field_of(self, ty: &Type, offset: usize) -> (builder: TupleBuilder)
        ensures
            builder@ == self@.push(FieldView { ty: ty@, offset: offset as nat }),
    {
        let mut fields = self.fields;
        fields.push(Field::new(ty, offset));
        TupleBuilder { fields }
    }

    /// Adds the next declared field, of type `F`: its layout is the one that
    /// `F` gives of itself.
    pub fn field<F: TypeInfo>(self, offset: usize) -> (builder: TupleBuilder)
        ensures
            builder@ == self@.push(FieldView { ty: F::layout(), offset: offset as nat }),
    {
        let ty = F::type_info();
        self.field_of(&ty, offset)
    }

    /// Finishes the tuple with the total size `size`.
    pub fn build_sized(self, size: usize) -> (ty: Type)
        ensures
            ty@ == TypeView::Tuple(self@, size as nat),
    {
        proof {
            lemma_view_tuple(self.fields, size);
        }
        Type::Tuple(self.fields, size)
    }

    /// Finishes the descriptor of the tuple type `S`: its total size is the
    /// size that the platform gives `S`.
    pub fn build<S>(self) -> (ty: Type)
        ensures
            ty@ == TypeView::Tuple(self@, size_of::<S>()),
            ty@.size() == size_of::<S>(),
    {
        self.build_sized(core::mem::size_of::<S>())
    }
}

/// Nesting: where a record holds a field of type `[X; N]` and `X` is itself
/// a record, the field's layout is the array of `X`'s whole layout, fields
/// and size, and its offset is the one that was observed for it, whatever
/// the fields before it are.
pub proof fn lemma_nested_array_field<X: TypeInfo, const N: usize>(
    before: Seq<NamedFieldView>,
    name: Seq<char>,
    offset: nat,
    size: nat,
    inner_fields: Seq<NamedFieldView>,
    inner_size: nat,
)
    requires
        X::layout() == TypeView::Compound(inner_fields, inner_size),
    ensures
        ({
            let nested = NamedFieldView { ty: <[X; N] as TypeInfo>::layout(), name, offset };
            let record = TypeView::Compound(before.push(nested), size);
            &&& record.field_types().last() == TypeView::Array(
                Box::new(TypeView::Compound(inner_fields, inner_size)),
                N as nat,
            )
            &&& record.field_types().last().size() == inner_size * N
            &&& record.field_offsets().last() == offset
            &&& record.size() == size
        }),
{
    let nested = NamedFieldView { ty: <[X; N] as TypeInfo>::layout(), name, offset };
    let record = TypeView::Compound(before.push(nested), size);
    assert(nested.ty.size() == inner_size * N) by {
        reveal_with_fuel(TypeView::size, 2);
    }
}

} // verus!
