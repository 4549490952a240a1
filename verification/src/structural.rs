//! Copies and structural equality of descriptors.
//!
//! A descriptor is an immutable value: a copy stands for the same layout, and
//! two descriptors are equal exactly when they stand for the same layout.

use crate::descriptor::{fields_view, named_fields_view, Field, NamedField, Type};
use crate::descriptor::{lemma_view_compound, lemma_view_tuple};
use vstd::prelude::*;
use vstd::std_specs::cmp::PartialEqSpecImpl;

verus! {

fn clone_named_fields(fields: &Vec<NamedField>) -> (copy: Vec<NamedField>)
    ensures
        named_fields_view(copy@) == named_fields_view(fields@),
    decreases fields,
{
    let mut copy: Vec<NamedField> = Vec::new();
    let mut i: usize = 0;
    while i < fields.len()
        invariant
            i <= fields.len(),
            copy.len() == i,
            forall|j: int| 0 <= j < i ==> copy@[j]@ == fields@[j]@,
        decreases fields.len() - i,
    {
        copy.push(fields[i].clone());
        i += 1;
    }
    copy
}

fn clone_fields(fields: &Vec<Field>) -> (copy: Vec<Field>)
    ensures
        fields_view(copy@) == fields_view(fields@),
    decreases fields,
{
    let mut copy: Vec<Field> = Vec::new();
    let mut i: usize = 0;
    while i < fields.len()
        invariant
            i <= fields.len(),
            copy.len() == i,
            forall|j: int| 0 <= j < i ==> copy@[j]@ == fields@[j]@,
        decreases fields.len() - i,
    {
        copy.push(fields[i].clone());
        i += 1;
    }
    copy
}

impl Clone for Type {
    /// Returns a descriptor of the same layout.
    fn clone(&self) -> (copy: Type)
        ensures
            copy@ == self@,
        decreases self,
    {
        match self {
            Type::Int8 => Type::Int8,
            Type::Int16 => Type::Int16,
            Type::Int32 => Type::Int32,
            Type::Int64 => Type::Int64,
            Type::UInt8 => Type::UInt8,
            Type::UInt16 => Type::UInt16,
            Type::UInt32 => Type::UInt32,
            Type::UInt64 => Type::UInt64,
            Type::Float32 => Type::Float32,
            Type::Float64 => Type::Float64,
            Type::Char => Type::Char,
            Type::Bool => Type::Bool,
            Type::Array(elem, len) => {
                let elem_copy = (&**elem).clone();
                Type::Array(Box::new(elem_copy), *len)
            },
            Type::Compound(fields, size) => {
                let fields_copy = clone_named_fields(fields);
                proof {
                    lemma_view_compound(*fields, *size);
                    lemma_view_compound(fields_copy, *size);
                }
                Type::Compound(fields_copy, *size)
            },
            Type::Tuple(fields, size) => {
                let fields_copy = clone_fields(fields);
                proof {
                    lemma_view_tuple(*fields, *size);
                    lemma_view_tuple(fields_copy, *size);
                }
                Type::Tuple(fields_copy, *size)
            },
        }
    }
}

impl Clone for NamedField {
    /// Returns a field of the same layout, name and offset.
    fn clone(&self) -> (copy: NamedField)
        ensures
            copy@ == self@,
        decreases self,
    {
        NamedField { ty: self.ty.clone(), name: self.name.clone(), offset: self.offset }
    }
}

impl Clone for Field {
    /// Returns a field of the same layout and offset.
    fn clone(&self) -> (copy: Field)
        ensures
            copy@ == self@,
        decreases self,
    {
        Field { ty: self.ty.clone(), offset: self.offset }
    }
}

fn named_fields_eq(left: &Vec<NamedField>, right: &Vec<NamedField>) -> (equal: bool)
    ensures
        equal == (named_fields_view(left@) == named_fields_view(right@)),
    decreases left,
{
    if left.len() != right.len() {
        assert(named_fields_view(left@).len() != named_fields_view(right@).len());
        return false;
    }
    let mut i: usize = 0;
    while i < left.len()
        invariant
            i <= left.len(),
            left.len() == right.len(),
            forall|j: int| 0 <= j < i ==> left@[j]@ == right@[j]@,
        decreases left.len() - i,
    {
        if !left[i].eq(&right[i]) {
            assert(named_fields_view(left@)[i as int] != named_fields_view(right@)[i as int]);
            return false;
        }
        i += 1;
    }
    assert(named_fields_view(left@) =~= named_fields_view(right@));
    true
}

fn fields_eq(left: &Vec<Field>, right: &Vec<Field>) -> (equal: bool)
    ensures
        equal == (fields_view(left@) == fields_view(right@)),
    decreases left,
{
    if left.len() != right.len() {
        assert(fields_view(left@).len() != fields_view(right@).len());
        return false;
    }
    let mut i: usize = 0;
    while i < left.len()
        invariant
            i <= left.len(),
            left.len() == right.len(),
            forall|j: int| 0 <= j < i ==> left@[j]@ == right@[j]@,
        decreases left.len() - i,
    {
        if !left[i].eq(&right[i]) {
            assert(fields_view(left@)[i as int] != fields_view(right@)[i as int]);
            return false;
        }
        i += 1;
    }
    assert(fields_view(left@) =~= fields_view(right@));
    true
}

impl PartialEq for Type {
    /// Structural equality: same shape, and equal element layouts, fields,
    /// names, offsets and sizes throughout.
    fn eq(&self, other: &Type) -> (equal: bool)
        decreases self,
    {
        match (self, other) {
            (Type::Int8, Type::Int8) => true,
            (Type::Int16, Type::Int16) => true,
            (Type::Int32, Type::Int32) => true,
            (Type::Int64, Type::Int64) => true,
            (Type::UInt8, Type::UInt8) => true,
            (Type::UInt16, Type::UInt16) => true,
            (Type::UInt32, Type::UInt32) => true,
            (Type::UInt64, Type::UInt64) => true,
            (Type::Float32, Type::Float32) => true,
            (Type::Float64, Type::Float64) => true,
            (Type::Char, Type::Char) => true,
            (Type::Bool, Type::Bool) => true,
            (Type::Array(elem, len), Type::Array(other_elem, other_len)) => {
                *len == *other_len && (&**elem).eq(&**other_elem)
            },
            (Type::Compound(fields, size), Type::Compound(other_fields, other_size)) => {
                proof {
                    lemma_view_compound(*fields, *size);
                    lemma_view_compound(*other_fields, *other_size);
                }
                *size == *other_size && named_fields_eq(fields, other_fields)
            },
            (Type::Tuple(fields, size), Type::Tuple(other_fields, other_size)) => {
                proof {
                    lemma_view_tuple(*fields, *size);
                    lemma_view_tuple(*other_fields, *other_size);
                }
                *size == *other_size && fields_eq(fields, other_fields)
            },
            _ => false,
        }
    }
}

impl PartialEqSpecImpl for Type {
    open spec fn obeys_eq_spec() -> bool {
        true
    }

    open spec fn eq_spec(&self, other: &Type) -> bool {
        self@ == other@
    }
}

impl PartialEq for NamedField {
    /// Equal layouts, names and offsets.
    fn eq(&self, other: &NamedField) -> (equal: bool)
        decreases self,
    {
        self.offset == other.offset && self.name == other.name && self.ty.eq(&other.ty)
    }
}

impl PartialEqSpecImpl for NamedField {
    open spec fn obeys_eq_spec() -> bool {
        true
    }

    open spec fn eq_spec(&self, other: &NamedField) -> bool {
        self@ == other@
    }
}

impl PartialEq for Field {
    /// Equal layouts and offsets.
    fn eq(&self, other: &Field) -> (equal: bool)
        decreases self,
    {
        self.offset == other.offset && self.ty.eq(&other.ty)
    }
}

impl PartialEqSpecImpl for Field {
    open spec fn obeys_eq_spec() -> bool {
        true
    }

    open spec fn eq_spec(&self, other: &Field) -> bool {
        self@ == other@
    }
}

} // verus!
