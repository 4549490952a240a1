//! The descriptor model: the closed set of layout shapes, the fields of
//! records and tuples, and the queries on them.

use vstd::prelude::*;

verus! {

/// The layout of a plain-old-data type: a scalar, a fixed-size array, a
/// record with named fields, or a tuple. May be arbitrarily nested.
#[derive(Debug)]
pub enum Type {
    /// 1-byte signed integer
    Int8,
    /// 2-byte signed integer
    Int16,
    /// 4-byte signed integer
    Int32,
    /// 8-byte signed integer
    Int64,
    /// 1-byte unsigned integer
    UInt8,
    /// 2-byte unsigned integer
    UInt16,
    /// 4-byte unsigned integer
    UInt32,
    /// 8-byte unsigned integer
    UInt64,
    /// 4-byte floating-point number
    Float32,
    /// 8-byte floating-point number
    Float64,
    /// 4-byte unicode character
    Char,
    /// 1-byte boolean
    Bool,
    /// fixed-size array: the layout of an element, and the length
    Array(Box<Type>, usize),
    /// record: its named fields in declaration order, and its total size
    Compound(Vec<NamedField>, usize),
    /// tuple or tuple struct: its fields in declaration order, and its total size
    Tuple(Vec<Field>, usize),
}

/// Named field of a record: its layout, its name, and its offset from the
/// start of the record.
#[derive(Debug)]
pub struct NamedField {
    /// layout of the field's type
    pub ty: Type,
    /// field name
    pub name: String,
    /// offset from the start of the record, in bytes
    pub offset: usize,
}

/// Anonymous field of a tuple or a tuple struct: its layout, and its offset
/// from the start of the tuple.
#[derive(Debug)]
pub struct Field {
    /// layout of the field's type
    pub ty: Type,
    /// offset from the start of the tuple, in bytes
    pub offset: usize,
}

/// The four shapes that a layout can have.
#[derive(Clone, Copy, Debug, PartialEq, Eq, Structural)]
pub enum ShapeKind {
    /// one of the scalar kinds
    Scalar,
    /// a fixed-size array
    Array,
    /// a tuple or a tuple struct
    Tuple,
    /// a record with named fields
    Compound,
}

/// What a [`Type`] stands for: the same tree, over mathematical integers and
/// sequences.
pub enum TypeView {
    Int8,
    Int16,
    Int32,
    Int64,
    UInt8,
    UInt16,
    UInt32,
    UInt64,
    Float32,
    Float64,
    Char,
    Bool,
    Array(Box<TypeView>, nat),
    Compound(Seq<NamedFieldView>, nat),
    Tuple(Seq<FieldView>, nat),
}

/// What a [`NamedField`] stands for.
pub struct NamedFieldView {
    pub ty: TypeView,
    pub name: Seq<char>,
    pub offset: nat,
}

/// What a [`Field`] stands for.
pub struct FieldView {
    pub ty: TypeView,
    pub offset: nat,
}

impl TypeView {
    /// Total size in bytes: the fixed width of a scalar, element size times
    /// length for an array, the recorded total size for a record or a tuple.
    pub open spec fn size(self) -> nat
        decreases self,
    {
        match self {
            TypeView::Int8 | TypeView::UInt8 | TypeView::Bool => 1,
            TypeView::Int16 | TypeView::UInt16 => 2,
            TypeView::Int32 | TypeView::UInt32 | TypeView::Float32 | TypeView::Char => 4,
            TypeView::Int64 | TypeView::UInt64 | TypeView::Float64 => 8,
            TypeView::Array(elem, len) => elem.size() * len,
            TypeView::Compound(_, size) | TypeView::Tuple(_, size) => size,
        }
    }

    /// The shape of this layout: an array, a tuple or a record where it is
    /// one, and a scalar where it is none of these.
    pub open spec fn shape_kind(self) -> ShapeKind {
        match self {
            TypeView::Array(_, _) => ShapeKind::Array,
            TypeView::Tuple(_, _) => ShapeKind::Tuple,
            TypeView::Compound(_, _) => ShapeKind::Compound,
            _ => ShapeKind::Scalar,
        }
    }

    /// One of the twelve scalar kinds.
    pub open spec fn is_scalar(self) -> bool {
        match self {
            TypeView::Int8
            | TypeView::Int16
            | TypeView::Int32
            | TypeView::Int64
            | TypeView::UInt8
            | TypeView::UInt16
            | TypeView::UInt32
            | TypeView::UInt64
            | TypeView::Float32
            | TypeView::Float64
            | TypeView::Char
            | TypeView::Bool => true,
            _ => false,
        }
    }

    /// A fixed-size array.
    pub open spec fn is_array(self) -> bool {
        self is Array
    }

    /// A record with named fields.
    pub open spec fn is_compound(self) -> bool {
        self is Compound
    }

    /// A tuple or a tuple struct.
    pub open spec fn is_tuple(self) -> bool {
        self is Tuple
    }

    /// A record or a tuple: a shape that has fields.
    pub open spec fn has_fields(self) -> bool {
        self is Compound || self is Tuple
    }

    /// The layouts of the fields of a record or a tuple, in declaration
    /// order.
    pub open spec fn field_types(self) -> Seq<TypeView> {
        match self {
            TypeView::Compound(fields, _) => Seq::new(fields.len(), |i: int| fields[i].ty),
            TypeView::Tuple(fields, _) => Seq::new(fields.len(), |i: int| fields[i].ty),
            _ => Seq::empty(),
        }
    }

    /// The offsets of the fields of a record or a tuple, in declaration
    /// order.
    pub open spec fn field_offsets(self) -> Seq<nat> {
        match self {
            TypeView::Compound(fields, _) => Seq::new(fields.len(), |i: int| fields[i].offset),
            TypeView::Tuple(fields, _) => Seq::new(fields.len(), |i: int| fields[i].offset),
            _ => Seq::empty(),
        }
    }

    /// The sizes of the fields of a record or a tuple, in declaration order.
    pub open spec fn field_sizes(self) -> Seq<nat> {
        match self {
            TypeView::Compound(fields, _) => Seq::new(fields.len(), |i: int| fields[i].ty.size()),
            TypeView::Tuple(fields, _) => Seq::new(fields.len(), |i: int| fields[i].ty.size()),
            _ => Seq::empty(),
        }
    }
}

impl Type {
    /// What this descriptor stands for.
    pub open spec fn spec_view(&self) -> TypeView
        decreases self,
    {
        match self {
            Type::Int8 => TypeView::Int8,
            Type::Int16 => TypeView::Int16,
            Type::Int32 => TypeView::Int32,
            Type::Int64 => TypeView::Int64,
            Type::UInt8 => TypeView::UInt8,
            Type::UInt16 => TypeView::UInt16,
            Type::UInt32 => TypeView::UInt32,
            Type::UInt64 => TypeView::UInt64,
            Type::Float32 => TypeView::Float32,
            Type::Float64 => TypeView::Float64,
            Type::Char => TypeView::Char,
            Type::Bool => TypeView::Bool,
            Type::Array(elem, len) => TypeView::Array(Box::new(elem.spec_view()), *len as nat),
            Type::Compound(fields, size) => TypeView::Compound(
                Seq::new(
                    fields@.len(),
                    |i: int|
                        if 0 <= i < fields@.len() {
                            fields@[i].spec_view()
                        } else {
                            arbitrary()
                        },
                ),
                *size as nat,
            ),
            Type::Tuple(fields, size) => TypeView::Tuple(
                Seq::new(
                    fields@.len(),
                    |i: int|
                        if 0 <= i < fields@.len() {
                            fields@[i].spec_view()
                        } else {
                            arbitrary()
                        },
                ),
                *size as nat,
            ),
        }
    }
}

impl NamedField {
    /// What this field stands for.
    pub open spec fn spec_view(&self) -> NamedFieldView
        decreases self,
    {
        NamedFieldView { ty: self.ty.spec_view(), name: self.name@, offset: self.offset as nat }
    }
}

impl Field {
    /// What this field stands for.
    pub open spec fn spec_view(&self) -> FieldView
        decreases self,
    {
        FieldView { ty: self.ty.spec_view(), offset: self.offset as nat }
    }
}

impl View for Type {
    type V = TypeView;

    open spec fn view(&self) -> TypeView {
        self.spec_view()
    }
}

impl View for NamedField {
    type V = NamedFieldView;

    open spec fn view(&self) -> NamedFieldView {
        self.spec_view()
    }
}

impl View for Field {
    type V = FieldView;

    open spec fn view(&self) -> FieldView {
        self.spec_view()
    }
}

/// The views of a record's fields, in order.
pub open spec fn named_fields_view(fields: Seq<NamedField>) -> Seq<NamedFieldView> {
    Seq::new(fields.len(), |i: int| fields[i]@)
}

/// The views of a tuple's fields, in order.
pub open spec fn fields_view(fields: Seq<Field>) -> Seq<FieldView> {
    Seq::new(fields.len(), |i: int| fields[i]@)
}

/// A record descriptor stands for its fields' views and its total size.
pub proof fn lemma_view_compound(fields: Vec<NamedField>, size: usize)
    ensures
        Type::Compound(fields, size)@ == TypeView::Compound(
            named_fields_view(fields@),
            size as nat,
        ),
{
    assert(Type::Compound(fields, size)@->Compound_0 =~= named_fields_view(fields@));
}

/// A tuple descriptor stands for its fields' views and its total size.
pub proof fn lemma_view_tuple(fields: Vec<Field>, size: usize)
    ensures
        Type::Tuple(fields, size)@ == TypeView::Tuple(fields_view(fields@), size as nat),
{
    assert(Type::Tuple(fields, size)@->Tuple_0 =~= fields_view(fields@));
}

impl Type {
    /// Returns the total size of a value of the described type, in bytes.
    pub fn size(&self) -> (bytes: usize)
        requires
            self@.size() <= usize::MAX,
        ensures
            bytes == self@.size(),
        decreases self,
    {
        match self {
            Type::Int8 | Type::UInt8 | Type::Bool => 1,
            Type::Int16 | Type::UInt16 => 2,
            Type::Int32 | Type::UInt32 | Type::Float32 | Type::Char => 4,
            Type::Int64 | Type::UInt64 | Type::Float64 => 8,
            Type::Array(elem, len) => {
                if *len == 0 {
                    assert(elem@.size() * 0 == 0);
                    0
                } else {
                    assert(elem@.size() <= elem@.size() * *len) by (nonlinear_arith)
                        requires
                            *len >= 1,
                    ;
                    elem.size() * *len
                }
            },
            Type::Compound(_, size) | Type::Tuple(_, size) => *size,
        }
    }

    /// Returns the total size in bytes, or `None` where it is more than a
    /// `usize` can hold.
    pub fn checked_size(&self) -> (bytes: Option<usize>)
        ensures
            self@.size() <= usize::MAX ==> bytes == Some(self@.size() as usize),
            self@.size() > usize::MAX ==> bytes is None,
        decreases self,
    {
        match self {
            Type::Int8 | Type::UInt8 | Type::Bool => Some(1),
            Type::Int16 | Type::UInt16 => Some(2),
            Type::Int32 | Type::UInt32 | Type::Float32 | Type::Char => Some(4),
            Type::Int64 | Type::UInt64 | Type::Float64 => Some(8),
            Type::Array(elem, len) => {
                if *len == 0 {
                    assert(elem@.size() * 0 == 0);
                    Some(0)
                } else {
                    assert(elem@.size() <= elem@.size() * *len) by (nonlinear_arith)
                        requires
                            *len >= 1,
                    ;
                    match elem.checked_size() {
                        Some(elem_size) => elem_size.checked_mul(*len),
                        None => None,
                    }
                }
            },
            Type::Compound(_, size) | Type::Tuple(_, size) => Some(*size),
        }
    }

    /// Returns the shape of the described type.
    pub fn shape_kind(&self) -> (kind: ShapeKind)
        ensures
            kind == self@.shape_kind(),
    {
        match self {
            Type::Array(_, _) => ShapeKind::Array,
            Type::Tuple(_, _) => ShapeKind::Tuple,
            Type::Compound(_, _) => ShapeKind::Compound,
            _ => ShapeKind::Scalar,
        }
    }

    /// Returns true if the described type is a scalar.
    pub fn is_scalar(&self) -> (yes: bool)
        ensures
            yes == self@.is_scalar(),
    {
        !self.is_array() && !self.is_compound() && !self.is_tuple()
    }

    /// Returns true if the described type is a fixed-size array.
    pub fn is_array(&self) -> (yes: bool)
        ensures
            yes == self@.is_array(),
    {
        if let Type::Array(_, _) = self {
            true
        } else {
            false
        }
    }

    /// Returns true if the described type is a record with named fields.
    pub fn is_compound(&self) -> (yes: bool)
        ensures
            yes == self@.is_compound(),
    {
        if let Type::Compound(_, _) = self {
            true
        } else {
            false
        }
    }

    /// Returns true if the described type is a tuple or a tuple struct.
    pub fn is_tuple(&self) -> (yes: bool)
        ensures
            yes == self@.is_tuple(),
    {
        if let Type::Tuple(_, _) = self {
            true
        } else {
            false
        }
    }
}

impl NamedField {
    /// Makes the field of a record that has the layout `ty`, the name `name`
    /// and lies `offset` bytes from the start of the record.
    pub fn new(ty: &Type, name: &str, offset: usize) -> (field: NamedField)
        ensures
            field@ == (NamedFieldView { ty: ty@, name: name@, offset: offset as nat }),
    {
        NamedField { ty: ty.clone(), name: name.to_owned(), offset: offset }
    }
}

impl Field {
    /// Makes the field of a tuple that has the layout `ty` and lies `offset`
    /// bytes from the start of the tuple.
    pub fn new(ty: &Type, offset: usize) -> (field: Field)
        ensures
            field@ == (FieldView { ty: ty@, offset: offset as nat }),
    {
        Field { ty: ty.clone(), offset: offset }
    }
}

/// Every layout has exactly one shape: of the four questions whether it is
/// a scalar, an array, a record or a tuple, one is answered with yes, the
/// one that its shape names, and the other three with no.
pub proof fn lemma_exactly_one_shape(ty: TypeView)
    ensures
        ty.is_scalar() <==> ty.shape_kind() == ShapeKind::Scalar,
        ty.is_array() <==> ty.shape_kind() == ShapeKind::Array,
        ty.is_tuple() <==> ty.shape_kind() == ShapeKind::Tuple,
        ty.is_compound() <==> ty.shape_kind() == ShapeKind::Compound,
        ty.is_scalar() || ty.is_array() || ty.is_compound() || ty.is_tuple(),
        !(ty.is_scalar() && ty.is_array()),
        !(ty.is_scalar() && ty.is_compound()),
        !(ty.is_scalar() && ty.is_tuple()),
        !(ty.is_array() && ty.is_compound()),
        !(ty.is_array() && ty.is_tuple()),
        !(ty.is_compound() && ty.is_tuple()),
{
}

} // verus!
