//! The capability of a type to describe its own layout, and the types that
//! come with it: the built-in scalars, and fixed-size arrays of any
//! describable element.

use crate::descriptor::{Type, TypeView};
use vstd::layout::{layout_of_primitives, size_of};
use vstd::prelude::*;

verus! {

/// Implemented by copyable plain-old-data types of fixed size: the type can
/// be asked for its layout, without a value of it at hand.
///
/// The answer depends on the type alone: `type_info` gives a fresh
/// descriptor at every call, and all of them stand for the one layout that
/// `layout` names.
///
/// The trait comes implemented for the built-in integers, `bool` and `char`,
/// and for fixed-size arrays of any length whose elements implement it. The
/// pointer-sized integers are described as the fixed-width integers of the
/// same size on the host platform. For a record or a tuple, `type_info` is
/// written with the builders of [`crate::record`].
pub trait TypeInfo: Copy {
    /// The layout of the implementing type.
    ///
    /// A verified implementation states it. The body here stands for no
    /// layout in particular; it is there so that a type outside verified
    /// code can implement the trait with `type_info` alone.
    open spec fn layout() -> TypeView {
        arbitrary()
    }

    /// Returns the runtime type information for the implementing type.
    fn type_info() -> (ty: Type)
        ensures
            ty@ == Self::layout(),
    ;
}

impl TypeInfo for i8 {
    open spec fn layout() -> TypeView {
        TypeView::Int8
    }

    fn type_info() -> (ty: Type)
        ensures
            ty@.size() == size_of::<i8>(),
    {
        broadcast use layout_of_primitives;

        Type::Int8
    }
}

impl TypeInfo for i16 {
    open spec fn layout() -> TypeView {
        TypeView::Int16
    }

    fn type_info() -> (ty: Type)
        ensures
            ty@.size() == size_of::<i16>(),
    {
        broadcast use layout_of_primitives;

        Type::Int16
    }
}

impl TypeInfo for i32 {
    open spec fn layout() -> TypeView {
        TypeView::Int32
    }

    fn type_info() -> (ty: Type)
        ensures
            ty@.size() == size_of::<i32>(),
    {
        broadcast use layout_of_primitives;

        Type::Int32
    }
}

impl TypeInfo for i64 {
    open spec fn layout() -> TypeView {
        TypeView::Int64
    }

    fn type_info() -> (ty: Type)
        ensures
            ty@.size() == size_of::<i64>(),
    {
        broadcast use layout_of_primitives;

        Type::Int64
    }
}

impl TypeInfo for u8 {
    open spec fn layout() -> TypeView {
        TypeView::UInt8
    }

    fn type_info() -> (ty: Type)
        ensures
            ty@.size() == size_of::<u8>(),
    {
        broadcast use layout_of_primitives;

        Type::UInt8
    }
}

impl TypeInfo for u16 {
    open spec fn layout() -> TypeView {
        TypeView::UInt16
    }

    fn type_info() -> (ty: Type)
        ensures
            ty@.size() == size_of::<u16>(),
    {
        broadcast use layout_of_primitives;

        Type::UInt16
    }
}

impl TypeInfo for u32 {
    open spec fn layout() -> TypeView {
        TypeView::UInt32
    }

    fn type_info() -> (ty: Type)
        ensures
            ty@.size() == size_of::<u32>(),
    {
        broadcast use layout_of_primitives;

        Type::UInt32
    }
}

impl TypeInfo for u64 {
    open spec fn layout() -> TypeView {
        TypeView::UInt64
    }

    fn type_info() -> (ty: Type)
        ensures
            ty@.size() == size_of::<u64>(),
    {
        broadcast use layout_of_primitives;

        Type::UInt64
    }
}

impl TypeInfo for char {
    open spec fn layout() -> TypeView {
        TypeView::Char
    }

    fn type_info() -> (ty: Type)
        ensures
            ty@.size() == size_of::<char>(),
    {
        broadcast use layout_of_primitives;

        Type::Char
    }
}

impl TypeInfo for bool {
    open spec fn layout() -> TypeView {
        TypeView::Bool
    }

    fn type_info() -> (ty: Type)
        ensures
            ty@.size() == size_of::<bool>(),
    {
        broadcast use layout_of_primitives;

        Type::Bool
    }
}

impl TypeInfo for isize {
    open spec fn layout() -> TypeView {
        if size_of::<isize>() == 4 {
            TypeView::Int32
        } else {
            TypeView::Int64
        }
    }

    fn type_info() -> (ty: Type)
        ensures
            ty@.size() == size_of::<isize>(),
    {
        broadcast use layout_of_primitives;

        if core::mem::size_of::<isize>() == 4 {
            Type::Int32
        } else {
            Type::Int64
        }
    }
}

impl TypeInfo for usize {
    open spec fn layout() -> TypeView {
        if size_of::<usize>() == 4 {
            TypeView::UInt32
        } else {
            TypeView::UInt64
        }
    }

    fn type_info() -> (ty: Type)
        ensures
            ty@.size() == size_of::<usize>(),
    {
        broadcast use layout_of_primitives;

        if core::mem::size_of::<usize>() == 4 {
            Type::UInt32
        } else {
            Type::UInt64
        }
    }
}

impl<T: TypeInfo, const N: usize> TypeInfo for [T; N] {
    open spec fn layout() -> TypeView {
        TypeView::Array(Box::new(T::layout()), N as nat)
    }

    fn type_info() -> (ty: Type)
        ensures
            ty@ == TypeView::Array(Box::new(T::layout()), N as nat),
            ty@.size() == T::layout().size() * N,
    {
        Type::Array(Box::new(T::type_info()), N)
    }
}

} // verus!
