use std::mem;

use typeinfo::Type::{
    Array, Bool, Char, Compound, Float32, Float64, Int16, Int32, Int64, Int8, Tuple, UInt16,
    UInt32, UInt64, UInt8,
};
use typeinfo::{CompoundBuilder, Field, NamedField, TupleBuilder, Type, TypeInfo};

fn check_scalar<T: TypeInfo>(ty: Type) {
    assert_eq!(<T as TypeInfo>::type_info(), ty);
    assert_eq!(ty.size(), mem::size_of::<T>());
    assert!(ty.is_scalar());
}

#[test]
fn test_scalar() {
    check_scalar::<i8>(Int8);
    check_scalar::<i16>(Int16);
    check_scalar::<i32>(Int32);
    check_scalar::<i64>(Int64);
    check_scalar::<u8>(UInt8);
    check_scalar::<u16>(UInt16);
    check_scalar::<u32>(UInt32);
    check_scalar::<u64>(UInt64);
    check_scalar::<bool>(Bool);
    check_scalar::<char>(Char);

    assert_eq!(Float32.size(), mem::size_of::<f32>());
    assert!(Float32.is_scalar());
    assert_eq!(Float64.size(), mem::size_of::<f64>());
    assert!(Float64.is_scalar());

    if mem::size_of::<usize>() == 4 {
        check_scalar::<isize>(Int32);
        check_scalar::<usize>(UInt32);
    } else {
        check_scalar::<isize>(Int64);
        check_scalar::<usize>(UInt64);
    }
}

#[test]
fn test_array() {
    let ty = <[u16; 42] as TypeInfo>::type_info();
    assert_eq!(ty, Array(Box::new(UInt16), 42));
    assert_eq!(ty.size(), 2 * 42);
    assert!(ty.is_array());

    let ty = <[[i8; 2]; 3] as TypeInfo>::type_info();
    assert_eq!(ty, Array(Box::new(Array(Box::new(Int8), 2)), 3));
    assert_eq!(ty.size(), 1 * 2 * 3);
    assert!(ty.is_array());
}

#[test]
fn test_tuple() {
    let ty = TupleBuilder::new().field::<i8>(0).field::<u32>(4).build::<(i8, u32)>();
    let size = mem::size_of::<(i8, u32)>();
    assert_eq!(ty, Tuple(vec![Field::new(&Int8, 0), Field::new(&UInt32, 4)], size));
    assert_eq!(ty.size(), size);
    assert!(ty.is_tuple());

    let ty = TupleBuilder::new().build::<()>();
    assert_eq!(ty, Tuple(vec![], 0));
    assert_eq!(ty.size(), 0);
    assert!(ty.is_tuple());
}

#[allow(dead_code)]
#[derive(Clone, Copy)]
struct PairStruct(bool, i64);

#[derive(Clone, Copy)]
struct EmptyTupleStruct();

#[test]
fn test_tuple_struct() {
    let ty = TupleBuilder::new().field::<bool>(0).field::<i64>(8).build::<PairStruct>();
    assert_eq!(ty, Tuple(vec![Field::new(&Bool, 0), Field::new(&Int64, 8)], 16));
    assert_eq!(ty.size(), 16);
    assert!(ty.is_tuple());

    let ty = TupleBuilder::new().field::<bool>(0).field::<i64>(1).build_sized(9);
    assert_eq!(ty, Tuple(vec![Field::new(&Bool, 0), Field::new(&Int64, 1)], 9));
    assert_eq!(ty.size(), 9);
    assert!(ty.is_tuple());

    let ty = TupleBuilder::new().build::<EmptyTupleStruct>();
    assert_eq!(ty, Tuple(vec![], 0));
    assert_eq!(ty.size(), 0);
    assert!(ty.is_tuple());
}

#[allow(dead_code)]
#[derive(Clone, Copy)]
struct X {
    a: i32,
}

impl TypeInfo for X {
    fn type_info() -> Type {
        CompoundBuilder::new().field::<i32>("a", 0).build::<X>()
    }
}

#[allow(dead_code)]
#[derive(Clone, Copy)]
struct Y {
    a: u64,
    x: [X; 2],
}

impl TypeInfo for Y {
    fn type_info() -> Type {
        CompoundBuilder::new().field::<u64>("a", 0).field::<[X; 2]>("x", 8).build::<Y>()
    }
}

#[derive(Clone, Copy)]
struct Z;

impl TypeInfo for Z {
    fn type_info() -> Type {
        CompoundBuilder::new().build::<Z>()
    }
}

#[test]
fn test_compound() {
    let ty = X::type_info();
    assert_eq!(ty, Compound(vec![NamedField::new(&Int32, "a", 0)], mem::size_of::<X>()));
    assert_eq!(ty.size(), mem::size_of::<X>());
    assert!(ty.is_compound());

    let ty = Y::type_info();
    assert_eq!(
        ty,
        Compound(
            vec![
                NamedField::new(&UInt64, "a", 0),
                NamedField::new(&Array(Box::new(X::type_info()), 2), "x", 8),
            ],
            mem::size_of::<Y>()
        )
    );
    assert_eq!(ty.size(), mem::size_of::<Y>());
    assert!(ty.is_compound());

    let ty = Z::type_info();
    assert_eq!(ty, Compound(vec![], mem::size_of::<Z>()));
    assert_eq!(ty.size(), mem::size_of::<Z>());
    assert!(ty.is_compound());
}

#[allow(dead_code)]
#[derive(Clone, Copy)]
struct Padded {
    a: i8,
    b: u64,
}

impl TypeInfo for Padded {
    fn type_info() -> Type {
        CompoundBuilder::new().field::<i8>("a", 0).field::<u64>("b", 8).build::<Padded>()
    }
}

#[test]
fn test_attributes() {
    let packed = CompoundBuilder::new().field::<i8>("a", 0).field::<u64>("b", 1).build_sized(9);
    assert!(Padded::type_info().size() > packed.size());
}

#[test]
fn test_compound_types() {
    let ty = X::type_info();
    assert_eq!(ty, Compound(vec![NamedField::new(&Int32, "a", 0)], mem::size_of::<X>()));
    assert_eq!(ty.size(), mem::size_of::<X>());
    assert!(ty.is_compound());

    let ty = Y::type_info();
    assert_eq!(
        ty,
        Compound(
            vec![
                NamedField::new(&UInt64, "a", 0),
                NamedField::new(&Array(Box::new(X::type_info()), 2), "x", 8),
            ],
            mem::size_of::<Y>()
        )
    );
    assert_eq!(ty.size(), mem::size_of::<Y>());
    assert!(ty.is_compound());

    let ty = Z::type_info();
    assert_eq!(ty, Compound(vec![], mem::size_of::<Z>()));
    assert_eq!(ty.size(), mem::size_of::<Z>());
    assert!(ty.is_compound());
}
