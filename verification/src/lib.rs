//! Runtime type information for plain-old-data types.
//!
//! A [`Type`] describes the byte layout of a type: a scalar, a fixed-size
//! array, a tuple, or a record with named fields, nested to any depth, with
//! the offset of every field and the total size. A type that implements
//! [`TypeInfo`] gives its descriptor when asked, without a value at hand:
//!
//! ```ignore
//! use typeinfo::{CompoundBuilder, Type, TypeInfo};
//!
//! #[derive(Clone, Copy)]
//! struct Color { r: u16, g: u16, b: u16 }
//!
//! impl TypeInfo for Color {
//!     fn type_info() -> Type {
//!         CompoundBuilder::new()
//!             .field::<u16>("r", std::mem::offset_of!(Color, r))
//!             .field::<u16>("g", std::mem::offset_of!(Color, g))
//!             .field::<u16>("b", std::mem::offset_of!(Color, b))
//!             .build::<Color>()
//!     }
//! }
//!
//! assert_eq!(<[Color; 16]>::type_info().size(), 96);
//! ```
//!
//! - [`descriptor`]: the descriptors, what they stand for, and the queries
//!   on them;
//! - [`structural`]: copies and structural equality;
//! - [`type_info`]: the [`TypeInfo`] capability, for scalars and arrays;
//! - [`record`]: deriving the descriptor of a record or a tuple;
//! - [`packing`]: disjoint, sequential and packed layouts, and what they
//!   imply;
//! - [`inspect`]: telling which of these a descriptor shows.

pub mod descriptor;
pub mod inspect;
pub mod packing;
pub mod record;
pub mod structural;
pub mod type_info;

pub use descriptor::{Field, FieldView, NamedField, NamedFieldView, ShapeKind, Type, TypeView};
pub use record::{CompoundBuilder, TupleBuilder};
pub use type_info::TypeInfo;
