//! Computes how many bytes a value's length-prefixed binary encoding occupies,
//! without encoding it.
//!
//! Every sizeable type implements [`BorshSize`]. Scalars report their storage
//! width; sequences, slices, fixed-size arrays and text report a four-byte
//! length prefix plus their contents. Records and tagged unions are sized from a
//! shape description by [`derive_data_size`], which turns the shape into a
//! [`SizeFormula`].
pub mod scalar;
pub mod derive;
pub mod sequence;
pub mod shape;
pub mod size;



pub use derive::{derive_data_size, DeriveError, HeldFields, SizeFormula, VariantFormula};
pub use shape::{TypeShape, VariantFields, VariantShape};
pub use size::BorshSize;
