//! A light serialization framework around an intermediate, JSON-like value.
//!
//! A typed value is serialized to an [`Intermediate`] value, deserialized
//! from one, or updated in place with one: these are the three protocols,
//! the traits [`Serialize`], [`Deserialize`] and [`Update`]. What each of
//! them does is stated over the [`Value`] that an intermediate value stands
//! for.
//!
//! - [`intermediate`], [`object`], [`number`], [`equality`]: the
//!   intermediate value.
//! - [`error`]: the errors, and the lists of the errors of fields.
//! - [`serialize`], [`deserialize`], [`update`], [`tuples`], [`maps`]: the
//!   protocols, for the types of the standard library.
//! - [`structs`], [`enums`]: what an implementation of the protocols for a
//!   struct or an enum does, apart from what depends on the types of the
//!   fields.
//! - [`attributes`]: the annotations that say how a struct or an enum takes
//!   part in the protocols.
//! - [`laws`]: what holds of the protocols together.
//! - [`text`]: numbers in decimal.
pub mod attributes;
pub mod deserialize;
pub mod enums;
pub mod equality;
pub mod error;
pub mod intermediate;
pub mod laws;
pub mod maps;
pub mod number;
pub mod object;
pub mod serialize;
pub mod structs;
pub mod text;
pub mod tuples;
pub mod update;

pub use crate::deserialize::Deserialize;
pub use crate::error::{Error, ErrorList, ErrorView, NamedFieldError, UnnamedFieldError};
pub use crate::intermediate::{Intermediate, Value};
pub use crate::number::Number;
pub use crate::object::Object;
pub use crate::serialize::Serialize;
pub use crate::update::Update;
