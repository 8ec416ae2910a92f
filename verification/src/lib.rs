//! A structured-data serializer: walks a statically-shaped source value
//! (scalars, options, sequences, tuples, maps, structs, enum variants) and
//! produces an equivalent value in a dynamically-typed object model
//! (mappings, ordered sequences, scalars, null), through a customizable
//! set of target builder types.

pub mod json;
pub mod laws;
pub mod ser;
pub mod value;
