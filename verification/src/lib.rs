//! Register-description front end: the SystemRDL abstract syntax the generator
//! consumes, constant-expression evaluation, property values, and the
//! conversion of address maps, register files, registers and fields into an
//! index-addressed component arena.

pub mod ast;
pub mod bits;
pub mod error;
pub mod value;
pub mod integer;
pub mod component;
pub mod world;
pub mod eval;
pub mod model;
pub mod convert;
pub mod root;
pub mod laws;
