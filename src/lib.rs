//! Compiles one in-memory Typst document to PDF behind a boundary that hands
//! the bytes out with their length, or nothing and a zero length on any
//! failure. The environment the compiler runs in holds exactly one source and
//! one font, and no auxiliary files.
pub mod boundary;
pub mod external;
pub mod world;

pub use boundary::{build_world, compile_document, compile_typst, conclude, decode_input, settle_export, Failure};
pub use world::{LookupError, SimpleWorld};
