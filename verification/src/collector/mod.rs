//! What the collectors decide about the raw facts they gather: classifying
//! paths, parsing command lines and task listings, and caching signature
//! checks. Reading the system itself happens outside the library.

pub mod persistence;
pub mod processes;
pub mod signature;
