//! Font resolution for a document renderer: a table of standard fonts,
//! shared font handles compared by identity, and a cache that loads each
//! standard font at most once and remembers failures.
pub mod cache;
pub mod handle;
pub mod laws;
pub mod standard;
pub mod viewer;
