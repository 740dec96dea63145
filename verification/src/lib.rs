//! A verified product store: one collection of products, persisted in a
//! SQLite database, read whole and replaced whole.
//!
//! The price of a product travels through the library as the bit pattern
//! of its IEEE 754 double and is persisted in an INTEGER column, so that
//! every value — a NaN included — survives a write and a later read
//! verbatim; a REAL column could not keep that promise. A database file
//! whose product table carries any other schema, a trigger, or an index
//! is refused at initialization rather than served.

pub mod product;
pub mod service;
pub mod store;
