//! Compiles a structured record description into the shape of a filter
//! input type, the rule of each field's predicate, and the query that a value
//! of the filter input builds.
//!
//! - [`classify`]: a declared type name to its value category.
//! - [`annotation`]: the keywords of a filter annotation to its options.
//! - [`collect`]: a record description to its ordered filter fields.
//! - [`shape`]: the filter fields to the members of the filter input type.
//! - [`query`]: predicate rules, and the query that a filter input builds.
//! - [`semantics`]: which stored rows a query matches, and its laws.
//! - [`generate`]: all of it for one record.
//! - [`matching`]: running a query over stored rows, page and count.
pub mod model;
pub mod classify;
pub mod annotation;
pub mod collect;
pub mod shape;
pub mod query;
pub mod semantics;
pub mod generate;
pub mod matching;
pub mod execute;
