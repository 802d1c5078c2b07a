//! Array-trimming utilities: remove a given number of elements from the left
//! end, the right end, or both ends of an array of optional elements.
//!
//! The `trim` module holds the core operations on plain vectors together with
//! the laws they obey; the `udf` module wraps them as nullable scalar
//! functions in the style of a query engine, where an absent array or an
//! absent count makes the whole result absent.

pub mod trim;
pub mod udf;
