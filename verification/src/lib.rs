//! A fluent, in-memory builder for parameterized SQL text.
//!
//! Statements are assembled from a chained sequence of predicate calls kept
//! in insertion order, together with disjunction markers and position-keyed
//! bracket counters that reconstruct nested `AND`/`OR` groups at render time.
//! Rendering produces the final SQL text; the bound values are handed out in
//! exactly the order their placeholders appear in that text.

use vstd::prelude::*;

pub mod bracket;
pub mod chain;
pub mod laws;
pub mod repository;
pub mod value;
pub mod wrapper;

verus! {

/// A field identifier, opaque to the builder: it is spliced into the SQL
/// text exactly as given.
pub struct LambdaField<'a>(pub &'a str);

impl<'a> LambdaField<'a> {
    pub fn new(field: &'a str) -> (r: Self)
        ensures
            r.0 == field,
    {
        LambdaField(field)
    }

    pub fn as_str(&self) -> (r: &'a str)
        ensures
            r == self.0,
    {
        self.0
    }
}

/// A domain record that lives in one table. Implemented by the user of the
/// library for each mapped type; the builder only reads the table name and
/// the primary-key field.
pub trait Entity {
    fn table_name() -> &'static str;

    fn primary_key<'b>() -> LambdaField<'b>;
}

} // verus!
