//! Notification-driven JSON snapshot regeneration engine.
//!
//! A fixed registry maps resource names to SQL queries whose rows are JSON
//! texts.  The serializer renders a sequence of such rows as one JSON array,
//! with an exact byte-for-byte format.  The engine decides, for each change
//! notification, which snapshot file to rewrite and with what content.

use vstd::prelude::*;

pub mod engine;
pub mod parse;
pub mod registry;
pub mod serializer;

verus! {

/// A registered resource: a snapshot file name and the query that produces
/// one JSON text per row of the snapshot's array.
pub struct Resource {
    pub name: &'static str,
    pub sql: &'static str,
}

impl Resource {
    pub fn new(name: &'static str, sql: &'static str) -> (r: Self)
        ensures
            r.name == name,
            r.sql == sql,
    {
        Resource { name, sql }
    }
}

} // verus!
