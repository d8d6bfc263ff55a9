//! What the library knows of the store: a contact as a row holds it, and the
//! answers that the store gives.

use vstd::prelude::*;

verus! {

/// One contact.
#[derive(Clone, Debug)]
pub struct Contact {
    pub id: i32,
    pub name: String,
    pub email: String,
}

/// The store's answer to "which account holds this value?": the id of the one
/// that does, `None` where no account holds it, or the store's report of why
/// it could not say.
pub type Lookup = Result<Option<i32>, String>;

/// What the store reports of a statement that changed it.
#[derive(Clone, Copy, Debug, PartialEq, Eq)]
pub struct QueryResult {
    pub rows_affected: u64,
    pub last_insert_id: u64,
}

} // verus!
