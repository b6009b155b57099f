use vstd::prelude::*;
use crate::record::SessionKeys;

verus! {

/// A failure below the repository: the connection, the pool or the query.
/// The message is for the server's log only.
#[derive(Debug)]
pub struct StorageError {
    pub message: String,
}

/// Why loading the row of one id gave no row.
#[derive(Debug)]
pub enum LoadError {
    /// The query ran and no row has that id.
    NotFound,
    /// The storage failed.
    Failed(StorageError),
}

/// What a lookup by id reports, given what loading the row gave.
pub open spec fn lookup_outcome(loaded: Result<SessionKeys, LoadError>) -> Result<
    Option<SessionKeys>,
    StorageError,
> {
    match loaded {
        Ok(k) => Ok(Some(k)),
        Err(LoadError::NotFound) => Ok(None),
        Err(LoadError::Failed(e)) => Err(e),
    }
}

/// The result of looking up one id, from what loading its row gave: a
/// missing row is a normal absence, not a failure; every other failure
/// stays a storage error.
pub fn find_by_public_id(loaded: Result<SessionKeys, LoadError>) -> (r: Result<
    Option<SessionKeys>,
    StorageError,
>)
    ensures
        r == lookup_outcome(loaded),
{
    match loaded {
        Ok(k) => Ok(Some(k)),
        Err(LoadError::NotFound) => Ok(None),
        Err(LoadError::Failed(e)) => Err(e),
    }
}

} // verus!
