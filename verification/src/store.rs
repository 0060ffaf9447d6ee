//! The client's settings store: its errors, and what reading and writing a key answer.

use vstd::prelude::*;

verus! {

/// Why a value could not be read or written.
#[derive(Clone, Debug, PartialEq, Eq)]
pub enum StoreError {
    UnretrievableStore(String),
    NonExistentKey(String),
}

/// The kinds of I/O error that a store error is reported to the store plugin as.
#[derive(Clone, Copy, Debug, PartialEq, Eq)]
pub enum IoErrorKind {
    Other,
    NotFound,
}

impl StoreError {
    /// The I/O error that the store plugin is given for this error: a missing store is
    /// `Other`, a missing key is `NotFound`, each with the error's message.
    pub fn io_error(&self) -> (r: (IoErrorKind, String))
        ensures
            match self {
                StoreError::UnretrievableStore(m) => r.0 == IoErrorKind::Other && r.1 == m,
                StoreError::NonExistentKey(m) => r.0 == IoErrorKind::NotFound && r.1 == m,
            },
    {
        match self {
            StoreError::UnretrievableStore(m) => (IoErrorKind::Other, m.clone()),
            StoreError::NonExistentKey(m) => (IoErrorKind::NotFound, m.clone()),
        }
    }

    /// The error of a store collection that the application does not manage.
    pub fn store_not_found() -> (e: StoreError)
        ensures
            e matches StoreError::UnretrievableStore(m) && m@ == "Store not found"@,
    {
        StoreError::UnretrievableStore("Store not found".to_owned())
    }
}

/// What reading a key answers, given what the lookup found: `None` when the application
/// manages no store collection, else the value stored under the key. A key that holds
/// nothing stops the read short, so it is left out.
pub fn store_get_value<V>(lookup: Option<Option<V>>) -> (r: Result<V, StoreError>)
    requires
        lookup matches Some(found) ==> found is Some,
    ensures
        lookup is None ==> (r matches Err(StoreError::UnretrievableStore(m)) && m@
            == "Store not found"@),
        lookup matches Some(Some(v)) ==> r == Ok::<V, StoreError>(v),
{
    match lookup {
        None => Err(StoreError::store_not_found()),
        Some(found) => Ok(found.unwrap()),
    }
}

/// What writing a key answers, given whether the application manages a store collection.
pub fn store_set_value(store_found: bool) -> (r: Result<(), StoreError>)
    ensures
        store_found <==> r is Ok,
        !store_found ==> (r matches Err(StoreError::UnretrievableStore(m)) && m@
            == "Store not found"@),
{
    if store_found {
        Ok(())
    } else {
        Err(StoreError::store_not_found())
    }
}

} // verus!
