use vstd::prelude::*;

use crate::error::{EntityKind, ServiceError, StoreError};

verus! {

/// What an update does once the row has been looked up: write the given
/// row, or reply at once without touching the store again.
pub enum Next<W, T> {
    Write(W),
    Reply(Result<T, ServiceError>),
}

/// A repository result as a service result: store failures pass through
/// unchanged, as `ServiceError::Store`.
pub fn stored<T>(r: Result<T, StoreError>) -> (o: Result<T, ServiceError>)
    ensures
        match r {
            Ok(x) => o == Ok::<T, ServiceError>(x),
            Err(e) => o == Err::<T, ServiceError>(ServiceError::Store(e)),
        },
{
    match r {
        Ok(x) => Ok(x),
        Err(e) => Err(ServiceError::Store(e)),
    }
}

/// A lookup's result as a service result: "no row matched" becomes
/// `NotFound` for the entity `kind`.
pub fn found<T>(r: Result<Option<T>, StoreError>, kind: EntityKind) -> (o: Result<T, ServiceError>)
    ensures
        match r {
            Ok(Some(x)) => o == Ok::<T, ServiceError>(x),
            Ok(None) => o == Err::<T, ServiceError>(ServiceError::NotFound(kind)),
            Err(e) => o == Err::<T, ServiceError>(ServiceError::Store(e)),
        },
{
    match r {
        Ok(Some(x)) => Ok(x),
        Ok(None) => Err(ServiceError::NotFound(kind)),
        Err(e) => Err(ServiceError::Store(e)),
    }
}

/// A deletion's result as a service result: no row removed becomes
/// `NotFound` for the entity `kind`.
pub fn removed(r: Result<bool, StoreError>, kind: EntityKind) -> (o: Result<(), ServiceError>)
    ensures
        match r {
            Ok(true) => o == Ok::<(), ServiceError>(()),
            Ok(false) => o == Err::<(), ServiceError>(ServiceError::NotFound(kind)),
            Err(e) => o == Err::<(), ServiceError>(ServiceError::Store(e)),
        },
{
    match r {
        Ok(true) => Ok(()),
        Ok(false) => Err(ServiceError::NotFound(kind)),
        Err(e) => Err(ServiceError::Store(e)),
    }
}

} // verus!
