use vstd::prelude::*;

verus! {

/// The entity an error is about.
#[derive(Debug, Clone, Copy, PartialEq, Eq, Structural)]
pub enum EntityKind {
    Product,
    Item,
}

/// A failure reported by the store.
#[derive(Debug, PartialEq, Eq)]
pub enum StoreError {
    /// A unique key (a product's uuid) would be duplicated.
    UniqueViolation,
    /// An item's `product_id` would not name a stored product, or a product
    /// that items still reference would be removed.
    ForeignKeyViolation,
    /// An update by primary key found no row to change.
    RecordNotUpdated,
    /// The surrogate key sequence has no value left.
    KeyExhausted,
    /// Any other failure of the backend (connectivity and the like), with
    /// the backend's own text.
    Backend(String),
}

/// Input that breaks a business rule.
#[derive(Debug, Clone, Copy, PartialEq, Eq, Structural)]
pub enum ValidationError {
    /// The name of a product or an item is empty.
    EmptyName(EntityKind),
}

/// The error taxonomy that the services report to their callers.
#[derive(Debug, PartialEq, Eq)]
pub enum ServiceError {
    Validation(ValidationError),
    NotFound(EntityKind),
    Store(StoreError),
}

/// The text of a store error.
pub open spec fn store_error_text(e: StoreError) -> Seq<char> {
    match e {
        StoreError::UniqueViolation => "duplicate key value"@,
        StoreError::ForeignKeyViolation => "foreign key constraint violated"@,
        StoreError::RecordNotUpdated => "no record was updated"@,
        StoreError::KeyExhausted => "key sequence exhausted"@,
        StoreError::Backend(text) => text@,
    }
}

/// The text of a service error.
pub open spec fn service_error_text(e: ServiceError) -> Seq<char> {
    match e {
        ServiceError::Validation(ValidationError::EmptyName(EntityKind::Product)) =>
            "Product name cannot be empty"@,
        ServiceError::Validation(ValidationError::EmptyName(EntityKind::Item)) =>
            "Item name cannot be empty"@,
        ServiceError::NotFound(EntityKind::Product) => "Product not found"@,
        ServiceError::NotFound(EntityKind::Item) => "Item not found"@,
        ServiceError::Store(e) => store_error_text(e),
    }
}

impl Clone for StoreError {
    fn clone(&self) -> (r: Self)
        ensures
            r == *self,
    {
        match self {
            StoreError::UniqueViolation => StoreError::UniqueViolation,
            StoreError::ForeignKeyViolation => StoreError::ForeignKeyViolation,
            StoreError::RecordNotUpdated => StoreError::RecordNotUpdated,
            StoreError::KeyExhausted => StoreError::KeyExhausted,
            StoreError::Backend(text) => StoreError::Backend(text.clone()),
        }
    }
}

impl Clone for ServiceError {
    fn clone(&self) -> (r: Self)
        ensures
            r == *self,
    {
        match self {
            ServiceError::Validation(v) => ServiceError::Validation(*v),
            ServiceError::NotFound(k) => ServiceError::NotFound(*k),
            ServiceError::Store(e) => ServiceError::Store(e.clone()),
        }
    }
}

impl StoreError {
    /// A short text for a response body.
    pub fn message(&self) -> (r: String)
        ensures
            r@ == store_error_text(*self),
    {
        match self {
            StoreError::UniqueViolation => "duplicate key value".to_owned(),
            StoreError::ForeignKeyViolation => "foreign key constraint violated".to_owned(),
            StoreError::RecordNotUpdated => "no record was updated".to_owned(),
            StoreError::KeyExhausted => "key sequence exhausted".to_owned(),
            StoreError::Backend(text) => text.clone(),
        }
    }
}

impl ServiceError {
    /// A short text for a response body.
    pub fn message(&self) -> (r: String)
        ensures
            r@ == service_error_text(*self),
    {
        match self {
            ServiceError::Validation(ValidationError::EmptyName(EntityKind::Product)) =>
                "Product name cannot be empty".to_owned(),
            ServiceError::Validation(ValidationError::EmptyName(EntityKind::Item)) =>
                "Item name cannot be empty".to_owned(),
            ServiceError::NotFound(EntityKind::Product) => "Product not found".to_owned(),
            ServiceError::NotFound(EntityKind::Item) => "Item not found".to_owned(),
            ServiceError::Store(e) => e.message(),
        }
    }
}

} // verus!
