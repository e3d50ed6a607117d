use vstd::prelude::*;

use crate::error::{service_error_text, ServiceError};
use crate::model::{ItemModel, ProductModel};

verus! {

pub const STATUS_OK: u16 = 200;

pub const STATUS_CREATED: u16 = 201;

pub const STATUS_BAD_REQUEST: u16 = 400;

pub const STATUS_NOT_FOUND: u16 = 404;

pub const STATUS_INTERNAL_SERVER_ERROR: u16 = 500;

/// The response code for each kind of service error: a client error for
/// invalid input, not-found for a missing entity, a server error for a
/// store failure.
pub open spec fn status_for(e: ServiceError) -> u16 {
    match e {
        ServiceError::Validation(_) => STATUS_BAD_REQUEST,
        ServiceError::NotFound(_) => STATUS_NOT_FOUND,
        ServiceError::Store(_) => STATUS_INTERNAL_SERVER_ERROR,
    }
}

/// The response code for a service error.
pub fn status_of(e: &ServiceError) -> (r: u16)
    ensures
        r == status_for(*e),
{
    match e {
        ServiceError::Validation(_) => STATUS_BAD_REQUEST,
        ServiceError::NotFound(_) => STATUS_NOT_FOUND,
        ServiceError::Store(_) => STATUS_INTERNAL_SERVER_ERROR,
    }
}

/// Body of a reply about items.
pub enum ItemResponse {
    Success(ItemModel),
    SuccessList(Vec<ItemModel>),
    Error { message: String },
}

/// Body of a reply about products.
pub enum ProductResponse {
    Success(ProductModel),
    SuccessList(Vec<ProductModel>),
    Error { message: String },
}

/// Body of a reply to a deletion.
pub enum DeleteResponse {
    Success { message: String },
    Error { message: String },
}

impl ItemResponse {
    /// The reply to a service result about one item: `ok` and the item, or
    /// the error's code and text.
    pub fn of_item(r: Result<ItemModel, ServiceError>, ok: u16) -> (out: (u16, ItemResponse))
        ensures
            match r {
                Ok(it) => out.0 == ok && out.1 == ItemResponse::Success(it),
                Err(e) => out.0 == status_for(e) && (out.1 matches ItemResponse::Error { message }
                    && message@ == service_error_text(e)),
            },
    {
        match r {
            Ok(it) => (ok, ItemResponse::Success(it)),
            Err(e) => (status_of(&e), ItemResponse::Error { message: e.message() }),
        }
    }

    /// The reply to a service result about all items.
    pub fn of_items(r: Result<Vec<ItemModel>, ServiceError>) -> (out: (u16, ItemResponse))
        ensures
            match r {
                Ok(v) => out.0 == STATUS_OK && out.1 == ItemResponse::SuccessList(v),
                Err(e) => out.0 == status_for(e) && (out.1 matches ItemResponse::Error { message }
                    && message@ == service_error_text(e)),
            },
    {
        match r {
            Ok(v) => (STATUS_OK, ItemResponse::SuccessList(v)),
            Err(e) => (status_of(&e), ItemResponse::Error { message: e.message() }),
        }
    }
}

impl ProductResponse {
    /// The reply to a service result about one product: `ok` and the
    /// product, or the error's code and text.
    pub fn of_product(r: Result<ProductModel, ServiceError>, ok: u16) -> (out: (
        u16,
        ProductResponse,
    ))
        ensures
            match r {
                Ok(p) => out.0 == ok && out.1 == ProductResponse::Success(p),
                Err(e) => out.0 == status_for(e) && (out.1 matches ProductResponse::Error {
                    message,
                } && message@ == service_error_text(e)),
            },
    {
        match r {
            Ok(p) => (ok, ProductResponse::Success(p)),
            Err(e) => (status_of(&e), ProductResponse::Error { message: e.message() }),
        }
    }

    /// The reply to a service result about all products.
    pub fn of_products(r: Result<Vec<ProductModel>, ServiceError>) -> (out: (u16, ProductResponse))
        ensures
            match r {
                Ok(v) => out.0 == STATUS_OK && out.1 == ProductResponse::SuccessList(v),
                Err(e) => out.0 == status_for(e) && (out.1 matches ProductResponse::Error {
                    message,
                } && message@ == service_error_text(e)),
            },
    {
        match r {
            Ok(v) => (STATUS_OK, ProductResponse::SuccessList(v)),
            Err(e) => (status_of(&e), ProductResponse::Error { message: e.message() }),
        }
    }
}

impl DeleteResponse {
    /// The reply to a deletion of a `what` ("Item", "Product"): success
    /// with `"<what> deleted successfully"`, or the error's code and text.
    pub fn of_deletion(r: Result<(), ServiceError>, what: &str) -> (out: (u16, DeleteResponse))
        ensures
            match r {
                Ok(()) => out.0 == STATUS_OK && (out.1 matches DeleteResponse::Success { message }
                    && message@ == what@ + " deleted successfully"@),
                Err(e) => out.0 == status_for(e) && (out.1 matches DeleteResponse::Error { message }
                    && message@ == service_error_text(e)),
            },
    {
        match r {
            Ok(()) => {
                let message = what.to_owned().concat(" deleted successfully");
                (STATUS_OK, DeleteResponse::Success { message })
            },
            Err(e) => (status_of(&e), DeleteResponse::Error { message: e.message() }),
        }
    }
}

} // verus!
