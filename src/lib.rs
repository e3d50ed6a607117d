//! Inventory of products and the items that belong to them: a data model,
//! a relational store with its key constraints, repositories that translate
//! domain operations into store operations, and services that enforce the
//! business rules above them.

pub mod model;
pub mod error;
pub mod ident;
pub mod store;
pub mod product_repository;
pub mod item_repository;
pub mod outcome;
pub mod product_service;
pub mod item_service;
pub mod response;
