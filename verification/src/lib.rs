//! Core of a desktop record-management tool: typed records (partners,
//! products, product types, sales) with a uniform create/read/delete
//! repository contract against a relational store, a unified error taxonomy,
//! and a browser-style navigation history over the application's screens.

pub mod date;
pub mod error;
pub mod nav;
pub mod partners;
pub mod product_types;
pub mod products;
pub mod sales;
pub mod store;
pub mod views;
