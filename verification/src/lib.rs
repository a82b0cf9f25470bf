//! Verified core of the MouSuo storefront: money formatting, the order state
//! machine, slug and redirect validation, query-string parsing, record ids and
//! the decisions taken by the checkout, payment and admin handlers.

pub mod text;
pub mod common;
pub mod db;
pub mod models;
pub mod components;
pub mod app;
