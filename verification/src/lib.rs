//! A book-lending service library: the domain model of books, users and
//! checkouts, the rows read from the database, the decisions taken while a
//! book is checked out or returned, the access-token store keys, and the
//! mapping of application errors to HTTP status codes.

pub mod id;
pub mod error;
pub mod text;
pub mod model;
pub mod auth;
pub mod kv_store;
pub mod book_row;
pub mod checkout_row;
pub mod checkout_flow;
pub mod health;
