//! Request ingestion and dispatch for the club website's API: a framer over raw
//! bytes, a multipart form decoder, a fixed dispatch table, the session
//! authorization rules and an allow-listed table layer.
pub mod account;
pub mod admin;
pub mod content;
pub mod form;
pub mod framer;
pub mod guard;
pub mod json;
pub mod request;
pub mod route;
pub mod session;
pub mod tables;
pub mod text;
pub mod validation;
pub mod values;
