//! Request handling for a newsletter sign-up service.
//!
//! The crate decides what the service answers and what it stores; the
//! surrounding program owns the sockets and the database connection and
//! carries out the steps this crate hands back.

pub mod form;
pub mod identifier;
pub mod provisioning;
pub mod response;
pub mod routes;
pub mod text;
pub mod urlencoded;
