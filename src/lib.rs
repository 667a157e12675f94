//! Request routing and header echo for a two-endpoint diagnostic HTTP server.
//!
//! The library decides, for every request, which of three replies it gets:
//! the static diagnostic page, a listing of the request's own headers, or an
//! empty "not found". The HTTP plumbing around it lives in the application.

pub mod routing;
pub mod headers;
pub mod page;
pub mod reply;
pub mod config;
