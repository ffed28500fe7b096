//! A verified model of a small user/book registry service: JSON response
//! encoding and the table semantics behind each endpoint.

pub mod books;
pub mod json;
pub mod outcome;
pub mod text;
pub mod users;
