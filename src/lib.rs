//! A catalog of book records: validation of inbound requests, a table of
//! books with create / find / update / delete, and the request handlers
//! that tie the two together.
pub mod model;
pub mod store;
pub mod handler;
pub mod laws;
