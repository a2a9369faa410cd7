//! A magic eight-ball answering service: a fixed list of readings, a uniform
//! random pick among them, and the routing of one HTTP request to one response.

pub mod headers;
pub mod json;
pub mod laws;
pub mod readings;
pub mod records;
pub mod response;
pub mod router;
