//! Verified core of a small rtnetlink client: request construction, reply
//! decoding and the bookkeeping around addresses, links, bridges and routes.
pub mod addr;
pub mod cli;
pub mod error;
pub mod link;
pub mod mappers;
pub mod nl;
pub mod request;
pub mod route;
mod util;

pub use error::Error;
