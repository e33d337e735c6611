//! The remote service: what is asked of it and how its replies are judged.

pub mod account;
pub mod digest;
pub mod endpoints;
pub mod fetch;
pub mod likes;
pub mod playlist;
pub mod resolve;
pub mod signing;
pub mod types;
pub mod xml;
