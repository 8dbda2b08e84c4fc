pub mod call;
pub mod client;
pub mod common;
pub mod error;
pub mod response;
pub mod value;

pub use client::Endpoint;
pub use error::{Error, Result};
