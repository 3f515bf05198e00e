//! Request preparation and response classification for the stock quotation
//! endpoints of the Korea Investment & Securities open API.

pub mod address;
pub mod auth;
pub mod error;
pub mod reply;
pub mod stock;
pub mod text;
pub mod types;

pub use error::{Error, UrlError};
