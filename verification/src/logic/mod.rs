//! The request and response models and the rules that act on them.

pub mod request;
pub mod response;

pub use request::HttpMethod;
