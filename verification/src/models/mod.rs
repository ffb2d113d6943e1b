//! Data models of the catalog.

pub mod api;
pub mod auth;
pub mod product;

pub use api::{CadFile, CadFormat, LinkItem, ProductInfo, ProductLinks, ProductResponse};
pub use auth::{Credentials, ErrorResponse, LoginRequest, LoginResponse};
pub use product::{ProductDetail, Specification};
