//! Names for hardware parts.
//!
//! The library turns the catalog's description of a fastener or component,
//! a family description and a list of named specifications, into a short
//! name such as `BHS-SS188-1/4x20-0.75-HEX`.

pub mod client;
pub mod models;
pub mod naming;
pub mod text;
pub mod utils;

pub use models::{
    CadFile, CadFormat, Credentials, ErrorResponse, LinkItem, LoginRequest, LoginResponse,
    ProductDetail, ProductInfo, ProductLinks, ProductResponse, Specification,
};
pub use naming::generator::{NameGenerator, NamingTemplate};
pub use utils::output::{OutputFormat, ProductField};
