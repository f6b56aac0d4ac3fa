//! A typed client for a product information service that answers with
//! "blocks": named sections of one JSON document, each with a payload whose
//! shape depends on the name.
//!
//! A fetch is one `GET`. [`fetch::query_sib`] plans the request, has the
//! transport send it and indexes the blocks of the answer by type.
//! [`store::SibResponse::get_block`] then decodes the payload of one block
//! into whatever shape the caller asks for, one call at a time, so that a
//! payload that does not fit fails that call alone. The transport and the
//! decoders are the caller's: the library decides what is sent, what an
//! answer comes to and which payload a decoder is handed.
//!
//! URLs are handled by the `url` crate and JSON by `serde_json`; the modules
//! [`endpoint`] and [`json`] hold what is taken on trust of them.

pub mod endpoint;
pub mod envelope;
pub mod fetch;
pub mod json;
pub mod product_info;
pub mod request;
pub mod schema;
pub mod store;
pub mod text;

pub use envelope::Block;
pub use fetch::query_sib;
pub use product_info::fetch_product_info;
pub use store::SibResponse;
