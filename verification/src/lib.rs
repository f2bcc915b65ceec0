//! A typed client for the tushare financial-data web API.
//!
//! A [`client::Tushare`] value holds the access token and the fixed service
//! endpoint. From it a caller obtains either a generic
//! [`query::QueryBuilder`] for an arbitrary endpoint name, or a typed builder
//! such as [`endpoints::StockBasicQueryBuilder`] whose setters are checked
//! against the endpoint's declared parameter vocabulary. The terminal query
//! operation serializes the request, hands it to a [`query::Transport`], and
//! decodes the reply into a [`table::Table`] or a [`error::TushareError`].

pub mod client;
pub mod endpoints;
pub mod error;
pub mod json;
pub mod params;
pub mod query;
pub mod request;
pub mod response;
pub mod table;

pub use client::Tushare;
pub use endpoints::StockBasicQueryBuilder;
pub use error::TushareError;
pub use params::ParamMap;
pub use query::QueryBuilder;
pub use query::Transport;
pub use table::Table;
