//! A small client for an Elasticsearch-compatible search engine.
//!
//! The library plans each HTTP request (address, method, body), reads the
//! index listing, and takes the document sources out of a search response.
//! Sending the requests is left to the caller.
pub mod client;
pub mod listing;
pub mod model;
pub mod url;

pub use client::{ElasticsearchClient, Method, SearchRequest};
pub use listing::{
    field, field_of, index_names, index_names_from_body, index_names_of, listing_of, Entry,
    ListingError,
};
pub use model::{sources_of, Hits, HitsItem, SearchParams, SearchResult, Shard, Total};
pub use url::{decimal, decimal_nat, digit_char, listing_url, push_decimal, push_int, search_url};
