//! The client: where the engine is, and what each operation sends.
use vstd::prelude::*;
use crate::url::{listing_url, push_int, search_url};

verus! {

/// An HTTP connection pool, shared by all requests of a client.
#[verifier::external_type_specification]
#[verifier::external_body]
pub struct ExClient(reqwest::Client);

/// A JSON value, as handed over for a request body.
#[verifier::external_type_specification]
#[verifier::external_body]
pub struct ExValue(serde_json::Value);

/// Relies on `reqwest::Client::new` to make a client with default settings;
/// nothing is promised of it.
pub assume_specification[ reqwest::Client::new ]() -> reqwest::Client;

/// The HTTP method of a request.
#[derive(Debug, Clone, Copy, PartialEq, Eq, Structural)]
pub enum Method {
    Get,
    Post,
}

/// What a search sends: the method, the address, and the JSON body if any.
#[derive(Debug)]
pub struct SearchRequest {
    pub method: Method,
    pub url: String,
    pub body: Option<serde_json::Value>,
}

/// A client of one engine, reached at `address` (scheme included, as in
/// `"http://localhost"`) and `port`.
#[derive(Debug)]
pub struct ElasticsearchClient {
    /// The connection pool that requests go through.
    pub client: reqwest::Client,
    pub address: String,
    pub port: i32,
}

impl ElasticsearchClient {
    /// A client of the engine at `addr` and `port`; neither is checked here.
    pub fn new(addr: String, port: i32) -> (r: Self)
        ensures
            r.address == addr,
            r.port == port,
    {
        ElasticsearchClient { client: reqwest::Client::new(), address: addr, port: port }
    }

    /// `address:port`, the start of every request address.
    fn base_url(&self) -> (r: String)
        ensures
            r@ == self.address@ + ":"@ + crate::url::decimal(self.port as int),
    {
        let mut s = self.address.clone();
        s.append(":");
        push_int(&mut s, self.port);
        s
    }

    /// The address that lists the indices matching `index_pattern`, or all
    /// of them.
    pub fn index_names_url(&self, index_pattern: Option<&str>) -> (r: String)
        ensures
            r@ == listing_url(
                self.address@,
                self.port as int,
                match index_pattern {
                    Some(p) => Some(p@),
                    None => None,
                },
            ),
    {
        let mut s = self.base_url();
        s.append("/_cat/indices/");
        match index_pattern {
            Some(p) => s.append(p),
            None => {
                proof {
                    reveal_strlit("");
                }
                s.append("");
            },
        }
        s.append("?format=json");
        s
    }

    /// The address of the search endpoint of `index`.
    pub fn search_url(&self, index: &str) -> (r: String)
        ensures
            r@ == search_url(self.address@, self.port as int, index@),
    {
        let mut s = self.base_url();
        s.append("/");
        s.append(index);
        s.append("/_search");
        s
    }

    /// The request that searches `index`: a POST carrying `search_param`
    /// exactly when one is given, else a GET with no body.
    pub fn search_request(&self, index: &str, search_param: Option<serde_json::Value>) -> (r:
        SearchRequest)
        ensures
            r.url@ == search_url(self.address@, self.port as int, index@),
            r.method == (if search_param is Some {
                Method::Post
            } else {
                Method::Get
            }),
            r.body == search_param,
    {
        let url = self.search_url(index);
        match search_param {
            Some(param) => SearchRequest { method: Method::Post, url, body: Some(param) },
            None => SearchRequest { method: Method::Get, url, body: None },
        }
    }
}

} // verus!
