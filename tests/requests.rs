use es_client::{push_decimal, push_int, ElasticsearchClient, Method};

fn local() -> ElasticsearchClient {
    ElasticsearchClient::new("http://localhost".to_string(), 9200)
}

#[test]
fn new_keeps_address_and_port() {
    let c = ElasticsearchClient::new("http://es.example".to_string(), 9300);
    assert_eq!(c.address, "http://es.example");
    assert_eq!(c.port, 9300);
}

#[test]
fn listing_url_without_pattern() {
    assert_eq!(local().index_names_url(None), "http://localhost:9200/_cat/indices/?format=json");
}

#[test]
fn listing_url_with_pattern() {
    assert_eq!(
        local().index_names_url(Some("logs-*")),
        "http://localhost:9200/_cat/indices/logs-*?format=json"
    );
}

#[test]
fn search_url_of_index() {
    assert_eq!(local().search_url("books"), "http://localhost:9200/books/_search");
}

#[test]
fn negative_port_is_written_with_sign() {
    let c = ElasticsearchClient::new("http://h".to_string(), -42);
    assert_eq!(c.search_url("i"), "http://h:-42/i/_search");
}

#[test]
fn decimal_digits() {
    for (n, text) in [(0u32, "0"), (7, "7"), (10, "10"), (305, "305"), (4294967295, "4294967295")] {
        let mut s = String::from("x");
        push_decimal(&mut s, n);
        assert_eq!(s, format!("x{}", text));
    }
}

#[test]
fn signed_decimal_extremes() {
    for n in [i32::MIN, -1, 0, 1, i32::MAX] {
        let mut s = String::new();
        push_int(&mut s, n);
        assert_eq!(s, n.to_string());
    }
}

#[test]
fn search_with_body_is_post_with_that_body() {
    let body: serde_json::Value = serde_json::from_str(r#"{"query":{"match_all":{}}}"#).unwrap();
    let req = local().search_request("books", Some(body.clone()));
    assert_eq!(req.method, Method::Post);
    assert_eq!(req.url, "http://localhost:9200/books/_search");
    assert_eq!(req.body, Some(body));
}

#[test]
fn search_without_body_is_get() {
    let req = local().search_request("books", None);
    assert_eq!(req.method, Method::Get);
    assert_eq!(req.url, "http://localhost:9200/books/_search");
    assert!(req.body.is_none());
}
