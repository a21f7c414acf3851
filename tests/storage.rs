use http_cache_core::{
    cache_key, is_method_get_head, merge_headers, req_key, set_header, CacheEntry, HttpVersion,
    MemoryStore, StoredResponse,
};

fn response(status: u16, headers: &[(&str, &str)], body: &[u8], url: &str) -> StoredResponse {
    StoredResponse {
        status,
        headers: headers.iter().map(|(n, v)| (n.to_string(), v.to_string())).collect(),
        body: body.to_vec(),
        url: url.to_string(),
        version: HttpVersion::Http11,
    }
}

fn lookup<'a>(headers: &'a [(String, String)], name: &str) -> Vec<&'a str> {
    headers.iter().filter(|(n, _)| n == name).map(|(_, v)| v.as_str()).collect()
}

#[test]
fn key_joins_method_and_url() {
    assert_eq!(req_key("GET", "https://example.test/a"), "GET:https://example.test/a");
    assert_eq!(req_key("HEAD", "http://x/"), "HEAD:http://x/");
}

#[test]
fn key_normalizes_url_spelling() {
    let a = cache_key("GET", "HTTPS://Example.TEST:443/a/./b").unwrap();
    assert_eq!(a, "GET:https://example.test/a/b");
    let b = cache_key("GET", "https://example.test/a/b").unwrap();
    assert_eq!(a, b);
    assert_eq!(cache_key("GET", "not a url"), None);
}

#[test]
fn only_get_and_head_are_cacheable() {
    assert!(is_method_get_head("GET"));
    assert!(is_method_get_head("HEAD"));
    assert!(!is_method_get_head("POST"));
    assert!(!is_method_get_head("get"));
    assert!(!is_method_get_head("GETS"));
    assert!(!is_method_get_head(""));
}

#[test]
fn set_header_overwrites_same_name_only() {
    let h = vec![
        ("etag".to_string(), "\"1\"".to_string()),
        ("content-type".to_string(), "text/plain".to_string()),
    ];
    let r = set_header(&h, "etag", "\"2\"");
    assert_eq!(r.len(), 2);
    assert_eq!(lookup(&r, "etag"), vec!["\"2\""]);
    assert_eq!(lookup(&r, "content-type"), vec!["text/plain"]);
    let r = set_header(&h, "age", "5");
    assert_eq!(r.len(), 3);
    assert_eq!(lookup(&r, "age"), vec!["5"]);
}

#[test]
fn merge_headers_takes_updates_over_base() {
    let base = vec![
        ("etag".to_string(), "\"1\"".to_string()),
        ("content-type".to_string(), "text/plain".to_string()),
    ];
    let updates = vec![
        ("etag".to_string(), "\"2\"".to_string()),
        ("date".to_string(), "today".to_string()),
    ];
    let r = merge_headers(&base, &updates);
    assert_eq!(r.len(), 3);
    assert_eq!(lookup(&r, "etag"), vec!["\"2\""]);
    assert_eq!(lookup(&r, "content-type"), vec!["text/plain"]);
    assert_eq!(lookup(&r, "date"), vec!["today"]);
}

#[test]
fn response_header_lookup() {
    let r = response(200, &[("etag", "a"), ("etag", "b")], b"", "http://x/");
    assert_eq!(r.header("etag"), Some("b".to_string()));
    assert_eq!(r.header("age"), None);
}

#[test]
fn empty_store_has_nothing() {
    let s = MemoryStore::new();
    assert!(s.get("GET", "https://example.test/a").is_none());
}

#[test]
fn put_then_get_round_trips() {
    let mut s = MemoryStore::new();
    let url = "https://example.test/a";
    let r = response(200, &[("cache-control", "max-age=60")], b"hello", url);
    let back = s.put("GET", url, r, vec![1, 2, 3]);
    assert_eq!(back.body, b"hello".to_vec());
    let e: CacheEntry = s.get("GET", url).unwrap();
    assert_eq!(e.response.status, 200);
    assert_eq!(e.response.body, b"hello".to_vec());
    assert_eq!(e.response.headers, vec![("cache-control".to_string(), "max-age=60".to_string())]);
    assert_eq!(e.response.url, url);
    assert_eq!(e.response.version, HttpVersion::Http11);
    assert_eq!(e.policy, vec![1, 2, 3]);
    assert!(s.get("HEAD", url).is_none());
}

#[test]
fn put_twice_keeps_one_entry() {
    let mut s = MemoryStore::new();
    let url = "https://example.test/a";
    s.put("GET", url, response(200, &[], b"x", url), vec![7]);
    s.put("GET", url, response(200, &[], b"x", url), vec![7]);
    let e = s.get("GET", url).unwrap();
    assert_eq!(e.response.body, b"x".to_vec());
    s.delete("GET", url);
    assert!(s.get("GET", url).is_none());
}

#[test]
fn put_replaces_earlier_entry() {
    let mut s = MemoryStore::new();
    let url = "https://example.test/a";
    s.put("GET", url, response(200, &[], b"old", url), vec![1]);
    s.put("GET", url, response(201, &[], b"new", url), vec![2]);
    let e = s.get("GET", url).unwrap();
    assert_eq!(e.response.status, 201);
    assert_eq!(e.response.body, b"new".to_vec());
    assert_eq!(e.policy, vec![2]);
}

#[test]
fn delete_absent_is_noop() {
    let mut s = MemoryStore::new();
    let url = "https://example.test/a";
    s.delete("GET", url);
    s.put("GET", url, response(200, &[], b"x", url), vec![]);
    s.delete("GET", "https://example.test/b");
    assert!(s.get("GET", url).is_some());
}

#[test]
fn clear_removes_everything() {
    let mut s = MemoryStore::new();
    s.put("GET", "http://x/1", response(200, &[], b"1", "http://x/1"), vec![]);
    s.put("GET", "http://x/2", response(200, &[], b"2", "http://x/2"), vec![]);
    s.clear();
    assert!(s.get("GET", "http://x/1").is_none());
    assert!(s.get("GET", "http://x/2").is_none());
}

#[test]
fn merge_headers_leaves_one_value_per_updated_name() {
    let base = vec![
        ("etag".to_string(), "\"a\"".to_string()),
        ("vary".to_string(), "accept".to_string()),
        ("etag".to_string(), "\"b\"".to_string()),
    ];
    let updates = vec![("etag".to_string(), "\"c\"".to_string())];
    let r = merge_headers(&base, &updates);
    assert_eq!(lookup(&r, "etag"), vec!["\"c\""]);
    assert_eq!(lookup(&r, "vary"), vec!["accept"]);
    assert_eq!(r.len(), 2);
}
