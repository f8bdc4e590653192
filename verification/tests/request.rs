use crypto_botters::request::{is_header_value, is_success, joined, Header, RequestParts};

fn request(query: Option<&str>, body: Option<&str>) -> RequestParts {
    RequestParts {
        method: "GET".to_owned(),
        origin: "https://example.com".to_owned(),
        path: "/v1/orders".to_owned(),
        query: query.map(str::to_owned),
        headers: vec![],
        body: body.map(str::to_owned),
    }
}

fn header(name: &str, value: &str) -> Header {
    Header { name: name.to_owned(), value: value.to_owned() }
}

#[test]
fn target_and_url() {
    assert_eq!(request(None, None).target(), "/v1/orders");
    assert_eq!(request(Some("a=1&b=2"), None).target(), "/v1/orders?a=1&b=2");
    assert_eq!(request(Some(""), None).target(), "/v1/orders?");
    assert_eq!(request(None, None).url(), "https://example.com/v1/orders");
    assert_eq!(request(Some("a=1"), None).url(), "https://example.com/v1/orders?a=1");
}

#[test]
fn body_or_empty() {
    assert_eq!(request(None, None).body_or_empty(), "");
    assert_eq!(request(None, Some("{\"a\":1}")).body_or_empty(), "{\"a\":1}");
}

#[test]
fn query_with_a_pair() {
    assert_eq!(request(None, None).query_with("timestamp", "5"), "timestamp=5");
    assert_eq!(request(Some(""), None).query_with("timestamp", "5"), "timestamp=5");
    assert_eq!(request(Some("a=1"), None).query_with("timestamp", "5"), "a=1&timestamp=5");
}

#[test]
fn get_and_delete_carry_parameters_in_the_query() {
    for (method, expected) in
        [("GET", true), ("DELETE", true), ("POST", false), ("PUT", false), ("get", false), ("", false)]
    {
        let mut request = request(None, None);
        request.method = method.to_owned();
        assert_eq!(request.is_get_or_delete(), expected);
    }
}

#[test]
fn appended_headers_come_last() {
    let mut request = request(None, None);
    request.append_header("a", "1".to_owned());
    request.append_header("b", "2".to_owned());
    request.append_header("a", "3".to_owned());
    assert_eq!(request.headers, vec![header("a", "1"), header("b", "2"), header("a", "3")]);
}

#[test]
fn inserted_headers_replace_those_of_their_name() {
    let mut request = request(None, None);
    request.append_header("a", "1".to_owned());
    request.append_header("b", "2".to_owned());
    request.append_header("a", "3".to_owned());
    request.append_header("c", "4".to_owned());
    request.insert_header("a", "5".to_owned());
    assert_eq!(request.headers, vec![header("b", "2"), header("c", "4"), header("a", "5")]);
    request.insert_header("d", "6".to_owned());
    assert_eq!(
        request.headers,
        vec![header("b", "2"), header("c", "4"), header("a", "5"), header("d", "6")]
    );
    assert_eq!(request.method, "GET");
    assert_eq!(request.path, "/v1/orders");
}

#[test]
fn header_values() {
    assert!(is_header_value(""));
    assert!(is_header_value("abcDEF123-_~ "));
    assert!(is_header_value("tab\tinside"));
    assert!(is_header_value("ключ"));
    assert!(!is_header_value("line\nbreak"));
    assert!(!is_header_value("carriage\rreturn"));
    assert!(!is_header_value("nul\0"));
    assert!(!is_header_value("delete\u{7f}"));
}

#[test]
fn success_is_200_to_299() {
    for (status, expected) in
        [(199, false), (200, true), (204, true), (299, true), (300, false), (404, false), (500, false)]
    {
        assert_eq!(is_success(status), expected);
    }
}

#[test]
fn joined_text() {
    assert_eq!(joined("", ""), "");
    assert_eq!(joined("abc", "def"), "abcdef");
}
