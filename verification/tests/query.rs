use crypto_botters::query::{
    first_of, form_document_of, form_pairs_of, query_pairs_of, sorted, written,
};

fn pairs(list: &[(&str, &str)]) -> Vec<(String, String)> {
    list.iter().map(|(name, value)| (name.to_string(), value.to_string())).collect()
}

#[test]
fn query_pairs_are_unescaped() {
    assert_eq!(query_pairs_of(""), pairs(&[]));
    assert_eq!(query_pairs_of("a=1&b=2"), pairs(&[("a", "1"), ("b", "2")]));
    assert_eq!(query_pairs_of("a=x%20y&b=c+d&e"), pairs(&[("a", "x y"), ("b", "c d"), ("e", "")]));
    assert_eq!(query_pairs_of("k%3D=v%26"), pairs(&[("k=", "v&")]));
}

#[test]
fn form_pairs_are_taken_as_they_are() {
    assert_eq!(form_pairs_of(""), pairs(&[("", "")]));
    assert_eq!(form_pairs_of("a=1"), pairs(&[("a", "1")]));
    assert_eq!(form_pairs_of("a=1&b=2"), pairs(&[("a", "1"), ("b", "2")]));
    assert_eq!(form_pairs_of("a=x%20y&b"), pairs(&[("a", "x%20y"), ("b", "")]));
    assert_eq!(form_pairs_of("a=b=c&&d="), pairs(&[("a", "b=c"), ("", ""), ("d", "")]));
}

#[test]
fn sorted_orders_by_name_then_value() {
    assert_eq!(sorted(pairs(&[])), pairs(&[]));
    assert_eq!(
        sorted(pairs(&[("symbol", "BTCUSD"), ("api_key", "k"), ("timestamp", "5"), ("side", "Buy")])),
        pairs(&[("api_key", "k"), ("side", "Buy"), ("symbol", "BTCUSD"), ("timestamp", "5")])
    );
    assert_eq!(
        sorted(pairs(&[("b", "2"), ("a", "9"), ("b", "10"), ("a", ""), ("ab", "0"), ("B", "1")])),
        pairs(&[("B", "1"), ("a", ""), ("a", "9"), ("ab", "0"), ("b", "10"), ("b", "2")])
    );
    assert_eq!(
        sorted(pairs(&[("é", "1"), ("z", "1"), ("€", "1")])),
        pairs(&[("z", "1"), ("é", "1"), ("€", "1")])
    );
}

#[test]
fn written_joins_with_ampersands_and_drops_empty_values() {
    assert_eq!(written(&pairs(&[])), "");
    assert_eq!(written(&pairs(&[("a", "1")])), "a=1");
    assert_eq!(written(&pairs(&[("a", "")])), "a");
    assert_eq!(written(&pairs(&[("a", "1"), ("b", ""), ("c", "3")])), "a=1&b&c=3");
    assert_eq!(written(&pairs(&[("", ""), ("api_key", "k")])), "&api_key=k");
    assert_eq!(written(&pairs(&[("a", "x y&z")])), "a=x y&z");
}

#[test]
fn form_as_json_document() {
    let document = form_document_of("b=2&a=1&sign=ab").unwrap();
    assert_eq!(document.to_string(), "{\"a\":\"1\",\"b\":\"2\",\"sign\":\"ab\"}");
    let document = form_document_of("a=x%20y").unwrap();
    assert_eq!(document.to_string(), "{\"a\":\"x y\"}");
}

#[test]
fn first_of_finds_the_first_value_of_a_name() {
    let list = pairs(&[("a", "1"), ("b", "2"), ("a", "3"), ("", "4")]);
    assert_eq!(first_of(&list, "a").as_deref(), Some("1"));
    assert_eq!(first_of(&list, "b").as_deref(), Some("2"));
    assert_eq!(first_of(&list, "").as_deref(), Some("4"));
    assert_eq!(first_of(&list, "c"), None);
    assert_eq!(first_of(&pairs(&[]), "a"), None);
}
