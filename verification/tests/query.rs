use helpscout::{decode_query, encode_query};

fn pairs(list: &[(&str, &str)]) -> Vec<(String, String)> {
    list.iter().map(|(k, v)| (k.to_string(), v.to_string())).collect()
}

#[test]
fn plain_pairs_encode_in_order() {
    let encoded = encode_query(&pairs(&[("a", "1"), ("b", "two")]));
    assert_eq!(encoded, "a=1&b=two");
}

#[test]
fn reserved_bytes_are_percent_escaped() {
    let encoded = encode_query(&pairs(&[("q", "a b&c=d%e+f")]));
    assert_eq!(encoded, "q=a%20b%26c%3Dd%25e%2Bf");
}

#[test]
fn unicode_values_escape_their_utf8_bytes() {
    let encoded = encode_query(&pairs(&[("name", "Mëg")]));
    assert_eq!(encoded, "name=M%C3%ABg");
}

#[test]
fn empty_pair_list_encodes_to_the_empty_string() {
    assert_eq!(encode_query(&vec![]), "");
    assert_eq!(decode_query(""), Some(vec![]));
}

#[test]
fn empty_keys_and_values_survive() {
    let original = pairs(&[("", ""), ("k", ""), ("", "v")]);
    let encoded = encode_query(&original);
    assert_eq!(encoded, "=&k=&=v");
    assert_eq!(decode_query(&encoded), Some(original));
}

#[test]
fn round_trip_reproduces_all_pairs_in_order() {
    let original = pairs(&[
        ("firstName", "Mega Dog"),
        ("email", "guh+dog@example.com"),
        ("note", "50% = half & more"),
        ("emoji", "ünïcödé ✓"),
        ("page", "1"),
    ]);
    let encoded = encode_query(&original);
    assert_eq!(decode_query(&encoded), Some(original));
}

#[test]
fn percent_decoding_restores_utf8_text() {
    assert_eq!(decode_query("a=%C3%A9"), Some(pairs(&[("a", "é")])));
}

#[test]
fn malformed_escapes_do_not_decode() {
    assert_eq!(decode_query("a=%zz"), None);
    assert_eq!(decode_query("a=%4"), None);
    assert_eq!(decode_query("a"), None);
    assert_eq!(decode_query("a=%FF"), None);
}
