//! Tests of the query-parameter multimap.

use std::collections::HashMap;

use api_builder::query_params::QueryParamPair;
use api_builder::query_params::QueryParamPairs;

#[test]
fn new_keeps_key_and_value() {
    let pair = QueryParamPair::new("key".to_string(), "value".to_string());
    assert_eq!(pair.key, "key");
    assert_eq!(pair.value, "value");
}

#[test]
fn pair_from_tuple() {
    let pair = QueryParamPair::from(("k".to_string(), "v".to_string()));
    assert_eq!(pair.key, "k");
    assert_eq!(pair.value, "v");
}

#[test]
fn push_appends_in_order() {
    let mut params = QueryParamPairs(Vec::new());
    params.push(QueryParamPair::new("a".to_string(), "1".to_string()));
    params.push(QueryParamPair::new("b".to_string(), "2".to_string()));
    assert_eq!(params.0.len(), 2);
    assert_eq!(params.0[0].key, "a");
    assert_eq!(params.0[1].key, "b");
}

#[test]
fn append_moves_the_other_group_to_the_end() {
    let mut params = QueryParamPairs(Vec::new());
    params.push(QueryParamPair::new("a".to_string(), "1".to_string()));
    let mut other = QueryParamPairs(Vec::new());
    other.push(QueryParamPair::new("b".to_string(), "2".to_string()));
    other.push(QueryParamPair::new("c".to_string(), "3".to_string()));
    params.append(other);
    let keys: Vec<&str> = params.0.iter().map(|p| p.key.as_str()).collect();
    assert_eq!(keys, ["a", "b", "c"]);
}

#[test]
fn pairs_from_vec() {
    let params = QueryParamPairs::from(vec![
        QueryParamPair::new("x".to_string(), "1".to_string()),
    ]);
    assert_eq!(params.0.len(), 1);
    assert_eq!(params.0[0].key, "x");
}

#[test]
fn default_is_empty() {
    let params = QueryParamPairs::default();
    assert_eq!(params.0.len(), 0);
}

#[test]
fn push_hashmap_brackets_keys_and_sorts_them() {
    let mut params = QueryParamPairs(Vec::new());
    params.push(QueryParamPair::new("before".to_string(), "kept".to_string()));
    let mut map: HashMap<String, String> = HashMap::new();
    map.insert("beta".to_string(), "2".to_string());
    map.insert("alpha".to_string(), "1".to_string());
    map.insert("gamma".to_string(), "3".to_string());
    params.push_hashmap("filter", map);
    let got: Vec<(&str, &str)> = params.0.iter().map(|p| (p.key.as_str(), p.value.as_str())).collect();
    assert_eq!(
        got,
        [
            ("before", "kept"),
            ("filter[alpha]", "1"),
            ("filter[beta]", "2"),
            ("filter[gamma]", "3"),
        ]
    );
}

#[test]
fn push_hashmap_with_empty_map_adds_nothing() {
    let mut params = QueryParamPairs(Vec::new());
    params.push_hashmap("filter", HashMap::new());
    assert_eq!(params.0.len(), 0);
}
