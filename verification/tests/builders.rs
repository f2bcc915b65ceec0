use tushare::ParamMap;
use tushare::Tushare;

#[test]
fn new_stores_token_and_fixed_endpoint() {
    let t = Tushare::new("my-secret-token");
    assert_eq!(t.token, "my-secret-token");
    assert_eq!(t.api_endpoint, "http://api.tushare.pro");
}

#[test]
fn query_builder_carries_endpoint_name() {
    let t = Tushare::new("tok");
    let q = t.query_builder("daily");
    assert_eq!(q.api_name, "daily");
    assert_eq!(q.params.len(), 0);
}

#[test]
fn param_map_insert_and_get() {
    let mut m = ParamMap::new();
    assert!(m.get("ts_code").is_none());
    m.insert("ts_code", "000001.SZ");
    m.insert("list_status", "L");
    assert_eq!(m.len(), 2);
    assert_eq!(m.get("ts_code").unwrap(), "000001.SZ");
    assert_eq!(m.get("list_status").unwrap(), "L");
    assert!(m.get("exchange").is_none());
}

#[test]
fn param_map_insert_twice_keeps_later_value() {
    let mut m = ParamMap::new();
    m.insert("ts_code", "000001.SZ");
    m.insert("ts_code", "600000.SH");
    assert_eq!(m.len(), 1);
    assert_eq!(m.get("ts_code").unwrap(), "600000.SH");
}

#[test]
fn param_map_empty_value_is_kept() {
    let mut m = ParamMap::new();
    m.insert("ts_code", "");
    assert_eq!(m.len(), 1);
    assert_eq!(m.get("ts_code").unwrap(), "");
}

#[test]
fn convert_with_no_slot_set_yields_empty_mapping() {
    let t = Tushare::new("tok");
    let q = t.stock_basic().into_query_builder();
    assert_eq!(q.api_name, "stock_basic");
    assert_eq!(q.params.len(), 0);
}

#[test]
fn convert_with_ts_code_only_yields_exactly_that_key() {
    let t = Tushare::new("tok");
    let q = t.stock_basic().ts_code("000001.SZ").into_query_builder();
    assert_eq!(q.params.len(), 1);
    assert_eq!(q.params.get("ts_code").unwrap(), "000001.SZ");
    assert!(q.params.get("list_status").is_none());
}

#[test]
fn convert_with_list_status_only_yields_exactly_that_key() {
    let t = Tushare::new("tok");
    let q = t.stock_basic().list_status("L").into_query_builder();
    assert_eq!(q.params.len(), 1);
    assert!(q.params.get("ts_code").is_none());
    assert_eq!(q.params.get("list_status").unwrap(), "L");
}

#[test]
fn convert_with_both_slots_set_yields_exactly_both_keys() {
    let t = Tushare::new("tok");
    let q = t.stock_basic().ts_code("000001.SZ").list_status("L").into_query_builder();
    assert_eq!(q.params.len(), 2);
    assert_eq!(q.params.get("ts_code").unwrap(), "000001.SZ");
    assert_eq!(q.params.get("list_status").unwrap(), "L");
}

#[test]
fn setting_same_parameter_twice_keeps_later_value() {
    let t = Tushare::new("tok");
    let q = t.stock_basic().ts_code("000001.SZ").ts_code("600000.SH").into_query_builder();
    assert_eq!(q.params.len(), 1);
    assert_eq!(q.params.get("ts_code").unwrap(), "600000.SH");
}

#[test]
fn builders_are_independent_values() {
    let t = Tushare::new("tok");
    let a = t.stock_basic().ts_code("000001.SZ");
    let b = t.stock_basic().list_status("L");
    let qa = a.into_query_builder();
    let qb = b.into_query_builder();
    assert_eq!(qa.params.len(), 1);
    assert_eq!(qa.params.get("ts_code").unwrap(), "000001.SZ");
    assert!(qa.params.get("list_status").is_none());
    assert_eq!(qb.params.len(), 1);
    assert!(qb.params.get("ts_code").is_none());
    assert_eq!(qb.params.get("list_status").unwrap(), "L");
}

#[test]
fn request_body_is_the_expected_json() {
    let t = Tushare::new("tok");
    let q = t.stock_basic().ts_code("000001.SZ").list_status("L").into_query_builder();
    let body = q.request_body();
    assert_eq!(
        body,
        "{\"api_name\":\"stock_basic\",\"token\":\"tok\",\"params\":{\"ts_code\":\"000001.SZ\",\"list_status\":\"L\"}}"
    );
}

#[test]
fn request_body_with_no_params_has_empty_object() {
    let t = Tushare::new("tok");
    let q = t.query_builder("stock_basic");
    assert_eq!(
        q.request_body(),
        "{\"api_name\":\"stock_basic\",\"token\":\"tok\",\"params\":{}}"
    );
}

#[test]
fn request_body_escapes_quotes_backslashes_and_controls() {
    let t = Tushare::new("a\"b\\c\nd\re\tf");
    let q = t.query_builder("daily");
    assert_eq!(
        q.request_body(),
        "{\"api_name\":\"daily\",\"token\":\"a\\\"b\\\\c\\nd\\re\\tf\",\"params\":{}}"
    );
}

#[test]
fn params_merge_replaces_and_keeps() {
    let t = Tushare::new("tok");
    let mut first = ParamMap::new();
    first.insert("ts_code", "000001.SZ");
    first.insert("exchange", "SZSE");
    let mut second = ParamMap::new();
    second.insert("ts_code", "600000.SH");
    let q = t.query_builder("stock_basic").params(first).params(second);
    assert_eq!(q.params.len(), 2);
    assert_eq!(q.params.get("ts_code").unwrap(), "600000.SH");
    assert_eq!(q.params.get("exchange").unwrap(), "SZSE");
}
