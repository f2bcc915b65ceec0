use tushare::Transport;
use tushare::Tushare;
use tushare::TushareError;

struct MockTransport {
    reply: Result<String, String>,
    posts: Vec<(String, String)>,
}

impl MockTransport {
    fn replying(body: &str) -> MockTransport {
        MockTransport { reply: Ok(body.to_string()), posts: Vec::new() }
    }

    fn failing(message: &str) -> MockTransport {
        MockTransport { reply: Err(message.to_string()), posts: Vec::new() }
    }
}

impl Transport for MockTransport {
    fn post(&mut self, url: &str, body: &str) -> Result<String, String> {
        self.posts.push((url.to_string(), body.to_string()));
        self.reply.clone()
    }
}

#[test]
fn success_reply_yields_the_carried_table() {
    let t = Tushare::new("tok");
    let mut mock = MockTransport::replying(
        "{\"code\":0,\"msg\":null,\"data\":{\"fields\":[\"ts_code\",\"list_status\"],\"items\":[[\"000001.SZ\",\"L\"]]}}",
    );
    let table = t.stock_basic().query(&mut mock).unwrap();
    assert_eq!(table.n_columns(), 2);
    assert_eq!(table.n_rows(), 1);
    assert_eq!(table.columns, vec!["ts_code".to_string(), "list_status".to_string()]);
    assert_eq!(table.rows, vec![vec!["000001.SZ".to_string(), "L".to_string()]]);
}

#[test]
fn query_posts_the_request_body_to_the_endpoint() {
    let t = Tushare::new("tok");
    let mut mock = MockTransport::replying(
        "{\"code\":0,\"data\":{\"fields\":[],\"items\":[]}}",
    );
    let _ = t.stock_basic().ts_code("000001.SZ").query(&mut mock);
    assert_eq!(mock.posts.len(), 1);
    assert_eq!(mock.posts[0].0, "http://api.tushare.pro");
    assert_eq!(
        mock.posts[0].1,
        "{\"api_name\":\"stock_basic\",\"token\":\"tok\",\"params\":{\"ts_code\":\"000001.SZ\"}}"
    );
}

#[test]
fn non_success_status_yields_service_error_with_the_message() {
    let t = Tushare::new("tok");
    let mut mock = MockTransport::replying("{\"code\":40001,\"msg\":\"invalid token\"}");
    let err = t.stock_basic().query(&mut mock).unwrap_err();
    match err {
        TushareError::Service(m) => assert_eq!(m, "invalid token"),
        TushareError::Transport(_) => panic!("transport error reported for a service failure"),
        TushareError::Parse(_) => panic!("parse error reported for a service failure"),
    }
}

#[test]
fn non_success_status_without_message_yields_empty_service_message() {
    let t = Tushare::new("tok");
    let mut mock = MockTransport::replying("{\"code\":5,\"msg\":null}");
    let err = t.query_builder("stock_basic").query(&mut mock).unwrap_err();
    match err {
        TushareError::Service(m) => assert_eq!(m, ""),
        _ => panic!("expected a service error"),
    }
}

#[test]
fn mismatched_row_width_yields_parse_error() {
    let t = Tushare::new("tok");
    let mut mock = MockTransport::replying(
        "{\"code\":0,\"data\":{\"fields\":[\"ts_code\",\"list_status\"],\"items\":[[\"000001.SZ\"]]}}",
    );
    let err = t.stock_basic().query(&mut mock).unwrap_err();
    assert!(matches!(err, TushareError::Parse(_)));
}

#[test]
fn missing_data_member_yields_parse_error() {
    let t = Tushare::new("tok");
    let mut mock = MockTransport::replying("{\"code\":0,\"msg\":null}");
    let err = t.stock_basic().query(&mut mock).unwrap_err();
    assert!(matches!(err, TushareError::Parse(_)));
}

#[test]
fn non_json_reply_yields_parse_error() {
    let t = Tushare::new("tok");
    let mut mock = MockTransport::replying("this is not json");
    let err = t.stock_basic().query(&mut mock).unwrap_err();
    assert!(matches!(err, TushareError::Parse(_)));
}

#[test]
fn non_string_field_name_yields_parse_error() {
    let t = Tushare::new("tok");
    let mut mock = MockTransport::replying(
        "{\"code\":0,\"data\":{\"fields\":[7],\"items\":[]}}",
    );
    let err = t.stock_basic().query(&mut mock).unwrap_err();
    assert!(matches!(err, TushareError::Parse(_)));
}

#[test]
fn transport_failure_yields_transport_error_with_the_message() {
    let t = Tushare::new("tok");
    let mut mock = MockTransport::failing("connection refused");
    let err = t.stock_basic().query(&mut mock).unwrap_err();
    match err {
        TushareError::Transport(ref m) => assert_eq!(m, "connection refused"),
        _ => panic!("expected a transport error"),
    }
    assert_eq!(err.message(), "connection refused");
}

#[test]
fn number_null_and_boolean_cells_become_texts() {
    let t = Tushare::new("tok");
    let mut mock = MockTransport::replying(
        "{\"code\":0,\"data\":{\"fields\":[\"a\",\"b\",\"c\"],\"items\":[[12.5,null,true]]}}",
    );
    let table = t.query_builder("stock_basic").query(&mut mock).unwrap();
    assert_eq!(
        table.rows,
        vec![vec!["12.5".to_string(), "".to_string(), "true".to_string()]]
    );
}

#[test]
fn handle_reply_decodes_a_body_directly() {
    let r = tushare::response::handle_reply(
        "{\"code\":0,\"data\":{\"fields\":[\"ts_code\"],\"items\":[[\"000001.SZ\"],[\"600000.SH\"]]}}",
    );
    let table = r.unwrap();
    assert_eq!(table.columns, vec!["ts_code".to_string()]);
    assert_eq!(table.rows.len(), 2);
    assert_eq!(table.rows[1], vec!["600000.SH".to_string()]);
}
