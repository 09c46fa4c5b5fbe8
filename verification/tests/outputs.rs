use rls_server::output::{
    failure_text, notification_text, parse_error_text, success_text, Output,
};
use serde_json::Value;
use std::cell::RefCell;

struct Sent {
    texts: RefCell<Vec<String>>,
}

impl Output for Sent {
    fn response(&self, output: String) {
        self.texts.borrow_mut().push(output);
    }
}

fn json(text: &str) -> Value {
    serde_json::from_str(text).unwrap()
}

#[test]
fn the_texts_are_exact() {
    assert_eq!(
        parse_error_text(),
        r#"{"jsonrpc": "2.0", "error": {"code": -32700, "message": "Parse error"}, "id": null}"#
    );
    assert_eq!(
        failure_text(12, "Unsupported message"),
        r#"{"jsonrpc":"2.0","id":12,"error":{"code":-32601,"message":"Unsupported message"}}"#
    );
    assert_eq!(success_text(0, "{}"), r#"{"jsonrpc":"2.0","id":0,"result":{}}"#);
    assert_eq!(
        notification_text("rustDocument/beginBuild"),
        r#"{"jsonrpc":"2.0","method":"rustDocument/beginBuild","params":null}"#
    );
}

#[test]
fn messages_are_escaped() {
    let message = "a\"b\\c\n\t\r\u{8}\u{c}\u{0}\u{1f}\u{7f}\u{e9}\u{1f600}/";
    let text = failure_text(1, message);
    assert_eq!(
        text,
        "{\"jsonrpc\":\"2.0\",\"id\":1,\"error\":{\"code\":-32601,\"message\":\"a\\\"b\\\\c\\n\\t\\r\\b\\f\\u0000\\u001f\u{7f}\u{e9}\u{1f600}/\"}}"
    );
    let value = json(&text);
    assert_eq!(value["error"]["message"].as_str(), Some(message));
    assert_eq!(value["id"].as_u64(), Some(1));
    let notification = json(&notification_text(message));
    assert_eq!(notification["method"].as_str(), Some(message));
    assert!(notification["params"].is_null());
}

#[test]
fn the_texts_are_json() {
    let value = json(&success_text(usize::MAX, "[1,{\"a\":null}]"));
    assert_eq!(value["id"].as_u64(), Some(u64::MAX));
    assert_eq!(value["jsonrpc"].as_str(), Some("2.0"));
    assert_eq!(value["result"], json("[1,{\"a\":null}]"));
    let error = json(&parse_error_text());
    assert_eq!(error["error"]["code"].as_i64(), Some(-32700));
    assert!(error["id"].is_null());
}

#[test]
fn answers_differ_where_requests_or_results_do() {
    let answers = [
        success_text(1, "{}"),
        success_text(11, "{}"),
        success_text(1, "1"),
        failure_text(1, "{}"),
        failure_text(11, "{}"),
        failure_text(1, "1"),
        failure_text(1, "\"1\""),
    ];
    for i in 0..answers.len() {
        for j in 0..answers.len() {
            assert_eq!(answers[i] == answers[j], i == j);
        }
    }
}

#[test]
fn an_output_sends_the_texts() {
    let sent = Sent { texts: RefCell::new(Vec::new()) };
    sent.parse_error();
    sent.failure(3, "no");
    sent.success(4, "[]");
    sent.notify("n");
    assert_eq!(
        *sent.texts.borrow(),
        vec![parse_error_text(), failure_text(3, "no"), success_text(4, "[]"), notification_text("n")]
    );
}
