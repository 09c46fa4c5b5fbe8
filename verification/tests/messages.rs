use rls_server::message::{
    command, envelope, interpret, is_well_formed, parse_message, try_parse_message, Command,
    Envelope, ErrorKind, Field, Method, Notification, ParseError, Request, ServerMessage,
};
use rls_server::params::{read_params, InitializeParams, Params, TextDocumentIdentifier};
use rls_server::reader::{receive, Incoming, MessageReader};
use serde_json::Value;
use std::cell::RefCell;

fn json(text: &str) -> Value {
    serde_json::from_str(text).unwrap()
}

fn parsed(text: &str) -> Result<ServerMessage<Value>, ParseError> {
    let message = try_parse_message(text).unwrap();
    assert_eq!(message, parse_message(text));
    message
}

fn refused(message: &'static str, id: Option<usize>) -> Result<ServerMessage<Value>, ParseError> {
    Err(ParseError::new(ErrorKind::InvalidData, message, id))
}

fn message(method: &str, params: &str) -> String {
    format!("{{\"method\":\"{}\",\"id\":7,\"params\":{}}}", method, params)
}

const INITIALIZE: &str = "{\"processId\":4,\"rootPath\":\"/project\",\"capabilities\":{},\"a\":[-1,2.5,null]}";
const POSITION: &str = "{\"textDocument\":{\"uri\":\"file:///a.rs\"},\"position\":{\"line\":1,\"character\":2},\"a\":[-1,2.5,null]}";
const REFERENCE: &str = "{\"textDocument\":{\"uri\":\"file:///a.rs\"},\"position\":{\"line\":1,\"character\":2},\"context\":{\"includeDeclaration\":true}}";
const ITEM: &str = "{\"label\":\"push\",\"detail\":\"fn push\"}";
const DOCUMENT: &str = "{\"textDocument\":{\"uri\":\"file:///a.rs\"}}";
const RENAME: &str = "{\"textDocument\":{\"uri\":\"file:///a.rs\"},\"position\":{\"line\":1,\"character\":2},\"newName\":\"b\"}";
const FORMAT: &str = "{\"textDocument\":{\"uri\":\"file:///a.rs\"},\"options\":{\"tabSize\":4,\"insertSpaces\":true}}";
const FORMAT_RANGE: &str = "{\"textDocument\":{\"uri\":\"file:///a.rs\"},\"range\":{\"start\":{\"line\":0,\"character\":0},\"end\":{\"line\":9,\"character\":0}},\"options\":{\"tabSize\":4,\"insertSpaces\":true}}";
const CHANGE: &str = "{\"textDocument\":{\"uri\":\"file:///a.rs\",\"version\":2},\"contentChanges\":[{\"text\":\"x\"}]}";
const OPEN: &str = "{\"textDocument\":{\"uri\":\"file:///a.rs\",\"languageId\":\"rust\",\"version\":1,\"text\":\"x\"}}";
const CANCEL: &str = "{\"id\":3}";

fn document() -> TextDocumentIdentifier {
    TextDocumentIdentifier { uri: "file:///a.rs".to_string() }
}

fn project() -> InitializeParams {
    InitializeParams { root_path: Some("/project".to_string()) }
}

#[test]
fn requests_are_read_with_number_and_parameters() {
    let cases: Vec<(&str, &str, Method<Value>)> = vec![
        ("initialize", INITIALIZE, Method::Initialize(project())),
        ("textDocument/hover", POSITION, Method::Hover(json(POSITION))),
        ("textDocument/definition", POSITION, Method::GotoDef(json(POSITION))),
        ("textDocument/references", REFERENCE, Method::FindAllRef(json(REFERENCE))),
        ("textDocument/completion", POSITION, Method::Complete(json(POSITION))),
        ("textDocument/documentHighlight", POSITION, Method::Highlight(json(POSITION))),
        ("completionItem/resolve", ITEM, Method::CompleteResolve(json(ITEM))),
        ("textDocument/documentSymbol", DOCUMENT, Method::Symbols(json(DOCUMENT))),
        ("textDocument/rename", RENAME, Method::Rename(json(RENAME))),
        ("textDocument/formatting", FORMAT, Method::Reformat(document())),
        ("textDocument/rangeFormatting", FORMAT_RANGE, Method::ReformatRange(document())),
        ("shutdown", "[]", Method::Shutdown),
    ];
    for (name, params, method) in cases {
        assert_eq!(
            parsed(&message(name, params)),
            Ok(ServerMessage::Request(Request { id: 7, method }))
        );
    }
}

#[test]
fn notifications_are_read_with_parameters() {
    let cases: Vec<(&str, &str, Notification<Value>)> = vec![
        ("exit", "[]", Notification::Exit),
        ("textDocument/didChange", CHANGE, Notification::Change(json(CHANGE))),
        ("textDocument/didOpen", OPEN, Notification::Open(json(OPEN))),
        ("textDocument/didSave", DOCUMENT, Notification::Save(json(DOCUMENT))),
        ("$/cancelRequest", CANCEL, Notification::CancelRequest(json(CANCEL))),
    ];
    for (name, params, notification) in cases {
        assert_eq!(
            parsed(&message(name, params)),
            Ok(ServerMessage::Notification(notification))
        );
    }
}

#[test]
fn parameters_of_another_type_are_malformed() {
    let cases: Vec<(&str, Vec<&str>)> = vec![
        ("initialize", vec![POSITION, "{\"rootPath\":1,\"capabilities\":{}}"]),
        ("textDocument/hover", vec![DOCUMENT, ITEM]),
        ("textDocument/definition", vec![DOCUMENT, ITEM]),
        ("textDocument/references", vec![POSITION, DOCUMENT]),
        ("textDocument/completion", vec![DOCUMENT, CANCEL]),
        ("textDocument/documentHighlight", vec![DOCUMENT, OPEN]),
        ("completionItem/resolve", vec![POSITION, "{\"label\":1}"]),
        ("textDocument/documentSymbol", vec![ITEM, "{\"textDocument\":{\"uri\":\"a.rs\"}}"]),
        ("textDocument/rename", vec![POSITION, DOCUMENT]),
        ("textDocument/formatting", vec![DOCUMENT, POSITION]),
        ("textDocument/rangeFormatting", vec![FORMAT, DOCUMENT]),
        ("textDocument/didChange", vec![OPEN, DOCUMENT]),
        ("textDocument/didOpen", vec![CHANGE, DOCUMENT]),
        ("textDocument/didSave", vec![ITEM, "{\"textDocument\":\"file:///a.rs\"}"]),
        ("$/cancelRequest", vec![DOCUMENT, "{\"id\":null}"]),
    ];
    for (name, others) in cases {
        for params in others {
            assert!(try_parse_message(&message(name, params)).is_none(), "{} {}", name, params);
        }
        for params in ["null", "{}", "3", "\"x\""] {
            assert!(try_parse_message(&message(name, params)).is_none(), "{} {}", name, params);
        }
    }
}

#[test]
fn parameters_can_be_given_by_position() {
    let format = "[{\"uri\":\"file:///a.rs\"},{\"tabSize\":4,\"insertSpaces\":true}]";
    assert_eq!(
        parsed(&message("textDocument/formatting", format)),
        Ok(ServerMessage::Request(Request { id: 7, method: Method::Reformat(document()) }))
    );
    let range = "[{\"uri\":\"file:///a.rs\"},{\"start\":{\"line\":0,\"character\":0},\"end\":{\"line\":9,\"character\":0}},{\"tabSize\":4,\"insertSpaces\":true}]";
    assert_eq!(
        parsed(&message("textDocument/rangeFormatting", range)),
        Ok(ServerMessage::Request(Request { id: 7, method: Method::ReformatRange(document()) }))
    );
    let hover = "[{\"uri\":\"file:///a.rs\"},[1,2]]";
    assert_eq!(
        parsed(&message("textDocument/hover", hover)),
        Ok(ServerMessage::Request(Request { id: 7, method: Method::Hover(json(hover)) }))
    );
}

#[test]
fn a_document_is_named_by_its_uri_as_it_is_normally_written() {
    let format = "{\"textDocument\":{\"uri\":\"FILE:///a/../b c.rs\"},\"options\":{\"tabSize\":4,\"insertSpaces\":true}}";
    let uri = "file:///b%20c.rs".to_string();
    assert_eq!(
        parsed(&message("textDocument/formatting", format)),
        Ok(ServerMessage::Request(Request {
            id: 7,
            method: Method::Reformat(TextDocumentIdentifier { uri })
        }))
    );
}

#[test]
fn there_need_be_no_root() {
    for params in ["{\"capabilities\":{}}", "{\"rootPath\":null,\"capabilities\":{}}"] {
        assert_eq!(
            parsed(&message("initialize", params)),
            Ok(ServerMessage::Request(Request {
                id: 7,
                method: Method::Initialize(InitializeParams { root_path: None })
            }))
        );
    }
}

#[test]
fn parameters_are_read_as_the_command_takes_them() {
    assert_eq!(
        read_params(Command::Initialize, &json(INITIALIZE)),
        Some(Params::Initialize(project()))
    );
    assert_eq!(read_params(Command::Reformat, &json(FORMAT)), Some(Params::Format(document())));
    assert_eq!(
        read_params(Command::ReformatRange, &json(FORMAT_RANGE)),
        Some(Params::Format(document()))
    );
    assert_eq!(read_params(Command::ReformatRange, &json(FORMAT)), None);
    assert_eq!(read_params(Command::Hover, &json(POSITION)), Some(Params::Other(json(POSITION))));
    assert_eq!(read_params(Command::Hover, &json(DOCUMENT)), None);
    assert_eq!(read_params(Command::Shutdown, &json("[0]")), Some(Params::Other(json("[0]"))));
}

#[test]
fn shutdown_and_exit_need_no_parameters() {
    assert_eq!(
        parsed("{\"jsonrpc\":\"2.0\",\"id\":0,\"method\":\"shutdown\"}"),
        Ok(ServerMessage::Request(Request { id: 0, method: Method::Shutdown }))
    );
    assert_eq!(parsed("{\"method\":\"exit\"}"), Ok(ServerMessage::Notification(Notification::Exit)));
    assert_eq!(
        parsed("{\"method\":\"exit\",\"id\":\"x\"}"),
        Ok(ServerMessage::Notification(Notification::Exit))
    );
}

#[test]
fn messages_without_a_method_are_refused() {
    assert_eq!(parsed("{\"id\":3}"), refused("Method not found", Some(3)));
    assert_eq!(parsed("{}"), refused("Method not found", None));
    assert_eq!(parsed("[1]"), refused("Method not found", None));
    assert_eq!(parsed("null"), refused("Method not found", None));
    assert_eq!(parsed("\"shutdown\""), refused("Method not found", None));
}

#[test]
fn messages_whose_method_is_no_text_are_refused() {
    assert_eq!(parsed("{\"id\":3,\"method\":4}"), refused("Method is not a string", Some(3)));
    assert_eq!(parsed("{\"method\":null}"), refused("Method is not a string", None));
}

#[test]
fn unknown_commands_are_refused_under_their_number() {
    assert_eq!(parsed("{\"id\":9,\"method\":\"fly\"}"), refused("Unknown command", Some(9)));
    assert_eq!(parsed("{\"method\":\"Shutdown\"}"), refused("Unknown command", None));
}

#[test]
fn trace_and_configuration_are_refused_without_a_number() {
    for id in ["", ",\"id\":5", ",\"id\":\"x\""] {
        assert_eq!(
            parsed(&format!("{{\"method\":\"$/setTraceNotification\"{}}}", id)),
            refused("setTraceNotification", None)
        );
        assert_eq!(
            parsed(&format!("{{\"method\":\"workspace/didChangeConfiguration\"{}}}", id)),
            refused("didChangeConfiguration", None)
        );
    }
}

#[test]
fn malformed_messages_are_not_read() {
    for text in [
        "",
        "{",
        "{\"method\":\"exit\"} x",
        "{\"method\":\"shutdown\"}",
        "{\"method\":\"shutdown\",\"id\":\"1\"}",
        "{\"method\":\"shutdown\",\"id\":-1}",
        "{\"method\":\"shutdown\",\"id\":1.0}",
        "{\"method\":\"shutdown\",\"id\":null}",
        "{\"method\":\"textDocument/hover\",\"id\":1}",
        "{\"method\":\"textDocument/documentSymbol\",\"params\":{\"textDocument\":{\"uri\":\"file:///a.rs\"}}}",
        "{\"method\":\"textDocument/didOpen\"}",
        "{\"method\":\"textDocument/formatting\",\"id\":1,\"params\":{\"options\":{}}}",
        "{\"method\":\"textDocument/rangeFormatting\",\"id\":1,\"params\":[]}",
        "{\"method\":\"fly\",\"id\":\"1\"}",
        "{\"method\":4,\"id\":[]}",
        "{\"id\":false}",
    ] {
        assert!(try_parse_message(text).is_none(), "{}", text);
    }
}

#[test]
fn the_envelope_holds_the_members_that_matter() {
    assert_eq!(
        envelope(&json("{\"method\":\"m\",\"id\":18446744073709551615,\"params\":[2],\"x\":0}")),
        Envelope {
            method: Field::Is("m".to_string()),
            id: Field::Is(u64::MAX),
            params: Field::Is(Params::Other(json("[2]"))),
        }
    );
    assert_eq!(
        envelope(&json(&message("textDocument/formatting", FORMAT))),
        Envelope {
            method: Field::Is("textDocument/formatting".to_string()),
            id: Field::Is(7),
            params: Field::Is(Params::Format(document())),
        }
    );
    assert_eq!(
        envelope(&json("{\"method\":\"textDocument/hover\",\"params\":-0.5}")),
        Envelope {
            method: Field::Is("textDocument/hover".to_string()),
            id: Field::Missing,
            params: Field::Unfit,
        }
    );
    assert_eq!(
        envelope(&json("{\"method\":1,\"id\":-3,\"params\":-0.5}")),
        Envelope {
            method: Field::Unfit,
            id: Field::Unfit,
            params: Field::Is(Params::Other(json("-0.5"))),
        }
    );
    assert_eq!(
        envelope(&json("7")),
        Envelope { method: Field::Missing, id: Field::Missing, params: Field::Missing }
    );
}

#[test]
fn envelopes_of_plain_values_are_interpreted() {
    let members = |name: &str, id, params| Envelope {
        method: Field::Is(name.to_string()),
        id,
        params,
    };
    let other = || Field::Is(Params::Other('p'));
    let format = || Field::Is(Params::Format(document()));
    let initialize = || Field::Is(Params::Initialize(project()));
    let hover = |id, params| members("textDocument/hover", id, params);
    assert!(is_well_formed(&hover(Field::Is(2), other())));
    assert_eq!(
        interpret(hover(Field::Is(2), other())),
        Ok(ServerMessage::Request(Request { id: 2, method: Method::Hover('p') }))
    );
    assert!(!is_well_formed(&hover(Field::Is(2), Field::Missing)));
    assert!(!is_well_formed(&hover(Field::Is(2), Field::Unfit)));
    assert!(!is_well_formed(&hover(Field::Is(2), format())));
    assert!(!is_well_formed(&hover(Field::Unfit, other())));
    assert!(!is_well_formed(&hover(Field::Missing, other())));
    let reformat = |params| members("textDocument/formatting", Field::Is(2), params);
    assert!(!is_well_formed(&reformat(other())));
    assert!(!is_well_formed(&reformat(Field::Missing)));
    assert_eq!(
        interpret(reformat(format())),
        Ok(ServerMessage::Request(Request { id: 2, method: Method::Reformat(document()) }))
    );
    let init = |params| members("initialize", Field::Is(2), params);
    assert!(!is_well_formed(&init(other())));
    assert_eq!(
        interpret(init(initialize())),
        Ok(ServerMessage::Request(Request { id: 2, method: Method::Initialize(project()) }))
    );
    assert!(!is_well_formed(&members("fly", Field::Unfit, other())));
    assert!(is_well_formed(&members("fly", Field::Missing, other())));
    assert!(is_well_formed(&members("exit", Field::Unfit, Field::Missing)));
}

#[test]
fn every_command_has_its_own_name() {
    let names = [
        ("shutdown", Command::Shutdown),
        ("initialize", Command::Initialize),
        ("textDocument/hover", Command::Hover),
        ("textDocument/definition", Command::GotoDef),
        ("textDocument/references", Command::FindAllRef),
        ("textDocument/completion", Command::Complete),
        ("textDocument/documentHighlight", Command::Highlight),
        ("completionItem/resolve", Command::CompleteResolve),
        ("textDocument/documentSymbol", Command::Symbols),
        ("textDocument/rename", Command::Rename),
        ("textDocument/formatting", Command::Reformat),
        ("textDocument/rangeFormatting", Command::ReformatRange),
        ("exit", Command::Exit),
        ("textDocument/didChange", Command::Change),
        ("textDocument/didOpen", Command::Open),
        ("textDocument/didSave", Command::Save),
        ("$/cancelRequest", Command::CancelRequest),
        ("$/setTraceNotification", Command::SetTrace),
        ("workspace/didChangeConfiguration", Command::ChangeConfiguration),
        ("", Command::Unknown),
        ("textDocument/didClose", Command::Unknown),
    ];
    for (name, selected) in names {
        assert_eq!(command(name), selected);
    }
}

#[test]
fn answers_go_to_the_number_given() {
    for n in [0usize, 1, 4294967296] {
        let request = parsed(&format!("{{\"id\":{},\"method\":\"shutdown\"}}", n));
        assert_eq!(request, Ok(ServerMessage::Request(Request { id: n, method: Method::Shutdown })));
        let refusal = parsed(&format!("{{\"id\":{}}}", n));
        assert_eq!(refusal, refused("Method not found", Some(n)));
    }
}

struct Texts {
    texts: RefCell<Vec<String>>,
}

impl MessageReader for Texts {
    fn read_message(&self) -> Option<String> {
        self.texts.borrow_mut().pop()
    }
}

struct Silent;

impl MessageReader for Silent {}

#[test]
fn a_reader_parses_what_it_reads() {
    let reader = Texts { texts: RefCell::new(vec!["{".to_string(), "{\"method\":\"exit\"}".to_string()]) };
    assert!(matches!(
        reader.parsed_message(),
        Incoming::Message(Ok(ServerMessage::Notification(Notification::Exit)))
    ));
    assert!(matches!(reader.parsed_message(), Incoming::Malformed));
    assert!(matches!(reader.parsed_message(), Incoming::End));
}

#[test]
fn a_reader_reads_nothing_by_default() {
    assert_eq!(Silent.read_message(), None);
    assert!(matches!(Silent.parsed_message(), Incoming::End));
}

#[test]
fn what_is_received_is_told_apart() {
    assert!(matches!(receive(None), Incoming::End));
    assert!(matches!(receive(Some("nonsense".to_string())), Incoming::Malformed));
    assert!(matches!(receive(Some("{\"id\":1}".to_string())), Incoming::Message(Err(_))));
}
