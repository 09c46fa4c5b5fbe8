use rls_server::capabilities::{capabilities, InitializeResult, TextDocumentSyncKind};
use rls_server::message::{
    ErrorKind, Method, Notification, ParseError, Request, ServerMessage,
};
use rls_server::params::{InitializeParams, TextDocumentIdentifier};
use rls_server::output::{failure_text, parse_error_text, success_text, Output};
use rls_server::reader::MessageReader;
use rls_server::service::{
    answer, reply, Ack, Action, Answer, Call, Event, InitStep, LsService, ResponseData,
    ServerStateChange,
};
use std::cell::RefCell;

struct Texts {
    texts: RefCell<Vec<String>>,
}

impl MessageReader for Texts {
    fn read_message(&self) -> Option<String> {
        let mut texts = self.texts.borrow_mut();
        if texts.is_empty() {
            None
        } else {
            Some(texts.remove(0))
        }
    }
}

struct Sent {
    texts: RefCell<Vec<String>>,
}

impl Output for Sent {
    fn response(&self, output: String) {
        self.texts.borrow_mut().push(output);
    }
}

fn service(texts: Vec<&str>) -> LsService<Texts> {
    LsService::new(Texts { texts: RefCell::new(texts.into_iter().map(|t| t.to_string()).collect()) })
}

fn request(id: usize, method: Method<char>) -> Option<Result<ServerMessage<char>, ParseError>> {
    Some(Ok(ServerMessage::Request(Request { id, method })))
}

fn notification(n: Notification<char>) -> Option<Result<ServerMessage<char>, ParseError>> {
    Some(Ok(ServerMessage::Notification(n)))
}

#[test]
fn requests_are_answered_or_handed_on_under_their_number() {
    let mut service = service(vec![]);
    let document = || TextDocumentIdentifier { uri: "file:///a.rs".to_string() };
    let project = || InitializeParams { root_path: Some("/project".to_string()) };
    let call = |call| Action::Call { id: 5, call, params: 'p' };
    let cases: Vec<(Method<char>, Action<char>)> = vec![
        (Method::Initialize(project()), Action::Init { id: 5, init: project() }),
        (Method::Hover('p'), call(Call::Hover)),
        (Method::GotoDef('p'), call(Call::GotoDef)),
        (Method::FindAllRef('p'), call(Call::FindAllRefs)),
        (Method::Complete('p'), call(Call::Complete)),
        (Method::Highlight('p'), call(Call::Highlight)),
        (
            Method::CompleteResolve('p'),
            Action::Success { id: 5, data: ResponseData::CompletionItems(vec!['p']) },
        ),
        (Method::Symbols('p'), call(Call::Symbols)),
        (Method::Rename('p'), call(Call::Rename)),
        (Method::Reformat(document()), Action::Reformat { id: 5, text_document: document() }),
        (Method::ReformatRange(document()), Action::Reformat { id: 5, text_document: document() }),
        (Method::Shutdown, Action::Success { id: 5, data: ResponseData::Ack(Ack {}) }),
    ];
    for (method, action) in cases {
        assert_eq!(service.respond(request(5, method)), (ServerStateChange::Continue, action));
    }
}

#[test]
fn notifications_are_handed_on() {
    let mut service = service(vec![]);
    let event = |event| Action::Event { event, params: 'p' };
    let cases: Vec<(Notification<char>, Action<char>)> = vec![
        (Notification::CancelRequest('p'), Action::Nothing),
        (Notification::Change('p'), event(Event::OnChange)),
        (Notification::Open('p'), event(Event::OnOpen)),
        (Notification::Save('p'), event(Event::OnSave)),
    ];
    for (n, action) in cases {
        assert_eq!(service.respond(notification(n)), (ServerStateChange::Continue, action));
    }
}

#[test]
fn refused_messages_are_answered_if_they_have_a_number() {
    let mut service = service(vec![]);
    let refused = |id| Some(Err(ParseError::new(ErrorKind::InvalidData, "why", id)));
    assert_eq!(
        service.respond::<char>(refused(Some(8))),
        (ServerStateChange::Continue, Action::Failure { id: 8, message: "Unsupported message" })
    );
    assert_eq!(service.respond::<char>(refused(None)), (ServerStateChange::Continue, Action::Nothing));
}

#[test]
fn only_the_end_of_the_input_stops_the_service() {
    let mut service = service(vec![]);
    assert_eq!(service.respond::<char>(None), (ServerStateChange::Break, Action::ParseError));
    service.respond(request(1, Method::Shutdown));
    assert_eq!(service.respond::<char>(None), (ServerStateChange::Break, Action::ParseError));
}

#[test]
fn exit_without_shutdown_fails() {
    let mut service = service(vec![]);
    service.respond(request(1, Method::Hover('p')));
    assert_eq!(
        service.respond(notification(Notification::Exit)),
        (ServerStateChange::Continue, Action::Exit { code: 1 })
    );
}

#[test]
fn after_shutdown_only_exit_is_heeded() {
    let mut service = service(vec![]);
    service.respond(request(1, Method::Shutdown));
    let ignored: Vec<Option<Result<ServerMessage<char>, ParseError>>> = vec![
        request(2, Method::Shutdown),
        request(3, Method::Hover('p')),
        request(4, Method::Initialize(InitializeParams { root_path: None })),
        notification(Notification::Change('p')),
        Some(Err(ParseError::new(ErrorKind::InvalidData, "why", Some(5)))),
    ];
    for message in ignored {
        assert_eq!(service.respond(message), (ServerStateChange::Continue, Action::Nothing));
    }
    assert_eq!(
        service.respond(notification(Notification::Exit)),
        (ServerStateChange::Continue, Action::Exit { code: 0 })
    );
}

#[test]
fn a_session_is_served_from_texts() {
    let mut service = service(vec![
        "{\"id\":1,\"method\":\"fly\"}",
        "{\"id\":2,\"method\":\"shutdown\"}",
        "{\"id\":3,\"method\":\"fly\"}",
        "{\"method\":\"exit\"}",
        "{",
    ]);
    let continued = |action| Some((ServerStateChange::Continue, action));
    assert_eq!(
        service.handle_message(),
        continued(Action::Failure { id: 1, message: "Unsupported message" })
    );
    assert_eq!(
        service.handle_message(),
        continued(Action::Success { id: 2, data: ResponseData::Ack(Ack {}) })
    );
    assert_eq!(service.handle_message(), continued(Action::Nothing));
    assert_eq!(service.handle_message(), continued(Action::Exit { code: 0 }));
    assert_eq!(service.handle_message(), None);
    assert_eq!(service.handle_message(), Some((ServerStateChange::Break, Action::ParseError)));
}

#[test]
fn trace_and_configuration_are_dropped() {
    let mut service = service(vec![
        "{\"id\":1,\"method\":\"$/setTraceNotification\"}",
        "{\"method\":\"workspace/didChangeConfiguration\",\"params\":{}}",
        "{\"method\":\"fly\"}",
    ]);
    for _ in 0..3 {
        assert_eq!(service.handle_message(), Some((ServerStateChange::Continue, Action::Nothing)));
    }
}

#[test]
fn replies_are_sent() {
    let sent = Sent { texts: RefCell::new(Vec::new()) };
    assert_eq!(reply::<char, Sent>(Action::Nothing, &sent), None);
    assert_eq!(reply::<char, Sent>(Action::ParseError, &sent), None);
    assert_eq!(
        reply::<char, Sent>(Action::Failure { id: 6, message: "Unsupported message" }, &sent),
        None
    );
    assert_eq!(
        reply::<char, Sent>(Action::Success { id: 7, data: ResponseData::Ack(Ack {}) }, &sent),
        None
    );
    assert_eq!(
        *sent.texts.borrow(),
        vec![parse_error_text(), failure_text(6, "Unsupported message"), success_text(7, "{}")]
    );
}

#[test]
fn other_work_is_handed_back() {
    let sent = Sent { texts: RefCell::new(Vec::new()) };
    let items = || Action::Success { id: 7, data: ResponseData::CompletionItems(vec!['p']) };
    assert_eq!(reply(items(), &sent), Some(items()));
    let call = || Action::Call { id: 1, call: Call::Rename, params: 'p' };
    assert_eq!(reply(call(), &sent), Some(call()));
    assert_eq!(reply::<char, Sent>(Action::Exit { code: 1 }, &sent), Some(Action::Exit { code: 1 }));
    assert!(sent.texts.borrow().is_empty());
}

#[test]
fn the_server_offers_what_it_can_do() {
    for unstable in [false, true] {
        let offered = capabilities(unstable);
        assert_eq!(offered.text_document_sync, Some(TextDocumentSyncKind::Incremental));
        assert_eq!(offered.hover_provider, Some(true));
        let completion = offered.completion_provider.unwrap();
        assert_eq!(completion.resolve_provider, Some(true));
        assert_eq!(completion.trigger_characters, vec![".".to_string(), ":".to_string()]);
        assert_eq!(offered.signature_help_provider.unwrap().trigger_characters, Some(vec![]));
        assert_eq!(offered.definition_provider, Some(true));
        assert_eq!(offered.references_provider, Some(true));
        assert_eq!(offered.document_highlight_provider, Some(true));
        assert_eq!(offered.document_symbol_provider, Some(true));
        assert_eq!(offered.workspace_symbol_provider, Some(true));
        assert_eq!(offered.code_action_provider, Some(false));
        assert_eq!(offered.code_lens_provider, None);
        assert_eq!(offered.document_formatting_provider, Some(unstable));
        assert_eq!(offered.document_range_formatting_provider, Some(unstable));
        assert_eq!(offered.document_on_type_formatting_provider, None);
        assert_eq!(offered.rename_provider, Some(unstable));
    }
}

#[test]
fn unstable_features_need_a_root_that_turns_them_on() {
    for (root, turned_on, offered) in [
        (None, true, false),
        (None, false, false),
        (Some("/project"), true, true),
        (Some("/project"), false, false),
    ] {
        let root_path = root.map(|r| r.to_string());
        let params = InitializeParams { root_path: root_path.clone() };
        let steps = LsService::<Texts>::init(9, params, turned_on);
        let mut expected = vec![InitStep::Answer {
            id: 9,
            result: InitializeResult { capabilities: capabilities(offered) },
        }];
        if let Some(root_path) = root_path {
            expected.push(InitStep::Handler { root_path });
        }
        assert_eq!(steps, expected);
    }
}

#[test]
fn reformatting_depends_on_the_document_alone() {
    let mut service = service(vec![
        "{\"id\":1,\"method\":\"textDocument/formatting\",\"params\":{\"textDocument\":{\"uri\":\"file:///a.rs\"},\"options\":{\"tabSize\":4,\"insertSpaces\":true}}}",
        "{\"id\":1,\"method\":\"textDocument/formatting\",\"params\":[{\"uri\":\"file:///a.rs\"},{\"tabSize\":8,\"insertSpaces\":false}]}",
        "{\"id\":1,\"method\":\"textDocument/rangeFormatting\",\"params\":{\"textDocument\":{\"uri\":\"file:///a.rs\"},\"range\":{\"start\":{\"line\":0,\"character\":0},\"end\":{\"line\":9,\"character\":0}},\"options\":{\"tabSize\":4,\"insertSpaces\":true}}}",
    ]);
    for _ in 0..3 {
        let text_document = TextDocumentIdentifier { uri: "file:///a.rs".to_string() };
        assert_eq!(
            service.handle_message(),
            Some((ServerStateChange::Continue, Action::Reformat { id: 1, text_document }))
        );
    }
}

#[test]
fn a_session_with_parameters_is_served_from_texts() {
    let item = "{\"label\":\"push\"}";
    let mut service = service(vec![
        "{\"id\":0,\"method\":\"initialize\",\"params\":{\"rootPath\":\"/project\",\"capabilities\":{}}}",
        "{\"id\":1,\"method\":\"completionItem/resolve\",\"params\":{\"label\":\"push\"}}",
        "{\"id\":2,\"method\":\"completionItem/resolve\",\"params\":{}}",
        "{\"method\":\"$/cancelRequest\",\"params\":{\"id\":1}}",
        "{\"method\":\"$/cancelRequest\",\"params\":{}}",
    ]);
    let continued = |action| Some((ServerStateChange::Continue, action));
    let init = InitializeParams { root_path: Some("/project".to_string()) };
    assert_eq!(service.handle_message(), continued(Action::Init { id: 0, init }));
    let items = vec![serde_json::from_str(item).unwrap()];
    assert_eq!(
        service.handle_message(),
        continued(Action::Success { id: 1, data: ResponseData::CompletionItems(items) })
    );
    assert_eq!(service.handle_message(), None);
    assert_eq!(service.handle_message(), continued(Action::Nothing));
    assert_eq!(service.handle_message(), None);
}

#[test]
fn answers_are_told_from_other_work() {
    let failure = Answer::Failure { id: 6, message: "Unsupported message" };
    let done = Answer::Done { id: 7, ack: Ack {} };
    let cases: Vec<(Action<char>, Option<(Answer, String)>)> = vec![
        (Action::Nothing, None),
        (Action::ParseError, Some((Answer::ParseError, parse_error_text()))),
        (
            Action::Failure { id: 6, message: "Unsupported message" },
            Some((failure, failure_text(6, "Unsupported message"))),
        ),
        (
            Action::Success { id: 7, data: ResponseData::Ack(Ack {}) },
            Some((done, success_text(7, "{}"))),
        ),
        (Action::Success { id: 7, data: ResponseData::CompletionItems(vec!['p']) }, None),
        (Action::Call { id: 1, call: Call::Hover, params: 'p' }, None),
        (Action::Exit { code: 0 }, None),
    ];
    for (action, expected) in cases {
        assert_eq!(answer(&action), expected.as_ref().map(|(a, _)| *a));
        assert_eq!(answer(&action).map(|a| a.to_json()), expected.map(|(_, text)| text));
    }
}
