//! What a service does about a message.
use crate::capabilities::{capabilities, ServerCapabilities, TextDocumentSyncKind};
use crate::json::{json_in, json_of, member, quoted, Json, JsonNumber};
use crate::message::{
    lemma_names, Method, Notification, ParseError, Request, ServerMessage,
};
use crate::output::Output;
use crate::params::{
    InitializeParams, fits_cancel, fits_completion_item, fits_did_change, fits_did_open, fits_did_save,
    fits_document_symbol, fits_position, fits_reference, fits_rename, formatting_document,
    initialize_root_path, range_formatting_document,
};
use crate::reader::{amounts_to, Incoming, MessageReader};
use crate::service::{
    answer, reacts, reply, Ack, Action, Answer, Call, Event, InitStep, LsService, ResponseData,
    ServerStateChange,
};
use crate::text::decimal;
use vstd::prelude::*;

verus! {

/// A source that gives the same text, or none, whenever it is asked.
pub struct Given {
    pub text: Option<String>,
}

impl MessageReader for Given {
    fn read_message(&self) -> (text: Option<String>)
        ensures
            match (self.text, text) {
                (Some(given), Some(read)) => read@ == given@,
                (None, None) => true,
                _ => false,
            },
    {
        match &self.text {
            Some(text) => Some(text.as_str().to_owned()),
            None => None,
        }
    }
}

/// What a service makes of a text that it is given.
proof fn lemma_given(
    service: &mut LsService<Given>,
    reaction: Option<(ServerStateChange, Action<serde_json::Value>)>,
)
    requires
        call_ensures(LsService::<Given>::handle_message, (service,), reaction),
    ensures
        final(service).msg_reader() == old(service).msg_reader(),
        exists|incoming: Incoming|
            amounts_to(
                match old(service).msg_reader().text {
                    Some(text) => Some(text@),
                    None => None,
                },
                incoming,
            ) && #[trigger] reacts(
                old(service).shut_down(),
                incoming,
                final(service).shut_down(),
                reaction,
            ),
{
    let incoming = choose|incoming: Incoming| #[trigger]
        call_ensures(
            <Given as MessageReader>::parsed_message,
            (&old(service).msg_reader(),),
            incoming,
        ) && reacts(old(service).shut_down(), incoming, final(service).shut_down(), reaction);
    assert(reacts(old(service).shut_down(), incoming, final(service).shut_down(), reaction));
}

/// A text that asks for work on a project has the work of that name done, under the number and with
/// the parameters that the text gives. If it gives no number or no parameters that fit, it is
/// malformed.
pub proof fn law_requests_go_to_their_work(
    service: &mut LsService<Given>,
    text: String,
    json: Json,
    method: Seq<char>,
    reaction: Option<(ServerStateChange, Action<serde_json::Value>)>,
)
    requires
        !old(service).shut_down(),
        old(service).msg_reader().text == Some(text),
        json_in(text@) == Some(json),
        member(json, "method"@) == Some(Json::Text(method)),
        call_ensures(LsService::<Given>::handle_message, (service,), reaction),
    ensures
        method == "textDocument/hover"@ ==> match (member(json, "id"@), member(json, "params"@)) {
            (Some(Json::Number(JsonNumber::Unsigned(n))), Some(params)) if fits_position(params) => {
                &&& reaction matches Some((ServerStateChange::Continue, Action::Call { id, call: Call::Hover, params: p }))
                &&& id == n as usize
                &&& json_of(p) == params
            },
            _ => reaction is None,
        },
        method == "textDocument/definition"@ ==> match (member(json, "id"@), member(json, "params"@)) {
            (Some(Json::Number(JsonNumber::Unsigned(n))), Some(params)) if fits_position(params) => {
                &&& reaction matches Some((ServerStateChange::Continue, Action::Call { id, call: Call::GotoDef, params: p }))
                &&& id == n as usize
                &&& json_of(p) == params
            },
            _ => reaction is None,
        },
        method == "textDocument/references"@ ==> match (member(json, "id"@), member(json, "params"@)) {
            (Some(Json::Number(JsonNumber::Unsigned(n))), Some(params)) if fits_reference(params) => {
                &&& reaction matches Some((ServerStateChange::Continue, Action::Call { id, call: Call::FindAllRefs, params: p }))
                &&& id == n as usize
                &&& json_of(p) == params
            },
            _ => reaction is None,
        },
        method == "textDocument/completion"@ ==> match (member(json, "id"@), member(json, "params"@)) {
            (Some(Json::Number(JsonNumber::Unsigned(n))), Some(params)) if fits_position(params) => {
                &&& reaction matches Some((ServerStateChange::Continue, Action::Call { id, call: Call::Complete, params: p }))
                &&& id == n as usize
                &&& json_of(p) == params
            },
            _ => reaction is None,
        },
        method == "textDocument/documentHighlight"@ ==> match (member(json, "id"@), member(json, "params"@)) {
            (Some(Json::Number(JsonNumber::Unsigned(n))), Some(params)) if fits_position(params) => {
                &&& reaction matches Some((ServerStateChange::Continue, Action::Call { id, call: Call::Highlight, params: p }))
                &&& id == n as usize
                &&& json_of(p) == params
            },
            _ => reaction is None,
        },
        method == "textDocument/documentSymbol"@ ==> match (member(json, "id"@), member(json, "params"@)) {
            (Some(Json::Number(JsonNumber::Unsigned(n))), Some(params)) if fits_document_symbol(params) => {
                &&& reaction matches Some((ServerStateChange::Continue, Action::Call { id, call: Call::Symbols, params: p }))
                &&& id == n as usize
                &&& json_of(p) == params
            },
            _ => reaction is None,
        },
        method == "textDocument/rename"@ ==> match (member(json, "id"@), member(json, "params"@)) {
            (Some(Json::Number(JsonNumber::Unsigned(n))), Some(params)) if fits_rename(params) => {
                &&& reaction matches Some((ServerStateChange::Continue, Action::Call { id, call: Call::Rename, params: p }))
                &&& id == n as usize
                &&& json_of(p) == params
            },
            _ => reaction is None,
        },
{
    lemma_names();
    lemma_given(service, reaction);
}

/// A text that tells of a change to the documents has the handler told just that, with the
/// parameters that the text gives, whatever its number. One that cancels a request has nothing
/// done. Either is malformed without parameters that fit.
pub proof fn law_notifications_go_to_their_event(
    service: &mut LsService<Given>,
    text: String,
    json: Json,
    method: Seq<char>,
    reaction: Option<(ServerStateChange, Action<serde_json::Value>)>,
)
    requires
        !old(service).shut_down(),
        old(service).msg_reader().text == Some(text),
        json_in(text@) == Some(json),
        member(json, "method"@) == Some(Json::Text(method)),
        call_ensures(LsService::<Given>::handle_message, (service,), reaction),
    ensures
        method == "textDocument/didChange"@ ==> match member(json, "params"@) {
            Some(params) if fits_did_change(params) => {
                &&& reaction matches Some(
                    (ServerStateChange::Continue, Action::Event { event: Event::OnChange, params: p }),
                )
                &&& json_of(p) == params
            },
            _ => reaction is None,
        },
        method == "textDocument/didOpen"@ ==> match member(json, "params"@) {
            Some(params) if fits_did_open(params) => {
                &&& reaction matches Some(
                    (ServerStateChange::Continue, Action::Event { event: Event::OnOpen, params: p }),
                )
                &&& json_of(p) == params
            },
            _ => reaction is None,
        },
        method == "textDocument/didSave"@ ==> match member(json, "params"@) {
            Some(params) if fits_did_save(params) => {
                &&& reaction matches Some(
                    (ServerStateChange::Continue, Action::Event { event: Event::OnSave, params: p }),
                )
                &&& json_of(p) == params
            },
            _ => reaction is None,
        },
        method == "$/cancelRequest"@ ==> match member(json, "params"@) {
            Some(params) if fits_cancel(params) => reaction == Some(
                (ServerStateChange::Continue, Action::<serde_json::Value>::Nothing),
            ),
            _ => reaction is None,
        },
{
    lemma_names();
    lemma_given(service, reaction);
}

/// A text that asks to initialize has the service initialize, under the number that it gives and on
/// the root that its parameters give, if they give one.
pub proof fn law_initialize_starts_on_the_root(
    service: &mut LsService<Given>,
    text: String,
    json: Json,
    method: Seq<char>,
    reaction: Option<(ServerStateChange, Action<serde_json::Value>)>,
)
    requires
        !old(service).shut_down(),
        old(service).msg_reader().text == Some(text),
        json_in(text@) == Some(json),
        member(json, "method"@) == Some(Json::Text(method)),
        call_ensures(LsService::<Given>::handle_message, (service,), reaction),
    ensures
        method == "initialize"@ ==> match (member(json, "id"@), member(json, "params"@)) {
            (Some(Json::Number(JsonNumber::Unsigned(n))), Some(params)) if initialize_root_path(params) is Some => {
                &&& reaction matches Some((ServerStateChange::Continue, Action::Init { id, init }))
                &&& id == n as usize
                &&& initialize_root_path(params) == Some(
                    match init.root_path {
                        Some(path) => Some(path@),
                        None => None,
                    },
                )
            },
            _ => reaction is None,
        },
{
    lemma_names();
    lemma_given(service, reaction);
}

/// A text that asks to reformat a document, or a range of one, has the document reformatted under
/// the number that it gives.
pub proof fn law_reformatting_goes_to_the_document(
    service: &mut LsService<Given>,
    text: String,
    json: Json,
    method: Seq<char>,
    reaction: Option<(ServerStateChange, Action<serde_json::Value>)>,
)
    requires
        !old(service).shut_down(),
        old(service).msg_reader().text == Some(text),
        json_in(text@) == Some(json),
        member(json, "method"@) == Some(Json::Text(method)),
        call_ensures(LsService::<Given>::handle_message, (service,), reaction),
    ensures
        method == "textDocument/formatting"@ ==> match (member(json, "id"@), member(json, "params"@)) {
            (Some(Json::Number(JsonNumber::Unsigned(n))), Some(params)) if formatting_document(params) is Some => {
                &&& reaction matches Some((ServerStateChange::Continue, Action::Reformat { id, text_document }))
                &&& id == n as usize
                &&& formatting_document(params) == Some(text_document.uri@)
            },
            _ => reaction is None,
        },
        method == "textDocument/rangeFormatting"@ ==> match (member(json, "id"@), member(json, "params"@)) {
            (Some(Json::Number(JsonNumber::Unsigned(n))), Some(params)) if range_formatting_document(params) is Some => {
                &&& reaction matches Some((ServerStateChange::Continue, Action::Reformat { id, text_document }))
                &&& id == n as usize
                &&& range_formatting_document(params) == Some(text_document.uri@)
            },
            _ => reaction is None,
        },
{
    lemma_names();
    lemma_given(service, reaction);
}

/// A text that asks to resolve a completion item has the item sent back under the number that it
/// gives, unchanged and alone in a list.
pub proof fn law_resolve_sends_the_item_back(
    service: &mut LsService<Given>,
    text: String,
    json: Json,
    method: Seq<char>,
    reaction: Option<(ServerStateChange, Action<serde_json::Value>)>,
)
    requires
        !old(service).shut_down(),
        old(service).msg_reader().text == Some(text),
        json_in(text@) == Some(json),
        member(json, "method"@) == Some(Json::Text(method)),
        call_ensures(LsService::<Given>::handle_message, (service,), reaction),
    ensures
        method == "completionItem/resolve"@ ==> match (member(json, "id"@), member(json, "params"@)) {
            (Some(Json::Number(JsonNumber::Unsigned(n))), Some(params)) if fits_completion_item(params) => {
                &&& reaction matches Some(
                    (
                        ServerStateChange::Continue,
                        Action::Success { id, data: ResponseData::CompletionItems(items) },
                    ),
                )
                &&& id == n as usize
                &&& items@.len() == 1
                &&& json_of(items@[0]) == params
            },
            _ => reaction is None,
        },
{
    lemma_names();
    lemma_given(service, reaction);
}

/// A text that asks to shut down is acknowledged under the number that it gives, and from then on
/// the service is shut down. No other text shuts it down, and none brings it back.
pub proof fn law_shutdown_shuts_down(
    service: &mut LsService<Given>,
    text: String,
    json: Json,
    method: Seq<char>,
    reaction: Option<(ServerStateChange, Action<serde_json::Value>)>,
)
    requires
        old(service).msg_reader().text == Some(text),
        json_in(text@) == Some(json),
        member(json, "method"@) == Some(Json::Text(method)),
        call_ensures(LsService::<Given>::handle_message, (service,), reaction),
    ensures
        method == "shutdown"@ && !old(service).shut_down() ==> match member(json, "id"@) {
            Some(Json::Number(JsonNumber::Unsigned(n))) => {
                &&& reaction matches Some(
                    (
                        ServerStateChange::Continue,
                        Action::Success { id, data: ResponseData::Ack(_) },
                    ),
                )
                &&& id == n as usize
                &&& final(service).shut_down()
            },
            _ => reaction is None && !final(service).shut_down(),
        },
        method != "shutdown"@ || old(service).shut_down() ==> final(service).shut_down()
            == old(service).shut_down(),
        final(service).msg_reader() == old(service).msg_reader(),
{
    lemma_names();
    lemma_given(service, reaction);
}

/// A text that does not name itself the request to shut down leaves the service as it is.
pub proof fn law_nothing_else_shuts_down(
    service: &mut LsService<Given>,
    text: String,
    json: Json,
    reaction: Option<(ServerStateChange, Action<serde_json::Value>)>,
)
    requires
        old(service).msg_reader().text == Some(text),
        json_in(text@) == Some(json),
        member(json, "method"@) != Some(Json::Text("shutdown"@)),
        call_ensures(LsService::<Given>::handle_message, (service,), reaction),
    ensures
        final(service).shut_down() == old(service).shut_down(),
        final(service).msg_reader() == old(service).msg_reader(),
{
    lemma_names();
    lemma_given(service, reaction);
}

/// A text that tells to exit ends the process, with the code 0 if the service is shut down and
/// otherwise with the code 1.
pub proof fn law_exit_ends_the_process(
    service: &mut LsService<Given>,
    text: String,
    json: Json,
    method: Seq<char>,
    reaction: Option<(ServerStateChange, Action<serde_json::Value>)>,
)
    requires
        old(service).msg_reader().text == Some(text),
        json_in(text@) == Some(json),
        member(json, "method"@) == Some(Json::Text(method)),
        call_ensures(LsService::<Given>::handle_message, (service,), reaction),
    ensures
        method == "exit"@ ==> reaction == Some(
            (
                ServerStateChange::Continue,
                Action::<serde_json::Value>::Exit {
                    code: if old(service).shut_down() {
                        0
                    } else {
                        1
                    },
                },
            ),
        ),
{
    lemma_names();
    lemma_given(service, reaction);
}

/// A service that is shut down does nothing about a text that does not tell to exit, whatever else
/// the text holds, and stays shut down.
pub proof fn law_nothing_is_done_once_shut_down(
    service: &mut LsService<Given>,
    text: String,
    json: Json,
    reaction: Option<(ServerStateChange, Action<serde_json::Value>)>,
)
    requires
        old(service).shut_down(),
        old(service).msg_reader().text == Some(text),
        json_in(text@) == Some(json),
        member(json, "method"@) != Some(Json::Text("exit"@)),
        call_ensures(LsService::<Given>::handle_message, (service,), reaction),
    ensures
        final(service).shut_down(),
        reaction is None || reaction == Some(
            (ServerStateChange::Continue, Action::<serde_json::Value>::Nothing),
        ),
{
    lemma_names();
    lemma_given(service, reaction);
}

/// The same texts are malformed to a service that is shut down and to one that is not.
pub proof fn law_malformed_texts_are_the_same_once_shut_down(
    service: &mut LsService<Given>,
    other: &mut LsService<Given>,
    reaction: Option<(ServerStateChange, Action<serde_json::Value>)>,
    other_reaction: Option<(ServerStateChange, Action<serde_json::Value>)>,
)
    requires
        old(service).msg_reader() == old(other).msg_reader(),
        call_ensures(LsService::<Given>::handle_message, (service,), reaction),
        call_ensures(LsService::<Given>::handle_message, (other,), other_reaction),
    ensures
        reaction is None <==> other_reaction is None,
{
    lemma_given(service, reaction);
    lemma_given(other, other_reaction);
}

/// A text without a name that stands for something is answered with a failure under the number that
/// it gives, and has nothing done if it gives none. If what it gives for a number is none, it is
/// malformed.
pub proof fn law_unknown_texts_fail(
    service: &mut LsService<Given>,
    text: String,
    json: Json,
    reaction: Option<(ServerStateChange, Action<serde_json::Value>)>,
)
    requires
        !old(service).shut_down(),
        old(service).msg_reader().text == Some(text),
        json_in(text@) == Some(json),
        match member(json, "method"@) {
            Some(Json::Text(method)) => {
                &&& method != "shutdown"@
                &&& method != "initialize"@
                &&& method != "textDocument/hover"@
                &&& method != "textDocument/definition"@
                &&& method != "textDocument/references"@
                &&& method != "textDocument/completion"@
                &&& method != "textDocument/documentHighlight"@
                &&& method != "textDocument/documentSymbol"@
                &&& method != "textDocument/rename"@
                &&& method != "completionItem/resolve"@
                &&& method != "textDocument/formatting"@
                &&& method != "textDocument/rangeFormatting"@
                &&& method != "exit"@
                &&& method != "textDocument/didChange"@
                &&& method != "textDocument/didOpen"@
                &&& method != "textDocument/didSave"@
                &&& method != "$/cancelRequest"@
                &&& method != "$/setTraceNotification"@
                &&& method != "workspace/didChangeConfiguration"@
            },
            _ => true,
        },
        call_ensures(LsService::<Given>::handle_message, (service,), reaction),
    ensures
        match member(json, "id"@) {
            None => reaction == Some(
                (ServerStateChange::Continue, Action::<serde_json::Value>::Nothing),
            ),
            Some(Json::Number(JsonNumber::Unsigned(n))) => reaction == Some(
                (
                    ServerStateChange::Continue,
                    Action::<serde_json::Value>::Failure {
                        id: n as usize,
                        message: "Unsupported message",
                    },
                ),
            ),
            Some(_) => reaction is None,
        },
        !final(service).shut_down(),
{
    lemma_names();
    lemma_given(service, reaction);
}

/// A text that sets the trace or changes the configuration has nothing done.
pub proof fn law_trace_and_configuration_are_dropped(
    service: &mut LsService<Given>,
    text: String,
    json: Json,
    method: Seq<char>,
    reaction: Option<(ServerStateChange, Action<serde_json::Value>)>,
)
    requires
        old(service).msg_reader().text == Some(text),
        json_in(text@) == Some(json),
        member(json, "method"@) == Some(Json::Text(method)),
        call_ensures(LsService::<Given>::handle_message, (service,), reaction),
    ensures
        method == "$/setTraceNotification"@ || method == "workspace/didChangeConfiguration"@
            ==> reaction == Some(
            (ServerStateChange::Continue, Action::<serde_json::Value>::Nothing),
        ),
{
    lemma_names();
    lemma_given(service, reaction);
}

/// Where there is no further text, the client is told so and the service stops. A text that is not
/// JSON is malformed. Neither changes the service.
pub proof fn law_the_end_stops_the_service(
    service: &mut LsService<Given>,
    reaction: Option<(ServerStateChange, Action<serde_json::Value>)>,
)
    requires
        call_ensures(LsService::<Given>::handle_message, (service,), reaction),
    ensures
        old(service).msg_reader().text is None ==> reaction == Some(
            (ServerStateChange::Break, Action::<serde_json::Value>::ParseError),
        ) && final(service).shut_down() == old(service).shut_down(),
        (old(service).msg_reader().text matches Some(text) && json_in(text@) is None) ==> reaction is None
            && final(service).shut_down() == old(service).shut_down(),
        old(service).msg_reader().text is Some ==> (reaction matches Some(r) ==> r.0
            == ServerStateChange::Continue),
{
    lemma_given(service, reaction);
}

/// Whatever the parameters are, a request has done what its method says, under its own number and
/// with its own parameters.
pub proof fn law_methods_say_what_is_done<R: MessageReader, P>(
    service: &mut LsService<R>,
    id: usize,
    method: Method<P>,
    reaction: (ServerStateChange, Action<P>),
)
    requires
        !old(service).shut_down(),
        call_ensures(
            LsService::<R>::respond::<P>,
            (service, Some(Ok(ServerMessage::Request(Request { id, method })))),
            reaction,
        ),
    ensures
        reaction.0 == ServerStateChange::Continue,
        final(service).shut_down() == (method is Shutdown),
        final(service).msg_reader() == old(service).msg_reader(),
        method is Shutdown ==> reaction.1 == (Action::<P>::Success {
            id,
            data: ResponseData::Ack(Ack {  }),
        }),
        method matches Method::Initialize(init) ==> reaction.1 == (Action::<P>::Init { id, init }),
        method matches Method::CompleteResolve(item) ==> (reaction.1 matches Action::Success {
            id: answered,
            data: ResponseData::CompletionItems(items),
        } && answered == id && items@ == seq![item]),
        method matches Method::Reformat(text_document) ==> reaction.1 == (Action::<P>::Reformat {
            id,
            text_document,
        }),
        method matches Method::ReformatRange(text_document) ==> reaction.1 == (
        Action::<P>::Reformat { id, text_document }),
        method matches Method::Hover(params) ==> reaction.1 == (Action::<P>::Call {
            id,
            call: Call::Hover,
            params,
        }),
        method matches Method::GotoDef(params) ==> reaction.1 == (Action::<P>::Call {
            id,
            call: Call::GotoDef,
            params,
        }),
        method matches Method::FindAllRef(params) ==> reaction.1 == (Action::<P>::Call {
            id,
            call: Call::FindAllRefs,
            params,
        }),
        method matches Method::Complete(params) ==> reaction.1 == (Action::<P>::Call {
            id,
            call: Call::Complete,
            params,
        }),
        method matches Method::Highlight(params) ==> reaction.1 == (Action::<P>::Call {
            id,
            call: Call::Highlight,
            params,
        }),
        method matches Method::Symbols(params) ==> reaction.1 == (Action::<P>::Call {
            id,
            call: Call::Symbols,
            params,
        }),
        method matches Method::Rename(params) ==> reaction.1 == (Action::<P>::Call {
            id,
            call: Call::Rename,
            params,
        }),
{
}

/// Whatever the parameters are, a notification has the handler told what it tells, with its own
/// parameters, and one that cancels a request has nothing done.
pub proof fn law_notifications_say_what_is_done<R: MessageReader, P>(
    service: &mut LsService<R>,
    notification: Notification<P>,
    reaction: (ServerStateChange, Action<P>),
)
    requires
        call_ensures(
            LsService::<R>::respond::<P>,
            (service, Some(Ok(ServerMessage::Notification(notification)))),
            reaction,
        ),
    ensures
        reaction.0 == ServerStateChange::Continue,
        final(service).shut_down() == old(service).shut_down(),
        final(service).msg_reader() == old(service).msg_reader(),
        notification is Exit ==> reaction.1 == (Action::<P>::Exit {
            code: if old(service).shut_down() {
                0
            } else {
                1
            },
        }),
        old(service).shut_down() && !(notification is Exit) ==> reaction.1 == Action::<P>::Nothing,
        notification is CancelRequest ==> reaction.1 == Action::<P>::Nothing,
        !old(service).shut_down() ==> (notification matches Notification::Change(params) ==> reaction.1 == (
        Action::<P>::Event { event: Event::OnChange, params })),
        !old(service).shut_down() ==> (notification matches Notification::Open(params) ==> reaction.1 == (
        Action::<P>::Event { event: Event::OnOpen, params })),
        !old(service).shut_down() ==> (notification matches Notification::Save(params) ==> reaction.1 == (
        Action::<P>::Event { event: Event::OnSave, params })),
{
}

/// Once shut down, a service does nothing about a request or a message that is refused, and stays
/// shut down.
pub proof fn law_requests_are_ignored_once_shut_down<R: MessageReader, P>(
    service: &mut LsService<R>,
    message: Result<ServerMessage<P>, ParseError>,
    reaction: (ServerStateChange, Action<P>),
)
    requires
        old(service).shut_down(),
        !(message matches Ok(ServerMessage::Notification(_))),
        call_ensures(LsService::<R>::respond::<P>, (service, Some(message)), reaction),
    ensures
        reaction == (ServerStateChange::Continue, Action::<P>::Nothing),
        final(service).shut_down(),
        final(service).msg_reader() == old(service).msg_reader(),
{
}

/// A message that is refused is answered with a failure if it has a number, and otherwise has
/// nothing done, whatever the reason. The end of the input stops the service.
pub proof fn law_refusals_and_the_end<R: MessageReader, P>(
    service: &mut LsService<R>,
    error: ParseError,
    message: Option<Result<ServerMessage<P>, ParseError>>,
    reaction: (ServerStateChange, Action<P>),
)
    requires
        message is None || (message == Some(Err::<ServerMessage<P>, _>(error))
            && !old(service).shut_down()),
        call_ensures(LsService::<R>::respond::<P>, (service, message), reaction),
    ensures
        final(service).shut_down() == old(service).shut_down(),
        final(service).msg_reader() == old(service).msg_reader(),
        reaction == (match (message, error.id) {
            (None, _) => (ServerStateChange::Break, Action::<P>::ParseError),
            (Some(_), None) => (ServerStateChange::Continue, Action::Nothing),
            (Some(_), Some(id)) => (
                ServerStateChange::Continue,
                Action::Failure { id, message: "Unsupported message" },
            ),
        }),
{
}

/// Wherever messages come from, what is done about one that comes is what the service responds to
/// it with. Something malformed has nothing done and leaves the service as it is.
pub proof fn law_what_comes_is_responded_to<R: MessageReader>(
    service: &mut LsService<R>,
    other: &mut LsService<R>,
    incoming: Incoming,
    message: Option<Result<ServerMessage<serde_json::Value>, ParseError>>,
    reaction: Option<(ServerStateChange, Action<serde_json::Value>)>,
    response: (ServerStateChange, Action<serde_json::Value>),
)
    requires
        forall|came: Incoming| #[trigger]
            call_ensures(R::parsed_message, (&old(service).msg_reader(),), came) ==> came == incoming,
        old(other).shut_down() == old(service).shut_down(),
        call_ensures(LsService::<R>::handle_message, (service,), reaction),
        call_ensures(LsService::<R>::respond::<serde_json::Value>, (other, message), response),
    ensures
        final(service).msg_reader() == old(service).msg_reader(),
        incoming is Malformed ==> reaction is None && final(service).shut_down()
            == old(service).shut_down(),
        (message is None && incoming is End) || (message matches Some(m) && incoming
            == Incoming::Message(m)) ==> {
            &&& reaction matches Some(r)
            &&& r.0 == response.0
            &&& r.1@ == response.1@
            &&& final(service).shut_down() == final(other).shut_down()
        },
{
}

/// A new service is not shut down, and reads from the source that it was given.
pub proof fn law_a_new_service_serves<R: MessageReader>(reader: R, made: LsService<R>)
    requires
        call_ensures(LsService::<R>::new, (reader,), made),
    ensures
        !made.shut_down(),
        made.msg_reader() == reader,
{
}

/// To initialize, the request is answered under its number and the handler is then initialized with
/// the root, exactly if there is one. Formatting and renaming are offered exactly if there is a root
/// whose configuration turns unstable features on.
pub proof fn law_initialize_answers_and_starts_the_handler<R: MessageReader>(
    id: usize,
    init: InitializeParams,
    unstable: bool,
    steps: Vec<InitStep>,
)
    requires
        call_ensures(LsService::<R>::init, (id, init, unstable), steps),
    ensures
        steps@.len() >= 1,
        steps@[0] matches InitStep::Answer { id: answered, result } && {
            let on = init.root_path is Some && unstable;
            let offered = result.capabilities;
            &&& answered == id
            &&& offered.rename_provider == Some(on)
            &&& offered.document_formatting_provider == Some(on)
            &&& offered.document_range_formatting_provider == Some(on)
            &&& offered.hover_provider == Some(true)
            &&& offered.definition_provider == Some(true)
            &&& offered.references_provider == Some(true)
            &&& offered.document_highlight_provider == Some(true)
            &&& offered.document_symbol_provider == Some(true)
            &&& offered.workspace_symbol_provider == Some(true)
            &&& offered.code_action_provider == Some(false)
            &&& offered.code_lens_provider is None
            &&& offered.document_on_type_formatting_provider is None
            &&& offered.text_document_sync == Some(TextDocumentSyncKind::Incremental)
            &&& offered.completion_provider matches Some(completion)
            &&& completion.resolve_provider == Some(true)
            &&& completion.trigger_characters@.len() == 2
            &&& completion.trigger_characters@[0]@ == "."@
            &&& completion.trigger_characters@[1]@ == ":"@
            &&& offered.signature_help_provider matches Some(help)
            &&& help.trigger_characters matches Some(triggers)
            &&& triggers@.len() == 0
        },
        match init.root_path {
            Some(root_path) => steps@.len() == 2 && steps@[1] == (InitStep::Handler { root_path }),
            None => steps@.len() == 1,
        },
{
}

/// Formatting and renaming are offered exactly if unstable features are on, and all else is offered
/// either way.
pub proof fn law_capabilities(unstable: bool, offered: ServerCapabilities)
    requires
        call_ensures(capabilities, (unstable,), offered),
    ensures
        offered.rename_provider == Some(unstable),
        offered.document_formatting_provider == Some(unstable),
        offered.document_range_formatting_provider == Some(unstable),
        offered.hover_provider == Some(true),
        offered.definition_provider == Some(true),
        offered.references_provider == Some(true),
        offered.document_highlight_provider == Some(true),
        offered.document_symbol_provider == Some(true),
        offered.workspace_symbol_provider == Some(true),
        offered.code_action_provider == Some(false),
        offered.code_lens_provider is None,
        offered.document_on_type_formatting_provider is None,
        offered.text_document_sync == Some(TextDocumentSyncKind::Incremental),
        offered.completion_provider matches Some(completion) && completion.resolve_provider == Some(
            true,
        ) && completion.trigger_characters@.len() == 2 && completion.trigger_characters@[0]@ == "."@
            && completion.trigger_characters@[1]@ == ":"@,
        offered.signature_help_provider matches Some(help) && help.trigger_characters matches Some(
            triggers,
        ) && triggers@.len() == 0,
{
}

/// Nothing is answered but a parse error to the end of the input, a failure to a request that is
/// refused and an acknowledgement of the request to shut down, each as the action says.
pub proof fn law_answers_are_those_of_the_action<P>(action: Action<P>, answered: Option<Answer>)
    requires
        call_ensures(answer::<P>, (&action,), answered),
    ensures
        action is ParseError <==> answered == Some(Answer::ParseError),
        answered matches Some(Answer::Failure { id, message }) ==> action == (
        Action::<P>::Failure { id, message }),
        action matches Action::Failure { id, message } ==> answered == Some(
            Answer::Failure { id, message },
        ),
        answered matches Some(Answer::Done { id, ack }) ==> action == (Action::<P>::Success {
            id,
            data: ResponseData::Ack(ack),
        }),
        action matches Action::Success { id, data: ResponseData::Ack(ack) } ==> answered == Some(
            Answer::Done { id, ack },
        ),
{
}

/// What an answer says is written out in full.
pub proof fn law_an_answer_is_written_out(answer: Answer, text: String)
    requires
        call_ensures(Answer::to_json, (&answer,), text),
    ensures
        answer is ParseError ==> text@
            == "{\"jsonrpc\": \"2.0\", \"error\": {\"code\": -32700, \"message\": \"Parse error\"}, \"id\": null}"@,
        answer matches Answer::Failure { id, message } ==> text@ == "{\"jsonrpc\":\"2.0\",\"id\":"@
            + decimal(id as nat) + ",\"error\":{\"code\":-32601,\"message\":"@ + quoted(message@)
            + "}}"@,
        answer matches Answer::Done { id, .. } ==> text@ == "{\"jsonrpc\":\"2.0\",\"id\":"@ + decimal(
            id as nat,
        ) + ",\"result\":"@ + "{}"@ + "}"@,
{
}

/// The acknowledgement is an object without members.
pub proof fn law_acknowledgement_is_empty(ack: Ack, text: &'static str)
    requires
        call_ensures(Ack::to_json, (&ack,), text),
    ensures
        text@ == "{}"@,
{
}

/// A parse error, a failure and an acknowledgement are sent through the output, the last two under
/// the number of the request, and are then done. To do nothing is done at once. All other work is
/// handed back as it is.
pub proof fn law_replies_are_sent<P, O: Output>(action: Action<P>, output: &O, rest: Option<Action<P>>)
    requires
        call_ensures(reply::<P, O>, (action, output), rest),
    ensures
        match action {
            Action::Nothing => rest is None,
            Action::ParseError => rest is None && call_ensures(O::parse_error, (output,), ()),
            Action::Failure { id, message } => rest is None && call_ensures(
                O::failure,
                (output, id, message),
                (),
            ),
            Action::Success { id, data: ResponseData::Ack(_) } => rest is None && exists|data: &str|
                data@ == "{}"@ && #[trigger] call_ensures(O::success, (output, id, data), ()),
            _ => rest == Some(action),
        },
{
}

} // verus!
