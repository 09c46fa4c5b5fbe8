//! How a text becomes a message.
use crate::json::{json_in, json_of, member, Json, JsonNumber};
use crate::message::{
    command, envelope, in_json, interpret, is_well_formed, lemma_names, parse_message, try_parse_message,
    Command, Envelope, ErrorKind, Field, Method, Notification, ParseError, Request, ServerMessage,
};
use crate::params::{
    read_params, Params, fits_cancel, fits_completion_item, fits_did_change, fits_did_open, fits_did_save,
    fits_document_symbol, fits_position, fits_reference, fits_rename, formatting_document,
    initialize_root_path, range_formatting_document,
};
use crate::reader::{receive, Incoming};
use vstd::prelude::*;

verus! {

/// A text that asks for something by its name is read as the request of that name, under the number
/// that it gives and with the parameters that it gives. If the number is missing or no number, or
/// if the parameters are missing or not of the type that the request takes, it is malformed.
pub proof fn law_requests_are_read_by_name(
    text: &str,
    json: Json,
    method: Seq<char>,
    read: Option<Result<ServerMessage<serde_json::Value>, ParseError>>,
)
    requires
        call_ensures(try_parse_message, (text,), read),
        json_in(text@) == Some(json),
        member(json, "method"@) == Some(Json::Text(method)),
    ensures
        method == "textDocument/hover"@ ==> match (member(json, "id"@), member(json, "params"@)) {
            (Some(Json::Number(JsonNumber::Unsigned(n))), Some(params)) if fits_position(params) => {
                &&& read matches Some(Ok(ServerMessage::Request(Request { id, method: Method::Hover(p) })))
                &&& id == n as usize
                &&& json_of(p) == params
            },
            _ => read is None,
        },
        method == "textDocument/definition"@ ==> match (member(json, "id"@), member(json, "params"@)) {
            (Some(Json::Number(JsonNumber::Unsigned(n))), Some(params)) if fits_position(params) => {
                &&& read matches Some(Ok(ServerMessage::Request(Request { id, method: Method::GotoDef(p) })))
                &&& id == n as usize
                &&& json_of(p) == params
            },
            _ => read is None,
        },
        method == "textDocument/references"@ ==> match (member(json, "id"@), member(json, "params"@)) {
            (Some(Json::Number(JsonNumber::Unsigned(n))), Some(params)) if fits_reference(params) => {
                &&& read matches Some(Ok(ServerMessage::Request(Request { id, method: Method::FindAllRef(p) })))
                &&& id == n as usize
                &&& json_of(p) == params
            },
            _ => read is None,
        },
        method == "textDocument/completion"@ ==> match (member(json, "id"@), member(json, "params"@)) {
            (Some(Json::Number(JsonNumber::Unsigned(n))), Some(params)) if fits_position(params) => {
                &&& read matches Some(Ok(ServerMessage::Request(Request { id, method: Method::Complete(p) })))
                &&& id == n as usize
                &&& json_of(p) == params
            },
            _ => read is None,
        },
        method == "textDocument/documentHighlight"@ ==> match (member(json, "id"@), member(json, "params"@)) {
            (Some(Json::Number(JsonNumber::Unsigned(n))), Some(params)) if fits_position(params) => {
                &&& read matches Some(Ok(ServerMessage::Request(Request { id, method: Method::Highlight(p) })))
                &&& id == n as usize
                &&& json_of(p) == params
            },
            _ => read is None,
        },
        method == "textDocument/documentSymbol"@ ==> match (member(json, "id"@), member(json, "params"@)) {
            (Some(Json::Number(JsonNumber::Unsigned(n))), Some(params)) if fits_document_symbol(params) => {
                &&& read matches Some(Ok(ServerMessage::Request(Request { id, method: Method::Symbols(p) })))
                &&& id == n as usize
                &&& json_of(p) == params
            },
            _ => read is None,
        },
        method == "textDocument/rename"@ ==> match (member(json, "id"@), member(json, "params"@)) {
            (Some(Json::Number(JsonNumber::Unsigned(n))), Some(params)) if fits_rename(params) => {
                &&& read matches Some(Ok(ServerMessage::Request(Request { id, method: Method::Rename(p) })))
                &&& id == n as usize
                &&& json_of(p) == params
            },
            _ => read is None,
        },
        method == "completionItem/resolve"@ ==> match (member(json, "id"@), member(json, "params"@)) {
            (Some(Json::Number(JsonNumber::Unsigned(n))), Some(params)) if fits_completion_item(params) => {
                &&& read matches Some(Ok(ServerMessage::Request(Request { id, method: Method::CompleteResolve(p) })))
                &&& id == n as usize
                &&& json_of(p) == params
            },
            _ => read is None,
        },
        method == "textDocument/formatting"@ ==> match (member(json, "id"@), member(json, "params"@)) {
            (Some(Json::Number(JsonNumber::Unsigned(n))), Some(params)) if formatting_document(params) is Some => {
                &&& read matches Some(Ok(ServerMessage::Request(Request { id, method: Method::Reformat(document) })))
                &&& id == n as usize
                &&& formatting_document(params) == Some(document.uri@)
            },
            _ => read is None,
        },
        method == "textDocument/rangeFormatting"@ ==> match (member(json, "id"@), member(json, "params"@)) {
            (Some(Json::Number(JsonNumber::Unsigned(n))), Some(params)) if range_formatting_document(params) is Some => {
                &&& read matches Some(Ok(ServerMessage::Request(Request { id, method: Method::ReformatRange(document) })))
                &&& id == n as usize
                &&& range_formatting_document(params) == Some(document.uri@)
            },
            _ => read is None,
        },
        method == "initialize"@ ==> match (member(json, "id"@), member(json, "params"@)) {
            (Some(Json::Number(JsonNumber::Unsigned(n))), Some(params)) if initialize_root_path(params) is Some => {
                &&& read matches Some(Ok(ServerMessage::Request(Request { id, method: Method::Initialize(init) })))
                &&& id == n as usize
                &&& initialize_root_path(params) == Some(
                    match init.root_path {
                        Some(path) => Some(path@),
                        None => None,
                    },
                )
            },
            _ => read is None,
        },
        method == "shutdown"@ ==> match member(json, "id"@) {
            Some(Json::Number(JsonNumber::Unsigned(n))) => {
                &&& read matches Some(Ok(ServerMessage::Request(Request { id, method: Method::Shutdown })))
                &&& id == n as usize
            },
            _ => read is None,
        },
{
    lemma_names();
}

/// A text that tells something by its name is read as the notification of that name with the
/// parameters that it gives, whatever its number and whether or not it has one. If the parameters
/// are missing or not of the type that the notification takes, it is malformed.
pub proof fn law_notifications_are_read_by_name(
    text: &str,
    json: Json,
    method: Seq<char>,
    read: Option<Result<ServerMessage<serde_json::Value>, ParseError>>,
)
    requires
        call_ensures(try_parse_message, (text,), read),
        json_in(text@) == Some(json),
        member(json, "method"@) == Some(Json::Text(method)),
    ensures
        method == "exit"@ ==> (read matches Some(Ok(ServerMessage::Notification(Notification::Exit)))),
        method == "textDocument/didChange"@ ==> match member(json, "params"@) {
            Some(params) if fits_did_change(params) => {
                &&& read matches Some(Ok(ServerMessage::Notification(Notification::Change(p))))
                &&& json_of(p) == params
            },
            _ => read is None,
        },
        method == "textDocument/didOpen"@ ==> match member(json, "params"@) {
            Some(params) if fits_did_open(params) => {
                &&& read matches Some(Ok(ServerMessage::Notification(Notification::Open(p))))
                &&& json_of(p) == params
            },
            _ => read is None,
        },
        method == "textDocument/didSave"@ ==> match member(json, "params"@) {
            Some(params) if fits_did_save(params) => {
                &&& read matches Some(Ok(ServerMessage::Notification(Notification::Save(p))))
                &&& json_of(p) == params
            },
            _ => read is None,
        },
        method == "$/cancelRequest"@ ==> match member(json, "params"@) {
            Some(params) if fits_cancel(params) => {
                &&& read matches Some(Ok(ServerMessage::Notification(Notification::CancelRequest(p))))
                &&& json_of(p) == params
            },
            _ => read is None,
        },
{
    lemma_names();
}

/// Whatever else is JSON is refused, for a reason that tells what is wrong with it and under the
/// number that it gives, if any. It is malformed if what it gives for a number is none.
pub proof fn law_other_messages_are_refused(
    text: &str,
    json: Json,
    read: Option<Result<ServerMessage<serde_json::Value>, ParseError>>,
)
    requires
        call_ensures(try_parse_message, (text,), read),
        json_in(text@) == Some(json),
    ensures
        member(json, "method"@) is None ==> read == match member(json, "id"@) {
            None => Some(
                Err::<ServerMessage<serde_json::Value>, _>(
                    ParseError { kind: ErrorKind::InvalidData, message: "Method not found", id: None },
                ),
            ),
            Some(Json::Number(JsonNumber::Unsigned(n))) => Some(
                Err::<ServerMessage<serde_json::Value>, _>(
                    ParseError {
                        kind: ErrorKind::InvalidData,
                        message: "Method not found",
                        id: Some(n as usize),
                    },
                ),
            ),
            Some(_) => None,
        },
        (member(json, "method"@) matches Some(method) && !(method is Text)) ==> read == match member(
            json,
            "id"@,
        ) {
            None => Some(
                Err::<ServerMessage<serde_json::Value>, _>(
                    ParseError {
                        kind: ErrorKind::InvalidData,
                        message: "Method is not a string",
                        id: None,
                    },
                ),
            ),
            Some(Json::Number(JsonNumber::Unsigned(n))) => Some(
                Err::<ServerMessage<serde_json::Value>, _>(
                    ParseError {
                        kind: ErrorKind::InvalidData,
                        message: "Method is not a string",
                        id: Some(n as usize),
                    },
                ),
            ),
            Some(_) => None,
        },
        member(json, "method"@) == Some(Json::Text("$/setTraceNotification"@)) ==> read == Some(
            Err::<ServerMessage<serde_json::Value>, _>(
                ParseError {
                    kind: ErrorKind::InvalidData,
                    message: "setTraceNotification",
                    id: None,
                },
            ),
        ),
        member(json, "method"@) == Some(Json::Text("workspace/didChangeConfiguration"@)) ==> read
            == Some(
            Err::<ServerMessage<serde_json::Value>, _>(
                ParseError {
                    kind: ErrorKind::InvalidData,
                    message: "didChangeConfiguration",
                    id: None,
                },
            ),
        ),
{
    lemma_names();
}

/// A name that stands for nothing is refused under the number that comes with it, if any. The
/// message is malformed if what comes for a number is none.
pub proof fn law_unknown_names_are_refused(
    text: &str,
    json: Json,
    method: Seq<char>,
    read: Option<Result<ServerMessage<serde_json::Value>, ParseError>>,
)
    requires
        call_ensures(try_parse_message, (text,), read),
        json_in(text@) == Some(json),
        member(json, "method"@) == Some(Json::Text(method)),
        method != "shutdown"@,
        method != "initialize"@,
        method != "textDocument/hover"@,
        method != "textDocument/definition"@,
        method != "textDocument/references"@,
        method != "textDocument/completion"@,
        method != "textDocument/documentHighlight"@,
        method != "textDocument/documentSymbol"@,
        method != "textDocument/rename"@,
        method != "completionItem/resolve"@,
        method != "textDocument/formatting"@,
        method != "textDocument/rangeFormatting"@,
        method != "exit"@,
        method != "textDocument/didChange"@,
        method != "textDocument/didOpen"@,
        method != "textDocument/didSave"@,
        method != "$/cancelRequest"@,
        method != "$/setTraceNotification"@,
        method != "workspace/didChangeConfiguration"@,
    ensures
        read == match member(json, "id"@) {
            None => Some(
                Err::<ServerMessage<serde_json::Value>, _>(
                    ParseError { kind: ErrorKind::InvalidData, message: "Unknown command", id: None },
                ),
            ),
            Some(Json::Number(JsonNumber::Unsigned(n))) => Some(
                Err::<ServerMessage<serde_json::Value>, _>(
                    ParseError {
                        kind: ErrorKind::InvalidData,
                        message: "Unknown command",
                        id: Some(n as usize),
                    },
                ),
            ),
            Some(_) => None,
        },
{
}

/// A text that is not JSON holds no message.
pub proof fn law_only_json_is_read(
    text: &str,
    read: Option<Result<ServerMessage<serde_json::Value>, ParseError>>,
)
    requires
        call_ensures(try_parse_message, (text,), read),
        json_in(text@) is None,
    ensures
        read is None,
{
}

/// The same of a text that is known to hold a message: a request is the one that it names.
pub proof fn law_known_requests_are_read_by_name(
    text: &str,
    json: Json,
    method: Seq<char>,
    n: u64,
    params: Json,
    read: Result<ServerMessage<serde_json::Value>, ParseError>,
)
    requires
        call_ensures(parse_message, (text,), read),
        json_in(text@) == Some(json),
        member(json, "method"@) == Some(Json::Text(method)),
        member(json, "id"@) == Some(Json::Number(JsonNumber::Unsigned(n))),
        member(json, "params"@) == Some(params),
    ensures
        method == "textDocument/hover"@ && fits_position(params) ==> {
            &&& read matches Ok(ServerMessage::Request(Request { id, method: Method::Hover(p) }))
            &&& id == n as usize
            &&& json_of(p) == params
        },
        method == "textDocument/definition"@ && fits_position(params) ==> {
            &&& read matches Ok(ServerMessage::Request(Request { id, method: Method::GotoDef(p) }))
            &&& id == n as usize
            &&& json_of(p) == params
        },
        method == "textDocument/references"@ && fits_reference(params) ==> {
            &&& read matches Ok(ServerMessage::Request(Request { id, method: Method::FindAllRef(p) }))
            &&& id == n as usize
            &&& json_of(p) == params
        },
        method == "textDocument/completion"@ && fits_position(params) ==> {
            &&& read matches Ok(ServerMessage::Request(Request { id, method: Method::Complete(p) }))
            &&& id == n as usize
            &&& json_of(p) == params
        },
        method == "textDocument/documentHighlight"@ && fits_position(params) ==> {
            &&& read matches Ok(ServerMessage::Request(Request { id, method: Method::Highlight(p) }))
            &&& id == n as usize
            &&& json_of(p) == params
        },
        method == "textDocument/documentSymbol"@ && fits_document_symbol(params) ==> {
            &&& read matches Ok(ServerMessage::Request(Request { id, method: Method::Symbols(p) }))
            &&& id == n as usize
            &&& json_of(p) == params
        },
        method == "textDocument/rename"@ && fits_rename(params) ==> {
            &&& read matches Ok(ServerMessage::Request(Request { id, method: Method::Rename(p) }))
            &&& id == n as usize
            &&& json_of(p) == params
        },
        method == "completionItem/resolve"@ && fits_completion_item(params) ==> {
            &&& read matches Ok(ServerMessage::Request(Request { id, method: Method::CompleteResolve(p) }))
            &&& id == n as usize
            &&& json_of(p) == params
        },
        method == "textDocument/formatting"@ && formatting_document(params) is Some ==> {
            &&& read matches Ok(ServerMessage::Request(Request { id, method: Method::Reformat(document) }))
            &&& id == n as usize
            &&& formatting_document(params) == Some(document.uri@)
        },
        method == "textDocument/rangeFormatting"@ && range_formatting_document(params) is Some ==> {
            &&& read matches Ok(ServerMessage::Request(Request { id, method: Method::ReformatRange(document) }))
            &&& id == n as usize
            &&& range_formatting_document(params) == Some(document.uri@)
        },
        method == "initialize"@ && initialize_root_path(params) is Some ==> {
            &&& read matches Ok(ServerMessage::Request(Request { id, method: Method::Initialize(init) }))
            &&& id == n as usize
            &&& initialize_root_path(params) == Some(
                match init.root_path {
                    Some(path) => Some(path@),
                    None => None,
                },
            )
        },
        method == "shutdown"@ ==> {
            &&& read matches Ok(ServerMessage::Request(Request { id, method: Method::Shutdown }))
            &&& id == n as usize
        },
{
    lemma_names();
}

/// The same of a text that is known to hold a message: a notification is the one that it names.
pub proof fn law_known_notifications_are_read_by_name(
    text: &str,
    json: Json,
    method: Seq<char>,
    params: Json,
    read: Result<ServerMessage<serde_json::Value>, ParseError>,
)
    requires
        call_ensures(parse_message, (text,), read),
        json_in(text@) == Some(json),
        member(json, "method"@) == Some(Json::Text(method)),
        member(json, "params"@) == Some(params),
    ensures
        method == "exit"@ ==> read == Ok::<_, ParseError>(
            ServerMessage::<serde_json::Value>::Notification(Notification::Exit),
        ),
        method == "textDocument/didChange"@ && fits_did_change(params) ==> {
            &&& read matches Ok(ServerMessage::Notification(Notification::Change(p)))
            &&& json_of(p) == params
        },
        method == "textDocument/didOpen"@ && fits_did_open(params) ==> {
            &&& read matches Ok(ServerMessage::Notification(Notification::Open(p)))
            &&& json_of(p) == params
        },
        method == "textDocument/didSave"@ && fits_did_save(params) ==> {
            &&& read matches Ok(ServerMessage::Notification(Notification::Save(p)))
            &&& json_of(p) == params
        },
        method == "$/cancelRequest"@ && fits_cancel(params) ==> {
            &&& read matches Ok(ServerMessage::Notification(Notification::CancelRequest(p)))
            &&& json_of(p) == params
        },
{
    lemma_names();
}

/// The same of a text that is known to hold a message: any other is refused for what is wrong with
/// it, under the number that it gives, if it has a name that stands for nothing or no name at all.
pub proof fn law_known_messages_are_refused(
    text: &str,
    json: Json,
    read: Result<ServerMessage<serde_json::Value>, ParseError>,
)
    requires
        call_ensures(parse_message, (text,), read),
        json_in(text@) == Some(json),
        member(json, "id"@) matches Some(id) ==> id matches Json::Number(JsonNumber::Unsigned(_)),
    ensures
        (match member(json, "method"@) {
            Some(Json::Text(method)) => {
                &&& method != "shutdown"@
                &&& method != "initialize"@
                &&& method != "textDocument/hover"@
                &&& method != "textDocument/definition"@
                &&& method != "textDocument/references"@
                &&& method != "textDocument/completion"@
                &&& method != "textDocument/documentHighlight"@
                &&& method != "textDocument/documentSymbol"@
                &&& method != "textDocument/rename"@
                &&& method != "completionItem/resolve"@
                &&& method != "textDocument/formatting"@
                &&& method != "textDocument/rangeFormatting"@
                &&& method != "exit"@
                &&& method != "textDocument/didChange"@
                &&& method != "textDocument/didOpen"@
                &&& method != "textDocument/didSave"@
                &&& method != "$/cancelRequest"@
                &&& method != "$/setTraceNotification"@
                &&& method != "workspace/didChangeConfiguration"@
            },
            _ => true,
        }) ==> read == Err::<ServerMessage<serde_json::Value>, _>(
            ParseError {
                kind: ErrorKind::InvalidData,
                message: match member(json, "method"@) {
                    None => "Method not found",
                    Some(Json::Text(_)) => "Unknown command",
                    Some(_) => "Method is not a string",
                },
                id: match member(json, "id"@) {
                    Some(Json::Number(JsonNumber::Unsigned(n))) => Some(n as usize),
                    _ => None,
                },
            },
        ),
        member(json, "method"@) == Some(Json::Text("$/setTraceNotification"@)) ==> read == Err::<
            ServerMessage<serde_json::Value>,
            _,
        >(ParseError { kind: ErrorKind::InvalidData, message: "setTraceNotification", id: None }),
        member(json, "method"@) == Some(Json::Text("workspace/didChangeConfiguration"@)) ==> read
            == Err::<ServerMessage<serde_json::Value>, _>(
            ParseError { kind: ErrorKind::InvalidData, message: "didChangeConfiguration", id: None },
        ),
{
    lemma_names();
}

/// The members of a message with a name are those of the request or the notification of that name,
/// with the number and the parameters among them, exactly if they fit.
pub proof fn law_members_are_interpreted_by_name<P>(
    envelope: Envelope<P>,
    name: String,
    fits: bool,
    read: Result<ServerMessage<P>, ParseError>,
)
    requires
        envelope.method == Field::Is(name),
        call_ensures(is_well_formed::<P>, (&envelope,), fits),
        fits ==> call_ensures(interpret::<P>, (envelope,), read),
    ensures
        name@ == "textDocument/hover"@ ==> match (envelope.id, envelope.params) {
            (Field::Is(n), Field::Is(Params::Other(p))) => read == Ok::<_, ParseError>(
                ServerMessage::<P, String>::Request(Request { id: n as usize, method: Method::Hover(p) }),
            ),
            _ => !fits,
        },
        name@ == "textDocument/definition"@ ==> match (envelope.id, envelope.params) {
            (Field::Is(n), Field::Is(Params::Other(p))) => read == Ok::<_, ParseError>(
                ServerMessage::<P, String>::Request(Request { id: n as usize, method: Method::GotoDef(p) }),
            ),
            _ => !fits,
        },
        name@ == "textDocument/references"@ ==> match (envelope.id, envelope.params) {
            (Field::Is(n), Field::Is(Params::Other(p))) => read == Ok::<_, ParseError>(
                ServerMessage::<P, String>::Request(Request { id: n as usize, method: Method::FindAllRef(p) }),
            ),
            _ => !fits,
        },
        name@ == "textDocument/completion"@ ==> match (envelope.id, envelope.params) {
            (Field::Is(n), Field::Is(Params::Other(p))) => read == Ok::<_, ParseError>(
                ServerMessage::<P, String>::Request(Request { id: n as usize, method: Method::Complete(p) }),
            ),
            _ => !fits,
        },
        name@ == "textDocument/documentHighlight"@ ==> match (envelope.id, envelope.params) {
            (Field::Is(n), Field::Is(Params::Other(p))) => read == Ok::<_, ParseError>(
                ServerMessage::<P, String>::Request(Request { id: n as usize, method: Method::Highlight(p) }),
            ),
            _ => !fits,
        },
        name@ == "textDocument/documentSymbol"@ ==> match (envelope.id, envelope.params) {
            (Field::Is(n), Field::Is(Params::Other(p))) => read == Ok::<_, ParseError>(
                ServerMessage::<P, String>::Request(Request { id: n as usize, method: Method::Symbols(p) }),
            ),
            _ => !fits,
        },
        name@ == "textDocument/rename"@ ==> match (envelope.id, envelope.params) {
            (Field::Is(n), Field::Is(Params::Other(p))) => read == Ok::<_, ParseError>(
                ServerMessage::<P, String>::Request(Request { id: n as usize, method: Method::Rename(p) }),
            ),
            _ => !fits,
        },
        name@ == "completionItem/resolve"@ ==> match (envelope.id, envelope.params) {
            (Field::Is(n), Field::Is(Params::Other(p))) => read == Ok::<_, ParseError>(
                ServerMessage::<P, String>::Request(Request { id: n as usize, method: Method::CompleteResolve(p) }),
            ),
            _ => !fits,
        },
        name@ == "textDocument/formatting"@ ==> match (envelope.id, envelope.params) {
            (Field::Is(n), Field::Is(Params::Format(p))) => read == Ok::<_, ParseError>(
                ServerMessage::<P, String>::Request(Request { id: n as usize, method: Method::Reformat(p) }),
            ),
            _ => !fits,
        },
        name@ == "textDocument/rangeFormatting"@ ==> match (envelope.id, envelope.params) {
            (Field::Is(n), Field::Is(Params::Format(p))) => read == Ok::<_, ParseError>(
                ServerMessage::<P, String>::Request(Request { id: n as usize, method: Method::ReformatRange(p) }),
            ),
            _ => !fits,
        },
        name@ == "initialize"@ ==> match (envelope.id, envelope.params) {
            (Field::Is(n), Field::Is(Params::Initialize(p))) => read == Ok::<_, ParseError>(
                ServerMessage::<P, String>::Request(Request { id: n as usize, method: Method::Initialize(p) }),
            ),
            _ => !fits,
        },
        name@ == "shutdown"@ ==> match envelope.id {
            Field::Is(n) => read == Ok::<_, ParseError>(
                ServerMessage::<P, String>::Request(Request { id: n as usize, method: Method::Shutdown }),
            ),
            _ => !fits,
        },
        name@ == "exit"@ ==> read == Ok::<_, ParseError>(
            ServerMessage::<P, String>::Notification(Notification::Exit),
        ),
        name@ == "textDocument/didChange"@ ==> match envelope.params {
            Field::Is(Params::Other(p)) => read == Ok::<_, ParseError>(
                ServerMessage::<P, String>::Notification(Notification::Change(p)),
            ),
            _ => !fits,
        },
        name@ == "textDocument/didOpen"@ ==> match envelope.params {
            Field::Is(Params::Other(p)) => read == Ok::<_, ParseError>(
                ServerMessage::<P, String>::Notification(Notification::Open(p)),
            ),
            _ => !fits,
        },
        name@ == "textDocument/didSave"@ ==> match envelope.params {
            Field::Is(Params::Other(p)) => read == Ok::<_, ParseError>(
                ServerMessage::<P, String>::Notification(Notification::Save(p)),
            ),
            _ => !fits,
        },
        name@ == "$/cancelRequest"@ ==> match envelope.params {
            Field::Is(Params::Other(p)) => read == Ok::<_, ParseError>(
                ServerMessage::<P, String>::Notification(Notification::CancelRequest(p)),
            ),
            _ => !fits,
        },
{
    lemma_names();
}

/// Members that make up no message are told: those of a request without a number or without
/// parameters that fit it, and those of a notification without parameters that fit it. All others
/// make up a message.
pub proof fn law_members_that_do_not_fit<P>(envelope: Envelope<P>, name: String, fits: bool)
    requires
        envelope.method == Field::Is(name),
        call_ensures(is_well_formed::<P>, (&envelope,), fits),
    ensures
        name@ == "textDocument/hover"@ ==> fits == (envelope.id is Is && (envelope.params matches Field::Is(
            params,
        ) && params is Other)),
        name@ == "textDocument/definition"@ ==> fits == (envelope.id is Is && (envelope.params matches Field::Is(
            params,
        ) && params is Other)),
        name@ == "textDocument/references"@ ==> fits == (envelope.id is Is && (envelope.params matches Field::Is(
            params,
        ) && params is Other)),
        name@ == "textDocument/completion"@ ==> fits == (envelope.id is Is && (envelope.params matches Field::Is(
            params,
        ) && params is Other)),
        name@ == "textDocument/documentHighlight"@ ==> fits == (envelope.id is Is && (envelope.params matches Field::Is(
            params,
        ) && params is Other)),
        name@ == "textDocument/documentSymbol"@ ==> fits == (envelope.id is Is && (envelope.params matches Field::Is(
            params,
        ) && params is Other)),
        name@ == "textDocument/rename"@ ==> fits == (envelope.id is Is && (envelope.params matches Field::Is(
            params,
        ) && params is Other)),
        name@ == "completionItem/resolve"@ ==> fits == (envelope.id is Is && (envelope.params matches Field::Is(
            params,
        ) && params is Other)),
        name@ == "textDocument/formatting"@ ==> fits == (envelope.id is Is && (envelope.params matches Field::Is(
            params,
        ) && params is Format)),
        name@ == "textDocument/rangeFormatting"@ ==> fits == (envelope.id is Is && (envelope.params matches Field::Is(
            params,
        ) && params is Format)),
        name@ == "initialize"@ ==> fits == (envelope.id is Is && (envelope.params matches Field::Is(
            params,
        ) && params is Initialize)),
        name@ == "shutdown"@ ==> fits == (envelope.id is Is),
        name@ == "exit"@ ==> fits,
        name@ == "$/setTraceNotification"@ ==> fits,
        name@ == "workspace/didChangeConfiguration"@ ==> fits,
        name@ == "textDocument/didChange"@ ==> fits == (envelope.params matches Field::Is(params) && params is Other),
        name@ == "textDocument/didOpen"@ ==> fits == (envelope.params matches Field::Is(params) && params is Other),
        name@ == "textDocument/didSave"@ ==> fits == (envelope.params matches Field::Is(params) && params is Other),
        name@ == "$/cancelRequest"@ ==> fits == (envelope.params matches Field::Is(params) && params is Other),
{
    lemma_names();
}

/// The members of a message without a name that stands for something are refused, under the number
/// among them.
pub proof fn law_members_without_a_name_are_refused<P>(
    envelope: Envelope<P>,
    fits: bool,
    read: Result<ServerMessage<P>, ParseError>,
)
    requires
        match envelope.method {
            Field::Is(name) => {
                &&& name@ != "shutdown"@
                &&& name@ != "initialize"@
                &&& name@ != "textDocument/hover"@
                &&& name@ != "textDocument/definition"@
                &&& name@ != "textDocument/references"@
                &&& name@ != "textDocument/completion"@
                &&& name@ != "textDocument/documentHighlight"@
                &&& name@ != "textDocument/documentSymbol"@
                &&& name@ != "textDocument/rename"@
                &&& name@ != "completionItem/resolve"@
                &&& name@ != "textDocument/formatting"@
                &&& name@ != "textDocument/rangeFormatting"@
                &&& name@ != "exit"@
                &&& name@ != "textDocument/didChange"@
                &&& name@ != "textDocument/didOpen"@
                &&& name@ != "textDocument/didSave"@
                &&& name@ != "$/cancelRequest"@
                &&& name@ != "$/setTraceNotification"@
                &&& name@ != "workspace/didChangeConfiguration"@
            },
            _ => true,
        },
        call_ensures(is_well_formed::<P>, (&envelope,), fits),
        fits ==> call_ensures(interpret::<P>, (envelope,), read),
    ensures
        fits == !(envelope.id is Unfit),
        fits ==> read == Err::<ServerMessage<P>, _>(
            ParseError {
                kind: ErrorKind::InvalidData,
                message: match envelope.method {
                    Field::Missing => "Method not found",
                    Field::Unfit => "Method is not a string",
                    Field::Is(_) => "Unknown command",
                },
                id: match envelope.id {
                    Field::Is(n) => Some(n as usize),
                    _ => None,
                },
            },
        ),
{
}

/// Members that set the trace or change the configuration are refused, never to be answered.
pub proof fn law_members_to_be_dropped<P>(
    envelope: Envelope<P>,
    name: String,
    read: Result<ServerMessage<P>, ParseError>,
)
    requires
        envelope.method == Field::Is(name),
        call_ensures(interpret::<P>, (envelope,), read),
    ensures
        name@ == "$/setTraceNotification"@ ==> read == Err::<ServerMessage<P>, _>(
            ParseError { kind: ErrorKind::InvalidData, message: "setTraceNotification", id: None },
        ),
        name@ == "workspace/didChangeConfiguration"@ ==> read == Err::<ServerMessage<P>, _>(
            ParseError { kind: ErrorKind::InvalidData, message: "didChangeConfiguration", id: None },
        ),
{
    lemma_names();
}

/// The members of a message are what the JSON holds under their names: the text under `method` and
/// the number under `id`, told apart from what is there but of another type.
pub proof fn law_members_are_found(value: &serde_json::Value, members: Envelope<serde_json::Value>)
    requires
        call_ensures(envelope, (value,), members),
    ensures
        members.method is Missing <==> member(json_of(*value), "method"@) is None,
        members.method matches Field::Is(name) ==> member(json_of(*value), "method"@) == Some(
            Json::Text(name@),
        ),
        (member(json_of(*value), "method"@) matches Some(found) && found is Text)
            ==> members.method is Is,
        members.id is Missing <==> member(json_of(*value), "id"@) is None,
        members.id matches Field::Is(n) ==> member(json_of(*value), "id"@) == Some(
            Json::Number(JsonNumber::Unsigned(n)),
        ),
        (member(json_of(*value), "id"@) matches Some(Json::Number(number)) && number is Unsigned)
            ==> members.id is Is,
        members.params is Missing <==> member(json_of(*value), "params"@) is None,
{
}

/// The parameters among the members of a message are those that its command takes out of what the
/// JSON holds under `params`.
pub proof fn law_parameters_are_found(
    value: &serde_json::Value,
    params: &serde_json::Value,
    name: &str,
    selected: Command,
    members: Envelope<serde_json::Value>,
    taken: Option<Params<serde_json::Value>>,
)
    requires
        call_ensures(envelope, (value,), members),
        member(json_of(*value), "method"@) == Some(Json::Text(name@)),
        member(json_of(*value), "params"@) == Some(json_of(*params)),
        call_ensures(command, (name,), selected),
        call_ensures(read_params, (selected, params), taken),
    ensures
        match taken {
            None => members.params is Unfit,
            Some(Params::Initialize(init)) => {
                &&& members.params matches Field::Is(Params::Initialize(found))
                &&& match (init.root_path, found.root_path) {
                    (Some(a), Some(b)) => a@ == b@,
                    (None, None) => true,
                    _ => false,
                }
            },
            Some(Params::Format(document)) => {
                &&& members.params matches Field::Is(Params::Format(found))
                &&& found.uri@ == document.uri@
            },
            Some(Params::Other(p)) => {
                &&& members.params matches Field::Is(Params::Other(found))
                &&& json_of(found) == json_of(p)
            },
        },
{
}

/// The parameters of the request to initialize are its root path, if it has one, and those of a
/// request to reformat the document: all as they are in the JSON.
pub proof fn law_parameters_that_are_read(
    params: &serde_json::Value,
    init: Option<Params<serde_json::Value>>,
    whole: Option<Params<serde_json::Value>>,
    range: Option<Params<serde_json::Value>>,
)
    requires
        call_ensures(read_params, (Command::Initialize, params), init),
        call_ensures(read_params, (Command::Reformat, params), whole),
        call_ensures(read_params, (Command::ReformatRange, params), range),
    ensures
        match initialize_root_path(json_of(*params)) {
            None => init is None,
            Some(None) => init matches Some(Params::Initialize(found)) && found.root_path is None,
            Some(Some(path)) => init matches Some(Params::Initialize(found)) && (
            found.root_path matches Some(root) && root@ == path),
        },
        match formatting_document(json_of(*params)) {
            None => whole is None,
            Some(uri) => whole matches Some(Params::Format(document)) && document.uri@ == uri,
        },
        match range_formatting_document(json_of(*params)) {
            None => range is None,
            Some(uri) => range matches Some(Params::Format(document)) && document.uri@ == uri,
        },
{
}

/// Parameters that are handed on stay as they are, and are handed on exactly if they are of the type
/// that the command takes. A command that takes none does not mind any.
pub proof fn law_parameters_that_are_handed_on(
    command: Command,
    params: &serde_json::Value,
    taken: Option<Params<serde_json::Value>>,
)
    requires
        call_ensures(read_params, (command, params), taken),
        command != Command::Initialize,
        command != Command::Reformat,
        command != Command::ReformatRange,
    ensures
        taken matches Some(p) ==> (p matches Params::Other(value) && json_of(value) == json_of(
            *params,
        )),
        command == Command::Hover ==> (taken is Some <==> fits_position(json_of(*params))),
        command == Command::GotoDef ==> (taken is Some <==> fits_position(json_of(*params))),
        command == Command::FindAllRef ==> (taken is Some <==> fits_reference(json_of(*params))),
        command == Command::Complete ==> (taken is Some <==> fits_position(json_of(*params))),
        command == Command::Highlight ==> (taken is Some <==> fits_position(json_of(*params))),
        command == Command::Symbols ==> (taken is Some <==> fits_document_symbol(json_of(*params))),
        command == Command::Rename ==> (taken is Some <==> fits_rename(json_of(*params))),
        command == Command::CompleteResolve ==> (taken is Some <==> fits_completion_item(json_of(*params))),
        command == Command::Change ==> (taken is Some <==> fits_did_change(json_of(*params))),
        command == Command::Open ==> (taken is Some <==> fits_did_open(json_of(*params))),
        command == Command::Save ==> (taken is Some <==> fits_did_save(json_of(*params))),
        command == Command::CancelRequest ==> (taken is Some <==> fits_cancel(json_of(*params))),
        (command == Command::Shutdown || command == Command::Exit || command == Command::SetTrace
            || command == Command::ChangeConfiguration || command == Command::Unknown)
            ==> taken is Some,
{
}

/// Every name stands for its own command, and no other name for any.
pub proof fn law_names_stand_for_commands(name: &str, selected: Command)
    requires
        call_ensures(command, (name,), selected),
    ensures
        selected == Command::Shutdown <==> name@ == "shutdown"@,
        selected == Command::Initialize <==> name@ == "initialize"@,
        selected == Command::Hover <==> name@ == "textDocument/hover"@,
        selected == Command::GotoDef <==> name@ == "textDocument/definition"@,
        selected == Command::FindAllRef <==> name@ == "textDocument/references"@,
        selected == Command::Complete <==> name@ == "textDocument/completion"@,
        selected == Command::Highlight <==> name@ == "textDocument/documentHighlight"@,
        selected == Command::Symbols <==> name@ == "textDocument/documentSymbol"@,
        selected == Command::Rename <==> name@ == "textDocument/rename"@,
        selected == Command::CompleteResolve <==> name@ == "completionItem/resolve"@,
        selected == Command::Reformat <==> name@ == "textDocument/formatting"@,
        selected == Command::ReformatRange <==> name@ == "textDocument/rangeFormatting"@,
        selected == Command::Exit <==> name@ == "exit"@,
        selected == Command::Change <==> name@ == "textDocument/didChange"@,
        selected == Command::Open <==> name@ == "textDocument/didOpen"@,
        selected == Command::Save <==> name@ == "textDocument/didSave"@,
        selected == Command::CancelRequest <==> name@ == "$/cancelRequest"@,
        selected == Command::SetTrace <==> name@ == "$/setTraceNotification"@,
        selected == Command::ChangeConfiguration <==> name@ == "workspace/didChangeConfiguration"@,
{
    lemma_names();
}

/// What comes from a reader is nothing at the end of the input, something malformed if the text
/// holds no message, and otherwise what the text is read as.
pub proof fn law_what_comes_is_what_is_read(
    text: String,
    same: &str,
    read: Option<Result<ServerMessage<serde_json::Value>, ParseError>>,
    incoming: Incoming,
    ended: Incoming,
)
    requires
        same@ == text@,
        call_ensures(receive, (None,), ended),
        call_ensures(receive, (Some(text),), incoming),
        call_ensures(try_parse_message, (same,), read),
    ensures
        ended is End,
        match read {
            None => incoming is Malformed,
            Some(message) => incoming matches Incoming::Message(m) && in_json(m) == in_json(message),
        },
        read matches Some(Err(error)) ==> (incoming matches Incoming::Message(Err(e)) && e == error),
{
}

/// Why a message is refused is kept as it was given.
pub proof fn law_reasons_are_kept(
    kind: ErrorKind,
    message: &'static str,
    id: Option<usize>,
    error: ParseError,
)
    requires
        call_ensures(ParseError::new, (kind, message, id), error),
    ensures
        error.kind == kind,
        error.message == message,
        error.id == id,
{
}

} // verus!
