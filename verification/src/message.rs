//! The messages of a client, and how they are read out of JSON.
use crate::json::{
    json_in, json_of, member, value_as_str, value_as_u64, value_from_str, value_get, Json,
    JsonNumber,
};
use crate::params::{params_for, read_params, InitializeParams, Params, TextDocumentIdentifier};
use crate::text::same_text;
use vstd::pervasive::unreached;
use vstd::prelude::*;

verus! {

/// The kind of a [`ParseError`].
#[derive(Debug, Clone, Copy, PartialEq, Eq, Structural)]
pub enum ErrorKind {
    InvalidData,
}

/// Why a message is refused, and the request to answer with the refusal, if it named itself.
#[derive(Debug, Clone, Copy, PartialEq, Eq)]
pub struct ParseError {
    pub kind: ErrorKind,
    pub message: &'static str,
    pub id: Option<usize>,
}

impl ParseError {
    pub fn new(kind: ErrorKind, message: &'static str, id: Option<usize>) -> (error: ParseError)
        ensures
            error == (ParseError { kind, message, id }),
    {
        ParseError { kind, message, id }
    }
}

/// A message that was read. `P` is the type of the parameters that it carries, `S` that of texts.
#[derive(Debug, PartialEq)]
pub enum ServerMessage<P, S = String> {
    Request(Request<P, S>),
    Notification(Notification<P>),
}

/// A message that is to be answered, under the number that the client gave it.
#[derive(Debug, PartialEq)]
pub struct Request<P, S = String> {
    pub id: usize,
    pub method: Method<P, S>,
}

/// A message that is not to be answered.
#[derive(Debug, PartialEq)]
pub enum Notification<P> {
    Exit,
    CancelRequest(P),
    Change(P),
    Open(P),
    Save(P),
}

/// What a request asks for.
#[derive(Debug, PartialEq)]
pub enum Method<P, S = String> {
    Shutdown,
    Initialize(InitializeParams<S>),
    Hover(P),
    GotoDef(P),
    FindAllRef(P),
    Complete(P),
    Highlight(P),
    /// Fills out a completion item. Completions come complete, so that the item is handed back
    /// as it is.
    CompleteResolve(P),
    Symbols(P),
    Rename(P),
    /// Reformats a document, by whatever options.
    Reformat(TextDocumentIdentifier<S>),
    /// Reformats a range of a document, by whatever options.
    ReformatRange(TextDocumentIdentifier<S>),
}

/// What the `method` member of a message names.
#[derive(Debug, Clone, Copy, PartialEq, Eq, Structural)]
pub enum Command {
    Shutdown,
    Initialize,
    Hover,
    GotoDef,
    FindAllRef,
    Complete,
    Highlight,
    CompleteResolve,
    Symbols,
    Rename,
    Reformat,
    ReformatRange,
    Exit,
    Change,
    Open,
    Save,
    CancelRequest,
    SetTrace,
    ChangeConfiguration,
    Unknown,
}

/// The command that a method name selects.
pub open spec fn command_of(name: Seq<char>) -> Command {
    if name == "shutdown"@ {
        Command::Shutdown
    } else if name == "initialize"@ {
        Command::Initialize
    } else if name == "textDocument/hover"@ {
        Command::Hover
    } else if name == "textDocument/definition"@ {
        Command::GotoDef
    } else if name == "textDocument/references"@ {
        Command::FindAllRef
    } else if name == "textDocument/completion"@ {
        Command::Complete
    } else if name == "textDocument/documentHighlight"@ {
        Command::Highlight
    } else if name == "completionItem/resolve"@ {
        Command::CompleteResolve
    } else if name == "textDocument/documentSymbol"@ {
        Command::Symbols
    } else if name == "textDocument/rename"@ {
        Command::Rename
    } else if name == "textDocument/formatting"@ {
        Command::Reformat
    } else if name == "textDocument/rangeFormatting"@ {
        Command::ReformatRange
    } else if name == "exit"@ {
        Command::Exit
    } else if name == "textDocument/didChange"@ {
        Command::Change
    } else if name == "textDocument/didOpen"@ {
        Command::Open
    } else if name == "textDocument/didSave"@ {
        Command::Save
    } else if name == "$/cancelRequest"@ {
        Command::CancelRequest
    } else if name == "$/setTraceNotification"@ {
        Command::SetTrace
    } else if name == "workspace/didChangeConfiguration"@ {
        Command::ChangeConfiguration
    } else {
        Command::Unknown
    }
}

/// The command that a method name selects.
pub fn command(name: &str) -> (selected: Command)
    ensures
        selected == command_of(name@),
{
    if same_text(name, "shutdown") {
        Command::Shutdown
    } else if same_text(name, "initialize") {
        Command::Initialize
    } else if same_text(name, "textDocument/hover") {
        Command::Hover
    } else if same_text(name, "textDocument/definition") {
        Command::GotoDef
    } else if same_text(name, "textDocument/references") {
        Command::FindAllRef
    } else if same_text(name, "textDocument/completion") {
        Command::Complete
    } else if same_text(name, "textDocument/documentHighlight") {
        Command::Highlight
    } else if same_text(name, "completionItem/resolve") {
        Command::CompleteResolve
    } else if same_text(name, "textDocument/documentSymbol") {
        Command::Symbols
    } else if same_text(name, "textDocument/rename") {
        Command::Rename
    } else if same_text(name, "textDocument/formatting") {
        Command::Reformat
    } else if same_text(name, "textDocument/rangeFormatting") {
        Command::ReformatRange
    } else if same_text(name, "exit") {
        Command::Exit
    } else if same_text(name, "textDocument/didChange") {
        Command::Change
    } else if same_text(name, "textDocument/didOpen") {
        Command::Open
    } else if same_text(name, "textDocument/didSave") {
        Command::Save
    } else if same_text(name, "$/cancelRequest") {
        Command::CancelRequest
    } else if same_text(name, "$/setTraceNotification") {
        Command::SetTrace
    } else if same_text(name, "workspace/didChangeConfiguration") {
        Command::ChangeConfiguration
    } else {
        Command::Unknown
    }
}

/// A member of a message that is expected to be of a certain type.
#[derive(Debug, PartialEq)]
pub enum Field<T> {
    /// There is no such member.
    Missing,
    /// There is one, of another type.
    Unfit,
    Is(T),
}

/// The members of a message that tell what it is. `P` is the type of the parameters that are
/// handed on.
#[derive(Debug, PartialEq)]
pub struct Envelope<P> {
    pub method: Field<String>,
    pub id: Field<u64>,
    /// The parameters, of the type that the method takes.
    pub params: Field<Params<P>>,
}

/// The name of the method in a JSON value.
pub open spec fn method_in(json: Json) -> Field<Seq<char>> {
    match member(json, "method"@) {
        None => Field::Missing,
        Some(Json::Text(name)) => Field::Is(name),
        Some(_) => Field::Unfit,
    }
}

/// The number of the message in a JSON value.
pub open spec fn id_in(json: Json) -> Field<u64> {
    match member(json, "id"@) {
        None => Field::Missing,
        Some(Json::Number(JsonNumber::Unsigned(n))) => Field::Is(n),
        Some(_) => Field::Unfit,
    }
}

/// The command that a method selects. Without a name there is none that is known.
pub open spec fn selected_by(method: Field<Seq<char>>) -> Command {
    match method {
        Field::Is(name) => command_of(name),
        _ => Command::Unknown,
    }
}

/// The parameters in a JSON value, as its method takes them.
pub open spec fn params_in(json: Json) -> Field<Params<Json, Seq<char>>> {
    match member(json, "params"@) {
        None => Field::Missing,
        Some(params) => match params_for(selected_by(method_in(json)), params) {
            Some(p) => Field::Is(p),
            None => Field::Unfit,
        },
    }
}

impl<P> Envelope<P> {
    /// The name of the method as its characters.
    pub open spec fn name(self) -> Field<Seq<char>> {
        match self.method {
            Field::Missing => Field::Missing,
            Field::Unfit => Field::Unfit,
            Field::Is(name) => Field::Is(name@),
        }
    }
}

/// What a request asks for, given the parameters that came with it. `None` if they are needed and
/// did not come, or not as the command takes them, or if `command` is not that of a request.
pub open spec fn method_for<P, S>(command: Command, params: Field<Params<P, S>>) -> Option<
    Method<P, S>,
> {
    match (command, params) {
        (Command::Shutdown, _) => Some(Method::Shutdown),
        (Command::Initialize, Field::Is(Params::Initialize(p))) => Some(Method::Initialize(p)),
        (Command::Hover, Field::Is(Params::Other(p))) => Some(Method::Hover(p)),
        (Command::GotoDef, Field::Is(Params::Other(p))) => Some(Method::GotoDef(p)),
        (Command::FindAllRef, Field::Is(Params::Other(p))) => Some(Method::FindAllRef(p)),
        (Command::Complete, Field::Is(Params::Other(p))) => Some(Method::Complete(p)),
        (Command::Highlight, Field::Is(Params::Other(p))) => Some(Method::Highlight(p)),
        (Command::CompleteResolve, Field::Is(Params::Other(p))) => Some(Method::CompleteResolve(p)),
        (Command::Symbols, Field::Is(Params::Other(p))) => Some(Method::Symbols(p)),
        (Command::Rename, Field::Is(Params::Other(p))) => Some(Method::Rename(p)),
        (Command::Reformat, Field::Is(Params::Format(d))) => Some(Method::Reformat(d)),
        (Command::ReformatRange, Field::Is(Params::Format(d))) => Some(Method::ReformatRange(d)),
        _ => None,
    }
}

/// The notification that `command` stands for, given the parameters that came with it. `None` if
/// they are needed and did not come, or not as the command takes them, or if `command` is not that
/// of a notification.
pub open spec fn notification_for<P, S>(command: Command, params: Field<Params<P, S>>) -> Option<
    Notification<P>,
> {
    match (command, params) {
        (Command::Exit, _) => Some(Notification::Exit),
        (Command::Change, Field::Is(Params::Other(p))) => Some(Notification::Change(p)),
        (Command::Open, Field::Is(Params::Other(p))) => Some(Notification::Open(p)),
        (Command::Save, Field::Is(Params::Other(p))) => Some(Notification::Save(p)),
        (Command::CancelRequest, Field::Is(Params::Other(p))) => Some(
            Notification::CancelRequest(p),
        ),
        _ => None,
    }
}

/// Whether `command` is that of a request.
pub open spec fn is_request(command: Command) -> bool {
    match command {
        Command::Shutdown | Command::Initialize | Command::Hover | Command::GotoDef
        | Command::FindAllRef | Command::Complete | Command::Highlight | Command::CompleteResolve
        | Command::Symbols | Command::Rename | Command::Reformat | Command::ReformatRange => true,
        _ => false,
    }
}

/// The refusal of a message, to be answered under the number that the message has. `None` if its
/// `id` is not a number.
pub open spec fn refusal<P, S>(message: &'static str, id: Field<u64>) -> Option<
    Result<ServerMessage<P, S>, ParseError>,
> {
    match id {
        Field::Missing => Some(
            Err(ParseError { kind: ErrorKind::InvalidData, message, id: None }),
        ),
        Field::Unfit => None,
        Field::Is(n) => Some(
            Err(ParseError { kind: ErrorKind::InvalidData, message, id: Some(n as usize) }),
        ),
    }
}

/// What message these members make up, or why it is refused. `None` if the message is malformed: a
/// member that it needs is missing or of the wrong type.
pub open spec fn meaning<P, S>(
    method: Field<Seq<char>>,
    id: Field<u64>,
    params: Field<Params<P, S>>,
) -> Option<Result<ServerMessage<P, S>, ParseError>> {
    match method {
        Field::Missing => refusal("Method not found", id),
        Field::Unfit => refusal("Method is not a string", id),
        Field::Is(name) => match command_of(name) {
            Command::SetTrace => refusal("setTraceNotification", Field::Missing),
            Command::ChangeConfiguration => refusal("didChangeConfiguration", Field::Missing),
            Command::Unknown => refusal("Unknown command", id),
            command => if is_request(command) {
                match (id, method_for(command, params)) {
                    (Field::Is(n), Some(method)) => Some(
                        Ok(ServerMessage::Request(Request { id: n as usize, method })),
                    ),
                    _ => None,
                }
            } else {
                match notification_for(command, params) {
                    Some(notification) => Some(Ok(ServerMessage::Notification(notification))),
                    None => None,
                }
            },
        },
    }
}

/// What message a JSON value is, or why it is refused. `None` if the message is malformed.
pub open spec fn meaning_of(json: Json) -> Option<
    Result<ServerMessage<Json, Seq<char>>, ParseError>,
> {
    meaning(method_in(json), id_in(json), params_in(json))
}

/// The refusal of a message, to be answered under the number that the message has.
fn refuse<P>(message: &'static str, id: Field<u64>) -> (refused: Result<
    ServerMessage<P>,
    ParseError,
>)
    requires
        !(id is Unfit),
    ensures
        Some(refused) == refusal::<P, String>(message, id),
{
    let id: Option<usize> = match id {
        Field::Is(n) => Some(n as usize),
        _ => None,
    };
    Err(ParseError::new(ErrorKind::InvalidData, message, id))
}

/// The request for `method` under the number `id`.
fn request<P>(id: Field<u64>, method: Method<P>) -> (message: Result<
    ServerMessage<P>,
    ParseError,
>)
    requires
        id is Is,
    ensures
        id matches Field::Is(n) && message == Ok::<_, ParseError>(
            ServerMessage::Request(Request { id: n as usize, method }),
        ),
{
    match id {
        Field::Is(n) => Ok(ServerMessage::Request(Request { id: n as usize, method })),
        _ => unreached(),
    }
}

/// Whether the members of `envelope` make up a message, be it one that is refused. If they do not,
/// the message is malformed.
pub fn is_well_formed<P>(envelope: &Envelope<P>) -> (yes: bool)
    ensures
        yes == (meaning(envelope.name(), envelope.id, envelope.params) is Some),
{
    let id_fits: bool = match &envelope.id {
        Field::Unfit => false,
        _ => true,
    };
    let numbered: bool = match &envelope.id {
        Field::Is(_) => true,
        _ => false,
    };
    let to_initialize: bool = match &envelope.params {
        Field::Is(Params::Initialize(_)) => true,
        _ => false,
    };
    let to_format: bool = match &envelope.params {
        Field::Is(Params::Format(_)) => true,
        _ => false,
    };
    let to_hand_on: bool = match &envelope.params {
        Field::Is(Params::Other(_)) => true,
        _ => false,
    };
    let selected = match &envelope.method {
        Field::Is(name) => command(name.as_str()),
        _ => {
            return id_fits;
        },
    };
    match selected {
        Command::SetTrace | Command::ChangeConfiguration | Command::Exit => true,
        Command::Unknown => id_fits,
        Command::Shutdown => numbered,
        Command::Initialize => numbered && to_initialize,
        Command::Reformat | Command::ReformatRange => numbered && to_format,
        Command::Change | Command::Open | Command::Save | Command::CancelRequest => to_hand_on,
        Command::Hover | Command::GotoDef | Command::FindAllRef | Command::Complete
        | Command::Highlight | Command::CompleteResolve | Command::Symbols | Command::Rename => {
            numbered && to_hand_on
        },
    }
}

/// Tells what message the members of `envelope` make up, or why it is refused.
pub fn interpret<P>(envelope: Envelope<P>) -> (message: Result<ServerMessage<P>, ParseError>)
    requires
        meaning(envelope.name(), envelope.id, envelope.params) is Some,
    ensures
        Some(message) == meaning(envelope.name(), envelope.id, envelope.params),
{
    let id = envelope.id;
    let name = match envelope.method {
        Field::Missing => {
            return refuse("Method not found", id);
        },
        Field::Unfit => {
            return refuse("Method is not a string", id);
        },
        Field::Is(name) => name,
    };
    let selected = command(name.as_str());
    match (selected, envelope.params) {
        (Command::SetTrace, _) => refuse("setTraceNotification", Field::Missing),
        (Command::ChangeConfiguration, _) => refuse("didChangeConfiguration", Field::Missing),
        (Command::Unknown, _) => refuse("Unknown command", id),
        (Command::Shutdown, _) => request(id, Method::Shutdown),
        (Command::Exit, _) => Ok(ServerMessage::Notification(Notification::Exit)),
        (Command::Initialize, Field::Is(Params::Initialize(p))) => {
            request(id, Method::Initialize(p))
        },
        (Command::Hover, Field::Is(Params::Other(p))) => request(id, Method::Hover(p)),
        (Command::GotoDef, Field::Is(Params::Other(p))) => request(id, Method::GotoDef(p)),
        (Command::FindAllRef, Field::Is(Params::Other(p))) => request(id, Method::FindAllRef(p)),
        (Command::Complete, Field::Is(Params::Other(p))) => request(id, Method::Complete(p)),
        (Command::Highlight, Field::Is(Params::Other(p))) => request(id, Method::Highlight(p)),
        (Command::CompleteResolve, Field::Is(Params::Other(p))) => {
            request(id, Method::CompleteResolve(p))
        },
        (Command::Symbols, Field::Is(Params::Other(p))) => request(id, Method::Symbols(p)),
        (Command::Rename, Field::Is(Params::Other(p))) => request(id, Method::Rename(p)),
        (Command::Reformat, Field::Is(Params::Format(d))) => request(id, Method::Reformat(d)),
        (Command::ReformatRange, Field::Is(Params::Format(d))) => {
            request(id, Method::ReformatRange(d))
        },
        (Command::Change, Field::Is(Params::Other(p))) => Ok(
            ServerMessage::Notification(Notification::Change(p)),
        ),
        (Command::Open, Field::Is(Params::Other(p))) => Ok(
            ServerMessage::Notification(Notification::Open(p)),
        ),
        (Command::Save, Field::Is(Params::Other(p))) => Ok(
            ServerMessage::Notification(Notification::Save(p)),
        ),
        (Command::CancelRequest, Field::Is(Params::Other(p))) => Ok(
            ServerMessage::Notification(Notification::CancelRequest(p)),
        ),
        _ => unreached(),
    }
}

/// The members of a JSON value that tell what message it is.
pub fn envelope(message: &serde_json::Value) -> (members: Envelope<serde_json::Value>)
    ensures
        members.name() == method_in(json_of(*message)),
        members.id == id_in(json_of(*message)),
        params_in(json_of(*message)) == (match members.params {
            Field::Missing => Field::Missing,
            Field::Unfit => Field::Unfit,
            Field::Is(p) => Field::Is(p.json()),
        }),
{
    let method = match value_get(message, "method") {
        None => Field::Missing,
        Some(value) => match value_as_str(value) {
            Some(name) => Field::Is(name.to_owned()),
            None => Field::Unfit,
        },
    };
    let id = match value_get(message, "id") {
        None => Field::Missing,
        Some(value) => match value_as_u64(value) {
            Some(n) => Field::Is(n),
            None => Field::Unfit,
        },
    };
    let selected = match &method {
        Field::Is(name) => command(name.as_str()),
        _ => Command::Unknown,
    };
    let params = match value_get(message, "params") {
        None => Field::Missing,
        Some(value) => match read_params(selected, value) {
            Some(p) => Field::Is(p),
            None => Field::Unfit,
        },
    };
    Envelope { method, id, params }
}

impl Method<serde_json::Value> {
    /// The same method, the parameters taken as the JSON that they hold and texts as their
    /// characters.
    pub open spec fn json(self) -> Method<Json, Seq<char>> {
        match self {
            Method::Shutdown => Method::Shutdown,
            Method::Initialize(p) => Method::Initialize(p.json()),
            Method::Hover(p) => Method::Hover(json_of(p)),
            Method::GotoDef(p) => Method::GotoDef(json_of(p)),
            Method::FindAllRef(p) => Method::FindAllRef(json_of(p)),
            Method::Complete(p) => Method::Complete(json_of(p)),
            Method::Highlight(p) => Method::Highlight(json_of(p)),
            Method::CompleteResolve(p) => Method::CompleteResolve(json_of(p)),
            Method::Symbols(p) => Method::Symbols(json_of(p)),
            Method::Rename(p) => Method::Rename(json_of(p)),
            Method::Reformat(p) => Method::Reformat(p.json()),
            Method::ReformatRange(p) => Method::ReformatRange(p.json()),
        }
    }
}

impl Notification<serde_json::Value> {
    /// The same notification, the parameters taken as the JSON that they hold.
    pub open spec fn json(self) -> Notification<Json> {
        match self {
            Notification::Exit => Notification::Exit,
            Notification::CancelRequest(p) => Notification::CancelRequest(json_of(p)),
            Notification::Change(p) => Notification::Change(json_of(p)),
            Notification::Open(p) => Notification::Open(json_of(p)),
            Notification::Save(p) => Notification::Save(json_of(p)),
        }
    }
}

/// What was read, the parameters taken as the JSON that they hold and texts as their characters.
pub open spec fn in_json(message: Result<ServerMessage<serde_json::Value>, ParseError>) -> Result<
    ServerMessage<Json, Seq<char>>,
    ParseError,
> {
    match message {
        Ok(ServerMessage::Request(request)) => Ok(
            ServerMessage::Request(Request { id: request.id, method: request.method.json() }),
        ),
        Ok(ServerMessage::Notification(notification)) => Ok(
            ServerMessage::Notification(notification.json()),
        ),
        Err(error) => Err(error),
    }
}

/// The message that a text holds, or why it is refused. `None` if the text is not JSON, or if the
/// message in it is malformed.
pub open spec fn message_of(text: Seq<char>) -> Option<
    Result<ServerMessage<Json, Seq<char>>, ParseError>,
> {
    match json_in(text) {
        Some(json) => meaning_of(json),
        None => None,
    }
}

/// Reads a message from a text that holds one.
pub fn parse_message(input: &str) -> (message: Result<ServerMessage<serde_json::Value>, ParseError>)
    requires
        message_of(input@) is Some,
    ensures
        message_of(input@) == Some(in_json(message)),
{
    match value_from_str(input) {
        Ok(value) => interpret(envelope(&value)),
        Err(_) => unreached(),
    }
}

/// Reads a message. `None` if `input` is not JSON, or if the message in it is malformed: a client
/// that sends such a text cannot be served any further.
pub fn try_parse_message(input: &str) -> (message: Option<
    Result<ServerMessage<serde_json::Value>, ParseError>,
>)
    ensures
        message_of(input@) == (match message {
            Some(m) => Some(in_json(m)),
            None => None,
        }),
{
    let well_formed: bool = match value_from_str(input) {
        Ok(value) => is_well_formed(&envelope(&value)),
        Err(_) => false,
    };
    if well_formed {
        Some(parse_message(input))
    } else {
        None
    }
}

/// Whether `command` needs parameters.
pub open spec fn takes_params(command: Command) -> bool {
    match command {
        Command::Shutdown
        | Command::Exit
        | Command::SetTrace
        | Command::ChangeConfiguration
        | Command::Unknown => false,
        _ => true,
    }
}

/// A message whose command needs parameters is read exactly if it has parameters of the type that
/// the command takes and, if it is a request, a number. Otherwise it is malformed.
pub proof fn law_parameters_have_to_fit(json: Json)
    requires
        takes_params(selected_by(method_in(json))),
    ensures
        ({
            let command = selected_by(method_in(json));
            meaning_of(json) is Some <==> {
                &&& member(json, "params"@) matches Some(params)
                &&& params_for(command, params) is Some
                &&& is_request(command) ==> id_in(json) is Is
            }
        }),
        meaning_of(json) matches Some(message) ==> message is Ok,
{
}

/// The name under which a command is called. That of `Unknown` is empty.
pub open spec fn wire_name(command: Command) -> Seq<char> {
    match command {
        Command::Shutdown => "shutdown"@,
        Command::Initialize => "initialize"@,
        Command::Hover => "textDocument/hover"@,
        Command::GotoDef => "textDocument/definition"@,
        Command::FindAllRef => "textDocument/references"@,
        Command::Complete => "textDocument/completion"@,
        Command::Highlight => "textDocument/documentHighlight"@,
        Command::CompleteResolve => "completionItem/resolve"@,
        Command::Symbols => "textDocument/documentSymbol"@,
        Command::Rename => "textDocument/rename"@,
        Command::Reformat => "textDocument/formatting"@,
        Command::ReformatRange => "textDocument/rangeFormatting"@,
        Command::Exit => "exit"@,
        Command::Change => "textDocument/didChange"@,
        Command::Open => "textDocument/didOpen"@,
        Command::Save => "textDocument/didSave"@,
        Command::CancelRequest => "$/cancelRequest"@,
        Command::SetTrace => "$/setTraceNotification"@,
        Command::ChangeConfiguration => "workspace/didChangeConfiguration"@,
        Command::Unknown => Seq::empty(),
    }
}

/// Every command is selected by its own name and by no other.
pub proof fn law_commands_have_one_name(command: Command, name: Seq<char>)
    requires
        command != Command::Unknown,
    ensures
        command_of(name) == command <==> name == wire_name(command),
{
    reveal_strlit("shutdown");
    reveal_strlit("initialize");
    reveal_strlit("textDocument/hover");
    reveal_strlit("textDocument/definition");
    reveal_strlit("textDocument/references");
    reveal_strlit("textDocument/completion");
    reveal_strlit("textDocument/documentHighlight");
    reveal_strlit("completionItem/resolve");
    reveal_strlit("textDocument/documentSymbol");
    reveal_strlit("textDocument/rename");
    reveal_strlit("textDocument/formatting");
    reveal_strlit("textDocument/rangeFormatting");
    reveal_strlit("exit");
    reveal_strlit("textDocument/didChange");
    reveal_strlit("textDocument/didOpen");
    reveal_strlit("textDocument/didSave");
    reveal_strlit("$/cancelRequest");
    reveal_strlit("$/setTraceNotification");
    reveal_strlit("workspace/didChangeConfiguration");
    assert("shutdown"@.len() == 8);
    assert("initialize"@.len() == 10);
    assert("textDocument/hover"@.len() == 18);
    assert("textDocument/definition"@.len() == 23);
    assert("textDocument/references"@.len() == 23);
    assert("textDocument/completion"@.len() == 23);
    assert("textDocument/documentHighlight"@.len() == 30);
    assert("completionItem/resolve"@.len() == 22);
    assert("textDocument/documentSymbol"@.len() == 27);
    assert("textDocument/rename"@.len() == 19);
    assert("textDocument/formatting"@.len() == 23);
    assert("textDocument/rangeFormatting"@.len() == 28);
    assert("exit"@.len() == 4);
    assert("textDocument/didChange"@.len() == 22);
    assert("textDocument/didOpen"@.len() == 20);
    assert("textDocument/didSave"@.len() == 20);
    assert("$/cancelRequest"@.len() == 15);
    assert("$/setTraceNotification"@.len() == 22);
    assert("workspace/didChangeConfiguration"@.len() == 32);
    // Names of the same length differ in a character.
    assert("textDocument/definition"@[13] == 'd' && "textDocument/references"@[13] == 'r'
        && "textDocument/completion"@[13] == 'c' && "textDocument/formatting"@[13] == 'f');
    assert("completionItem/resolve"@[0] == 'c' && "textDocument/didChange"@[0] == 't'
        && "$/setTraceNotification"@[0] == '$');
    assert("textDocument/didOpen"@[16] == 'O' && "textDocument/didSave"@[16] == 'S');
}

/// The command of every name.
pub(crate) proof fn lemma_names()
    ensures
        forall|name: Seq<char>| #[trigger] command_of(name) == Command::Shutdown <==> name == "shutdown"@,
        forall|name: Seq<char>| #[trigger] command_of(name) == Command::Initialize <==> name == "initialize"@,
        forall|name: Seq<char>| #[trigger] command_of(name) == Command::Hover <==> name == "textDocument/hover"@,
        forall|name: Seq<char>| #[trigger] command_of(name) == Command::GotoDef <==> name == "textDocument/definition"@,
        forall|name: Seq<char>| #[trigger] command_of(name) == Command::FindAllRef <==> name == "textDocument/references"@,
        forall|name: Seq<char>| #[trigger] command_of(name) == Command::Complete <==> name == "textDocument/completion"@,
        forall|name: Seq<char>| #[trigger] command_of(name) == Command::Highlight <==> name == "textDocument/documentHighlight"@,
        forall|name: Seq<char>| #[trigger] command_of(name) == Command::CompleteResolve <==> name == "completionItem/resolve"@,
        forall|name: Seq<char>| #[trigger] command_of(name) == Command::Symbols <==> name == "textDocument/documentSymbol"@,
        forall|name: Seq<char>| #[trigger] command_of(name) == Command::Rename <==> name == "textDocument/rename"@,
        forall|name: Seq<char>| #[trigger] command_of(name) == Command::Reformat <==> name == "textDocument/formatting"@,
        forall|name: Seq<char>| #[trigger] command_of(name) == Command::ReformatRange <==> name == "textDocument/rangeFormatting"@,
        forall|name: Seq<char>| #[trigger] command_of(name) == Command::Exit <==> name == "exit"@,
        forall|name: Seq<char>| #[trigger] command_of(name) == Command::Change <==> name == "textDocument/didChange"@,
        forall|name: Seq<char>| #[trigger] command_of(name) == Command::Open <==> name == "textDocument/didOpen"@,
        forall|name: Seq<char>| #[trigger] command_of(name) == Command::Save <==> name == "textDocument/didSave"@,
        forall|name: Seq<char>| #[trigger] command_of(name) == Command::CancelRequest <==> name == "$/cancelRequest"@,
        forall|name: Seq<char>| #[trigger] command_of(name) == Command::SetTrace <==> name == "$/setTraceNotification"@,
        forall|name: Seq<char>| #[trigger] command_of(name) == Command::ChangeConfiguration <==> name == "workspace/didChangeConfiguration"@,
{
    assert forall|name: Seq<char>| #[trigger] command_of(name) == Command::Shutdown <==> name == wire_name(
        Command::Shutdown,
    ) by {
        law_commands_have_one_name(Command::Shutdown, name);
    }
    assert forall|name: Seq<char>| #[trigger] command_of(name) == Command::Initialize <==> name == wire_name(
        Command::Initialize,
    ) by {
        law_commands_have_one_name(Command::Initialize, name);
    }
    assert forall|name: Seq<char>| #[trigger] command_of(name) == Command::Hover <==> name == wire_name(
        Command::Hover,
    ) by {
        law_commands_have_one_name(Command::Hover, name);
    }
    assert forall|name: Seq<char>| #[trigger] command_of(name) == Command::GotoDef <==> name == wire_name(
        Command::GotoDef,
    ) by {
        law_commands_have_one_name(Command::GotoDef, name);
    }
    assert forall|name: Seq<char>| #[trigger] command_of(name) == Command::FindAllRef <==> name == wire_name(
        Command::FindAllRef,
    ) by {
        law_commands_have_one_name(Command::FindAllRef, name);
    }
    assert forall|name: Seq<char>| #[trigger] command_of(name) == Command::Complete <==> name == wire_name(
        Command::Complete,
    ) by {
        law_commands_have_one_name(Command::Complete, name);
    }
    assert forall|name: Seq<char>| #[trigger] command_of(name) == Command::Highlight <==> name == wire_name(
        Command::Highlight,
    ) by {
        law_commands_have_one_name(Command::Highlight, name);
    }
    assert forall|name: Seq<char>| #[trigger] command_of(name) == Command::CompleteResolve <==> name == wire_name(
        Command::CompleteResolve,
    ) by {
        law_commands_have_one_name(Command::CompleteResolve, name);
    }
    assert forall|name: Seq<char>| #[trigger] command_of(name) == Command::Symbols <==> name == wire_name(
        Command::Symbols,
    ) by {
        law_commands_have_one_name(Command::Symbols, name);
    }
    assert forall|name: Seq<char>| #[trigger] command_of(name) == Command::Rename <==> name == wire_name(
        Command::Rename,
    ) by {
        law_commands_have_one_name(Command::Rename, name);
    }
    assert forall|name: Seq<char>| #[trigger] command_of(name) == Command::Reformat <==> name == wire_name(
        Command::Reformat,
    ) by {
        law_commands_have_one_name(Command::Reformat, name);
    }
    assert forall|name: Seq<char>| #[trigger] command_of(name) == Command::ReformatRange <==> name == wire_name(
        Command::ReformatRange,
    ) by {
        law_commands_have_one_name(Command::ReformatRange, name);
    }
    assert forall|name: Seq<char>| #[trigger] command_of(name) == Command::Exit <==> name == wire_name(
        Command::Exit,
    ) by {
        law_commands_have_one_name(Command::Exit, name);
    }
    assert forall|name: Seq<char>| #[trigger] command_of(name) == Command::Change <==> name == wire_name(
        Command::Change,
    ) by {
        law_commands_have_one_name(Command::Change, name);
    }
    assert forall|name: Seq<char>| #[trigger] command_of(name) == Command::Open <==> name == wire_name(
        Command::Open,
    ) by {
        law_commands_have_one_name(Command::Open, name);
    }
    assert forall|name: Seq<char>| #[trigger] command_of(name) == Command::Save <==> name == wire_name(
        Command::Save,
    ) by {
        law_commands_have_one_name(Command::Save, name);
    }
    assert forall|name: Seq<char>| #[trigger] command_of(name) == Command::CancelRequest <==> name == wire_name(
        Command::CancelRequest,
    ) by {
        law_commands_have_one_name(Command::CancelRequest, name);
    }
    assert forall|name: Seq<char>| #[trigger] command_of(name) == Command::SetTrace <==> name == wire_name(
        Command::SetTrace,
    ) by {
        law_commands_have_one_name(Command::SetTrace, name);
    }
    assert forall|name: Seq<char>| #[trigger] command_of(name) == Command::ChangeConfiguration <==> name == wire_name(
        Command::ChangeConfiguration,
    ) by {
        law_commands_have_one_name(Command::ChangeConfiguration, name);
    }
}

/// A request is read only under the number in the `id` of the message, and a refusal is to be
/// answered under that number or not at all.
pub proof fn law_answers_go_to_the_number_given(json: Json)
    ensures
        meaning_of(json) matches Some(Ok(ServerMessage::Request(request))) ==> (member(
            json,
            "id"@,
        ) matches Some(Json::Number(JsonNumber::Unsigned(n))) && request.id == n as usize),
        meaning_of(json) matches Some(Err(error)) ==> (error.id is None || (member(
            json,
            "id"@,
        ) matches Some(Json::Number(JsonNumber::Unsigned(n))) && error.id == Some(n as usize))),
{
}

} // verus!
