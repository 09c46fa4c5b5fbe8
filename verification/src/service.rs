//! The service that answers the messages of a client.
use crate::capabilities::{capabilities, offers, InitializeResult};
use crate::json::{member, Json};
use crate::message::{
    id_in, meaning_of, method_in, selected_by, Command, Field, Method, Notification, ParseError,
    Request, ServerMessage,
};
use crate::params::{
    formatting_document, range_formatting_document, InitializeParams, TextDocumentIdentifier,
};
use crate::output::{
    failure_json, failure_text, parse_error_json, parse_error_text, success_json, success_text, Output,
};
use crate::reader::{Incoming, MessageReader};
use vstd::prelude::*;

verus! {

/// The acknowledgement of a request that has no other result.
#[derive(Debug, Clone, Copy, PartialEq, Eq, Structural)]
pub struct Ack {}

impl Ack {
    /// The acknowledgement as a JSON text: an object without members.
    pub fn to_json(&self) -> (json: &'static str)
        ensures
            json@ == "{}"@,
    {
        "{}"
    }
}

/// Whether the service goes on.
#[derive(Eq, PartialEq, Debug, Clone, Copy, Structural)]
pub enum ServerStateChange {
    Continue,
    Break,
}

/// What the service itself answers a request with. `L` is the type of lists.
#[derive(Debug, PartialEq)]
pub enum ResponseData<L> {
    CompletionItems(L),
    Ack(Ack),
}

/// Work on a request that is left to the handler of actions, which answers the request.
#[derive(Debug, Clone, Copy, PartialEq, Eq, Structural)]
pub enum Call {
    Hover,
    GotoDef,
    FindAllRefs,
    Complete,
    Highlight,
    Symbols,
    Rename,
}

/// Work on a notification that is left to the handler of actions.
#[derive(Debug, Clone, Copy, PartialEq, Eq, Structural)]
pub enum Event {
    OnChange,
    OnOpen,
    OnSave,
}

/// What is to be done about a message. `P` is the type of the parameters that are handed on, `S`
/// that of texts and `L` that of lists of parameters.
#[derive(Debug, PartialEq)]
pub enum Action<P, S = String, L = Vec<P>> {
    Nothing,
    /// Tell the client that nothing more can be read from it.
    ParseError,
    /// Answer the request `id` with a failure.
    Failure { id: usize, message: &'static str },
    /// Answer the request `id` with a result.
    Success { id: usize, data: ResponseData<L> },
    /// Initialize, see [`LsService::init`].
    Init { id: usize, init: InitializeParams<S> },
    /// Have the handler of actions work on the request `id`.
    Call { id: usize, call: Call, params: P },
    /// Have the handler of actions reformat the whole of a document, for the request `id`.
    Reformat { id: usize, text_document: TextDocumentIdentifier<S> },
    /// Have the handler of actions work on a notification.
    Event { event: Event, params: P },
    /// End the process with this exit code.
    Exit { code: i32 },
}

impl<P, S> View for Action<P, S> {
    type V = Action<P, S, Seq<P>>;

    /// The same action, lists taken as sequences.
    open spec fn view(&self) -> Action<P, S, Seq<P>> {
        match *self {
            Action::Nothing => Action::Nothing,
            Action::ParseError => Action::ParseError,
            Action::Failure { id, message } => Action::Failure { id, message },
            Action::Success { id, data: ResponseData::CompletionItems(items) } => Action::Success {
                id,
                data: ResponseData::CompletionItems(items@),
            },
            Action::Success { id, data: ResponseData::Ack(ack) } => Action::Success {
                id,
                data: ResponseData::Ack(ack),
            },
            Action::Init { id, init } => Action::Init { id, init },
            Action::Call { id, call, params } => Action::Call { id, call, params },
            Action::Reformat { id, text_document } => Action::Reformat { id, text_document },
            Action::Event { event, params } => Action::Event { event, params },
            Action::Exit { code } => Action::Exit { code },
        }
    }
}

/// What is to be done about a request.
pub open spec fn action_for_request<P, S>(request: Request<P, S>) -> Action<P, S, Seq<P>> {
    let id = request.id;
    match request.method {
        Method::Shutdown => Action::Success { id, data: ResponseData::Ack(Ack {  }) },
        Method::Initialize(init) => Action::Init { id, init },
        Method::Hover(params) => Action::Call { id, call: Call::Hover, params },
        Method::GotoDef(params) => Action::Call { id, call: Call::GotoDef, params },
        Method::FindAllRef(params) => Action::Call {
            id,
            call: Call::FindAllRefs,
            params,
        },
        Method::Complete(params) => Action::Call { id, call: Call::Complete, params },
        Method::Highlight(params) => Action::Call {
            id,
            call: Call::Highlight,
            params,
        },
        Method::CompleteResolve(params) => Action::Success {
            id,
            data: ResponseData::CompletionItems(seq![params]),
        },
        Method::Symbols(params) => Action::Call { id, call: Call::Symbols, params },
        Method::Rename(params) => Action::Call { id, call: Call::Rename, params },
        Method::Reformat(text_document) => Action::Reformat { id, text_document },
        Method::ReformatRange(text_document) => Action::Reformat { id, text_document },
    }
}

/// What is to be done about a notification other than the one to exit.
pub open spec fn action_for_notification<P, S>(notification: Notification<P>) -> Action<
    P,
    S,
    Seq<P>,
> {
    match notification {
        Notification::Exit => Action::Nothing,
        Notification::CancelRequest(_) => Action::Nothing,
        Notification::Change(params) => Action::Event {
            event: Event::OnChange,
            params,
        },
        Notification::Open(params) => Action::Event {
            event: Event::OnOpen,
            params,
        },
        Notification::Save(params) => Action::Event {
            event: Event::OnSave,
            params,
        },
    }
}

/// What is to be done about what came from the client, or about its end. A service that is shut
/// down does nothing about any message but the one to exit.
pub open spec fn action_for<P, S>(
    shut_down: bool,
    message: Option<Result<ServerMessage<P, S>, ParseError>>,
) -> Action<P, S, Seq<P>> {
    match message {
        None => Action::ParseError,
        Some(Ok(ServerMessage::Notification(Notification::Exit))) => Action::Exit {
            code: if shut_down {
                0
            } else {
                1
            },
        },
        Some(message) => if shut_down {
            Action::Nothing
        } else {
            match message {
                Ok(ServerMessage::Request(request)) => action_for_request(request),
                Ok(ServerMessage::Notification(notification)) => action_for_notification(
                    notification,
                ),
                Err(ParseError { id: Some(id), .. }) => Action::Failure {
                    id,
                    message: "Unsupported message",
                },
                Err(ParseError { id: None, .. }) => Action::Nothing,
            }
        },
    }
}

/// Whether `message` is the request to shut down.
pub open spec fn is_shutdown<P, S>(
    message: Option<Result<ServerMessage<P, S>, ParseError>>,
) -> bool {
    message matches Some(Ok(ServerMessage::Request(Request { method: Method::Shutdown, .. })))
}

/// A thing to be done to initialize.
#[derive(Debug, PartialEq)]
pub enum InitStep {
    /// Answer the request `id` with a result.
    Answer { id: usize, result: InitializeResult },
    /// Initialize the handler of actions with the root of a project.
    Handler { root_path: String },
}

/// The service: where its messages come from, and whether it was told to shut down.
pub struct LsService<R: MessageReader> {
    shut_down: bool,
    msg_reader: R,
}

impl<R: MessageReader> LsService<R> {
    /// Whether the service was told to shut down.
    pub closed spec fn shut_down(&self) -> bool {
        self.shut_down
    }

    /// Where the messages come from.
    pub closed spec fn msg_reader(&self) -> R {
        self.msg_reader
    }

    /// A service that was not told to shut down.
    pub fn new(reader: R) -> (service: LsService<R>)
        ensures
            !service.shut_down(),
            service.msg_reader() == reader,
    {
        LsService { shut_down: false, msg_reader: reader }
    }

    /// Takes what came from the client, `None` if nothing more can be read, and tells whether to
    /// go on and what to do.
    pub fn respond<P>(&mut self, message: Option<Result<ServerMessage<P>, ParseError>>) -> (reaction:
        (ServerStateChange, Action<P>))
        ensures
            final(self).msg_reader() == old(self).msg_reader(),
            final(self).shut_down() == (old(self).shut_down() || is_shutdown(message)),
            reaction.0 == (if message is None {
                ServerStateChange::Break
            } else {
                ServerStateChange::Continue
            }),
            reaction.1@ == action_for(old(self).shut_down(), message),
    {
        let message = match message {
            Some(message) => message,
            None => {
                return (ServerStateChange::Break, Action::ParseError);
            },
        };
        if self.shut_down {
            if let Ok(ServerMessage::Notification(Notification::Exit)) = message {
            } else {
                // Shut down: nothing but the notification to exit is heeded.
                return (ServerStateChange::Continue, Action::Nothing);
            }
        }
        let action = match message {
            Ok(ServerMessage::Request(Request { id, method })) => match method {
                Method::Shutdown => {
                    self.shut_down = true;
                    Action::Success { id, data: ResponseData::Ack(Ack {  }) }
                },
                Method::Initialize(init) => Action::Init { id, init },
                Method::Hover(params) => Action::Call {
                    id,
                    call: Call::Hover,
                    params,
                },
                Method::GotoDef(params) => Action::Call {
                    id,
                    call: Call::GotoDef,
                    params,
                },
                Method::FindAllRef(params) => Action::Call {
                    id,
                    call: Call::FindAllRefs,
                    params,
                },
                Method::Complete(params) => Action::Call {
                    id,
                    call: Call::Complete,
                    params,
                },
                Method::Highlight(params) => Action::Call {
                    id,
                    call: Call::Highlight,
                    params,
                },
                Method::CompleteResolve(params) => {
                    let mut items: Vec<P> = Vec::new();
                    items.push(params);
                    assert(items@ == seq![params]);
                    Action::Success { id, data: ResponseData::CompletionItems(items) }
                },
                Method::Symbols(params) => Action::Call {
                    id,
                    call: Call::Symbols,
                    params,
                },
                Method::Rename(params) => Action::Call {
                    id,
                    call: Call::Rename,
                    params,
                },
                Method::Reformat(text_document) => Action::Reformat { id, text_document },
                Method::ReformatRange(text_document) => Action::Reformat { id, text_document },
            },
            Ok(ServerMessage::Notification(notification)) => match notification {
                Notification::Exit => Action::Exit {
                    code: if self.shut_down {
                        0
                    } else {
                        1
                    },
                },
                Notification::CancelRequest(_) => Action::Nothing,
                Notification::Change(params) => Action::Event {
                    event: Event::OnChange,
                    params,
                },
                Notification::Open(params) => Action::Event {
                    event: Event::OnOpen,
                    params,
                },
                Notification::Save(params) => Action::Event {
                    event: Event::OnSave,
                    params,
                },
            },
            Err(e) => match e.id {
                Some(id) => Action::Failure { id, message: "Unsupported message" },
                None => Action::Nothing,
            },
        };
        (ServerStateChange::Continue, action)
    }

    /// Reads the next message and tells whether to go on and what to do. `None` if what was read
    /// is malformed: the service cannot go on, and stays as it is.
    pub fn handle_message(&mut self) -> (reaction: Option<
        (ServerStateChange, Action<serde_json::Value>),
    >)
        ensures
            final(self).msg_reader() == old(self).msg_reader(),
            exists|incoming: Incoming| #[trigger]
                call_ensures(R::parsed_message, (&old(self).msg_reader(),), incoming) && reacts(
                    old(self).shut_down(),
                    incoming,
                    final(self).shut_down(),
                    reaction,
                ),
    {
        let incoming = self.msg_reader.parsed_message();
        let ghost came = incoming;
        assert(call_ensures(R::parsed_message, (&old(self).msg_reader(),), came));
        match incoming {
            Incoming::End => Some(self.respond(None)),
            Incoming::Malformed => None,
            Incoming::Message(message) => Some(self.respond(Some(message))),
        }
    }

    /// Tells what is to be done to initialize, each step once the one before it is done: first the
    /// request is answered, and if there is a root, the handler of actions is then initialized with
    /// it. `root_unstable_features` is what the configuration of the root says of unstable
    /// features; without a root they are off, whatever it is.
    pub fn init(id: usize, init: InitializeParams, root_unstable_features: bool) -> (steps: Vec<
        InitStep,
    >)
        ensures
            steps@.len() == (if init.root_path is Some {
                2nat
            } else {
                1nat
            }),
            steps@[0] matches InitStep::Answer { id: answered, result } && answered == id && offers(
                result.capabilities,
                init.root_path is Some && root_unstable_features,
            ),
            init.root_path matches Some(root_path) ==> steps@[1] == (InitStep::Handler {
                root_path,
            }),
    {
        let unstable_features: bool = match &init.root_path {
            Some(_) => root_unstable_features,
            None => false,
        };
        let result = InitializeResult { capabilities: capabilities(unstable_features) };
        let mut steps: Vec<InitStep> = Vec::new();
        steps.push(InitStep::Answer { id, result });
        if let Some(root_path) = init.root_path {
            steps.push(InitStep::Handler { root_path });
        }
        steps
    }
}

/// Whether a service takes `incoming` by coming to be shut down, or not, as `after` says and by
/// giving `reaction`.
pub open spec fn reacts(
    shut_down: bool,
    incoming: Incoming,
    after: bool,
    reaction: Option<(ServerStateChange, Action<serde_json::Value>)>,
) -> bool {
    match incoming {
        Incoming::End => {
            &&& after == shut_down
            &&& reaction == Some(
                (ServerStateChange::Break, Action::<serde_json::Value>::ParseError),
            )
        },
        Incoming::Malformed => {
            &&& after == shut_down
            &&& reaction is None
        },
        Incoming::Message(message) => {
            &&& after == (shut_down || is_shutdown(Some(message)))
            &&& reaction matches Some((change, action))
            &&& change == ServerStateChange::Continue
            &&& action@ == action_for(shut_down, Some(message))
        },
    }
}

/// What the service itself sends to the client.
#[derive(Debug, Clone, Copy, PartialEq)]
pub enum Answer {
    /// That nothing more can be read from the client.
    ParseError,
    /// That the request `id` fails.
    Failure { id: usize, message: &'static str },
    /// That the request `id` is done.
    Done { id: usize, ack: Ack },
}

/// What is to be sent to the client to do all of `action`. `None` if nothing is to be sent, or if
/// the action takes more than that.
pub open spec fn answer_for<P, S, L>(action: Action<P, S, L>) -> Option<Answer> {
    match action {
        Action::ParseError => Some(Answer::ParseError),
        Action::Failure { id, message } => Some(Answer::Failure { id, message }),
        Action::Success { id, data: ResponseData::Ack(ack) } => Some(Answer::Done { id, ack }),
        _ => None,
    }
}

/// What is to be sent to the client to do all of `action`. `None` if nothing is to be sent, or if
/// the action takes more than that.
pub fn answer<P>(action: &Action<P>) -> (answer: Option<Answer>)
    ensures
        answer == answer_for(*action),
        answer == answer_for(action@),
{
    match action {
        Action::ParseError => Some(Answer::ParseError),
        Action::Failure { id, message } => Some(Answer::Failure { id: *id, message: *message }),
        Action::Success { id, data: ResponseData::Ack(ack) } => {
            Some(Answer::Done { id: *id, ack: *ack })
        },
        _ => None,
    }
}

impl Answer {
    /// The answer as a JSON text, which is what an [`Output`] sends unless it has ways of its own.
    pub open spec fn json(self) -> Seq<char> {
        match self {
            Answer::ParseError => parse_error_json(),
            Answer::Failure { id, message } => failure_json(id as nat, message@),
            Answer::Done { id, ack: _ } => success_json(id as nat, "{}"@),
        }
    }

    /// The answer as a JSON text.
    pub fn to_json(&self) -> (text: String)
        ensures
            text@ == self.json(),
    {
        match self {
            Answer::ParseError => parse_error_text(),
            Answer::Failure { id, message } => failure_text(*id, *message),
            Answer::Done { id, ack } => success_text(*id, ack.to_json()),
        }
    }
}

/// Whether `output` was made to send `answer`.
pub open spec fn sent<O: Output>(answer: Answer, output: &O) -> bool {
    match answer {
        Answer::ParseError => call_ensures(O::parse_error, (output,), ()),
        Answer::Failure { id, message } => call_ensures(O::failure, (output, id, message), ()),
        Answer::Done { id, ack: _ } => exists|data: &str|
            data@ == "{}"@ && #[trigger] call_ensures(O::success, (output, id, data), ()),
    }
}

/// Does what the output alone can do about a message: sends the answer that there is to the
/// action, see [`answer`]. Any other action is handed back, still to be done, unless it is to do
/// nothing.
pub fn reply<P, O: Output>(action: Action<P>, output: &O) -> (rest: Option<Action<P>>)
    ensures
        match answer_for(action) {
            Some(answer) => rest is None && sent(answer, output),
            None => rest == (if action is Nothing {
                None
            } else {
                Some(action)
            }),
        },
{
    match answer(&action) {
        Some(Answer::ParseError) => {
            output.parse_error();
            None
        },
        Some(Answer::Failure { id, message }) => {
            output.failure(id, message);
            None
        },
        Some(Answer::Done { id, ack }) => {
            output.success(id, ack.to_json());
            None
        },
        None => match action {
            Action::Nothing => None,
            other => Some(other),
        },
    }
}

/// Whether a service is shut down once `messages` have come, in this order.
pub open spec fn shut_down_after<P, S>(
    messages: Seq<Option<Result<ServerMessage<P, S>, ParseError>>>,
) -> bool
    decreases messages.len(),
{
    messages.len() > 0 && (shut_down_after(messages.drop_last()) || is_shutdown(messages.last()))
}

/// A service is shut down if and only if it was asked to, however long ago.
pub proof fn law_shut_down_if_asked<P, S>(
    messages: Seq<Option<Result<ServerMessage<P, S>, ParseError>>>,
)
    ensures
        shut_down_after(messages) <==> exists|i: int|
            0 <= i < messages.len() && is_shutdown(#[trigger] messages[i]),
    decreases messages.len(),
{
    if messages.len() > 0 {
        let before = messages.drop_last();
        law_shut_down_if_asked(before);
        if shut_down_after(before) {
            let i = choose|i: int| 0 <= i < before.len() && is_shutdown(#[trigger] before[i]);
            assert(is_shutdown(messages[i]));
        }
        if exists|i: int| 0 <= i < messages.len() && is_shutdown(#[trigger] messages[i]) {
            let i = choose|i: int| 0 <= i < messages.len() && is_shutdown(#[trigger] messages[i]);
            if i < before.len() {
                assert(is_shutdown(before[i]));
            }
        }
    }
}

/// The process ends with the code 0 if the service was asked to shut down before it was told to
/// exit, and otherwise with the code 1.
pub proof fn law_exit_code<P, S>(
    messages: Seq<Option<Result<ServerMessage<P, S>, ParseError>>>,
)
    ensures
        action_for(
            shut_down_after(messages),
            Some(Ok(ServerMessage::<P, S>::Notification(Notification::<P>::Exit))),
        ) == (Action::<P, S, Seq<P>>::Exit {
            code: if exists|i: int|
                0 <= i < messages.len() && is_shutdown(#[trigger] messages[i]) {
                0
            } else {
                1
            },
        }),
{
    law_shut_down_if_asked(messages);
}

/// Once asked to shut down, a service does nothing about any message but the one to exit.
pub proof fn law_shut_down_heeds_only_exit<P, S>(
    messages: Seq<Option<Result<ServerMessage<P, S>, ParseError>>>,
    message: Result<ServerMessage<P, S>, ParseError>,
)
    requires
        exists|i: int| 0 <= i < messages.len() && is_shutdown(#[trigger] messages[i]),
        message != Ok::<_, ParseError>(
            ServerMessage::<P, S>::Notification(Notification::<P>::Exit),
        ),
    ensures
        action_for(shut_down_after(messages), Some(message)) == Action::<P, S, Seq<P>>::Nothing,
{
    law_shut_down_if_asked(messages);
}

/// The request that an action answers, now or later.
pub open spec fn answered<P, S>(action: Action<P, S, Seq<P>>) -> Option<usize> {
    match action {
        Action::Failure { id, .. } => Some(id),
        Action::Success { id, .. } => Some(id),
        Action::Init { id, .. } => Some(id),
        Action::Call { id, .. } => Some(id),
        Action::Reformat { id, .. } => Some(id),
        _ => None,
    }
}

/// Until it is shut down, a service sees to it that every request is answered under its own
/// number, and that no notification is answered.
pub proof fn law_requests_are_answered<P, S>(message: ServerMessage<P, S>)
    ensures
        answered(action_for(false, Some(Ok(message)))) == (match message {
            ServerMessage::Request(request) => Some(request.id),
            ServerMessage::Notification(_) => None,
        }),
{
}

/// Until it is shut down, a service answers a message that has a number but no command that it
/// knows with a failure, under that number.
pub proof fn law_unknown_requests_are_refused(json: Json, n: u64)
    requires
        id_in(json) == Field::Is(n),
        selected_by(method_in(json)) == Command::Unknown,
    ensures
        meaning_of(json) matches Some(message) && action_for(false, Some(message)) == (Action::<
            Json,
            Seq<char>,
            Seq<Json>,
        >::Failure { id: n as usize, message: "Unsupported message" }),
{
}

/// A message that has neither a number nor a command that is known is not answered, and neither
/// is one that sets the trace or changes the configuration, whatever its number.
pub proof fn law_refused_notifications_are_dropped(json: Json, shut_down: bool)
    requires
        ({
            ||| selected_by(method_in(json)) == Command::SetTrace
            ||| selected_by(method_in(json)) == Command::ChangeConfiguration
            ||| id_in(json) is Missing && selected_by(method_in(json)) == Command::Unknown
        }),
    ensures
        meaning_of(json) matches Some(message) && action_for(shut_down, Some(message)) == Action::<
            Json,
            Seq<char>,
            Seq<Json>,
        >::Nothing,
{
}

/// To reformat a range of a document is to reformat the document.
pub proof fn law_reformatting_depends_on_the_document<P, S>(
    shut_down: bool,
    id: usize,
    document: TextDocumentIdentifier<S>,
)
    ensures
        action_for::<P, S>(
            shut_down,
            Some(Ok(ServerMessage::Request(Request { id, method: Method::Reformat(document) }))),
        ) == action_for::<P, S>(
            shut_down,
            Some(
                Ok(ServerMessage::Request(Request { id, method: Method::ReformatRange(document) })),
            ),
        ),
{
}

/// Whether a message asks under the number `n` to reformat the document `uri`, or a range of it.
pub open spec fn asks_to_reformat(json: Json, n: u64, uri: Seq<char>) -> bool {
    &&& id_in(json) == Field::Is(n)
    &&& member(json, "params"@) matches Some(params)
    &&& match selected_by(method_in(json)) {
        Command::Reformat => formatting_document(params) == Some(uri),
        Command::ReformatRange => range_formatting_document(params) == Some(uri),
        _ => false,
    }
}

/// The same of the JSON that comes: two messages that ask to reformat the same document under the
/// same number have the same done, whatever else is in their parameters.
pub proof fn law_messages_to_reformat_differ_by_document_only(
    shut_down: bool,
    a: Json,
    b: Json,
    n: u64,
    uri: Seq<char>,
)
    requires
        asks_to_reformat(a, n, uri),
        asks_to_reformat(b, n, uri),
    ensures
        meaning_of(a) matches Some(first) && meaning_of(b) matches Some(second) && action_for(
            shut_down,
            Some(first),
        ) == action_for(shut_down, Some(second)),
        !shut_down ==> (meaning_of(a) matches Some(first) && action_for(shut_down, Some(first)) == (
        Action::<Json, Seq<char>, Seq<Json>>::Reformat {
            id: n as usize,
            text_document: TextDocumentIdentifier { uri },
        })),
{
}

/// A service itself answers in three cases and no others: with a parse error if nothing more can be
/// read, and, until it is shut down, with an acknowledgement to the request to shut down and with a
/// failure to a message that is refused and has a number.
pub proof fn law_answers<P, S>(
    shut_down: bool,
    message: Option<Result<ServerMessage<P, S>, ParseError>>,
)
    ensures
        answer_for(action_for(shut_down, message)) == (match message {
            None => Some(Answer::ParseError),
            Some(Ok(ServerMessage::Request(Request { id, method: Method::Shutdown }))) if !shut_down
                => Some(Answer::Done { id, ack: Ack {  } }),
            Some(Err(ParseError { id: Some(id), .. })) if !shut_down => Some(
                Answer::Failure { id, message: "Unsupported message" },
            ),
            Some(_) => None,
        }),
{
}

/// Until the service is shut down, a completion item that is to be resolved comes back as it is,
/// alone in a list.
pub proof fn law_resolved_completions_come_back<P, S>(id: usize, item: P)
    ensures
        action_for::<P, S>(
            false,
            Some(Ok(ServerMessage::Request(Request { id, method: Method::CompleteResolve(item) }))),
        ) == (Action::<P, S, Seq<P>>::Success {
            id,
            data: ResponseData::CompletionItems(seq![item]),
        }),
{
}

} // verus!
