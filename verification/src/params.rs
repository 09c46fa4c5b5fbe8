//! The parameters of messages, as the types of `languageserver_types` take them.
use crate::json::{json_of, value_to_owned, Json};
use crate::message::Command;
use vstd::prelude::*;

verus! {

/// The parameters of the request to initialize, as far as the service reads them. `S` is the type
/// of texts.
#[derive(Debug, PartialEq)]
pub struct InitializeParams<S = String> {
    pub root_path: Option<S>,
}

/// A document, named by its URI. `S` is the type of texts.
#[derive(Debug, PartialEq)]
pub struct TextDocumentIdentifier<S = String> {
    pub uri: S,
}

/// Parameters that are of the type that a command takes. `P` is the type of JSON values, `S` that
/// of texts.
#[derive(Debug, PartialEq)]
pub enum Params<P, S = String> {
    /// Those of the request to initialize.
    Initialize(InitializeParams<S>),
    /// Those of a request to reformat a document, or a range of one: the document.
    Format(TextDocumentIdentifier<S>),
    /// Any others, as they came. The service hands them on.
    Other(P),
}

/// The root path in JSON that `serde_json::from_value` takes for an `InitializeParams`. `None` if
/// it refuses the JSON.
pub uninterp spec fn initialize_root_path(params: Json) -> Option<Option<Seq<char>>>;

/// The URI of the document in JSON that `serde_json::from_value` takes for a
/// `DocumentFormattingParams`. `None` if it refuses the JSON.
pub uninterp spec fn formatting_document(params: Json) -> Option<Seq<char>>;

/// The URI of the document in JSON that `serde_json::from_value` takes for a
/// `DocumentRangeFormattingParams`. `None` if it refuses the JSON.
pub uninterp spec fn range_formatting_document(params: Json) -> Option<Seq<char>>;

/// Whether `serde_json::from_value` takes the JSON for a `TextDocumentPositionParams`.
pub uninterp spec fn fits_position(params: Json) -> bool;

/// Whether `serde_json::from_value` takes the JSON for a `ReferenceParams`.
pub uninterp spec fn fits_reference(params: Json) -> bool;

/// Whether `serde_json::from_value` takes the JSON for a `CompletionItem`.
pub uninterp spec fn fits_completion_item(params: Json) -> bool;

/// Whether `serde_json::from_value` takes the JSON for a `DocumentSymbolParams`.
pub uninterp spec fn fits_document_symbol(params: Json) -> bool;

/// Whether `serde_json::from_value` takes the JSON for a `RenameParams`.
pub uninterp spec fn fits_rename(params: Json) -> bool;

/// Whether `serde_json::from_value` takes the JSON for a `DidChangeTextDocumentParams`.
pub uninterp spec fn fits_did_change(params: Json) -> bool;

/// Whether `serde_json::from_value` takes the JSON for a `DidOpenTextDocumentParams`.
pub uninterp spec fn fits_did_open(params: Json) -> bool;

/// Whether `serde_json::from_value` takes the JSON for a `DidSaveTextDocumentParams`.
pub uninterp spec fn fits_did_save(params: Json) -> bool;

/// Whether `serde_json::from_value` takes the JSON for a `CancelParams`.
pub uninterp spec fn fits_cancel(params: Json) -> bool;

/// `serde_json::from_value`, asked for an `InitializeParams`: its root path, or nothing if the JSON
/// is refused. Both depend on the JSON alone.
#[verifier::external_body]
fn value_as_initialize(params: &serde_json::Value) -> (root_path: Option<Option<String>>)
    ensures
        initialize_root_path(json_of(*params)) == (match root_path {
            Some(Some(path)) => Some(Some(path@)),
            Some(None) => Some(None),
            None => None,
        }),
{
    serde_json::from_value::<languageserver_types::InitializeParams>(params.to_owned())
        .ok()
        .map(|p| p.root_path)
}

/// `serde_json::from_value`, asked for a `DocumentFormattingParams`: the URI of its document, or
/// nothing if the JSON is refused. Both depend on the JSON alone.
#[verifier::external_body]
fn value_as_formatting(params: &serde_json::Value) -> (uri: Option<String>)
    ensures
        formatting_document(json_of(*params)) == (match uri {
            Some(uri) => Some(uri@),
            None => None,
        }),
{
    serde_json::from_value::<languageserver_types::DocumentFormattingParams>(params.to_owned())
        .ok()
        .map(|p| p.text_document.uri.into_string())
}

/// `serde_json::from_value`, asked for a `DocumentRangeFormattingParams`: the URI of its document,
/// or nothing if the JSON is refused. Both depend on the JSON alone.
#[verifier::external_body]
fn value_as_range_formatting(params: &serde_json::Value) -> (uri: Option<String>)
    ensures
        range_formatting_document(json_of(*params)) == (match uri {
            Some(uri) => Some(uri@),
            None => None,
        }),
{
    serde_json::from_value::<languageserver_types::DocumentRangeFormattingParams>(params.to_owned())
        .ok()
        .map(|p| p.text_document.uri.into_string())
}

/// `serde_json::from_value`, asked for a `TextDocumentPositionParams`: whether it takes the JSON,
/// which depends on the JSON alone.
#[verifier::external_body]
fn value_is_position(params: &serde_json::Value) -> (fits: bool)
    ensures
        fits == fits_position(json_of(*params)),
{
    serde_json::from_value::<languageserver_types::TextDocumentPositionParams>(params.to_owned())
        .is_ok()
}

/// `serde_json::from_value`, asked for a `ReferenceParams`: whether it takes the JSON, which
/// depends on the JSON alone.
#[verifier::external_body]
fn value_is_reference(params: &serde_json::Value) -> (fits: bool)
    ensures
        fits == fits_reference(json_of(*params)),
{
    serde_json::from_value::<languageserver_types::ReferenceParams>(params.to_owned()).is_ok()
}

/// `serde_json::from_value`, asked for a `CompletionItem`: whether it takes the JSON, which depends
/// on the JSON alone.
#[verifier::external_body]
fn value_is_completion_item(params: &serde_json::Value) -> (fits: bool)
    ensures
        fits == fits_completion_item(json_of(*params)),
{
    serde_json::from_value::<languageserver_types::CompletionItem>(params.to_owned()).is_ok()
}

/// `serde_json::from_value`, asked for a `DocumentSymbolParams`: whether it takes the JSON, which
/// depends on the JSON alone.
#[verifier::external_body]
fn value_is_document_symbol(params: &serde_json::Value) -> (fits: bool)
    ensures
        fits == fits_document_symbol(json_of(*params)),
{
    serde_json::from_value::<languageserver_types::DocumentSymbolParams>(params.to_owned()).is_ok()
}

/// `serde_json::from_value`, asked for a `RenameParams`: whether it takes the JSON, which depends
/// on the JSON alone.
#[verifier::external_body]
fn value_is_rename(params: &serde_json::Value) -> (fits: bool)
    ensures
        fits == fits_rename(json_of(*params)),
{
    serde_json::from_value::<languageserver_types::RenameParams>(params.to_owned()).is_ok()
}

/// `serde_json::from_value`, asked for a `DidChangeTextDocumentParams`: whether it takes the JSON,
/// which depends on the JSON alone.
#[verifier::external_body]
fn value_is_did_change(params: &serde_json::Value) -> (fits: bool)
    ensures
        fits == fits_did_change(json_of(*params)),
{
    serde_json::from_value::<languageserver_types::DidChangeTextDocumentParams>(params.to_owned())
        .is_ok()
}

/// `serde_json::from_value`, asked for a `DidOpenTextDocumentParams`: whether it takes the JSON,
/// which depends on the JSON alone.
#[verifier::external_body]
fn value_is_did_open(params: &serde_json::Value) -> (fits: bool)
    ensures
        fits == fits_did_open(json_of(*params)),
{
    serde_json::from_value::<languageserver_types::DidOpenTextDocumentParams>(params.to_owned())
        .is_ok()
}

/// `serde_json::from_value`, asked for a `DidSaveTextDocumentParams`: whether it takes the JSON,
/// which depends on the JSON alone.
#[verifier::external_body]
fn value_is_did_save(params: &serde_json::Value) -> (fits: bool)
    ensures
        fits == fits_did_save(json_of(*params)),
{
    serde_json::from_value::<languageserver_types::DidSaveTextDocumentParams>(params.to_owned())
        .is_ok()
}

/// `serde_json::from_value`, asked for a `CancelParams`: whether it takes the JSON, which depends
/// on the JSON alone.
#[verifier::external_body]
fn value_is_cancel(params: &serde_json::Value) -> (fits: bool)
    ensures
        fits == fits_cancel(json_of(*params)),
{
    serde_json::from_value::<languageserver_types::CancelParams>(params.to_owned()).is_ok()
}

/// Whether JSON is of the type that `command` takes and hands on. A command that takes no
/// parameters does not mind any.
pub open spec fn fits(command: Command, params: Json) -> bool {
    match command {
        Command::Hover | Command::GotoDef | Command::Complete | Command::Highlight => fits_position(
            params,
        ),
        Command::FindAllRef => fits_reference(params),
        Command::CompleteResolve => fits_completion_item(params),
        Command::Symbols => fits_document_symbol(params),
        Command::Rename => fits_rename(params),
        Command::Change => fits_did_change(params),
        Command::Open => fits_did_open(params),
        Command::Save => fits_did_save(params),
        Command::CancelRequest => fits_cancel(params),
        _ => true,
    }
}

/// The parameters that `command` takes out of JSON. `None` if the JSON is not of the type that the
/// command takes.
pub open spec fn params_for(command: Command, params: Json) -> Option<Params<Json, Seq<char>>> {
    match command {
        Command::Initialize => match initialize_root_path(params) {
            Some(root_path) => Some(Params::Initialize(InitializeParams { root_path })),
            None => None,
        },
        Command::Reformat => match formatting_document(params) {
            Some(uri) => Some(Params::Format(TextDocumentIdentifier { uri })),
            None => None,
        },
        Command::ReformatRange => match range_formatting_document(params) {
            Some(uri) => Some(Params::Format(TextDocumentIdentifier { uri })),
            None => None,
        },
        _ => if fits(command, params) {
            Some(Params::Other(params))
        } else {
            None
        },
    }
}

impl InitializeParams {
    /// The same parameters, texts taken as their characters.
    pub open spec fn json(self) -> InitializeParams<Seq<char>> {
        InitializeParams {
            root_path: match self.root_path {
                Some(path) => Some(path@),
                None => None,
            },
        }
    }
}

impl TextDocumentIdentifier {
    /// The same document, texts taken as their characters.
    pub open spec fn json(self) -> TextDocumentIdentifier<Seq<char>> {
        TextDocumentIdentifier { uri: self.uri@ }
    }
}

impl Params<serde_json::Value> {
    /// The same parameters, values taken as the JSON that they hold and texts as their characters.
    pub open spec fn json(self) -> Params<Json, Seq<char>> {
        match self {
            Params::Initialize(params) => Params::Initialize(params.json()),
            Params::Format(document) => Params::Format(document.json()),
            Params::Other(value) => Params::Other(json_of(value)),
        }
    }
}

/// Whether `params` are of the type that `command` takes and hands on.
fn value_fits(command: Command, params: &serde_json::Value) -> (yes: bool)
    ensures
        yes == fits(command, json_of(*params)),
{
    match command {
        Command::Hover | Command::GotoDef | Command::Complete | Command::Highlight => {
            value_is_position(params)
        },
        Command::FindAllRef => value_is_reference(params),
        Command::CompleteResolve => value_is_completion_item(params),
        Command::Symbols => value_is_document_symbol(params),
        Command::Rename => value_is_rename(params),
        Command::Change => value_is_did_change(params),
        Command::Open => value_is_did_open(params),
        Command::Save => value_is_did_save(params),
        Command::CancelRequest => value_is_cancel(params),
        _ => true,
    }
}

/// The document of that URI, if there is a URI.
fn format_params(uri: Option<String>) -> (params: Option<Params<serde_json::Value>>)
    ensures
        params == (match uri {
            Some(uri) => Some(
                Params::<serde_json::Value>::Format(TextDocumentIdentifier { uri }),
            ),
            None => None,
        }),
{
    match uri {
        Some(uri) => Some(Params::Format(TextDocumentIdentifier { uri })),
        None => None,
    }
}

/// The parameters that `command` takes out of `params`. `None` if they are not of the type that
/// the command takes.
pub fn read_params(command: Command, params: &serde_json::Value) -> (read: Option<
    Params<serde_json::Value>,
>)
    ensures
        params_for(command, json_of(*params)) == (match read {
            Some(p) => Some(p.json()),
            None => None,
        }),
{
    match command {
        Command::Initialize => match value_as_initialize(params) {
            Some(root_path) => Some(Params::Initialize(InitializeParams { root_path })),
            None => None,
        },
        Command::Reformat => format_params(value_as_formatting(params)),
        Command::ReformatRange => format_params(value_as_range_formatting(params)),
        _ => if value_fits(command, params) {
            Some(Params::Other(value_to_owned(params)))
        } else {
            None
        },
    }
}

} // verus!
