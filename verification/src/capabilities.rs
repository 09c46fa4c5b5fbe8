//! What the server offers to a client.
use vstd::prelude::*;

verus! {

/// How the text of a document is kept up to date.
#[derive(Debug, Clone, Copy, PartialEq, Eq, Structural)]
pub enum TextDocumentSyncKind {
    /// Not at all.
    Unsynced,
    /// By sending the whole text.
    Full,
    /// By sending what has changed.
    Incremental,
}

#[derive(Debug, PartialEq)]
pub struct CompletionOptions {
    pub resolve_provider: Option<bool>,
    pub trigger_characters: Vec<String>,
}

#[derive(Debug, PartialEq)]
pub struct SignatureHelpOptions {
    pub trigger_characters: Option<Vec<String>>,
}

#[derive(Debug, PartialEq)]
pub struct CodeLensOptions {
    pub resolve_provider: Option<bool>,
}

#[derive(Debug, PartialEq)]
pub struct DocumentOnTypeFormattingOptions {
    pub first_trigger_character: String,
    pub more_trigger_character: Option<Vec<String>>,
}

/// What the server can be asked for.
#[derive(Debug, PartialEq)]
pub struct ServerCapabilities {
    pub text_document_sync: Option<TextDocumentSyncKind>,
    pub hover_provider: Option<bool>,
    pub completion_provider: Option<CompletionOptions>,
    pub signature_help_provider: Option<SignatureHelpOptions>,
    pub definition_provider: Option<bool>,
    pub references_provider: Option<bool>,
    pub document_highlight_provider: Option<bool>,
    pub document_symbol_provider: Option<bool>,
    pub workspace_symbol_provider: Option<bool>,
    pub code_action_provider: Option<bool>,
    pub code_lens_provider: Option<CodeLensOptions>,
    pub document_formatting_provider: Option<bool>,
    pub document_range_formatting_provider: Option<bool>,
    pub document_on_type_formatting_provider: Option<DocumentOnTypeFormattingOptions>,
    pub rename_provider: Option<bool>,
}

/// The answer to the request to initialize.
#[derive(Debug, PartialEq)]
pub struct InitializeResult {
    pub capabilities: ServerCapabilities,
}

/// Whether `offered` is what the server offers. Formatting and renaming are offered if and only
/// if unstable features are turned on.
pub open spec fn offers(offered: ServerCapabilities, unstable_features: bool) -> bool {
    &&& offered.text_document_sync == Some(TextDocumentSyncKind::Incremental)
    &&& offered.hover_provider == Some(true)
    &&& offered.completion_provider matches Some(completion)
    &&& completion.resolve_provider == Some(true)
    &&& completion.trigger_characters@.len() == 2
    &&& completion.trigger_characters@[0]@ == "."@
    &&& completion.trigger_characters@[1]@ == ":"@
    &&& offered.signature_help_provider matches Some(signature_help)
    &&& signature_help.trigger_characters matches Some(triggers)
    &&& triggers@.len() == 0
    &&& offered.definition_provider == Some(true)
    &&& offered.references_provider == Some(true)
    &&& offered.document_highlight_provider == Some(true)
    &&& offered.document_symbol_provider == Some(true)
    &&& offered.workspace_symbol_provider == Some(true)
    &&& offered.code_action_provider == Some(false)
    &&& offered.code_lens_provider is None
    &&& offered.document_formatting_provider == Some(unstable_features)
    &&& offered.document_range_formatting_provider == Some(unstable_features)
    &&& offered.document_on_type_formatting_provider is None
    &&& offered.rename_provider == Some(unstable_features)
}

/// What the server offers.
pub fn capabilities(unstable_features: bool) -> (offered: ServerCapabilities)
    ensures
        offers(offered, unstable_features),
{
    let mut triggers: Vec<String> = Vec::new();
    triggers.push(".".to_owned());
    triggers.push(":".to_owned());
    ServerCapabilities {
        text_document_sync: Some(TextDocumentSyncKind::Incremental),
        hover_provider: Some(true),
        completion_provider: Some(
            CompletionOptions { resolve_provider: Some(true), trigger_characters: triggers },
        ),
        signature_help_provider: Some(
            SignatureHelpOptions { trigger_characters: Some(Vec::new()) },
        ),
        definition_provider: Some(true),
        references_provider: Some(true),
        document_highlight_provider: Some(true),
        document_symbol_provider: Some(true),
        workspace_symbol_provider: Some(true),
        code_action_provider: Some(false),
        code_lens_provider: None,
        document_formatting_provider: Some(unstable_features),
        document_range_formatting_provider: Some(unstable_features),
        document_on_type_formatting_provider: None,
        rename_provider: Some(unstable_features),
    }
}

} // verus!
