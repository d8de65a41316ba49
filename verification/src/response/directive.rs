//! Directives: instructions to the device that go out with a response.
use serde_json::Value as JsonValue;
use vstd::prelude::*;
use vstd::string::*;

verus! {

/// The kinds of directive.
#[derive(Debug, Clone, Copy, PartialEq, Eq, Structural)]
pub enum DirectiveType {
    AplRenderDocument,
    AplaRenderDocument,
    AplExecuteCommands,
    ConnectionsStartConnection,
}

impl DirectiveType {
    /// The type tag that stands for this kind on the wire.
    pub open spec fn tag(self) -> Seq<char> {
        match self {
            DirectiveType::AplRenderDocument => "Alexa.Presentation.APL.RenderDocument"@,
            DirectiveType::AplExecuteCommands => "Alexa.Presentation.APL.ExecuteCommands"@,
            DirectiveType::ConnectionsStartConnection => "Connections.StartConnection"@,
            DirectiveType::AplaRenderDocument => "Alexa.Presentation.APLA.RenderDocument"@,
        }
    }

    /// The type tag that stands for this kind on the wire.
    pub fn to_string(&self) -> (tag: String)
        ensures
            tag@ == self.tag(),
    {
        match self {
            DirectiveType::AplRenderDocument => "Alexa.Presentation.APL.RenderDocument".to_owned(),
            DirectiveType::AplExecuteCommands => "Alexa.Presentation.APL.ExecuteCommands".to_owned(),
            DirectiveType::ConnectionsStartConnection => "Connections.StartConnection".to_owned(),
            DirectiveType::AplaRenderDocument => "Alexa.Presentation.APLA.RenderDocument".to_owned(),
        }
    }

    /// Different kinds have different type tags.
    pub proof fn lemma_tags_differ(a: DirectiveType, b: DirectiveType)
        requires
            a != b,
        ensures
            a.tag() != b.tag(),
    {
        reveal_strlit("Alexa.Presentation.APL.RenderDocument");
        reveal_strlit("Alexa.Presentation.APL.ExecuteCommands");
        reveal_strlit("Connections.StartConnection");
        reveal_strlit("Alexa.Presentation.APLA.RenderDocument");
        assert("Alexa.Presentation.APL.RenderDocument"@.len() == 37);
        assert("Alexa.Presentation.APL.ExecuteCommands"@.len() == 38);
        assert("Connections.StartConnection"@.len() == 27);
        assert("Alexa.Presentation.APLA.RenderDocument"@.len() == 38);
        assert("Alexa.Presentation.APL.ExecuteCommands"@[22] != "Alexa.Presentation.APLA.RenderDocument"@[22]);
    }
}

/// A directive. Which of the optional fields are filled depends on its kind.
#[derive(Debug, Clone, PartialEq, Eq)]
pub struct Directive {
    pub directive_type: String,
    pub token: Option<String>,
    pub document: Option<JsonValue>,
    pub datasources: Option<JsonValue>,
    pub sources: Option<JsonValue>,
    pub commands: Option<Vec<JsonValue>>,
    pub uri: Option<String>,
    pub input: Option<JsonValue>,
    pub on_completion: Option<String>,
}

impl Directive {
    /// A directive of the type `_type` with no optional field filled.
    pub fn new(_type: String) -> (directive: Directive)
        ensures
            directive == (Directive {
                directive_type: _type,
                token: None,
                document: None,
                datasources: None,
                sources: None,
                commands: None,
                uri: None,
                input: None,
                on_completion: None,
            }),
    {
        Directive {
            directive_type: _type,
            token: None,
            document: None,
            datasources: None,
            sources: None,
            commands: None,
            uri: None,
            input: None,
            on_completion: None,
        }
    }

    /// A directive that runs `commands` on the document shown under `token`.
    pub fn apl_execute_commands(token: String, commands: Option<Vec<JsonValue>>) -> (directive:
        Directive)
        ensures
            directive.directive_type@ == DirectiveType::AplExecuteCommands.tag(),
            directive.token == Some(token),
            directive.document is None,
            directive.datasources is None,
            directive.sources is None,
            directive.commands == commands,
            directive.uri is None,
            directive.input is None,
            directive.on_completion is None,
    {
        Directive {
            directive_type: DirectiveType::AplExecuteCommands.to_string(),
            token: Some(token),
            document: None,
            datasources: None,
            sources: None,
            commands,
            uri: None,
            input: None,
            on_completion: None,
        }
    }

    /// A directive that shows a visual document under `token`.
    pub fn apl_render_document(
        token: String,
        document: Option<JsonValue>,
        datasources: Option<JsonValue>,
        sources: Option<JsonValue>,
    ) -> (directive: Directive)
        ensures
            directive.directive_type@ == DirectiveType::AplRenderDocument.tag(),
            directive.token == Some(token),
            directive.document == document,
            directive.datasources == datasources,
            directive.sources == sources,
            directive.commands is None,
            directive.uri is None,
            directive.input is None,
            directive.on_completion is None,
    {
        Directive {
            directive_type: DirectiveType::AplRenderDocument.to_string(),
            token: Some(token),
            document,
            datasources,
            sources,
            commands: None,
            uri: None,
            input: None,
            on_completion: None,
        }
    }

    /// A directive that plays an audio document under `token`. It holds the
    /// same fields as one for a visual document and differs from it in its
    /// type tag alone.
    pub fn apla_render_document(
        token: String,
        document: Option<JsonValue>,
        datasources: Option<JsonValue>,
        sources: Option<JsonValue>,
    ) -> (directive: Directive)
        ensures
            directive.directive_type@ == DirectiveType::AplaRenderDocument.tag(),
            directive.token == Some(token),
            directive.document == document,
            directive.datasources == datasources,
            directive.sources == sources,
            directive.commands is None,
            directive.uri is None,
            directive.input is None,
            directive.on_completion is None,
    {
        Directive {
            directive_type: DirectiveType::AplaRenderDocument.to_string(),
            token: Some(token),
            document,
            datasources,
            sources,
            commands: None,
            uri: None,
            input: None,
            on_completion: None,
        }
    }

    /// A directive that starts a connection to `uri`.
    pub fn connection_start(
        uri: String,
        token: Option<String>,
        input: Option<JsonValue>,
        on_completion: Option<String>,
    ) -> (directive: Directive)
        ensures
            directive.directive_type@ == DirectiveType::ConnectionsStartConnection.tag(),
            directive.token == token,
            directive.document is None,
            directive.datasources is None,
            directive.sources is None,
            directive.commands is None,
            directive.uri == Some(uri),
            directive.input == input,
            directive.on_completion == on_completion,
    {
        Directive {
            directive_type: DirectiveType::ConnectionsStartConnection.to_string(),
            token,
            document: None,
            datasources: None,
            sources: None,
            commands: None,
            uri: Some(uri),
            input,
            on_completion,
        }
    }
}

} // verus!
