//! The data exchanged with the service, and the mathematical view of each type.
//!
//! Every contract in this crate speaks of these views: a string is seen as its
//! sequence of characters, a vector as the sequence of its elements' views.

use vstd::prelude::*;

verus! {

/// How much reasoning effort the service spends before it answers.
#[derive(Clone, Copy, Debug, PartialEq, Eq, Structural)]
pub enum ThinkingLevel {
    Minimal,
    Low,
    Medium,
    High,
}

impl ThinkingLevel {
    /// The lower-case word that stands for the level in a request.
    pub open spec fn wire_name(self) -> Seq<char> {
        match self {
            ThinkingLevel::Minimal => "minimal"@,
            ThinkingLevel::Low => "low"@,
            ThinkingLevel::Medium => "medium"@,
            ThinkingLevel::High => "high"@,
        }
    }

    /// The word that stands for the level in a request.
    pub fn name(&self) -> (r: String)
        ensures
            r@ == self.wire_name(),
    {
        match self {
            ThinkingLevel::Minimal => String::from_str("minimal"),
            ThinkingLevel::Low => String::from_str("low"),
            ThinkingLevel::Medium => String::from_str("medium"),
            ThinkingLevel::High => String::from_str("high"),
        }
    }
}

/// How a response is shown.
#[derive(Clone, Copy, Debug, PartialEq, Eq, Structural)]
pub enum OutputFormat {
    Text,
    Json,
}

/// The view of an optional string.
pub open spec fn text_of(s: Option<String>) -> Option<Seq<char>> {
    match s {
        Some(t) => Some(t@),
        None => None,
    }
}

/// Generation settings of a request.
#[derive(Clone, Debug, PartialEq, Eq)]
pub struct GenerationConfig {
    pub thinking_level: ThinkingLevel,
    pub max_output_tokens: u32,
}

/// A capability that the service may use while it answers.
#[derive(Clone, Debug, PartialEq, Eq)]
pub struct Tool {
    pub kind: String,
}

/// One request to create an interaction.
#[derive(Clone, Debug, PartialEq, Eq)]
pub struct InteractionRequest {
    pub model: String,
    pub input: String,
    pub store: bool,
    pub system_instruction: Option<String>,
    pub previous_interaction_id: Option<String>,
    /// `Some(true)` asks for background execution; `None` leaves the field out
    /// of the payload, which the service reads as a synchronous call.
    pub background: Option<bool>,
    pub generation_config: GenerationConfig,
    pub tools: Vec<Tool>,
}

pub struct RequestView {
    pub model: Seq<char>,
    pub input: Seq<char>,
    pub store: bool,
    pub system_instruction: Option<Seq<char>>,
    pub previous_interaction_id: Option<Seq<char>>,
    pub background: Option<bool>,
    pub thinking_level: ThinkingLevel,
    pub max_output_tokens: u32,
    pub tools: Seq<Seq<char>>,
}

impl View for InteractionRequest {
    type V = RequestView;

    open spec fn view(&self) -> RequestView {
        RequestView {
            model: self.model@,
            input: self.input@,
            store: self.store,
            system_instruction: text_of(self.system_instruction),
            previous_interaction_id: text_of(self.previous_interaction_id),
            background: self.background,
            thinking_level: self.generation_config.thinking_level,
            max_output_tokens: self.generation_config.max_output_tokens,
            tools: self.tools@.map_values(|t: Tool| t.kind@),
        }
    }
}

/// A citation attached to a piece of answer text.
#[derive(Clone, Debug, PartialEq, Eq)]
pub struct Annotation {
    pub source: Option<String>,
}

pub struct AnnotationView {
    pub source: Option<Seq<char>>,
}

impl View for Annotation {
    type V = AnnotationView;

    open spec fn view(&self) -> AnnotationView {
        AnnotationView { source: text_of(self.source) }
    }
}

/// One hit of a web search that the service ran.
#[derive(Clone, Debug, PartialEq, Eq)]
pub struct SearchResult {
    pub url: Option<String>,
    pub title: Option<String>,
}

pub struct SearchResultView {
    pub url: Option<Seq<char>>,
    pub title: Option<Seq<char>>,
}

impl View for SearchResult {
    type V = SearchResultView;

    open spec fn view(&self) -> SearchResultView {
        SearchResultView { url: text_of(self.url), title: text_of(self.title) }
    }
}

/// One element of a response, tagged by `kind`. Only the fields that belong
/// to the tag are populated.
#[derive(Clone, Debug, PartialEq, Eq)]
pub struct Output {
    pub kind: String,
    pub text: Option<String>,
    pub annotations: Option<Vec<Annotation>>,
    pub result: Option<Vec<SearchResult>>,
}

pub struct OutputView {
    pub kind: Seq<char>,
    pub text: Option<Seq<char>>,
    pub annotations: Option<Seq<AnnotationView>>,
    pub result: Option<Seq<SearchResultView>>,
}

impl View for Output {
    type V = OutputView;

    open spec fn view(&self) -> OutputView {
        OutputView {
            kind: self.kind@,
            text: text_of(self.text),
            annotations: match self.annotations {
                Some(list) => Some(list@.map_values(|a: Annotation| a@)),
                None => None,
            },
            result: match self.result {
                Some(list) => Some(list@.map_values(|r: SearchResult| r@)),
                None => None,
            },
        }
    }
}

/// Token counts reported by the service.
#[derive(Clone, Copy, Debug, PartialEq, Eq)]
pub struct Usage {
    pub total_input_tokens: Option<u32>,
    pub total_output_tokens: Option<u32>,
    pub total_reasoning_tokens: Option<u32>,
}

/// A failure that the service reports inside an otherwise well-formed body.
#[derive(Clone, Debug, PartialEq, Eq)]
pub struct ApiError {
    pub message: Option<String>,
    pub code: Option<String>,
}

pub struct ApiErrorView {
    pub message: Option<Seq<char>>,
    pub code: Option<Seq<char>>,
}

impl View for ApiError {
    type V = ApiErrorView;

    open spec fn view(&self) -> ApiErrorView {
        ApiErrorView { message: text_of(self.message), code: text_of(self.code) }
    }
}

/// The decoded body of any reply of the service.
#[derive(Clone, Debug, PartialEq, Eq)]
pub struct InteractionResponse {
    pub id: Option<String>,
    pub status: Option<String>,
    pub outputs: Option<Vec<Output>>,
    pub usage: Option<Usage>,
    pub error: Option<ApiError>,
}

pub struct ResponseView {
    pub id: Option<Seq<char>>,
    pub status: Option<Seq<char>>,
    pub outputs: Option<Seq<OutputView>>,
    pub usage: Option<Usage>,
    pub error: Option<ApiErrorView>,
}

impl View for InteractionResponse {
    type V = ResponseView;

    open spec fn view(&self) -> ResponseView {
        ResponseView {
            id: text_of(self.id),
            status: text_of(self.status),
            outputs: match self.outputs {
                Some(list) => Some(list@.map_values(|o: Output| o@)),
                None => None,
            },
            usage: self.usage,
            error: match self.error {
                Some(e) => Some(e@),
                None => None,
            },
        }
    }
}

/// A cited page: what the reader sees, and where it leads.
#[derive(Clone, Debug, PartialEq, Eq)]
pub struct Source {
    pub title: String,
    pub url: String,
}

pub struct SourceView {
    pub title: Seq<char>,
    pub url: Seq<char>,
}

impl View for Source {
    type V = SourceView;

    open spec fn view(&self) -> SourceView {
        SourceView { title: self.title@, url: self.url@ }
    }
}

/// The views of a list of sources, in order.
pub open spec fn source_views(list: Seq<Source>) -> Seq<SourceView> {
    list.map_values(|s: Source| s@)
}

} // verus!
