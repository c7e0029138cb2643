//! Construction of the request that creates an interaction.

use vstd::prelude::*;
use crate::model::{GenerationConfig, InteractionRequest, RequestView, ThinkingLevel, Tool};

verus! {

/// The model that every request names.
pub const MODEL: &'static str = "gemini-3-flash-preview";

/// The tool that lets the service search the web.
pub const WEB_SEARCH_TOOL: &'static str = "google_search";

/// The tool that lets the service read the pages that a query names.
pub const URL_CONTEXT_TOOL: &'static str = "url_context";

/// The tools that every request enables: web search, then URL context.
pub open spec fn enabled_tools() -> Seq<Seq<char>> {
    seq![WEB_SEARCH_TOOL@, URL_CONTEXT_TOOL@]
}

/// The view of an optional string slice.
pub open spec fn slice_text(s: Option<&str>) -> Option<Seq<char>> {
    match s {
        Some(t) => Some(t@),
        None => None,
    }
}

/// The request for a query and its settings.
///
/// The query is taken as it is, empty or not. The request is always stored
/// and always enables the same two tools in the same order. The background
/// field is there only to ask for background execution: a synchronous
/// request has none, rather than one that says `false`.
pub open spec fn built_request(
    query: Seq<char>,
    thinking_level: ThinkingLevel,
    previous_interaction_id: Option<Seq<char>>,
    system_instruction: Option<Seq<char>>,
    max_output_tokens: u32,
    background: bool,
) -> RequestView {
    RequestView {
        model: MODEL@,
        input: query,
        store: true,
        system_instruction,
        previous_interaction_id,
        background: if background {
            Some(true)
        } else {
            None
        },
        thinking_level,
        max_output_tokens,
        tools: enabled_tools(),
    }
}

/// An owned copy of an optional string slice.
fn owned_text(s: Option<&str>) -> (r: Option<String>)
    ensures
        crate::model::text_of(r) == slice_text(s),
{
    match s {
        Some(t) => Some(String::from_str(t)),
        None => None,
    }
}

/// Builds the request for a query and its settings.
pub fn build_request(
    query: &str,
    thinking_level: ThinkingLevel,
    previous_interaction_id: Option<&str>,
    system_instruction: Option<&str>,
    max_output_tokens: u32,
    background: bool,
) -> (request: InteractionRequest)
    ensures
        request@ == built_request(
            query@,
            thinking_level,
            slice_text(previous_interaction_id),
            slice_text(system_instruction),
            max_output_tokens,
            background,
        ),
{
    let mut tools: Vec<Tool> = Vec::new();
    tools.push(Tool { kind: String::from_str(WEB_SEARCH_TOOL) });
    tools.push(Tool { kind: String::from_str(URL_CONTEXT_TOOL) });
    assert(tools@.map_values(|t: Tool| t.kind@) =~= enabled_tools());
    InteractionRequest {
        model: String::from_str(MODEL),
        input: String::from_str(query),
        store: true,
        system_instruction: owned_text(system_instruction),
        previous_interaction_id: owned_text(previous_interaction_id),
        background: if background {
            Some(true)
        } else {
            None
        },
        generation_config: GenerationConfig { thinking_level, max_output_tokens },
        tools,
    }
}

/// Whatever it is built from, a request is stored, enables exactly the two
/// tools in their fixed order, and never carries a background field that
/// says `false`.
pub proof fn request_shape_is_fixed(
    query: Seq<char>,
    thinking_level: ThinkingLevel,
    previous_interaction_id: Option<Seq<char>>,
    system_instruction: Option<Seq<char>>,
    max_output_tokens: u32,
    background: bool,
)
    ensures
        ({
            let r = built_request(
                query,
                thinking_level,
                previous_interaction_id,
                system_instruction,
                max_output_tokens,
                background,
            );
            &&& r.store
            &&& r.input == query
            &&& r.tools.len() == 2
            &&& r.tools[0] == WEB_SEARCH_TOOL@
            &&& r.tools[1] == URL_CONTEXT_TOOL@
            &&& r.background != Some(false)
            &&& (r.background is Some <==> background)
        }),
{
}

} // verus!
