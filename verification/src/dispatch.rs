//! From what was asked on the command line to the one call that is made:
//! the choice of the command, its fixed settings, the credential, and the
//! shape of the HTTP call that the transport is to send.

use vstd::prelude::*;
use crate::model::{text_of, InteractionRequest, RequestView, ThinkingLevel};
use crate::request::{build_request, built_request};
use crate::text::{decimal, decimal_text};

verus! {

/// The address of the interactions collection.
pub const ENDPOINT: &'static str = "https://generativelanguage.googleapis.com/v1beta/interactions";

/// The header that carries the credential.
pub const API_KEY_HEADER: &'static str = "x-goog-api-key";

/// The environment variable that holds the credential.
pub const API_KEY_VAR: &'static str = "GEMINI_API_KEY";

/// What follows the variable's name when the credential is missing.
pub const MISSING_KEY_ADVICE: &'static str =
    " environment variable not set. Get your key from https://aistudio.google.com/app/apikey";

/// What is said when no command was selected.
pub const USAGE: &'static str = "No command or query provided. Use --help for usage.";

/// The instruction of a search, up to the number of results.
pub const SEARCH_INSTRUCTION_HEAD: &'static str =
    "Search for the query and return results in this exact format:\n\n---\nTITLE: [page title]\nURL: [full url]\nSNIPPET: [2-3 sentence excerpt]\n---\n\nReturn up to ";

/// The instruction of a search, after the number of results.
pub const SEARCH_INSTRUCTION_TAIL: &'static str = " results. No additional commentary or analysis.";

/// The instruction of a question.
pub const ASK_INSTRUCTION: &'static str =
    "Be concise and factual. Cite sources when using web information.";

/// The instruction of a question that asks for deep reasoning.
pub const THINK_INSTRUCTION: &'static str = "Think step by step. Be thorough and cite sources.";

/// The number of results that the shorthand search asks for.
pub const DEFAULT_MAX_RESULTS: u32 = 10;

/// The output cap of a search.
pub const SEARCH_MAX_TOKENS: u32 = 4096;

/// The output cap of a question and of a follow-up.
pub const ASK_MAX_TOKENS: u32 = 8192;

/// The output cap of a question that asks for deep reasoning.
pub const THINK_MAX_TOKENS: u32 = 16384;

/// The one thing that an invocation asks for.
#[derive(Clone, Debug, PartialEq, Eq)]
pub enum Command {
    /// Quick search with minimal reasoning.
    Search { query: String, max_results: u32, interaction: Option<String> },
    /// A grounded answer with balanced reasoning.
    Ask { query: String, interaction: Option<String> },
    /// Deep reasoning.
    Think { query: String, interaction: Option<String> },
    /// The continuation of an earlier interaction.
    FollowUp { query: String, interaction: String, thinking_level: ThinkingLevel },
    /// The state of an interaction.
    Status { interaction_id: String },
    /// The cancellation of an interaction.
    Cancel { interaction_id: String },
}

pub enum CommandView {
    Search { query: Seq<char>, max_results: u32, interaction: Option<Seq<char>> },
    Ask { query: Seq<char>, interaction: Option<Seq<char>> },
    Think { query: Seq<char>, interaction: Option<Seq<char>> },
    FollowUp { query: Seq<char>, interaction: Seq<char>, thinking_level: ThinkingLevel },
    Status { interaction_id: Seq<char> },
    Cancel { interaction_id: Seq<char> },
}

impl View for Command {
    type V = CommandView;

    open spec fn view(&self) -> CommandView {
        match self {
            Command::Search { query, max_results, interaction } => CommandView::Search {
                query: query@,
                max_results: *max_results,
                interaction: text_of(*interaction),
            },
            Command::Ask { query, interaction } => CommandView::Ask {
                query: query@,
                interaction: text_of(*interaction),
            },
            Command::Think { query, interaction } => CommandView::Think {
                query: query@,
                interaction: text_of(*interaction),
            },
            Command::FollowUp { query, interaction, thinking_level } => CommandView::FollowUp {
                query: query@,
                interaction: interaction@,
                thinking_level: *thinking_level,
            },
            Command::Status { interaction_id } => CommandView::Status {
                interaction_id: interaction_id@,
            },
            Command::Cancel { interaction_id } => CommandView::Cancel {
                interaction_id: interaction_id@,
            },
        }
    }
}

/// The view of an optional command.
pub open spec fn command_of(c: Option<Command>) -> Option<CommandView> {
    match c {
        Some(c) => Some(c@),
        None => None,
    }
}

/// The shorthand options of an invocation.
#[derive(Clone, Debug, PartialEq, Eq)]
pub struct Shorthand {
    pub search: Option<String>,
    pub ask: Option<String>,
    pub think: Option<String>,
    /// The interaction that a shorthand query continues.
    pub interaction: Option<String>,
}

pub struct ShorthandView {
    pub search: Option<Seq<char>>,
    pub ask: Option<Seq<char>>,
    pub think: Option<Seq<char>>,
    pub interaction: Option<Seq<char>>,
}

impl View for Shorthand {
    type V = ShorthandView;

    open spec fn view(&self) -> ShorthandView {
        ShorthandView {
            search: text_of(self.search),
            ask: text_of(self.ask),
            think: text_of(self.think),
            interaction: text_of(self.interaction),
        }
    }
}

/// The command that an invocation selects: the shorthand search, else the
/// shorthand question, else the shorthand deep question, each with the
/// shorthand interaction; else the subcommand; else none.
pub open spec fn selected(flags: ShorthandView, subcommand: Option<CommandView>) -> Option<
    CommandView,
> {
    if flags.search is Some {
        Some(
            CommandView::Search {
                query: flags.search->0,
                max_results: DEFAULT_MAX_RESULTS,
                interaction: flags.interaction,
            },
        )
    } else if flags.ask is Some {
        Some(CommandView::Ask { query: flags.ask->0, interaction: flags.interaction })
    } else if flags.think is Some {
        Some(CommandView::Think { query: flags.think->0, interaction: flags.interaction })
    } else {
        subcommand
    }
}

/// Selects the command of an invocation.
pub fn select_command(flags: Shorthand, subcommand: Option<Command>) -> (chosen: Option<Command>)
    ensures
        command_of(chosen) == selected(flags@, command_of(subcommand)),
{
    let Shorthand { search, ask, think, interaction } = flags;
    match search {
        Some(query) => Some(Command::Search { query, max_results: DEFAULT_MAX_RESULTS, interaction }),
        None => match ask {
            Some(query) => Some(Command::Ask { query, interaction }),
            None => match think {
                Some(query) => Some(Command::Think { query, interaction }),
                None => subcommand,
            },
        },
    }
}

/// The instruction of a search for up to `max_results` results.
pub open spec fn search_instruction(max_results: nat) -> Seq<char> {
    SEARCH_INSTRUCTION_HEAD@ + decimal_text(max_results) + SEARCH_INSTRUCTION_TAIL@
}

/// Writes the instruction of a search for up to `max_results` results.
pub fn write_search_instruction(max_results: u32) -> (text: String)
    ensures
        text@ == search_instruction(max_results as nat),
{
    let mut text = String::from_str(SEARCH_INSTRUCTION_HEAD);
    let number = decimal(max_results as u64);
    text.append(number.as_str());
    text.append(SEARCH_INSTRUCTION_TAIL);
    text
}

/// The HTTP method of a call.
#[derive(Clone, Copy, Debug, PartialEq, Eq, Structural)]
pub enum Method {
    Get,
    Post,
}

/// One call to the service, as the transport is to send it.
#[derive(Clone, Debug, PartialEq, Eq)]
pub struct HttpCall {
    pub method: Method,
    pub url: String,
    /// The value of the credential header.
    pub api_key: String,
    /// Whether the call declares a JSON content type.
    pub json_content_type: bool,
    /// The request that is sent as the JSON body, if there is one.
    pub body: Option<InteractionRequest>,
}

pub struct HttpCallView {
    pub method: Method,
    pub url: Seq<char>,
    pub api_key: Seq<char>,
    pub json_content_type: bool,
    pub body: Option<RequestView>,
}

impl View for HttpCall {
    type V = HttpCallView;

    open spec fn view(&self) -> HttpCallView {
        HttpCallView {
            method: self.method,
            url: self.url@,
            api_key: self.api_key@,
            json_content_type: self.json_content_type,
            body: match self.body {
                Some(r) => Some(r@),
                None => None,
            },
        }
    }
}

/// The address of the interaction `id`.
pub open spec fn status_url(id: Seq<char>) -> Seq<char> {
    ENDPOINT@ + "/"@ + id
}

/// The address that cancels the interaction `id`.
pub open spec fn cancel_url(id: Seq<char>) -> Seq<char> {
    ENDPOINT@ + "/"@ + id + "/cancel"@
}

/// The request that a command sends as its body; none for a command that
/// only names an interaction.
///
/// | command   | thinking level | output cap | instruction            |
/// |-----------|----------------|------------|------------------------|
/// | search    | minimal        | 4096       | search, with the limit |
/// | ask       | medium         | 8192       | concise, cite sources  |
/// | think     | high           | 16384      | step by step           |
/// | follow-up | as given       | 8192       | none                   |
///
/// None of them runs in the background.
pub open spec fn command_request(command: CommandView) -> Option<RequestView> {
    match command {
        CommandView::Search { query, max_results, interaction } => Some(
            built_request(
                query,
                ThinkingLevel::Minimal,
                interaction,
                Some(search_instruction(max_results as nat)),
                SEARCH_MAX_TOKENS,
                false,
            ),
        ),
        CommandView::Ask { query, interaction } => Some(
            built_request(
                query,
                ThinkingLevel::Medium,
                interaction,
                Some(ASK_INSTRUCTION@),
                ASK_MAX_TOKENS,
                false,
            ),
        ),
        CommandView::Think { query, interaction } => Some(
            built_request(
                query,
                ThinkingLevel::High,
                interaction,
                Some(THINK_INSTRUCTION@),
                THINK_MAX_TOKENS,
                false,
            ),
        ),
        CommandView::FollowUp { query, interaction, thinking_level } => Some(
            built_request(query, thinking_level, Some(interaction), None, ASK_MAX_TOKENS, false),
        ),
        CommandView::Status { .. } => None,
        CommandView::Cancel { .. } => None,
    }
}

/// The call that a command makes with the credential `api_key`: a query is
/// posted to the collection with its request as the body; a status is read
/// from the interaction's address, without a body or a content type; a
/// cancellation is posted to the interaction's cancel address, without a
/// body.
pub open spec fn planned_call(command: CommandView, api_key: Seq<char>) -> HttpCallView {
    match command {
        CommandView::Status { interaction_id } => HttpCallView {
            method: Method::Get,
            url: status_url(interaction_id),
            api_key,
            json_content_type: false,
            body: None,
        },
        CommandView::Cancel { interaction_id } => HttpCallView {
            method: Method::Post,
            url: cancel_url(interaction_id),
            api_key,
            json_content_type: true,
            body: None,
        },
        _ => HttpCallView {
            method: Method::Post,
            url: ENDPOINT@,
            api_key,
            json_content_type: true,
            body: command_request(command),
        },
    }
}

/// An optional string as an optional slice.
fn as_slice(s: &Option<String>) -> (r: Option<&str>)
    ensures
        crate::request::slice_text(r) == text_of(*s),
{
    match s {
        Some(t) => Some(t.as_str()),
        None => None,
    }
}

/// The call that posts `request` to the collection.
fn create_call(request: InteractionRequest, api_key: String) -> (call: HttpCall)
    ensures
        call@ == (HttpCallView {
            method: Method::Post,
            url: ENDPOINT@,
            api_key: api_key@,
            json_content_type: true,
            body: Some(request@),
        }),
{
    HttpCall {
        method: Method::Post,
        url: String::from_str(ENDPOINT),
        api_key,
        json_content_type: true,
        body: Some(request),
    }
}

/// Plans the call that a command makes.
pub fn plan_call(command: &Command, api_key: String) -> (call: HttpCall)
    ensures
        call@ == planned_call(command@, api_key@),
{
    match command {
        Command::Search { query, max_results, interaction } => {
            let instruction = write_search_instruction(*max_results);
            let request = build_request(
                query.as_str(),
                ThinkingLevel::Minimal,
                as_slice(interaction),
                Some(instruction.as_str()),
                SEARCH_MAX_TOKENS,
                false,
            );
            create_call(request, api_key)
        },
        Command::Ask { query, interaction } => {
            let request = build_request(
                query.as_str(),
                ThinkingLevel::Medium,
                as_slice(interaction),
                Some(ASK_INSTRUCTION),
                ASK_MAX_TOKENS,
                false,
            );
            create_call(request, api_key)
        },
        Command::Think { query, interaction } => {
            let request = build_request(
                query.as_str(),
                ThinkingLevel::High,
                as_slice(interaction),
                Some(THINK_INSTRUCTION),
                THINK_MAX_TOKENS,
                false,
            );
            create_call(request, api_key)
        },
        Command::FollowUp { query, interaction, thinking_level } => {
            let request = build_request(
                query.as_str(),
                *thinking_level,
                Some(interaction.as_str()),
                None,
                ASK_MAX_TOKENS,
                false,
            );
            create_call(request, api_key)
        },
        Command::Status { interaction_id } => {
            let mut url = String::from_str(ENDPOINT);
            url.append("/");
            url.append(interaction_id.as_str());
            HttpCall { method: Method::Get, url, api_key, json_content_type: false, body: None }
        },
        Command::Cancel { interaction_id } => {
            let mut url = String::from_str(ENDPOINT);
            url.append("/");
            url.append(interaction_id.as_str());
            url.append("/cancel");
            HttpCall { method: Method::Post, url, api_key, json_content_type: true, body: None }
        },
    }
}

/// Why an invocation makes no call.
#[derive(Clone, Copy, Debug, PartialEq, Eq, Structural)]
pub enum DispatchError {
    /// Nothing was asked for.
    NoCommand,
    /// The environment holds no credential.
    MissingCredential,
}

impl DispatchError {
    /// What the user is told: for a missing credential, the name of the
    /// variable, then the advice.
    pub open spec fn message_text(self) -> Seq<char> {
        match self {
            DispatchError::NoCommand => USAGE@,
            DispatchError::MissingCredential => API_KEY_VAR@ + MISSING_KEY_ADVICE@,
        }
    }

    /// What the user is told.
    pub fn message(&self) -> (text: String)
        ensures
            text@ == self.message_text(),
    {
        match self {
            DispatchError::NoCommand => String::from_str(USAGE),
            DispatchError::MissingCredential => {
                let mut text = String::from_str(API_KEY_VAR);
                text.append(MISSING_KEY_ADVICE);
                text
            },
        }
    }
}

/// What an invocation comes to: the call of the selected command, or the
/// reason why there is none. That nothing was selected is found before the
/// credential is looked at; without a credential no call is planned.
pub open spec fn dispatched(
    flags: ShorthandView,
    subcommand: Option<CommandView>,
    api_key: Option<Seq<char>>,
) -> Result<HttpCallView, DispatchError> {
    match selected(flags, subcommand) {
        None => Err(DispatchError::NoCommand),
        Some(command) => match api_key {
            None => Err(DispatchError::MissingCredential),
            Some(key) => Ok(planned_call(command, key)),
        },
    }
}

/// The view of the result of a dispatch.
pub open spec fn dispatch_view(r: Result<HttpCall, DispatchError>) -> Result<
    HttpCallView,
    DispatchError,
> {
    match r {
        Ok(call) => Ok(call@),
        Err(e) => Err(e),
    }
}

/// Decides what an invocation comes to. `api_key` is what the environment
/// holds under the credential's variable.
pub fn dispatch(flags: Shorthand, subcommand: Option<Command>, api_key: Option<String>) -> (r:
    Result<HttpCall, DispatchError>)
    ensures
        dispatch_view(r) == dispatched(flags@, command_of(subcommand), text_of(api_key)),
{
    match select_command(flags, subcommand) {
        None => Err(DispatchError::NoCommand),
        Some(command) => match api_key {
            None => Err(DispatchError::MissingCredential),
            Some(key) => Ok(plan_call(&command, key)),
        },
    }
}

/// Without a credential no call is ever planned: whatever was selected, the
/// invocation ends in an error, and where something was selected the error
/// says that the credential is missing and its message starts with the
/// name of the variable.
pub proof fn missing_credential_stops_dispatch(
    flags: ShorthandView,
    subcommand: Option<CommandView>,
)
    ensures
        dispatched(flags, subcommand, None) is Err,
        selected(flags, subcommand) is Some ==> dispatched(flags, subcommand, None) == Err::<
            HttpCallView,
            DispatchError,
        >(DispatchError::MissingCredential),
        API_KEY_VAR@.is_prefix_of(DispatchError::MissingCredential.message_text()),
{
    assert(DispatchError::MissingCredential.message_text().subrange(0, API_KEY_VAR@.len() as int)
        =~= API_KEY_VAR@);
}

} // verus!
