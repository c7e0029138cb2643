//! Rendering of a response: the error line, the text report, and the plan
//! that tells the caller which outside work a rendering still needs.

use vstd::prelude::*;
use crate::model::{
    source_views, ApiError, ApiErrorView, InteractionResponse, Output, OutputFormat, OutputView,
    ResponseView, Source, SourceView,
};
use crate::sources::{collect_sources, dedup, output_views, response_candidates};
use crate::text::{decimal, decimal_text, same_text};

verus! {

/// The tag of an output that carries answer text.
pub const TEXT_KIND: &'static str = "text";

/// What the error line starts with.
pub const ERROR_LABEL: &'static str = "Error: ";

/// What is shown in place of the message of an error that has none.
pub const UNKNOWN_ERROR: &'static str = "Unknown error";

/// The heading of the sources section, with the blank line before it.
pub const SOURCES_HEADING: &'static str = "\n\nSources:\n";

/// The separator that ends every report.
pub const SEPARATOR: &'static str = "\n---\n";

/// What stands before the identifier in the hint that follows the separator.
pub const FOLLOW_UP_HINT: &'static str = "To follow up, use interaction_id: ";

/// The line that reports a failure of the service.
pub open spec fn error_line(e: ApiErrorView) -> Seq<char> {
    ERROR_LABEL@ + match e.message {
        Some(m) => m,
        None => UNKNOWN_ERROR@,
    } + "\n"@
}

/// The answer text that one output contributes: its text if it is tagged as
/// text and has one, else nothing.
pub open spec fn output_text(o: OutputView) -> Seq<char> {
    match o.text {
        Some(t) if o.kind == TEXT_KIND@ => t,
        _ => Seq::empty(),
    }
}

/// The answer text of a list of outputs: their contributions in list order,
/// with nothing between them.
pub open spec fn answer_text(outputs: Seq<OutputView>) -> Seq<char>
    decreases outputs.len(),
{
    if outputs.len() == 0 {
        Seq::empty()
    } else {
        answer_text(outputs.drop_last()) + output_text(outputs.last())
    }
}

/// The answer text of a response; empty where it has no outputs.
pub open spec fn response_text(resp: ResponseView) -> Seq<char> {
    match resp.outputs {
        Some(outputs) => answer_text(outputs),
        None => Seq::empty(),
    }
}

/// The line of the source with number `n`.
pub open spec fn source_line(n: nat, s: SourceView) -> Seq<char> {
    decimal_text(n) + ". ["@ + s.title + "]("@ + s.url + ")\n"@
}

/// The lines of a list of sources, numbered from one in list order.
pub open spec fn source_lines(list: Seq<SourceView>) -> Seq<char>
    decreases list.len(),
{
    if list.len() == 0 {
        Seq::empty()
    } else {
        source_lines(list.drop_last()) + source_line(list.len(), list.last())
    }
}

/// The section that lists the sources; nothing at all where there are none.
pub open spec fn sources_section(list: Seq<SourceView>) -> Seq<char> {
    if list.len() == 0 {
        Seq::empty()
    } else {
        SOURCES_HEADING@ + source_lines(list)
    }
}

/// The closing of a report: the separator, then the hint that names the
/// identifier to continue with, where the response has one.
pub open spec fn closing(id: Option<Seq<char>>) -> Seq<char> {
    SEPARATOR@ + match id {
        Some(i) => FOLLOW_UP_HINT@ + i + "\n"@,
        None => Seq::empty(),
    }
}

/// The text report of a response that reports no error, with `sources` as
/// its source list.
pub open spec fn text_report(resp: ResponseView, sources: Seq<SourceView>) -> Seq<char> {
    response_text(resp) + sources_section(sources) + closing(resp.id)
}

/// What text mode shows for a response: the error line alone where the
/// response reports an error, else the text report.
pub open spec fn rendered_text(resp: ResponseView, sources: Seq<SourceView>) -> Seq<char> {
    match resp.error {
        Some(e) => error_line(e),
        None => text_report(resp, sources),
    }
}

/// Writes the line that reports a failure of the service.
pub fn render_error(error: &ApiError) -> (out: String)
    ensures
        out@ == error_line(error@),
{
    let mut out = String::from_str(ERROR_LABEL);
    match &error.message {
        Some(m) => out.append(m.as_str()),
        None => out.append(UNKNOWN_ERROR),
    }
    out.append("\n");
    out
}

/// Appends the answer text of `outputs` to `out`.
fn append_answer(out: &mut String, outputs: &Vec<Output>)
    ensures
        final(out)@ == old(out)@ + answer_text(output_views(outputs@)),
{
    let ghost all = output_views(outputs@);
    let mut i: usize = 0;
    assert(out@ =~= old(out)@ + answer_text(all.take(0)));
    while i < outputs.len()
        invariant
            i <= outputs.len(),
            all == output_views(outputs@),
            out@ == old(out)@ + answer_text(all.take(i as int)),
        decreases outputs.len() - i,
    {
        let ghost before = answer_text(all.take(i as int));
        proof {
            assert(all.take(i + 1).drop_last() =~= all.take(i as int));
            assert(all.take(i + 1).last() == outputs@[i as int]@);
        }
        if same_text(outputs[i].kind.as_str(), TEXT_KIND) {
            match &outputs[i].text {
                Some(t) => out.append(t.as_str()),
                None => {},
            }
        }
        assert(out@ =~= old(out)@ + (before + output_text(outputs@[i as int]@)));
        i += 1;
    }
    assert(all.take(outputs.len() as int) =~= all);
}

/// Appends the line of the source with number `n` to `out`.
fn append_source_line(out: &mut String, n: u64, s: &Source)
    ensures
        final(out)@ == old(out)@ + source_line(n as nat, s@),
{
    let number = decimal(n);
    out.append(number.as_str());
    out.append(". [");
    out.append(s.title.as_str());
    out.append("](");
    out.append(s.url.as_str());
    out.append(")\n");
    assert(out@ =~= old(out)@ + source_line(n as nat, s@));
}

/// Appends the sources section of `sources` to `out`.
fn append_sources(out: &mut String, sources: &Vec<Source>)
    ensures
        final(out)@ == old(out)@ + sources_section(source_views(sources@)),
{
    let ghost all = source_views(sources@);
    if sources.len() == 0 {
        assert(out@ =~= old(out)@ + sources_section(all));
        return ;
    }
    out.append(SOURCES_HEADING);
    let ghost head = out@;
    let mut i: usize = 0;
    assert(out@ =~= head + source_lines(all.take(0)));
    while i < sources.len()
        invariant
            i <= sources.len(),
            all == source_views(sources@),
            out@ == head + source_lines(all.take(i as int)),
        decreases sources.len() - i,
    {
        let ghost before = source_lines(all.take(i as int));
        proof {
            assert(all.take(i + 1).drop_last() =~= all.take(i as int));
            assert(all.take(i + 1).last() == sources@[i as int]@);
        }
        append_source_line(out, (i + 1) as u64, &sources[i]);
        assert(out@ =~= head + (before + source_line((i + 1) as nat, sources@[i as int]@)));
        i += 1;
    }
    assert(all.take(sources.len() as int) =~= all);
    assert(out@ =~= old(out)@ + (SOURCES_HEADING@ + source_lines(all)));
}

/// Appends the closing of a report to `out`.
fn append_closing(out: &mut String, id: &Option<String>)
    ensures
        final(out)@ == old(out)@ + closing(crate::model::text_of(*id)),
{
    out.append(SEPARATOR);
    match id {
        Some(i) => {
            out.append(FOLLOW_UP_HINT);
            out.append(i.as_str());
            out.append("\n");
            assert(out@ =~= old(out)@ + closing(Some(i@)));
        },
        None => {
            assert(out@ =~= old(out)@ + closing(None));
        },
    }
}

/// Renders a response in text mode, with `sources` as its source list.
///
/// A response that reports an error is rendered as its error line alone,
/// whatever else it holds. Otherwise the report is the answer text, the
/// sources section where `sources` is not empty, and the closing, which is
/// there even for a response without outputs.
pub fn render_text(response: &InteractionResponse, sources: &Vec<Source>) -> (out: String)
    ensures
        out@ == rendered_text(response@, source_views(sources@)),
{
    match &response.error {
        Some(e) => render_error(e),
        None => {
            let mut out = String::new();
            match &response.outputs {
                Some(outputs) => append_answer(&mut out, outputs),
                None => {},
            }
            assert(out@ =~= response_text(response@));
            append_sources(&mut out, sources);
            append_closing(&mut out, &response.id);
            out
        },
    }
}

/// What a rendering needs next.
#[derive(Clone, Debug, PartialEq, Eq)]
pub enum RenderStep {
    /// Nothing: this is the output.
    Finished(String),
    /// The output is the pretty-printed serialization of the whole response.
    Serialize,
    /// These sources are to be resolved, all of them, before anything is
    /// shown; the output is then the text rendering with the resolved list.
    Resolve(Vec<Source>),
}

/// The view of a step: its text as characters, its sources as their views.
pub enum StepView {
    Finished(Seq<char>),
    Serialize,
    Resolve(Seq<SourceView>),
}

impl View for RenderStep {
    type V = StepView;

    open spec fn view(&self) -> StepView {
        match self {
            RenderStep::Finished(out) => StepView::Finished(out@),
            RenderStep::Serialize => StepView::Serialize,
            RenderStep::Resolve(list) => StepView::Resolve(source_views(list@)),
        }
    }
}

/// The first step of the rendering of a response.
///
/// The error is looked at before the format. Without an error, JSON mode
/// asks for the serialization; text mode hands out the cited sources, each
/// address once, or finishes at once where the response cites none.
pub open spec fn first_step(resp: ResponseView, format: OutputFormat) -> StepView {
    match resp.error {
        Some(e) => StepView::Finished(error_line(e)),
        None => match format {
            OutputFormat::Json => StepView::Serialize,
            OutputFormat::Text => {
                let cited = dedup(response_candidates(resp));
                if cited.len() == 0 {
                    StepView::Finished(text_report(resp, cited))
                } else {
                    StepView::Resolve(cited)
                }
            },
        },
    }
}

/// Starts the rendering of a response: says what it needs next.
pub fn begin_render(response: &InteractionResponse, format: OutputFormat) -> (step: RenderStep)
    ensures
        step@ == first_step(response@, format),
{
    match &response.error {
        Some(e) => RenderStep::Finished(render_error(e)),
        None => match format {
            OutputFormat::Json => RenderStep::Serialize,
            OutputFormat::Text => {
                let list = collect_sources(response);
                if list.len() == 0 {
                    RenderStep::Finished(render_text(response, &list))
                } else {
                    RenderStep::Resolve(list)
                }
            },
        },
    }
}

/// A response that reports an error never reaches the serialization: in
/// either format its rendering is finished at the first step, with the
/// same error line.
pub proof fn error_beats_format(resp: ResponseView, format: OutputFormat)
    requires
        resp.error is Some,
    ensures
        first_step(resp, format) == StepView::Finished(error_line(resp.error->0)),
        first_step(resp, OutputFormat::Json) == first_step(resp, OutputFormat::Text),
{
}

/// Without an error, JSON mode asks for the serialization and for nothing
/// else, whatever the response holds.
pub proof fn json_mode_serializes(resp: ResponseView)
    requires
        resp.error is None,
    ensures
        first_step(resp, OutputFormat::Json) == StepView::Serialize,
{
}

/// A response that reports an error is rendered as its error line and
/// nothing else: neither its outputs, nor its identifier, nor the sources
/// handed in change a character of it.
pub proof fn error_is_rendered_alone(
    resp: ResponseView,
    other: ResponseView,
    sources: Seq<SourceView>,
    other_sources: Seq<SourceView>,
)
    requires
        resp.error is Some,
        other.error == resp.error,
    ensures
        rendered_text(resp, sources) == error_line(resp.error->0),
        rendered_text(resp, sources) == rendered_text(other, other_sources),
{
}

/// A response without outputs and without sources still ends in the
/// closing: the report is the closing alone.
pub proof fn empty_report_is_closing(resp: ResponseView)
    requires
        resp.error is None,
        resp.outputs is None,
    ensures
        rendered_text(resp, Seq::empty()) == closing(resp.id),
{
    assert(rendered_text(resp, Seq::empty()) =~= closing(resp.id));
}

} // verus!
