use gemini_ask::model::{
    Annotation, ApiError, InteractionResponse, Output, OutputFormat, SearchResult, Source, Usage,
};
use gemini_ask::render::{begin_render, render_error, render_text, RenderStep};
use gemini_ask::resolver::{begin_resolve, place_resolutions, Resolution, ResolveStep};

fn source(title: &str, url: &str) -> Source {
    Source { title: title.to_string(), url: url.to_string() }
}

fn text_output(text: &str) -> Output {
    Output { kind: "text".to_string(), text: Some(text.to_string()), annotations: None, result: None }
}

fn empty_response() -> InteractionResponse {
    InteractionResponse { id: None, status: None, outputs: None, usage: None, error: None }
}

fn failure(message: Option<&str>) -> ApiError {
    ApiError { message: message.map(|m| m.to_string()), code: Some("400".to_string()) }
}

fn two_annotations_one_result() -> InteractionResponse {
    InteractionResponse {
        id: None,
        status: Some("completed".to_string()),
        outputs: Some(vec![
            Output {
                kind: "text".to_string(),
                text: Some("Answer.".to_string()),
                annotations: Some(vec![
                    Annotation { source: Some("https://a.example".to_string()) },
                    Annotation { source: Some("https://a.example".to_string()) },
                ]),
                result: None,
            },
            Output {
                kind: "google_search_result".to_string(),
                text: None,
                annotations: None,
                result: Some(vec![SearchResult {
                    url: Some("https://b.example".to_string()),
                    title: Some("B Site".to_string()),
                }]),
            },
        ]),
        usage: None,
        error: None,
    }
}

#[test]
fn error_line_carries_the_message() {
    assert_eq!(render_error(&failure(Some("quota exceeded"))), "Error: quota exceeded\n");
}

#[test]
fn error_without_a_message_is_unknown() {
    assert_eq!(render_error(&failure(None)), "Error: Unknown error\n");
}

#[test]
fn error_in_text_mode_is_the_error_line_alone() {
    let resp = InteractionResponse {
        id: Some("abc123".to_string()),
        status: Some("failed".to_string()),
        outputs: Some(vec![Output {
            kind: "text".to_string(),
            text: Some("partial".to_string()),
            annotations: Some(vec![Annotation { source: Some("https://a.example".to_string()) }]),
            result: None,
        }]),
        usage: Some(Usage {
            total_input_tokens: Some(1),
            total_output_tokens: Some(2),
            total_reasoning_tokens: None,
        }),
        error: Some(failure(Some("bad request"))),
    };
    assert_eq!(
        begin_render(&resp, OutputFormat::Text),
        RenderStep::Finished("Error: bad request\n".to_string())
    );
    assert_eq!(render_text(&resp, &vec![source("Source", "https://a.example")]), "Error: bad request\n");
}

#[test]
fn error_in_json_mode_is_the_same_error_line() {
    let mut resp = empty_response();
    resp.error = Some(failure(Some("bad request")));
    resp.outputs = Some(vec![text_output("ignored")]);
    assert_eq!(
        begin_render(&resp, OutputFormat::Json),
        RenderStep::Finished("Error: bad request\n".to_string())
    );
    assert_eq!(begin_render(&resp, OutputFormat::Json), begin_render(&resp, OutputFormat::Text));
}

#[test]
fn json_mode_without_error_asks_for_the_serialization() {
    assert_eq!(begin_render(&two_annotations_one_result(), OutputFormat::Json), RenderStep::Serialize);
    assert_eq!(begin_render(&empty_response(), OutputFormat::Json), RenderStep::Serialize);
}

#[test]
fn text_mode_hands_out_the_cited_sources() {
    assert_eq!(
        begin_render(&two_annotations_one_result(), OutputFormat::Text),
        RenderStep::Resolve(vec![source("Source", "https://a.example"), source("B Site", "https://b.example")])
    );
}

#[test]
fn text_mode_without_sources_finishes_at_once() {
    let mut resp = empty_response();
    resp.outputs = Some(vec![text_output("Paris is the capital of France.")]);
    resp.id = Some("abc123".to_string());
    assert_eq!(
        begin_render(&resp, OutputFormat::Text),
        RenderStep::Finished(
            "Paris is the capital of France.\n---\nTo follow up, use interaction_id: abc123\n".to_string()
        )
    );
}

#[test]
fn answer_with_id_ends_in_separator_and_hint() {
    let mut resp = empty_response();
    resp.outputs = Some(vec![text_output("Paris is the capital of France.")]);
    resp.id = Some("abc123".to_string());
    let out = render_text(&resp, &Vec::new());
    assert_eq!(out, "Paris is the capital of France.\n---\nTo follow up, use interaction_id: abc123\n");
    assert!(out.contains("Paris is the capital of France."));
    assert!(out.ends_with("\n---\nTo follow up, use interaction_id: abc123\n"));
}

#[test]
fn shared_annotation_and_one_result_give_two_sources() {
    let resp = two_annotations_one_result();
    let sources = match begin_render(&resp, OutputFormat::Text) {
        RenderStep::Resolve(list) => list,
        other => panic!("unexpected step {:?}", other),
    };
    let mut done = Vec::new();
    for (index, s) in sources.iter().enumerate() {
        match begin_resolve(s.url.clone()) {
            ResolveStep::Done(url) => done.push(Resolution { index, url }),
            ResolveStep::Send(p) => panic!("unexpected probe {:?}", p),
        }
    }
    let out = render_text(&resp, &place_resolutions(&sources, &done));
    assert_eq!(
        out,
        "Answer.\n\nSources:\n1. [Source](https://a.example)\n2. [B Site](https://b.example)\n\n---\n"
    );
    assert_eq!(out.matches("](").count(), 2);
}

#[test]
fn text_of_outputs_is_joined_without_separators() {
    let mut resp = empty_response();
    resp.outputs = Some(vec![text_output("one"), text_output("two"), text_output(""), text_output("three")]);
    assert_eq!(render_text(&resp, &Vec::new()), "onetwothree\n---\n");
}

#[test]
fn text_of_other_tags_is_left_out() {
    let mut resp = empty_response();
    resp.outputs = Some(vec![
        text_output("kept"),
        Output {
            kind: "google_search_result".to_string(),
            text: Some("dropped".to_string()),
            annotations: None,
            result: None,
        },
        Output { kind: "Text".to_string(), text: Some("dropped too".to_string()), annotations: None, result: None },
        Output { kind: "text".to_string(), text: None, annotations: None, result: None },
    ]);
    assert_eq!(render_text(&resp, &Vec::new()), "kept\n---\n");
}

#[test]
fn response_without_outputs_still_has_the_closing() {
    assert_eq!(render_text(&empty_response(), &Vec::new()), "\n---\n");
    let mut resp = empty_response();
    resp.id = Some("xyz".to_string());
    assert_eq!(render_text(&resp, &Vec::new()), "\n---\nTo follow up, use interaction_id: xyz\n");
    assert_eq!(begin_render(&empty_response(), OutputFormat::Text), RenderStep::Finished("\n---\n".to_string()));
}

#[test]
fn sources_are_numbered_from_one_in_list_order() {
    let mut resp = empty_response();
    resp.outputs = Some(vec![text_output("Body")]);
    let sources = vec![source("Z", "https://z.example"), source("A", "https://a.example")];
    assert_eq!(
        render_text(&resp, &sources),
        "Body\n\nSources:\n1. [Z](https://z.example)\n2. [A](https://a.example)\n\n---\n"
    );
}

#[test]
fn source_numbers_grow_past_one_digit() {
    let mut sources = Vec::new();
    for i in 0..12 {
        sources.push(source("T", &format!("u{}", i)));
    }
    let out = render_text(&empty_response(), &sources);
    assert!(out.starts_with("\n\nSources:\n1. [T](u0)\n2. [T](u1)\n"));
    assert!(out.contains("\n9. [T](u8)\n10. [T](u9)\n11. [T](u10)\n12. [T](u11)\n\n---\n"));
}

#[test]
fn resolved_addresses_are_shown_under_the_discovered_titles() {
    let resp = two_annotations_one_result();
    let sources = vec![source("Source", "https://a.example"), source("B Site", "https://b.example")];
    let done = vec![
        Resolution { index: 1, url: "https://b.real".to_string() },
        Resolution { index: 0, url: "https://a.real".to_string() },
    ];
    assert_eq!(
        render_text(&resp, &place_resolutions(&sources, &done)),
        "Answer.\n\nSources:\n1. [Source](https://a.real)\n2. [B Site](https://b.real)\n\n---\n"
    );
}
