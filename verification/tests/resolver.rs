use gemini_ask::header::read_header_text;
use gemini_ask::model::Source;
use gemini_ask::resolver::{
    begin_resolve, finish_resolve, is_redirect_wrapper, place_resolutions, Probe, ProbeOutcome,
    Resolution, ResolveStep, PROBE_TIMEOUT_SECS, REDIRECT_MARKER,
};

const WRAPPED: &str = "https://vertexaisearch.cloud.google.com/grounding-api-redirect/AbC123";

fn source(title: &str, url: &str) -> Source {
    Source { title: title.to_string(), url: url.to_string() }
}

fn resolution(index: usize, url: &str) -> Resolution {
    Resolution { index, url: url.to_string() }
}

#[test]
fn marker_is_found_anywhere_in_the_address() {
    assert!(is_redirect_wrapper(WRAPPED));
    assert!(is_redirect_wrapper(REDIRECT_MARKER));
    assert!(is_redirect_wrapper("http://proxy.example/?u=vertexaisearch.cloud.google.com/grounding-api-redirect"));
}

#[test]
fn plain_addresses_hold_no_marker() {
    assert!(!is_redirect_wrapper("https://a.example"));
    assert!(!is_redirect_wrapper(""));
    assert!(!is_redirect_wrapper("https://vertexaisearch.cloud.google.com/grounding-api-redirec"));
    assert!(!is_redirect_wrapper("https://vertexaisearch.cloud.google.com/other/grounding-api-redirect"));
}

#[test]
fn plain_address_is_done_without_a_probe() {
    assert_eq!(
        begin_resolve("https://a.example/page".to_string()),
        ResolveStep::Done("https://a.example/page".to_string())
    );
    assert_eq!(begin_resolve(String::new()), ResolveStep::Done(String::new()));
}

#[test]
fn wrapped_address_gets_one_probe_of_itself() {
    assert_eq!(
        begin_resolve(WRAPPED.to_string()),
        ResolveStep::Send(Probe { url: WRAPPED.to_string(), timeout_secs: 5, follow_redirects: false })
    );
    assert_eq!(PROBE_TIMEOUT_SECS, 5);
}

#[test]
fn probe_with_a_target_resolves_to_the_target() {
    assert_eq!(
        finish_resolve(WRAPPED.to_string(), ProbeOutcome::Location(b"https://real.example/a".to_vec())),
        "https://real.example/a"
    );
}

#[test]
fn header_text_is_read_byte_by_byte() {
    assert_eq!(read_header_text(b"https://real.example/a?b=c&d=%20"), Some("https://real.example/a?b=c&d=%20".to_string()));
    assert_eq!(read_header_text(b" ~"), Some(" ~".to_string()));
    assert_eq!(read_header_text(b"a\tb"), Some("a\tb".to_string()));
    assert_eq!(read_header_text(b""), Some(String::new()));
}

#[test]
fn header_with_opaque_bytes_is_no_text() {
    assert_eq!(read_header_text(b"https://real.example/\xfa"), None);
    assert_eq!(read_header_text(&[0x80]), None);
    assert_eq!(read_header_text("https://real.example/caf\u{e9}".as_bytes()), None);
}

#[test]
fn header_with_control_bytes_is_no_text() {
    assert_eq!(read_header_text(b"a\nb"), None);
    assert_eq!(read_header_text(b"a\rb"), None);
    assert_eq!(read_header_text(&[0]), None);
    assert_eq!(read_header_text(&[31]), None);
    assert_eq!(read_header_text(&[b'a', 127]), None);
}

#[test]
fn probe_that_timed_out_or_failed_keeps_the_address() {
    assert_eq!(finish_resolve(WRAPPED.to_string(), ProbeOutcome::RequestFailed), WRAPPED);
    assert_eq!(finish_resolve(WRAPPED.to_string(), ProbeOutcome::ClientUnavailable), WRAPPED);
}

#[test]
fn probe_without_a_readable_target_keeps_the_address() {
    assert_eq!(finish_resolve(WRAPPED.to_string(), ProbeOutcome::NoLocation), WRAPPED);
    assert_eq!(
        finish_resolve(WRAPPED.to_string(), ProbeOutcome::Location(b"https://real.example/\xff".to_vec())),
        WRAPPED
    );
    assert_eq!(finish_resolve(WRAPPED.to_string(), ProbeOutcome::Location(b"bad\nvalue".to_vec())), WRAPPED);
}

#[test]
fn empty_target_is_still_a_target() {
    assert_eq!(finish_resolve(WRAPPED.to_string(), ProbeOutcome::Location(Vec::new())), "");
}

#[test]
fn resolutions_in_order_replace_the_addresses() {
    let sources = vec![source("A", "a"), source("B", "b")];
    let placed = place_resolutions(&sources, &vec![resolution(0, "ra"), resolution(1, "rb")]);
    assert_eq!(placed, vec![source("A", "ra"), source("B", "rb")]);
}

#[test]
fn resolutions_out_of_order_keep_the_discovery_order() {
    let sources = vec![source("A", "a"), source("B", "b"), source("C", "c")];
    let in_order = vec![resolution(0, "ra"), resolution(1, "rb"), resolution(2, "rc")];
    let out_of_order = vec![resolution(2, "rc"), resolution(0, "ra"), resolution(1, "rb")];
    let expected = vec![source("A", "ra"), source("B", "rb"), source("C", "rc")];
    assert_eq!(place_resolutions(&sources, &in_order), expected);
    assert_eq!(place_resolutions(&sources, &out_of_order), expected);
}

#[test]
fn every_completion_order_gives_the_same_list() {
    let sources = vec![source("A", "a"), source("B", "b"), source("C", "c")];
    let done = [resolution(0, "ra"), resolution(1, "rb"), resolution(2, "rc")];
    let orders = [[0, 1, 2], [0, 2, 1], [1, 0, 2], [1, 2, 0], [2, 0, 1], [2, 1, 0]];
    let expected = vec![source("A", "ra"), source("B", "rb"), source("C", "rc")];
    for order in orders {
        let list: Vec<Resolution> = order.iter().map(|&k| done[k].clone()).collect();
        assert_eq!(place_resolutions(&sources, &list), expected);
    }
}

#[test]
fn a_place_without_a_resolution_keeps_its_address() {
    let sources = vec![source("A", "a"), source("B", "b")];
    assert_eq!(
        place_resolutions(&sources, &vec![resolution(1, "rb")]),
        vec![source("A", "a"), source("B", "rb")]
    );
    assert_eq!(place_resolutions(&sources, &Vec::new()), sources);
}

#[test]
fn a_resolution_for_a_missing_place_is_ignored() {
    let sources = vec![source("A", "a")];
    assert_eq!(
        place_resolutions(&sources, &vec![resolution(1, "x"), resolution(usize::MAX, "y")]),
        vec![source("A", "a")]
    );
    assert!(place_resolutions(&Vec::new(), &vec![resolution(0, "x")]).is_empty());
}

#[test]
fn the_last_resolution_for_a_place_stands() {
    let sources = vec![source("A", "a")];
    assert_eq!(
        place_resolutions(&sources, &vec![resolution(0, "first"), resolution(0, "second")]),
        vec![source("A", "second")]
    );
}
