//! The list of cited sources of a response: which entries of the response
//! are candidates, and which of them survive when each address is listed once.

use vstd::prelude::*;
use crate::model::{
    source_views, Annotation, AnnotationView, InteractionResponse, Output, OutputView, ResponseView,
    SearchResult, SearchResultView, Source, SourceView,
};
use crate::text::same_text;

verus! {

/// The title given to a source that comes from an annotation.
pub const ANNOTATION_TITLE: &'static str = "Source";

/// The title given to a search result that has none of its own.
pub const MISSING_TITLE: &'static str = "Untitled";

/// The tag of an output that carries search results.
pub const SEARCH_RESULT_KIND: &'static str = "google_search_result";

/// The candidate that an annotation contributes, if any.
pub open spec fn annotation_candidate(a: AnnotationView) -> Option<SourceView> {
    match a.source {
        Some(url) => Some(SourceView { title: ANNOTATION_TITLE@, url }),
        None => None,
    }
}

/// The candidate that a search result contributes, if any.
pub open spec fn result_candidate(r: SearchResultView) -> Option<SourceView> {
    match r.url {
        Some(url) => Some(
            SourceView {
                title: match r.title {
                    Some(t) => t,
                    None => MISSING_TITLE@,
                },
                url,
            },
        ),
        None => None,
    }
}

/// `list` with `extra` appended where there is one.
pub open spec fn with_candidate(list: Seq<SourceView>, extra: Option<SourceView>) -> Seq<
    SourceView,
> {
    match extra {
        Some(s) => list.push(s),
        None => list,
    }
}

/// The candidates of a list of annotations, in list order.
pub open spec fn annotation_candidates(anns: Seq<AnnotationView>) -> Seq<SourceView>
    decreases anns.len(),
{
    if anns.len() == 0 {
        Seq::empty()
    } else {
        with_candidate(
            annotation_candidates(anns.drop_last()),
            annotation_candidate(anns.last()),
        )
    }
}

/// The candidates of a list of search results, in list order.
pub open spec fn result_candidates(results: Seq<SearchResultView>) -> Seq<SourceView>
    decreases results.len(),
{
    if results.len() == 0 {
        Seq::empty()
    } else {
        with_candidate(result_candidates(results.drop_last()), result_candidate(results.last()))
    }
}

/// The candidates of one output: its annotations first, whatever its tag,
/// then its search results if it is tagged as carrying them.
pub open spec fn output_candidates(o: OutputView) -> Seq<SourceView> {
    let from_annotations = match o.annotations {
        Some(anns) => annotation_candidates(anns),
        None => Seq::empty(),
    };
    let from_results = match o.result {
        Some(results) if o.kind == SEARCH_RESULT_KIND@ => result_candidates(results),
        _ => Seq::empty(),
    };
    from_annotations + from_results
}

/// The candidates of a list of outputs, in list order.
pub open spec fn candidates(outputs: Seq<OutputView>) -> Seq<SourceView>
    decreases outputs.len(),
{
    if outputs.len() == 0 {
        Seq::empty()
    } else {
        candidates(outputs.drop_last()) + output_candidates(outputs.last())
    }
}

/// The candidates of a response; none where it has no outputs.
pub open spec fn response_candidates(resp: ResponseView) -> Seq<SourceView> {
    match resp.outputs {
        Some(outputs) => candidates(outputs),
        None => Seq::empty(),
    }
}

/// Some entry of `list` has the address `url`.
pub open spec fn has_url(list: Seq<SourceView>, url: Seq<char>) -> bool {
    exists|i: int| 0 <= i < list.len() && #[trigger] list[i].url == url
}

/// `list` after it has seen the candidate `s`: unchanged if the address is
/// already listed, else with `s` at its end.
pub open spec fn absorb(list: Seq<SourceView>, s: SourceView) -> Seq<SourceView> {
    if has_url(list, s.url) {
        list
    } else {
        list.push(s)
    }
}

/// `list` after it has seen every candidate of `cands`, in order.
pub open spec fn absorb_all(list: Seq<SourceView>, cands: Seq<SourceView>) -> Seq<SourceView>
    decreases cands.len(),
{
    if cands.len() == 0 {
        list
    } else {
        absorb(absorb_all(list, cands.drop_last()), cands.last())
    }
}

/// The candidates with each address listed once: the first candidate of
/// every address, in the order in which the addresses first appear.
pub open spec fn dedup(cands: Seq<SourceView>) -> Seq<SourceView> {
    absorb_all(Seq::empty(), cands)
}

/// Seeing `a + b` is seeing `a`, then `b`.
pub proof fn absorb_all_concat(list: Seq<SourceView>, a: Seq<SourceView>, b: Seq<SourceView>)
    ensures
        absorb_all(list, a + b) == absorb_all(absorb_all(list, a), b),
    decreases b.len(),
{
    if b.len() == 0 {
        assert(a + b =~= a);
    } else {
        absorb_all_concat(list, a, b.drop_last());
        assert((a + b).drop_last() =~= a + b.drop_last());
        assert((a + b).last() == b.last());
    }
}

/// Seeing one more candidate.
pub proof fn absorb_all_push(list: Seq<SourceView>, a: Seq<SourceView>, s: SourceView)
    ensures
        absorb_all(list, a.push(s)) == absorb(absorb_all(list, a), s),
{
    assert(a.push(s).drop_last() =~= a);
}

/// Whether some entry of `list` has the address `url`.
fn lists_url(list: &Vec<Source>, url: &str) -> (r: bool)
    ensures
        r == has_url(source_views(list@), url@),
{
    let mut i: usize = 0;
    while i < list.len()
        invariant
            i <= list.len(),
            forall|k: int| 0 <= k < i ==> (#[trigger] source_views(list@)[k]).url != url@,
        decreases list.len() - i,
    {
        if same_text(list[i].url.as_str(), url) {
            assert(source_views(list@)[i as int].url == url@);
            return true;
        }
        i += 1;
    }
    false
}

/// Adds `s` to `list` unless its address is already listed.
pub fn add_source(list: &mut Vec<Source>, s: Source)
    ensures
        source_views(final(list)@) == absorb(source_views(old(list)@), s@),
{
    if !lists_url(list, s.url.as_str()) {
        list.push(s);
        assert(source_views(list@) =~= source_views(old(list)@).push(s@));
    }
}

/// The views of a list of annotations, in order.
pub open spec fn annotation_views(list: Seq<Annotation>) -> Seq<AnnotationView> {
    list.map_values(|a: Annotation| a@)
}

/// The views of a list of search results, in order.
pub open spec fn result_views(list: Seq<SearchResult>) -> Seq<SearchResultView> {
    list.map_values(|r: SearchResult| r@)
}

/// The views of a list of outputs, in order.
pub open spec fn output_views(list: Seq<Output>) -> Seq<OutputView> {
    list.map_values(|o: Output| o@)
}

/// Lets `list` see the candidates of `anns`, in order.
pub fn add_annotations(list: &mut Vec<Source>, anns: &Vec<Annotation>)
    ensures
        source_views(final(list)@) == absorb_all(
            source_views(old(list)@),
            annotation_candidates(annotation_views(anns@)),
        ),
{
    let ghost all = annotation_views(anns@);
    let mut i: usize = 0;
    while i < anns.len()
        invariant
            i <= anns.len(),
            all == annotation_views(anns@),
            source_views(list@) == absorb_all(
                source_views(old(list)@),
                annotation_candidates(all.take(i as int)),
            ),
        decreases anns.len() - i,
    {
        let ghost seen = annotation_candidates(all.take(i as int));
        proof {
            assert(all.take(i + 1).drop_last() =~= all.take(i as int));
            assert(all.take(i + 1).last() == anns@[i as int]@);
        }
        match &anns[i].source {
            Some(url) => {
                let entry = Source { title: String::from_str(ANNOTATION_TITLE), url: url.clone() };
                proof {
                    absorb_all_push(source_views(old(list)@), seen, entry@);
                }
                add_source(list, entry);
            },
            None => {},
        }
        i += 1;
    }
    assert(all.take(anns.len() as int) =~= all);
}

/// Lets `list` see the candidates of `results`, in order.
pub fn add_results(list: &mut Vec<Source>, results: &Vec<SearchResult>)
    ensures
        source_views(final(list)@) == absorb_all(
            source_views(old(list)@),
            result_candidates(result_views(results@)),
        ),
{
    let ghost all = result_views(results@);
    let mut i: usize = 0;
    while i < results.len()
        invariant
            i <= results.len(),
            all == result_views(results@),
            source_views(list@) == absorb_all(
                source_views(old(list)@),
                result_candidates(all.take(i as int)),
            ),
        decreases results.len() - i,
    {
        let ghost seen = result_candidates(all.take(i as int));
        proof {
            assert(all.take(i + 1).drop_last() =~= all.take(i as int));
            assert(all.take(i + 1).last() == results@[i as int]@);
        }
        match &results[i].url {
            Some(url) => {
                let title = match &results[i].title {
                    Some(t) => t.clone(),
                    None => String::from_str(MISSING_TITLE),
                };
                let entry = Source { title, url: url.clone() };
                proof {
                    absorb_all_push(source_views(old(list)@), seen, entry@);
                }
                add_source(list, entry);
            },
            None => {},
        }
        i += 1;
    }
    assert(all.take(results.len() as int) =~= all);
}

/// Lets `list` see the candidates of one output.
pub fn add_output(list: &mut Vec<Source>, out: &Output)
    ensures
        source_views(final(list)@) == absorb_all(
            source_views(old(list)@),
            output_candidates(out@),
        ),
{
    let ghost start = source_views(list@);
    let ghost from_annotations = match out@.annotations {
        Some(anns) => annotation_candidates(anns),
        None => Seq::empty(),
    };
    let ghost from_results = match out@.result {
        Some(results) if out@.kind == SEARCH_RESULT_KIND@ => result_candidates(results),
        _ => Seq::empty(),
    };
    match &out.annotations {
        Some(anns) => add_annotations(list, anns),
        None => {},
    }
    assert(source_views(list@) == absorb_all(start, from_annotations));
    if same_text(out.kind.as_str(), SEARCH_RESULT_KIND) {
        match &out.result {
            Some(results) => add_results(list, results),
            None => {},
        }
    }
    assert(source_views(list@) == absorb_all(absorb_all(start, from_annotations), from_results));
    proof {
        absorb_all_concat(start, from_annotations, from_results);
    }
}

/// The sources that a response cites: every address once, under the title
/// with which it first appears, in the order of first appearance.
pub fn collect_sources(response: &InteractionResponse) -> (list: Vec<Source>)
    ensures
        source_views(list@) == dedup(response_candidates(response@)),
{
    let mut list: Vec<Source> = Vec::new();
    assert(source_views(list@) =~= Seq::empty());
    match &response.outputs {
        Some(outputs) => {
            let ghost all = output_views(outputs@);
            let mut i: usize = 0;
            while i < outputs.len()
                invariant
                    i <= outputs.len(),
                    all == output_views(outputs@),
                    source_views(list@) == dedup(candidates(all.take(i as int))),
                decreases outputs.len() - i,
            {
                proof {
                    assert(all.take(i + 1).drop_last() =~= all.take(i as int));
                    assert(all.take(i + 1).last() == outputs@[i as int]@);
                    absorb_all_concat(
                        Seq::empty(),
                        candidates(all.take(i as int)),
                        output_candidates(outputs@[i as int]@),
                    );
                }
                add_output(&mut list, &outputs[i]);
                i += 1;
            }
            assert(all.take(outputs.len() as int) =~= all);
        },
        None => {},
    }
    list
}

/// The addresses of a list of sources, in order.
pub open spec fn urls(list: Seq<SourceView>) -> Seq<Seq<char>> {
    list.map_values(|s: SourceView| s.url)
}

/// The candidate at position `i` is the first of its address.
pub open spec fn is_first(cands: Seq<SourceView>, i: int) -> bool {
    &&& 0 <= i < cands.len()
    &&& forall|j: int| 0 <= j < i ==> (#[trigger] cands[j]).url != cands[i].url
}

/// No address is listed twice.
pub open spec fn urls_distinct(list: Seq<SourceView>) -> bool {
    forall|a: int, b: int|
        0 <= a < b < list.len() ==> (#[trigger] list[a]).url != (#[trigger] list[b]).url
}

/// Every address among the candidates is listed after deduplication.
pub proof fn dedup_lists_every_url(cands: Seq<SourceView>, i: int)
    requires
        0 <= i < cands.len(),
    ensures
        has_url(dedup(cands), cands[i].url),
    decreases cands.len(),
{
    let rest = cands.drop_last();
    let kept = dedup(rest);
    let full = dedup(cands);
    assert(full == absorb(kept, cands.last()));
    if i == cands.len() - 1 {
        if !has_url(kept, cands.last().url) {
            assert(full[kept.len() as int].url == cands[i].url);
        }
    } else {
        dedup_lists_every_url(rest, i);
        let k = choose|k: int| 0 <= k < kept.len() && #[trigger] kept[k].url == rest[i].url;
        assert(full[k].url == cands[i].url);
    }
}

/// Every entry that deduplication keeps is the first candidate of its
/// address: a later candidate with the same address, whatever its title,
/// is dropped.
pub proof fn dedup_keeps_first(cands: Seq<SourceView>, k: int) -> (i: int)
    requires
        0 <= k < dedup(cands).len(),
    ensures
        is_first(cands, i),
        cands[i] == dedup(cands)[k],
    decreases cands.len(),
{
    let rest = cands.drop_last();
    let kept = dedup(rest);
    if cands.len() == 0 {
        0
    } else if k < kept.len() {
        let i = dedup_keeps_first(rest, k);
        assert forall|j: int| 0 <= j < i implies (#[trigger] cands[j]).url != cands[i].url by {
            assert(cands[j] == rest[j]);
        }
        i
    } else {
        let i = cands.len() - 1;
        assert(!has_url(kept, cands.last().url));
        assert forall|j: int| 0 <= j < i implies (#[trigger] cands[j]).url != cands[i].url by {
            if cands[j].url == cands[i].url {
                dedup_lists_every_url(rest, j);
            }
        }
        i
    }
}

/// Deduplication lists no address twice.
pub proof fn dedup_urls_distinct(cands: Seq<SourceView>)
    ensures
        urls_distinct(dedup(cands)),
    decreases cands.len(),
{
    if cands.len() > 0 {
        let kept = dedup(cands.drop_last());
        dedup_urls_distinct(cands.drop_last());
        let full = dedup(cands);
        assert forall|a: int, b: int| 0 <= a < b < full.len() implies (#[trigger] full[a]).url != (
        #[trigger] full[b]).url by {
            if b == kept.len() {
                assert(kept[a].url == full[a].url);
            } else {
                assert(kept[a].url == full[a].url);
                assert(kept[b].url == full[b].url);
            }
        }
    }
}

/// Deduplication keeps the order of first appearance: of two kept entries,
/// the earlier one's address first appears earlier among the candidates.
pub proof fn dedup_keeps_order(cands: Seq<SourceView>, a: int, b: int, i: int, j: int)
    requires
        0 <= a < b < dedup(cands).len(),
        is_first(cands, i),
        cands[i].url == dedup(cands)[a].url,
        is_first(cands, j),
        cands[j].url == dedup(cands)[b].url,
    ensures
        i < j,
    decreases cands.len(),
{
    let rest = cands.drop_last();
    let kept = dedup(rest);
    let full = dedup(cands);
    let end = cands.len() - 1;
    dedup_urls_distinct(cands);
    assert(full[a].url != full[b].url);
    // The entry at `a` was already kept before the final candidate came.
    let ia = dedup_keeps_first(rest, a);
    assert(cands[ia] == rest[ia]);
    assert(i != end) by {
        if i == end {
            assert(cands[ia].url != cands[i].url);
        }
    }
    assert(is_first(rest, i)) by {
        assert forall|m: int| 0 <= m < i implies (#[trigger] rest[m]).url != rest[i].url by {
            assert(cands[m] == rest[m]);
        }
    }
    if b < kept.len() {
        let ib = dedup_keeps_first(rest, b);
        assert(cands[ib] == rest[ib]);
        assert(j != end) by {
            if j == end {
                assert(cands[ib].url != cands[j].url);
            }
        }
        assert(is_first(rest, j)) by {
            assert forall|m: int| 0 <= m < j implies (#[trigger] rest[m]).url != rest[j].url by {
                assert(cands[m] == rest[m]);
            }
        }
        dedup_keeps_order(rest, a, b, i, j);
    } else {
        assert(!has_url(kept, cands.last().url));
        assert(full[b] == cands.last());
        if j != end {
            dedup_lists_every_url(rest, j);
            assert(rest[j] == cands[j]);
        }
    }
}

/// The deduplicated list has as many entries as the candidates have
/// distinct addresses.
pub proof fn dedup_counts_distinct_urls(cands: Seq<SourceView>)
    ensures
        dedup(cands).len() == urls(cands).to_set().len(),
{
    let kept = dedup(cands);
    dedup_urls_distinct(cands);
    assert(urls(kept).no_duplicates()) by {
        assert forall|a: int, b: int|
            0 <= a < urls(kept).len() && 0 <= b < urls(kept).len() && a != b implies urls(
            kept,
        )[a] != urls(kept)[b] by {
            if a < b {
                assert(kept[a].url != kept[b].url);
            } else {
                assert(kept[b].url != kept[a].url);
            }
        }
    }
    urls(kept).unique_seq_to_set();
    assert(urls(kept).to_set() =~= urls(cands).to_set()) by {
        assert forall|u: Seq<char>| urls(kept).to_set().contains(u) implies urls(
            cands,
        ).to_set().contains(u) by {
            let k = choose|k: int| 0 <= k < urls(kept).len() && urls(kept)[k] == u;
            let i = dedup_keeps_first(cands, k);
            assert(urls(cands)[i] == u);
        }
        assert forall|u: Seq<char>| urls(cands).to_set().contains(u) implies urls(
            kept,
        ).to_set().contains(u) by {
            let i = choose|i: int| 0 <= i < urls(cands).len() && urls(cands)[i] == u;
            dedup_lists_every_url(cands, i);
            let k = choose|k: int| 0 <= k < kept.len() && #[trigger] kept[k].url == cands[i].url;
            assert(urls(kept)[k] == u);
        }
    }
}

} // verus!
