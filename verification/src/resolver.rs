//! Resolution of redirect-wrapped addresses: which addresses are probed,
//! what a probe's outcome makes of an address, and how the outcomes of many
//! probes are put back in their sources' places.
//!
//! The probe itself is the caller's work. Nothing here can fail: every
//! outcome of a probe but a readable target leaves the address as it was.

use vstd::prelude::*;
use crate::header::{header_text, read_header_text};
use crate::model::{source_views, Source, SourceView};
use crate::text::{contains, contains_text};
use vstd::seq_lib::{to_multiset_build, to_multiset_contains};

verus! {

/// The seconds after which a probe is given up.
pub const PROBE_TIMEOUT_SECS: u64 = 5;

/// The text that marks an address as a redirect wrapper.
pub const REDIRECT_MARKER: &'static str = "vertexaisearch.cloud.google.com/grounding-api-redirect";

/// The address holds the redirect marker.
pub open spec fn is_wrapped(url: Seq<char>) -> bool {
    contains_text(url, REDIRECT_MARKER@)
}

/// Whether an address is a redirect wrapper.
pub fn is_redirect_wrapper(url: &str) -> (r: bool)
    ensures
        r == is_wrapped(url@),
{
    contains(url, REDIRECT_MARKER)
}

/// One request for the headers of an address.
#[derive(Clone, Debug, PartialEq, Eq)]
pub struct Probe {
    pub url: String,
    /// Seconds after which the request is given up.
    pub timeout_secs: u64,
    /// Whether the client may follow a redirect by itself.
    pub follow_redirects: bool,
}

/// What the resolution of an address needs next.
#[derive(Clone, Debug, PartialEq, Eq)]
pub enum ResolveStep {
    /// Nothing: this is the resolved address, and no request is made.
    Done(String),
    /// This probe is to be sent, and its outcome handed to `finish_resolve`.
    Send(Probe),
}

pub enum ResolveStepView {
    Done(Seq<char>),
    Send { url: Seq<char>, timeout_secs: u64, follow_redirects: bool },
}

impl View for ResolveStep {
    type V = ResolveStepView;

    open spec fn view(&self) -> ResolveStepView {
        match self {
            ResolveStep::Done(url) => ResolveStepView::Done(url@),
            ResolveStep::Send(p) => ResolveStepView::Send {
                url: p.url@,
                timeout_secs: p.timeout_secs,
                follow_redirects: p.follow_redirects,
            },
        }
    }
}

/// The first step of the resolution of `url`: an address without the marker
/// is done as it stands; one with the marker gets a single probe of itself,
/// which follows no redirect and is given up after the fixed timeout.
pub open spec fn first_resolve_step(url: Seq<char>) -> ResolveStepView {
    if is_wrapped(url) {
        ResolveStepView::Send {
            url,
            timeout_secs: PROBE_TIMEOUT_SECS,
            follow_redirects: false,
        }
    } else {
        ResolveStepView::Done(url)
    }
}

/// Starts the resolution of an address.
pub fn begin_resolve(url: String) -> (step: ResolveStep)
    ensures
        step@ == first_resolve_step(url@),
{
    if is_redirect_wrapper(url.as_str()) {
        ResolveStep::Send(Probe { url, timeout_secs: PROBE_TIMEOUT_SECS, follow_redirects: false })
    } else {
        ResolveStep::Done(url)
    }
}

/// How a probe ended.
#[derive(Clone, Debug, PartialEq, Eq)]
pub enum ProbeOutcome {
    /// No client could be set up.
    ClientUnavailable,
    /// The request failed or ran out of time.
    RequestFailed,
    /// The reply has no location header.
    NoLocation,
    /// The reply has a location header that holds these bytes.
    Location(Vec<u8>),
}

/// The target that an outcome names: what its location header says as
/// text, if it has one and that is text.
pub open spec fn outcome_target(outcome: ProbeOutcome) -> Option<Seq<char>> {
    match outcome {
        ProbeOutcome::Location(bytes) => header_text(bytes@),
        _ => None,
    }
}

/// The address that a probe's outcome leaves: the target where the outcome
/// names one, else the address that was probed.
pub open spec fn settled(url: Seq<char>, target: Option<Seq<char>>) -> Seq<char> {
    match target {
        Some(t) => t,
        None => url,
    }
}

/// Ends the resolution of `url` with the outcome of its probe.
pub fn finish_resolve(url: String, outcome: ProbeOutcome) -> (resolved: String)
    ensures
        resolved@ == settled(url@, outcome_target(outcome)),
{
    match outcome {
        ProbeOutcome::Location(bytes) => match read_header_text(bytes.as_slice()) {
            Some(target) => target,
            None => url,
        },
        _ => url,
    }
}

/// An address without the marker is never probed: its resolution is done at
/// the first step, with the address unchanged.
pub proof fn plain_url_is_not_probed(url: Seq<char>)
    requires
        !is_wrapped(url),
    ensures
        first_resolve_step(url) == ResolveStepView::Done(url),
{
}

/// A probe that names no readable target, for whatever reason, leaves the
/// address unchanged: no client, a request that failed or ran out of time,
/// a reply without a location header, or one whose location is no text.
pub proof fn failed_probe_keeps_url(url: Seq<char>, outcome: ProbeOutcome)
    requires
        outcome matches ProbeOutcome::Location(bytes) ==> !crate::header::is_text(bytes@),
    ensures
        settled(url, outcome_target(outcome)) == url,
{
}

/// A probe whose location header is text resolves the address to that
/// text.
pub proof fn readable_location_is_the_target(url: Seq<char>, bytes: Vec<u8>)
    requires
        crate::header::is_text(bytes@),
    ensures
        settled(url, outcome_target(ProbeOutcome::Location(bytes))) == crate::header::ascii_chars(
            bytes@,
        ),
{
}

/// The resolved address of the source at position `index` of a list.
#[derive(Clone, Debug, PartialEq, Eq)]
pub struct Resolution {
    pub index: usize,
    pub url: String,
}

pub struct ResolutionView {
    pub index: int,
    pub url: Seq<char>,
}

impl View for Resolution {
    type V = ResolutionView;

    open spec fn view(&self) -> ResolutionView {
        ResolutionView { index: self.index as int, url: self.url@ }
    }
}

/// The views of a list of resolutions, in order.
pub open spec fn resolution_views(list: Seq<Resolution>) -> Seq<ResolutionView> {
    list.map_values(|r: Resolution| r@)
}

/// The address that the resolutions `done` leave in place `slot`: that of
/// the last resolution for the place, or `unresolved` where none is for it.
pub open spec fn slot_url(unresolved: Seq<char>, slot: int, done: Seq<ResolutionView>) -> Seq<char>
    decreases done.len(),
{
    if done.len() == 0 {
        unresolved
    } else if done.last().index == slot {
        done.last().url
    } else {
        slot_url(unresolved, slot, done.drop_last())
    }
}

/// The sources with their resolved addresses: as many as before, each with
/// its own title in its own place, whatever the order of the resolutions.
pub open spec fn placed(sources: Seq<SourceView>, done: Seq<ResolutionView>) -> Seq<SourceView> {
    Seq::new(
        sources.len(),
        |i: int| SourceView { title: sources[i].title, url: slot_url(sources[i].url, i, done) },
    )
}

/// Puts resolved addresses back in their sources' places.
///
/// Each resolution names its place, so the order in which they arrive does
/// not matter. A place without a resolution keeps its address; a resolution
/// for a place that the list does not have is ignored.
pub fn place_resolutions(sources: &Vec<Source>, done: &Vec<Resolution>) -> (out: Vec<Source>)
    ensures
        source_views(out@) == placed(source_views(sources@), resolution_views(done@)),
{
    let ghost given = source_views(sources@);
    let ghost all = resolution_views(done@);
    let mut out: Vec<Source> = Vec::new();
    let mut i: usize = 0;
    while i < sources.len()
        invariant
            i <= sources.len(),
            given == source_views(sources@),
            source_views(out@) == given.take(i as int),
        decreases sources.len() - i,
    {
        let entry = Source { title: sources[i].title.clone(), url: sources[i].url.clone() };
        assert(entry@ == given[i as int]);
        let ghost before = source_views(out@);
        out.push(entry);
        assert(source_views(out@) =~= before.push(entry@));
        assert(source_views(out@) =~= given.take(i + 1));
        i += 1;
    }
    assert(source_views(out@) =~= placed(given, all.take(0)));
    let mut j: usize = 0;
    while j < done.len()
        invariant
            j <= done.len(),
            given == source_views(sources@),
            all == resolution_views(done@),
            out@.len() == sources@.len(),
            source_views(out@) == placed(given, all.take(j as int)),
        decreases done.len() - j,
    {
        let slot = done[j].index;
        proof {
            assert(all.take(j + 1).drop_last() =~= all.take(j as int));
            assert(all.take(j + 1).last() == done@[j as int]@);
        }
        let ghost before = source_views(out@);
        if slot < out.len() {
            let entry = Source { title: out[slot].title.clone(), url: done[j].url.clone() };
            assert(before[slot as int].title == given[slot as int].title);
            out.set(slot, entry);
            assert(source_views(out@) =~= before.update(slot as int, entry@));
        }
        assert forall|i: int| 0 <= i < given.len() implies (#[trigger] source_views(out@)[i])
            == placed(given, all.take(j + 1))[i] by {
            assert(before[i] == placed(given, all.take(j as int))[i]);
        }
        assert(source_views(out@) =~= placed(given, all.take(j + 1)));
        j += 1;
    }
    assert(all.take(done.len() as int) =~= all);
    out
}

/// No two resolutions are for the same place.
pub open spec fn places_distinct(done: Seq<ResolutionView>) -> bool {
    forall|a: int, b: int|
        0 <= a < b < done.len() ==> (#[trigger] done[a]).index != (#[trigger] done[b]).index
}

/// Placement keeps the list as it was discovered: the same number of
/// sources, every title in its place, and the address untouched in every
/// place that no resolution is for.
pub proof fn placement_keeps_discovery_order(
    sources: Seq<SourceView>,
    done: Seq<ResolutionView>,
    i: int,
)
    requires
        0 <= i < sources.len(),
    ensures
        placed(sources, done).len() == sources.len(),
        placed(sources, done)[i].title == sources[i].title,
        (forall|k: int| 0 <= k < done.len() ==> (#[trigger] done[k]).index != i) ==> placed(
            sources,
            done,
        )[i].url == sources[i].url,
    decreases done.len(),
{
    if done.len() > 0 {
        placement_keeps_discovery_order(sources, done.drop_last(), i);
        if forall|k: int| 0 <= k < done.len() ==> (#[trigger] done[k]).index != i {
            assert(done.last() == done[done.len() - 1]);
            assert forall|k: int| 0 <= k < done.drop_last().len() implies (
            #[trigger] done.drop_last()[k]).index != i by {
                assert(done.drop_last()[k] == done[k]);
            }
        }
    }
}

/// With at most one resolution for each place, the address left in a place
/// is that of the resolution for it.
pub proof fn slot_takes_its_resolution(
    unresolved: Seq<char>,
    slot: int,
    done: Seq<ResolutionView>,
    k: int,
)
    requires
        places_distinct(done),
        0 <= k < done.len(),
        done[k].index == slot,
    ensures
        slot_url(unresolved, slot, done) == done[k].url,
    decreases done.len(),
{
    let end = done.len() - 1;
    if k != end {
        assert(done[k].index != done[end].index);
        assert(done.drop_last()[k] == done[k]);
        assert(places_distinct(done.drop_last())) by {
            assert forall|a: int, b: int| 0 <= a < b < done.drop_last().len() implies (
            #[trigger] done.drop_last()[a]).index != (#[trigger] done.drop_last()[b]).index by {
                assert(done.drop_last()[a] == done[a]);
                assert(done.drop_last()[b] == done[b]);
            }
        }
        slot_takes_its_resolution(unresolved, slot, done.drop_last(), k);
    }
}

/// With no resolution for a place, its address stays.
pub proof fn slot_without_resolution(unresolved: Seq<char>, slot: int, done: Seq<ResolutionView>)
    requires
        forall|k: int| 0 <= k < done.len() ==> (#[trigger] done[k]).index != slot,
    ensures
        slot_url(unresolved, slot, done) == unresolved,
    decreases done.len(),
{
    if done.len() > 0 {
        assert(done.last() == done[done.len() - 1]);
        assert forall|k: int| 0 <= k < done.drop_last().len() implies (
        #[trigger] done.drop_last()[k]).index != slot by {
            assert(done.drop_last()[k] == done[k]);
        }
        slot_without_resolution(unresolved, slot, done.drop_last());
    }
}

/// The order in which resolutions complete does not show in the result:
/// two lists of the same resolutions, with at most one for each place,
/// leave the same sources in the same places.
pub proof fn placement_ignores_completion_order(
    sources: Seq<SourceView>,
    done: Seq<ResolutionView>,
    reordered: Seq<ResolutionView>,
)
    requires
        places_distinct(done),
        done.to_multiset() == reordered.to_multiset(),
    ensures
        placed(sources, done) == placed(sources, reordered),
{
    assert forall|r: ResolutionView| done.contains(r) <==> reordered.contains(r) by {
        to_multiset_contains(done, r);
        to_multiset_contains(reordered, r);
    }
    assert(places_distinct(reordered)) by {
        assert forall|a: int, b: int| 0 <= a < b < reordered.len() implies (
        #[trigger] reordered[a]).index != (#[trigger] reordered[b]).index by {
            reordered_places_differ(done, reordered, a, b);
        }
    }
    assert forall|i: int| 0 <= i < sources.len() implies placed(sources, done)[i] == placed(
        sources,
        reordered,
    )[i] by {
        let unresolved = sources[i].url;
        if exists|k: int| 0 <= k < done.len() && (#[trigger] done[k]).index == i {
            let k = choose|k: int| 0 <= k < done.len() && (#[trigger] done[k]).index == i;
            assert(done.contains(done[k]));
            assert(reordered.contains(done[k]));
            let m = choose|m: int| 0 <= m < reordered.len() && reordered[m] == done[k];
            slot_takes_its_resolution(unresolved, i, done, k);
            slot_takes_its_resolution(unresolved, i, reordered, m);
        } else {
            assert forall|m: int| 0 <= m < reordered.len() implies (
            #[trigger] reordered[m]).index != i by {
                if reordered[m].index == i {
                    assert(reordered.contains(reordered[m]));
                    assert(done.contains(reordered[m]));
                    let k = choose|k: int| 0 <= k < done.len() && done[k] == reordered[m];
                    assert(done[k].index == i);
                }
            }
            slot_without_resolution(unresolved, i, done);
            slot_without_resolution(unresolved, i, reordered);
        }
    }
    assert(placed(sources, done) =~= placed(sources, reordered));
}

/// Two entries of `reordered` are for different places, as those of `done`
/// are.
proof fn reordered_places_differ(
    done: Seq<ResolutionView>,
    reordered: Seq<ResolutionView>,
    a: int,
    b: int,
)
    requires
        places_distinct(done),
        done.to_multiset() == reordered.to_multiset(),
        0 <= a < b < reordered.len(),
    ensures
        reordered[a].index != reordered[b].index,
{
    if reordered[a].index != reordered[b].index {
        return ;
    }
    let x = reordered[a];
    let y = reordered[b];
    assert(reordered.contains(x));
    assert(reordered.contains(y));
    to_multiset_contains(done, x);
    to_multiset_contains(reordered, x);
    to_multiset_contains(done, y);
    to_multiset_contains(reordered, y);
    assert(done.contains(x));
    assert(done.contains(y));
    let i = choose|i: int| 0 <= i < done.len() && done[i] == x;
    let j = choose|j: int| 0 <= j < done.len() && done[j] == y;
    if i != j {
        if i < j {
            assert(done[i].index != done[j].index);
        } else {
            assert(done[j].index != done[i].index);
        }
    } else {
        // Both are one entry of `done`, which then occurs twice in `reordered`.
        assert(x == y);
        twice_in_list(reordered, a, b);
        once_in_list(done, i);
    }
}

/// An entry at two positions is counted at least twice.
proof fn twice_in_list(list: Seq<ResolutionView>, a: int, b: int)
    requires
        0 <= a < b < list.len(),
        list[a] == list[b],
    ensures
        list.to_multiset().count(list[a]) >= 2,
    decreases list.len(),
{
    let x = list[a];
    let rest = list.drop_last();
    assert(list =~= rest.push(list.last()));
    to_multiset_build(rest, list.last());
    if b == list.len() - 1 {
        to_multiset_contains(rest, x);
        assert(rest[a] == x);
        assert(rest.contains(x));
    } else {
        assert(rest[a] == rest[b]);
        twice_in_list(rest, a, b);
    }
}

/// An entry of a list with at most one entry for each place is counted once.
proof fn once_in_list(list: Seq<ResolutionView>, i: int)
    requires
        places_distinct(list),
        0 <= i < list.len(),
    ensures
        list.to_multiset().count(list[i]) == 1,
    decreases list.len(),
{
    let x = list[i];
    let rest = list.drop_last();
    let end = list.len() - 1;
    assert(list =~= rest.push(list.last()));
    to_multiset_build(rest, list.last());
    assert(places_distinct(rest)) by {
        assert forall|a: int, b: int| 0 <= a < b < rest.len() implies (#[trigger] rest[a]).index != (
        #[trigger] rest[b]).index by {
            assert(rest[a] == list[a]);
            assert(rest[b] == list[b]);
        }
    }
    if i == end {
        to_multiset_contains(rest, x);
        if rest.contains(x) {
            let k = choose|k: int| 0 <= k < rest.len() && rest[k] == x;
            assert(list[k].index != list[end].index);
        }
        assert(rest.to_multiset().count(x) == 0);
    } else {
        assert(rest[i] == x);
        once_in_list(rest, i);
        assert(list[i].index != list[end].index);
    }
}

} // verus!
