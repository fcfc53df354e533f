//! Control-plane source discovery queries used by the first-party CLI.

use vstd::prelude::*;
use vstd::utf8::encode_utf8;

use crate::capture::identity::{CaptureSource, SourceKind, SourceState, StableSourceId};
use crate::frame::Platform;
use crate::text::{bytes_contain, contains, lowercase_text, to_lowercase};

verus! {

/// Which discovered sources a query selects.
#[derive(Debug, Clone, PartialEq, Eq)]
pub enum SourceQuery {
    Any,
    App(String),
    ByKind(SourceKind),
    ByStableKey(String),
    Playing,
}

/// `needle` occurs in `text`, both taken as UTF-8.
pub open spec fn text_contains(text: Seq<char>, needle: Seq<char>) -> bool {
    bytes_contain(encode_utf8(text), encode_utf8(needle))
}

/// Whether `query` selects `source`. An application query matches, case
/// insensitively, a substring of the application id or of the display name.
pub open spec fn query_matches(query: SourceQuery, source: CaptureSource) -> bool {
    match query {
        SourceQuery::Any => true,
        SourceQuery::App(name) => {
            let needle = lowercase_text(name@);
            (source.app_id matches Some(application) && text_contains(
                lowercase_text(application@),
                needle,
            )) || text_contains(lowercase_text(source.name@), needle)
        },
        SourceQuery::ByKind(kind) => source.stable_id.kind == kind,
        SourceQuery::ByStableKey(key) => source.stable_id.stable_key@ == key@,
        SourceQuery::Playing => source.state == SourceState::Playing,
    }
}

/// The predicate of the sources `query` selects.
pub open spec fn selected_by(query: SourceQuery) -> spec_fn(CaptureSource) -> bool {
    |source: CaptureSource| query_matches(query, source)
}

impl SourceQuery {
    /// Whether this query selects `source`.
    pub fn matches(&self, source: &CaptureSource) -> (r: bool)
        ensures
            r == query_matches(*self, *source),
    {
        match self {
            SourceQuery::Any => true,
            SourceQuery::App(name) => {
                let needle = to_lowercase(name.as_str());
                let in_application = match &source.app_id {
                    Some(application) => {
                        let lowered = to_lowercase(application.as_str());
                        contains(lowered.as_str(), needle.as_str())
                    },
                    None => false,
                };
                if in_application {
                    true
                } else {
                    let lowered = to_lowercase(source.name.as_str());
                    contains(lowered.as_str(), needle.as_str())
                }
            },
            SourceQuery::ByKind(kind) => source.stable_id.kind == *kind,
            SourceQuery::ByStableKey(key) => source.stable_id.stable_key == *key,
            SourceQuery::Playing => source.state == SourceState::Playing,
        }
    }
}

/// The sources `query` selects, in their original order.
pub fn resolve_query(query: &SourceQuery, sources: &[CaptureSource]) -> (r: Vec<CaptureSource>)
    ensures
        r@ == sources@.filter(selected_by(*query)),
{
    let ghost pred = selected_by(*query);
    let mut selected: Vec<CaptureSource> = Vec::new();
    let mut index: usize = 0;
    while index < sources.len()
        invariant
            index <= sources@.len(),
            selected@ == sources@.subrange(0, index as int).filter(pred),
            pred == selected_by(*query),
        decreases sources@.len() - index,
    {
        let ghost next = sources@.subrange(0, index + 1);
        proof {
            assert(next.drop_last() =~= sources@.subrange(0, index as int));
            assert(next.last() == sources@[index as int]);
        }
        let ghost before = selected@;
        let selects = query.matches(&sources[index]);
        if selects {
            let copy = sources[index].clone();
            assert(copy == sources@[index as int]);
            selected.push(copy);
            assert(selected@ == before.push(next.last()));
        }
        proof {
            reveal(Seq::filter);
            assert(pred(next.last()) == selects);
            assert(next.filter(pred) == (if pred(next.last()) {
                next.drop_last().filter(pred).push(next.last())
            } else {
                next.drop_last().filter(pred)
            }));
            assert(selected@ == next.filter(pred));
        }
        index = index + 1;
    }
    assert(sources@.subrange(0, sources@.len() as int) =~= sources@);
    selected
}

/// Implemented by whatever discovers capture sources for a host.
pub trait SourceProvider {
    /// Discovers the sources a query selects.
    fn discover(&self, query: &SourceQuery) -> Vec<CaptureSource>;
}

/// Key under which discovery treats two sources as the same.
pub open spec fn discovery_key(source: CaptureSource) -> (Platform, SourceKind, Seq<char>, Option<u32>) {
    (
        source.stable_id.platform,
        source.stable_id.kind,
        source.stable_id.stable_key@,
        source.process_id,
    )
}

/// `sources` keeping only the first of each run of sources with the same
/// discovery key, in order.
pub open spec fn first_by_key(sources: Seq<CaptureSource>) -> Seq<CaptureSource>
    decreases sources.len(),
{
    if sources.len() == 0 {
        seq![]
    } else {
        let earlier = first_by_key(sources.drop_last());
        if exists|i: int|
            0 <= i < sources.len() - 1 && #[trigger] discovery_key(sources[i]) == discovery_key(
                sources.last(),
            ) {
            earlier
        } else {
            earlier.push(sources.last())
        }
    }
}

/// `source` is the system mix entry of `platform`.
pub open spec fn is_system_mix(source: CaptureSource, platform: Platform) -> bool {
    &&& source.stable_id@.platform == platform
    &&& source.stable_id@.kind == SourceKind::SystemMix
    &&& source.stable_id@.stable_key == "system:mix"@
    &&& source.name@ == "System Mix"@
    &&& source.process_id is None
    &&& source.app_id is None
    &&& source.device_uid is None
    &&& source.state == SourceState::Available
    &&& source.sample_rate_hz == 48_000
    &&& source.channels == 2
}

fn same_discovery_key(a: &CaptureSource, b: &CaptureSource) -> (r: bool)
    ensures
        r == (discovery_key(*a) == discovery_key(*b)),
{
    let same_process = match (a.process_id, b.process_id) {
        (Some(x), Some(y)) => x == y,
        (None, None) => true,
        _ => false,
    };
    a.stable_id.platform == b.stable_id.platform && a.stable_id.kind == b.stable_id.kind
        && a.stable_id.stable_key == b.stable_id.stable_key && same_process
}

fn first_of_each_key(sources: &Vec<CaptureSource>) -> (r: Vec<CaptureSource>)
    ensures
        r@ == first_by_key(sources@),
{
    let mut kept: Vec<CaptureSource> = Vec::new();
    let mut index: usize = 0;
    while index < sources.len()
        invariant
            index <= sources@.len(),
            kept@ == first_by_key(sources@.subrange(0, index as int)),
        decreases sources@.len() - index,
    {
        let ghost prefix = sources@.subrange(0, index + 1);
        let mut earlier: usize = 0;
        let mut seen = false;
        while earlier < index
            invariant
                earlier <= index,
                index < sources@.len(),
                seen == (exists|i: int|
                    0 <= i < earlier && #[trigger] discovery_key(sources@[i]) == discovery_key(
                        sources@[index as int],
                    )),
            decreases index - earlier,
        {
            if same_discovery_key(&sources[earlier], &sources[index]) {
                seen = true;
            }
            earlier = earlier + 1;
        }
        proof {
            assert(prefix.drop_last() =~= sources@.subrange(0, index as int));
            assert(prefix.last() == sources@[index as int]);
            assert(seen == (exists|i: int|
                0 <= i < prefix.len() - 1 && #[trigger] discovery_key(prefix[i]) == discovery_key(
                    prefix.last(),
                ))) by {
                if seen {
                    let i = choose|i: int|
                        0 <= i < index && #[trigger] discovery_key(sources@[i]) == discovery_key(
                            sources@[index as int],
                        );
                    assert(prefix[i] == sources@[i]);
                }
                if exists|i: int|
                    0 <= i < prefix.len() - 1 && #[trigger] discovery_key(prefix[i])
                        == discovery_key(prefix.last()) {
                    let i = choose|i: int|
                        0 <= i < prefix.len() - 1 && #[trigger] discovery_key(prefix[i])
                            == discovery_key(prefix.last());
                    assert(discovery_key(sources@[i]) == discovery_key(sources@[index as int]));
                }
            }
        }
        if !seen {
            kept.push(sources[index].clone());
        }
        index = index + 1;
    }
    assert(sources@.subrange(0, sources@.len() as int) =~= sources@);
    kept
}

/// The discovery result for `platform`: its system mix first, then the
/// sources the native backend discovered, keeping only the first source of
/// each platform, kind, stable key and process.
pub fn discover_sources(platform: Platform, native: Vec<CaptureSource>) -> (r: Vec<CaptureSource>)
    ensures
        exists|mix: CaptureSource|
            is_system_mix(mix, platform) && r@ == first_by_key(seq![mix] + native@),
{
    let mix = CaptureSource {
        stable_id: StableSourceId::new(platform, SourceKind::SystemMix, "system:mix".to_owned()),
        name: "System Mix".to_owned(),
        process_id: None,
        app_id: None,
        device_uid: None,
        state: SourceState::Available,
        sample_rate_hz: 48_000,
        channels: 2,
    };
    let ghost mix_value = mix;
    let ghost discovered = native@;
    let mut all: Vec<CaptureSource> = Vec::new();
    all.push(mix);
    let mut rest = native;
    all.append(&mut rest);
    assert(all@ =~= seq![mix_value] + discovered);
    assert(is_system_mix(mix_value, platform));
    first_of_each_key(&all)
}


/// An application query finds a source by its application id as well as by
/// its display name, ignoring case: whenever the lowercased query occurs in
/// the lowercased application id, or in the lowercased display name, the
/// source is selected and `resolve_query` keeps it; a source is selected
/// by nothing else.
pub proof fn lemma_app_query_finds_application_id_or_name(
    name: String,
    sources: Seq<CaptureSource>,
    i: int,
)
    requires
        0 <= i < sources.len(),
    ensures
        ({
            let source = sources[i];
            let needle = lowercase_text(name@);
            let by_application = source.app_id matches Some(application) && bytes_contain(
                encode_utf8(lowercase_text(application@)),
                encode_utf8(needle),
            );
            let by_name = bytes_contain(
                encode_utf8(lowercase_text(source.name@)),
                encode_utf8(needle),
            );
            &&& by_application ==> query_matches(SourceQuery::App(name), source)
            &&& by_name ==> query_matches(SourceQuery::App(name), source)
            &&& (by_application || by_name) ==> sources.filter(
                selected_by(SourceQuery::App(name)),
            ).contains(source)
            &&& query_matches(SourceQuery::App(name), source) ==> by_application || by_name
        }),
{
    let pred = selected_by(SourceQuery::App(name));
    sources.filter_lemma(pred);
    let source = sources[i];
    if pred(source) {
        assert(sources.filter(pred).contains(sources[i]));
    }
}
} // verus!
