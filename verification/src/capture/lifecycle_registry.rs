//! Control-plane source generation tracking for explicit rediscovery.

use vstd::prelude::*;

use crate::capture::events::SourceGeneration;
use crate::capture::identity::{CaptureSource, SourceState, StableSourceId, StableSourceIdView};

verus! {

/// A change of a source's availability between two complete snapshots.
#[derive(Debug, Clone, PartialEq, Eq)]
pub enum SourceGenerationTransition {
    Disappeared { stable_id: StableSourceId, generation: SourceGeneration },
    Reappeared {
        stable_id: StableSourceId,
        previous_generation: SourceGeneration,
        generation: SourceGeneration,
    },
}

/// What the registry holds for one source it has seen.
#[derive(Debug)]
pub struct SourceGenerationState {
    pub stable_id: StableSourceId,
    pub generation: SourceGeneration,
    pub available: bool,
}

/// Assigns source generations across complete discovery snapshots.
///
/// This registry never reconnects capture. Reappearance still requires a new
/// Session after explicit rediscovery.
#[derive(Debug)]
pub struct SourceLifecycleRegistry {
    entries: Vec<SourceGenerationState>,
}

impl View for SourceLifecycleRegistry {
    type V = Seq<SourceGenerationState>;

    closed spec fn view(&self) -> Seq<SourceGenerationState> {
        self.entries@
    }
}

/// `id` names a source of the snapshot that is not unavailable.
pub open spec fn is_present(sources: Seq<CaptureSource>, id: StableSourceIdView) -> bool {
    exists|i: int|
        #![trigger sources[i]]
        0 <= i < sources.len() && sources[i].state != SourceState::Unavailable
            && sources[i].stable_id@ == id
}

/// No two entries name the same source.
pub open spec fn distinct_ids(entries: Seq<SourceGenerationState>) -> bool {
    forall|a: int, b: int|
        #![trigger entries[a], entries[b]]
        0 <= a < b < entries.len() ==> entries[a].stable_id@ != entries[b].stable_id@
}

/// An entry after the absence pass: a source missing from the snapshot is
/// marked unavailable.
pub open spec fn mark_absence(entry: SourceGenerationState, sources: Seq<CaptureSource>) -> SourceGenerationState {
    if entry.available && !is_present(sources, entry.stable_id@) {
        SourceGenerationState { available: false, ..entry }
    } else {
        entry
    }
}

/// Disappearances reported for the first `len` entries, in entry order.
pub open spec fn disappearances(
    entries: Seq<SourceGenerationState>,
    sources: Seq<CaptureSource>,
    len: int,
) -> Seq<SourceGenerationTransition>
    decreases len,
{
    if len <= 0 {
        seq![]
    } else {
        let entry = entries[len - 1];
        disappearances(entries, sources, len - 1) + if entry.available && !is_present(
            sources,
            entry.stable_id@,
        ) {
            seq![
                SourceGenerationTransition::Disappeared {
                    stable_id: entry.stable_id,
                    generation: entry.generation,
                },
            ]
        } else {
            seq![]
        }
    }
}

/// Index of the first entry at or after `from` naming `id`, if any.
pub open spec fn find_entry(entries: Seq<SourceGenerationState>, id: StableSourceIdView, from: int) -> Option<int>
    decreases entries.len() - from,
{
    if from >= entries.len() || from < 0 {
        None
    } else if entries[from].stable_id@ == id {
        Some(from)
    } else {
        find_entry(entries, id, from + 1)
    }
}

/// What `find_entry` finds is an entry naming `id`, at or after `from`; and
/// when it finds nothing, no such entry exists.
pub proof fn lemma_find_entry(entries: Seq<SourceGenerationState>, id: StableSourceIdView, from: int)
    requires
        0 <= from,
    ensures
        find_entry(entries, id, from) matches Some(k) ==> from <= k < entries.len()
            && entries[k].stable_id@ == id,
        find_entry(entries, id, from) is None ==> forall|k: int|
            from <= k < entries.len() ==> #[trigger] entries[k].stable_id@ != id,
    decreases entries.len() - from,
{
    if from < entries.len() && entries[from].stable_id@ != id {
        lemma_find_entry(entries, id, from + 1);
    }
}

/// Generation after `generation`, saturating.
pub open spec fn next_generation(generation: SourceGeneration) -> SourceGeneration {
    SourceGeneration(
        if generation.0 == u32::MAX {
            u32::MAX
        } else {
            (generation.0 + 1) as u32
        },
    )
}

/// Entries and transitions after accepting one snapshot source: a known,
/// unavailable source reappears under the next generation; an unknown one is
/// recorded at the initial generation.
pub open spec fn accept_source(entries: Seq<SourceGenerationState>, source: CaptureSource) -> (
    Seq<SourceGenerationState>,
    Seq<SourceGenerationTransition>,
) {
    if source.state == SourceState::Unavailable {
        (entries, seq![])
    } else {
        match find_entry(entries, source.stable_id@, 0) {
            Some(k) => if entries[k].available {
                (entries, seq![])
            } else {
                (
                    entries.update(
                        k,
                        SourceGenerationState {
                            generation: next_generation(entries[k].generation),
                            available: true,
                            ..entries[k]
                        },
                    ),
                    seq![
                        SourceGenerationTransition::Reappeared {
                            stable_id: entries[k].stable_id,
                            previous_generation: entries[k].generation,
                            generation: next_generation(entries[k].generation),
                        },
                    ],
                )
            },
            None => (
                entries.push(
                    SourceGenerationState {
                        stable_id: source.stable_id,
                        generation: SourceGeneration(1),
                        available: true,
                    },
                ),
                seq![],
            ),
        }
    }
}

/// Entries and transitions after accepting the first `len` snapshot sources
/// in order.
pub open spec fn accept_all(
    entries: Seq<SourceGenerationState>,
    sources: Seq<CaptureSource>,
    len: int,
) -> (Seq<SourceGenerationState>, Seq<SourceGenerationTransition>)
    decreases len,
{
    if len <= 0 {
        (entries, seq![])
    } else {
        let (before, reported) = accept_all(entries, sources, len - 1);
        let (after, more) = accept_source(before, sources[len - 1]);
        (after, reported + more)
    }
}

/// Registry state and transitions after observing one complete snapshot.
pub open spec fn observe_outcome(entries: Seq<SourceGenerationState>, sources: Seq<CaptureSource>) -> (
    Seq<SourceGenerationState>,
    Seq<SourceGenerationTransition>,
) {
    let marked = entries.map_values(|entry: SourceGenerationState| mark_absence(entry, sources));
    let (accepted, reappearances) = accept_all(marked, sources, sources.len() as int);
    (accepted, disappearances(entries, sources, entries.len() as int) + reappearances)
}

fn clone_generation_state(entry: &SourceGenerationState) -> (r: SourceGenerationState)
    ensures
        r == *entry,
{
    SourceGenerationState {
        stable_id: entry.stable_id.clone(),
        generation: entry.generation,
        available: entry.available,
    }
}

fn present_in(sources: &[CaptureSource], id: &StableSourceId) -> (r: bool)
    ensures
        r == is_present(sources@, id@),
{
    let mut index: usize = 0;
    while index < sources.len()
        invariant
            index <= sources@.len(),
            forall|i: int|
                0 <= i < index ==> !(sources@[i].state != SourceState::Unavailable
                    && #[trigger] sources@[i].stable_id@ == id@),
        decreases sources@.len() - index,
    {
        if sources[index].state != SourceState::Unavailable && sources[index].stable_id.same_as(
            id,
        ) {
            return true;
        }
        index = index + 1;
    }
    false
}

impl SourceLifecycleRegistry {
    fn find(&self, id: &StableSourceId) -> (r: Option<usize>)
        ensures
            match r {
                Some(k) => find_entry(self@, id@, 0) == Some(k as int),
                None => find_entry(self@, id@, 0) is None,
            },
            r matches Some(k) ==> k < self@.len() && self@[k as int].stable_id@ == id@,
    {
        proof {
            lemma_find_entry(self@, id@, 0);
        }
        let mut index: usize = 0;
        while index < self.entries.len()
            invariant
                index <= self.entries@.len(),
                find_entry(self.entries@, id@, 0) == find_entry(self.entries@, id@, index as int),
            decreases self.entries@.len() - index,
        {
            if self.entries[index].stable_id.same_as(id) {
                return Some(index);
            }
            index = index + 1;
        }
        None
    }

    /// Records one complete discovery snapshot and reports every source that
    /// disappeared since the previous one and every known source that
    /// reappeared, which advances its generation.
    pub fn observe_complete_snapshot(&mut self, sources: &[CaptureSource]) -> (r: Vec<
        SourceGenerationTransition,
    >)
        ensures
            (final(self)@, r@) == observe_outcome(old(self)@, sources@),
            distinct_ids(old(self)@) ==> distinct_ids(final(self)@),
    {
        proof {
            if distinct_ids(self@) {
                lemma_snapshot_sets_availability(self@, sources@);
            }
        }
        let ghost old_entries = self.entries@;
        let mut transitions: Vec<SourceGenerationTransition> = Vec::new();
        let count = self.entries.len();
        let mut index: usize = 0;
        while index < count
            invariant
                count == old_entries.len(),
                self.entries@.len() == count,
                index <= count,
                forall|k: int|
                    0 <= k < index ==> #[trigger] self.entries@[k] == mark_absence(
                        old_entries[k],
                        sources@,
                    ),
                forall|k: int| index <= k < count ==> #[trigger] self.entries@[k] == old_entries[k],
                transitions@ == disappearances(old_entries, sources@, index as int),
            decreases count - index,
        {
            let entry = clone_generation_state(&self.entries[index]);
            if entry.available && !present_in(sources, &entry.stable_id) {
                transitions.push(
                    SourceGenerationTransition::Disappeared {
                        stable_id: entry.stable_id.clone(),
                        generation: entry.generation,
                    },
                );
                self.entries.set(
                    index,
                    SourceGenerationState {
                        stable_id: entry.stable_id,
                        generation: entry.generation,
                        available: false,
                    },
                );
            }
            index = index + 1;
        }
        let ghost marked = self.entries@;
        assert(marked =~= old_entries.map_values(
            |entry: SourceGenerationState| mark_absence(entry, sources@),
        ));
        let ghost disappeared = transitions@;
        let mut position: usize = 0;
        while position < sources.len()
            invariant
                position <= sources@.len(),
                (self.entries@, transitions@.subrange(disappeared.len() as int, transitions@.len() as int))
                    == accept_all(marked, sources@, position as int),
                transitions@.len() >= disappeared.len(),
                transitions@.subrange(0, disappeared.len() as int) == disappeared,
            decreases sources@.len() - position,
        {
            let ghost before_entries = self.entries@;
            let ghost before_transitions = transitions@;
            let source = &sources[position];
            proof {
                lemma_find_entry(before_entries, source.stable_id@, 0);
            }
            if source.state != SourceState::Unavailable {
                match self.find(&source.stable_id) {
                    Some(k) => {
                        if !self.entries[k].available {
                            let entry = clone_generation_state(&self.entries[k]);
                            let generation = entry.generation.next();
                            transitions.push(
                                SourceGenerationTransition::Reappeared {
                                    stable_id: entry.stable_id.clone(),
                                    previous_generation: entry.generation,
                                    generation,
                                },
                            );
                            self.entries.set(
                                k,
                                SourceGenerationState {
                                    stable_id: entry.stable_id,
                                    generation,
                                    available: true,
                                },
                            );
                            proof {
                                let (next_entries, added) = accept_source(before_entries, sources@[position as int]);
                                assert(added =~= seq![
                                    SourceGenerationTransition::Reappeared {
                                        stable_id: entry.stable_id,
                                        previous_generation: entry.generation,
                                        generation,
                                    },
                                ]);
                                assert(self.entries@ =~= next_entries);
                                assert(transitions@ =~= before_transitions + added);
                            }
                        } else {
                            proof {
                                let (next_entries, added) = accept_source(before_entries, sources@[position as int]);
                                assert(added =~= seq![]);
                                assert(transitions@ =~= before_transitions + added);
                            }
                        }
                    },
                    None => {
                        self.entries.push(
                            SourceGenerationState {
                                stable_id: source.stable_id.clone(),
                                generation: SourceGeneration::initial(),
                                available: true,
                            },
                        );
                        proof {
                            let (next_entries, added) = accept_source(before_entries, sources@[position as int]);
                            assert(added =~= seq![]);
                            assert(transitions@ =~= before_transitions + added);
                        }
                    },
                }
            } else {
                proof {
                    let (next_entries, added) = accept_source(before_entries, sources@[position as int]);
                    assert(added =~= seq![]);
                    assert(transitions@ =~= before_transitions + added);
                }
            }
            proof {
                let (_, added) = accept_source(before_entries, sources@[position as int]);
                assert(transitions@.subrange(disappeared.len() as int, transitions@.len() as int)
                    =~= before_transitions.subrange(
                    disappeared.len() as int,
                    before_transitions.len() as int,
                ) + added);
                assert(transitions@.subrange(0, disappeared.len() as int) =~= disappeared);
            }
            position = position + 1;
        }
        assert(transitions@ =~= disappeared + transitions@.subrange(
            disappeared.len() as int,
            transitions@.len() as int,
        ));
        transitions
    }

    /// The current generation of a source the registry has seen.
    pub fn generation(&self, stable_id: &StableSourceId) -> (r: Option<SourceGeneration>)
        ensures
            match find_entry(self@, stable_id@, 0) {
                Some(k) => r == Some(self@[k].generation),
                None => r is None,
            },
    {
        proof {
            lemma_find_entry(self@, stable_id@, 0);
        }
        match self.find(stable_id) {
            Some(k) => {
                Some(self.entries[k].generation)
            },
            None => None,
        }
    }
}

impl Default for SourceLifecycleRegistry {
    fn default() -> (r: Self)
        ensures
            r@.len() == 0,
    {
        SourceLifecycleRegistry { entries: Vec::new() }
    }
}


/// `id` names a source among the first `n` of the snapshot that is not
/// unavailable.
pub open spec fn present_before(sources: Seq<CaptureSource>, n: int, id: StableSourceIdView) -> bool {
    exists|i: int|
        #![trigger sources[i]]
        0 <= i < n && sources[i].state != SourceState::Unavailable && sources[i].stable_id@ == id
}

/// Some entry names `id`.
pub open spec fn has_entry(entries: Seq<SourceGenerationState>, id: StableSourceIdView) -> bool {
    exists|k: int| #![trigger entries[k]] 0 <= k < entries.len() && entries[k].stable_id@ == id
}

proof fn lemma_present_before_step(sources: Seq<CaptureSource>, n: int, id: StableSourceIdView)
    requires
        0 < n <= sources.len(),
    ensures
        present_before(sources, n, id) == (present_before(sources, n - 1, id) || (sources[n
            - 1].state != SourceState::Unavailable && sources[n - 1].stable_id@ == id)),
{
    if present_before(sources, n, id) && !present_before(sources, n - 1, id) {
        let i = choose|i: int|
            #![trigger sources[i]]
            0 <= i < n && sources[i].state != SourceState::Unavailable && sources[i].stable_id@
                == id;
        assert(i == n - 1);
    }
    if sources[n - 1].state != SourceState::Unavailable && sources[n - 1].stable_id@ == id {
        assert(sources[n - 1].stable_id@ == id);
    }
}

proof fn lemma_find_entry_some(entries: Seq<SourceGenerationState>, id: StableSourceIdView)
    requires
        has_entry(entries, id),
    ensures
        find_entry(entries, id, 0) is Some,
{
    lemma_find_entry(entries, id, 0);
    let k = choose|k: int| #![trigger entries[k]] 0 <= k < entries.len() && entries[k].stable_id@ == id;
    assert(entries[k].stable_id@ == id);
}

/// What accepting the first `n` snapshot sources keeps: the existing entries
/// and their identities, distinct identities, an entry for every source
/// accepted, and availability exactly for what was available or accepted.
proof fn lemma_accept_all(entries: Seq<SourceGenerationState>, sources: Seq<CaptureSource>, n: int)
    requires
        distinct_ids(entries),
        0 <= n <= sources.len(),
    ensures
        ({
            let out = accept_all(entries, sources, n).0;
            &&& out.len() >= entries.len()
            &&& forall|k: int| 0 <= k < entries.len() ==> #[trigger] out[k].stable_id == entries[k].stable_id
            &&& distinct_ids(out)
            &&& forall|k: int|
                0 <= k < out.len() ==> #[trigger] out[k].available == ((k < entries.len()
                    && entries[k].available) || present_before(sources, n, out[k].stable_id@))
            &&& forall|i: int|
                0 <= i < n && sources[i].state != SourceState::Unavailable ==> has_entry(
                    out,
                    #[trigger] sources[i].stable_id@,
                )
        }),
    decreases n,
{
    if n > 0 {
        lemma_accept_all(entries, sources, n - 1);
        let prev = accept_all(entries, sources, n - 1).0;
        let out = accept_all(entries, sources, n).0;
        let source = sources[n - 1];
        let id = source.stable_id@;
        assert(out == accept_source(prev, source).0);
        assert forall|other: StableSourceIdView| other != id implies present_before(sources, n, other)
            == present_before(sources, n - 1, other) by {
            lemma_present_before_step(sources, n, other);
        }
        lemma_present_before_step(sources, n, id);
        lemma_find_entry(prev, id, 0);
        if source.state == SourceState::Unavailable {
            assert forall|other: StableSourceIdView| present_before(sources, n, other)
                == present_before(sources, n - 1, other) by {
                lemma_present_before_step(sources, n, other);
            }
            assert forall|i: int|
                0 <= i < n && sources[i].state != SourceState::Unavailable implies has_entry(
                out,
                #[trigger] sources[i].stable_id@,
            ) by {
                assert(i < n - 1);
            }
        } else {
            match find_entry(prev, id, 0) {
                Some(k) => {
                    assert(prev[k].stable_id@ == id);
                    assert forall|j: int| 0 <= j < prev.len() && j != k implies #[trigger] prev[j].stable_id@
                        != id by {
                        if j < k {
                            assert(prev[j].stable_id@ != prev[k].stable_id@);
                        } else {
                            assert(prev[k].stable_id@ != prev[j].stable_id@);
                        }
                    }
                    assert forall|k2: int| 0 <= k2 < out.len() implies #[trigger] out[k2].available == ((k2
                        < entries.len() && entries[k2].available) || present_before(
                        sources,
                        n,
                        out[k2].stable_id@,
                    )) by {
                        assert(out[k2].stable_id == prev[k2].stable_id);
                        if k2 != k {
                            assert(out[k2] == prev[k2]);
                        }
                    }
                    assert forall|i: int|
                        0 <= i < n && sources[i].state != SourceState::Unavailable implies has_entry(
                        out,
                        #[trigger] sources[i].stable_id@,
                    ) by {
                        if i == n - 1 {
                            assert(out[k].stable_id@ == id);
                        } else {
                            let w = choose|w: int|
                                #![trigger prev[w]]
                                0 <= w < prev.len() && prev[w].stable_id@ == sources[i].stable_id@;
                            assert(out[w].stable_id == prev[w].stable_id);
                        }
                    }
                    assert forall|a: int, b: int| 0 <= a < b < out.len() implies #[trigger] out[a].stable_id@
                        != #[trigger] out[b].stable_id@ by {
                        assert(out[a].stable_id == prev[a].stable_id);
                        assert(out[b].stable_id == prev[b].stable_id);
                        assert(prev[a].stable_id@ != prev[b].stable_id@);
                    }
                },
                None => {
                    let added = SourceGenerationState {
                        stable_id: source.stable_id,
                        generation: SourceGeneration(1),
                        available: true,
                    };
                    assert(out == prev.push(added));
                    assert forall|k2: int| 0 <= k2 < out.len() implies #[trigger] out[k2].available == ((k2
                        < entries.len() && entries[k2].available) || present_before(
                        sources,
                        n,
                        out[k2].stable_id@,
                    )) by {
                        if k2 < prev.len() {
                            assert(out[k2] == prev[k2]);
                            assert(prev[k2].stable_id@ != id);
                        }
                    }
                    assert forall|i: int|
                        0 <= i < n && sources[i].state != SourceState::Unavailable implies has_entry(
                        out,
                        #[trigger] sources[i].stable_id@,
                    ) by {
                        if i == n - 1 {
                            assert(out[prev.len() as int].stable_id@ == id);
                        } else {
                            let w = choose|w: int|
                                #![trigger prev[w]]
                                0 <= w < prev.len() && prev[w].stable_id@ == sources[i].stable_id@;
                            assert(out[w] == prev[w]);
                        }
                    }
                    assert forall|a: int, b: int| 0 <= a < b < out.len() implies #[trigger] out[a].stable_id@
                        != #[trigger] out[b].stable_id@ by {
                        assert(out[a] == prev[a]);
                        if b < prev.len() {
                            assert(out[b] == prev[b]);
                            assert(prev[a].stable_id@ != prev[b].stable_id@);
                        } else {
                            assert(prev[a].stable_id@ != id);
                        }
                    }
                },
            }
        }
    }
}

/// A complete snapshot leaves the registry with one entry per source it has
/// seen, an entry for every listed source, and exactly the listed sources
/// (those not unavailable) marked available.
pub proof fn lemma_snapshot_sets_availability(
    entries: Seq<SourceGenerationState>,
    sources: Seq<CaptureSource>,
)
    requires
        distinct_ids(entries),
    ensures
        ({
            let out = observe_outcome(entries, sources).0;
            &&& distinct_ids(out)
            &&& forall|k: int|
                0 <= k < out.len() ==> #[trigger] out[k].available == is_present(
                    sources,
                    out[k].stable_id@,
                )
            &&& forall|i: int|
                0 <= i < sources.len() && sources[i].state != SourceState::Unavailable
                    ==> find_entry(out, #[trigger] sources[i].stable_id@, 0) is Some
        }),
{
    let marked = entries.map_values(|entry: SourceGenerationState| mark_absence(entry, sources));
    assert forall|a: int, b: int| 0 <= a < b < marked.len() implies #[trigger] marked[a].stable_id@
        != #[trigger] marked[b].stable_id@ by {
        assert(entries[a].stable_id@ != entries[b].stable_id@);
    }
    let n = sources.len() as int;
    lemma_accept_all(marked, sources, n);
    let out = accept_all(marked, sources, n).0;
    assert forall|id: StableSourceIdView| present_before(sources, n, id) == is_present(sources, id) by {
        if is_present(sources, id) {
            let i = choose|i: int|
                #![trigger sources[i]]
                0 <= i < sources.len() && sources[i].state != SourceState::Unavailable
                    && sources[i].stable_id@ == id;
            assert(sources[i].stable_id@ == id);
        }
        if present_before(sources, n, id) {
            let i = choose|i: int|
                #![trigger sources[i]]
                0 <= i < n && sources[i].state != SourceState::Unavailable && sources[i].stable_id@
                    == id;
            assert(sources[i].stable_id@ == id);
        }
    }
    assert forall|k: int| 0 <= k < out.len() implies #[trigger] out[k].available == is_present(
        sources,
        out[k].stable_id@,
    ) by {
        if k < marked.len() {
            assert(out[k].stable_id == marked[k].stable_id);
            assert(marked[k] == mark_absence(entries[k], sources));
        }
    }
    assert forall|i: int|
        0 <= i < sources.len() && sources[i].state != SourceState::Unavailable implies find_entry(
        out,
        #[trigger] sources[i].stable_id@,
        0,
    ) is Some by {
        lemma_find_entry_some(out, sources[i].stable_id@);
    }
}

proof fn lemma_no_disappearance(
    entries: Seq<SourceGenerationState>,
    sources: Seq<CaptureSource>,
    len: int,
)
    requires
        0 <= len <= entries.len(),
        forall|k: int| 0 <= k < entries.len() && #[trigger] entries[k].available ==> is_present(sources, entries[k].stable_id@),
    ensures
        disappearances(entries, sources, len) == Seq::<SourceGenerationTransition>::empty(),
    decreases len,
{
    if len > 0 {
        lemma_no_disappearance(entries, sources, len - 1);
        assert(entries[len - 1].available ==> is_present(sources, entries[len - 1].stable_id@));
    }
}

proof fn lemma_settled_accept_all(
    entries: Seq<SourceGenerationState>,
    sources: Seq<CaptureSource>,
    n: int,
)
    requires
        0 <= n <= sources.len(),
        forall|k: int| 0 <= k < entries.len() ==> #[trigger] entries[k].available == is_present(sources, entries[k].stable_id@),
        forall|i: int|
            0 <= i < sources.len() && sources[i].state != SourceState::Unavailable
                ==> find_entry(entries, #[trigger] sources[i].stable_id@, 0) is Some,
    ensures
        accept_all(entries, sources, n) == (entries, Seq::<SourceGenerationTransition>::empty()),
    decreases n,
{
    if n > 0 {
        lemma_settled_accept_all(entries, sources, n - 1);
        let source = sources[n - 1];
        if source.state != SourceState::Unavailable {
            lemma_find_entry(entries, source.stable_id@, 0);
            let k = find_entry(entries, source.stable_id@, 0)->0;
            assert(entries[k].stable_id@ == source.stable_id@);
            assert(is_present(sources, source.stable_id@));
            assert(entries[k].available);
        }
        assert(Seq::<SourceGenerationTransition>::empty() + Seq::<SourceGenerationTransition>::empty()
            =~= Seq::<SourceGenerationTransition>::empty());
    }
}

/// Observing the same complete snapshot again reports nothing and changes
/// nothing.
pub proof fn lemma_repeated_snapshot_changes_nothing(
    entries: Seq<SourceGenerationState>,
    sources: Seq<CaptureSource>,
)
    requires
        distinct_ids(entries),
    ensures
        observe_outcome(observe_outcome(entries, sources).0, sources) == (
            observe_outcome(entries, sources).0,
            Seq::<SourceGenerationTransition>::empty(),
        ),
{
    lemma_snapshot_sets_availability(entries, sources);
    let once = observe_outcome(entries, sources).0;
    let marked = once.map_values(|entry: SourceGenerationState| mark_absence(entry, sources));
    assert forall|k: int| 0 <= k < once.len() implies #[trigger] marked[k] == once[k] by {
        assert(once[k].available == is_present(sources, once[k].stable_id@));
    }
    assert(marked =~= once);
    lemma_no_disappearance(once, sources, once.len() as int);
    lemma_settled_accept_all(once, sources, sources.len() as int);
    assert(Seq::<SourceGenerationTransition>::empty() + Seq::<SourceGenerationTransition>::empty()
        =~= Seq::<SourceGenerationTransition>::empty());
}

} // verus!
