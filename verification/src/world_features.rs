//! World-space strokes of an infinite project, and the index that finds them.
//!
//! The index holds the bounds of every stroke that is switched on, under the
//! identity of the stroke. Bounds are kept by the bit patterns of their edges in
//! metres: they are measured elsewhere and only carried here.
use vstd::prelude::*;

verus! {

/// A stroke keeps its identity for as long as a document knows it, in the
/// history as well.
#[derive(Debug, Clone, Copy, PartialEq, Eq, Structural)]
pub struct StrokeId(pub u128);

/// The rectangle of the world that a stroke reaches.
#[derive(Debug, Clone, Copy, PartialEq, Eq, Structural)]
pub struct WorldBounds {
    pub min_x_bits: u64,
    pub min_z_bits: u64,
    pub max_x_bits: u64,
    pub max_z_bits: u64,
}

#[derive(Debug, Clone, Copy, PartialEq, Eq, Structural)]
pub struct WorldStroke {
    pub id: StrokeId,
    pub enabled: bool,
    pub bounds: WorldBounds,
}

/// The place of a stroke in the index.
#[derive(Debug, Clone, Copy, PartialEq, Eq, Structural)]
pub struct FeatureEntry {
    pub id: StrokeId,
    pub bounds: WorldBounds,
}

/// Where a stroke is to be found from now on; `None` takes it out.
#[derive(Debug, Clone, Copy, PartialEq, Eq, Structural)]
pub struct BoundsChange {
    pub stroke: StrokeId,
    pub bounds: Option<WorldBounds>,
}

/// The bounds of `id` among the strokes that are switched on.
pub open spec fn bounds_in(strokes: Seq<WorldStroke>, id: StrokeId) -> Option<WorldBounds>
    decreases strokes.len(),
{
    if strokes.len() == 0 {
        None
    } else if strokes.last().id == id && strokes.last().enabled {
        Some(strokes.last().bounds)
    } else {
        bounds_in(strokes.drop_last(), id)
    }
}

/// The bounds that the entries hold for `id`.
pub open spec fn entry_in(entries: Seq<FeatureEntry>, id: StrokeId) -> Option<WorldBounds>
    decreases entries.len(),
{
    if entries.len() == 0 {
        None
    } else if entries.last().id == id {
        Some(entries.last().bounds)
    } else {
        entry_in(entries.drop_last(), id)
    }
}

/// No two strokes share an identity.
pub open spec fn identities_differ(strokes: Seq<WorldStroke>) -> bool {
    forall|i: int, j: int|
        #![trigger strokes[i], strokes[j]]
        0 <= i < j < strokes.len() ==> strokes[i].id != strokes[j].id
}

/// A stroke has the identity `id`.
pub open spec fn has_stroke(strokes: Seq<WorldStroke>, id: StrokeId) -> bool {
    exists|i: int| #![trigger strokes[i]] 0 <= i < strokes.len() && strokes[i].id == id
}

/// The index of authored features.
#[derive(Debug)]
pub struct FeatureIndex {
    pub entries: Vec<FeatureEntry>,
}

impl FeatureIndex {
    /// What the index says of a stroke.
    pub open spec fn at(self, id: StrokeId) -> Option<WorldBounds> {
        entry_in(self.entries@, id)
    }

    /// The index finds what the strokes hold, and nothing else.
    pub open spec fn indexes(self, strokes: Seq<WorldStroke>) -> bool {
        forall|id: StrokeId| #[trigger] self.at(id) == bounds_in(strokes, id)
    }

    pub fn bounds(&self, id: StrokeId) -> (r: Option<WorldBounds>)
        ensures
            r == self.at(id),
    {
        let mut left: usize = self.entries.len();
        assert(self.entries@.take(left as int) =~= self.entries@);
        while left > 0
            invariant
                left <= self.entries@.len(),
                entry_in(self.entries@, id) == entry_in(self.entries@.take(left as int), id),
            decreases left,
        {
            let entry = self.entries[left - 1];
            assert(self.entries@.take(left as int).drop_last() =~= self.entries@.take(left - 1));
            if entry.id == id {
                return Some(entry.bounds);
            }
            left -= 1;
        }
        None
    }

    /// Builds the index from the strokes of a document.
    pub fn rebuild_authored_feature_index(strokes: &[WorldStroke]) -> (r: Self)
        ensures
            r.indexes(strokes@),
    {
        let mut entries: Vec<FeatureEntry> = Vec::new();
        let mut i: usize = 0;
        while i < strokes.len()
            invariant
                i <= strokes@.len(),
                forall|id: StrokeId| #[trigger]
                    entry_in(entries@, id) == bounds_in(strokes@.take(i as int), id),
            decreases strokes@.len() - i,
        {
            let stroke = strokes[i];
            let ghost before = entries@;
            if stroke.enabled {
                entries.push(FeatureEntry { id: stroke.id, bounds: stroke.bounds });
            }
            proof {
                let next = strokes@.take(i + 1);
                assert(next.drop_last() =~= strokes@.take(i as int));
                assert forall|id: StrokeId| #[trigger]
                    entry_in(entries@, id) == bounds_in(next, id) by {
                    assert(entry_in(before, id) == bounds_in(strokes@.take(i as int), id));
                    if stroke.enabled {
                        assert(entries@.drop_last() =~= before);
                    }
                }
            }
            i += 1;
        }
        assert(strokes@.take(i as int) =~= strokes@);
        FeatureIndex { entries }
    }

    /// Follows a stroke that was drawn, moved, switched or deleted.
    pub fn apply_sculpt_bounds_change(&mut self, change: BoundsChange)
        ensures
            forall|id: StrokeId| #[trigger]
                final(self).at(id) == if id == change.stroke {
                    change.bounds
                } else {
                    old(self).at(id)
                },
    {
        let mut kept: Vec<FeatureEntry> = Vec::new();
        let mut i: usize = 0;
        while i < self.entries.len()
            invariant
                i <= self.entries@.len(),
                self.entries@ == old(self).entries@,
                forall|id: StrokeId| #[trigger]
                    entry_in(kept@, id) == if id == change.stroke {
                        None
                    } else {
                        entry_in(self.entries@.take(i as int), id)
                    },
            decreases self.entries@.len() - i,
        {
            let entry = self.entries[i];
            let ghost before = kept@;
            if entry.id != change.stroke {
                kept.push(entry);
            }
            proof {
                let next = self.entries@.take(i + 1);
                assert(next.drop_last() =~= self.entries@.take(i as int));
                assert forall|id: StrokeId| #[trigger]
                    entry_in(kept@, id) == if id == change.stroke {
                        None
                    } else {
                        entry_in(next, id)
                    } by {
                    assert(entry_in(before, id) == if id == change.stroke {
                        None
                    } else {
                        entry_in(self.entries@.take(i as int), id)
                    });
                    if entry.id != change.stroke {
                        assert(kept@.drop_last() =~= before);
                    }
                }
            }
            i += 1;
        }
        assert(self.entries@.take(i as int) =~= self.entries@);
        let ghost rest = kept@;
        if let Some(bounds) = change.bounds {
            kept.push(FeatureEntry { id: change.stroke, bounds });
            assert(kept@.drop_last() =~= rest);
        }
        self.entries = kept;
        assert forall|id: StrokeId| #[trigger]
            self.at(id) == if id == change.stroke {
                change.bounds
            } else {
                old(self).at(id)
            } by {
            assert(entry_in(rest, id) == if id == change.stroke {
                None
            } else {
                entry_in(old(self).entries@, id)
            });
        }
    }
}

/// The world-space strokes of a document together with their index.
#[derive(Debug)]
pub struct WorldFeatures {
    pub strokes: Vec<WorldStroke>,
    pub index: FeatureIndex,
}

impl WorldFeatures {
    /// Identities are unique, and no entry of the index is stale.
    pub open spec fn wf(self) -> bool {
        identities_differ(self.strokes@) && self.index.indexes(self.strokes@)
    }

    /// The stroke `id` became what `change` makes of it; an unknown one changes
    /// nothing.
    pub open spec fn edited(
        before: WorldFeatures,
        after: WorldFeatures,
        id: StrokeId,
        change: spec_fn(WorldStroke) -> WorldStroke,
    ) -> bool {
        &&& forall|i: int|
            #![trigger before.strokes@[i]]
            0 <= i < before.strokes@.len() && before.strokes@[i].id == id ==> after.strokes@
                == before.strokes@.update(i, change(before.strokes@[i]))
        &&& !has_stroke(before.strokes@, id) ==> after.strokes@ == before.strokes@
    }

    /// The strokes of a document that was opened, or that a step through the
    /// history left behind: the index is built from them.
    pub fn of_document(strokes: Vec<WorldStroke>) -> (r: Self)
        requires
            identities_differ(strokes@),
        ensures
            r.wf(),
            r.strokes@ == strokes@,
    {
        let index = FeatureIndex::rebuild_authored_feature_index(strokes.as_slice());
        WorldFeatures { strokes, index }
    }

    fn place_of(&self, id: StrokeId) -> (r: Option<usize>)
        ensures
            match r {
                Some(at) => at < self.strokes@.len() && self.strokes@[at as int].id == id,
                None => !has_stroke(self.strokes@, id),
            },
    {
        let mut i: usize = 0;
        while i < self.strokes.len()
            invariant
                i <= self.strokes@.len(),
                forall|j: int| #![trigger self.strokes@[j]] 0 <= j < i ==> self.strokes@[j].id != id,
            decreases self.strokes@.len() - i,
        {
            if self.strokes[i].id == id {
                return Some(i);
            }
            i += 1;
        }
        None
    }

    /// Puts `stroke` in the place of the one with its identity.
    fn replace(&mut self, at: usize, stroke: WorldStroke)
        requires
            old(self).wf(),
            at < old(self).strokes@.len(),
            old(self).strokes@[at as int].id == stroke.id,
        ensures
            final(self).wf(),
            final(self).strokes@ == old(self).strokes@.update(at as int, stroke),
    {
        let bounds = if stroke.enabled {
            Some(stroke.bounds)
        } else {
            None
        };
        let ghost before = self.strokes@;
        self.strokes.set(at, stroke);
        self.index.apply_sculpt_bounds_change(BoundsChange { stroke: stroke.id, bounds });
        proof {
            assert forall|id: StrokeId| #[trigger]
                self.index.at(id) == bounds_in(self.strokes@, id) by {
                assert(old(self).index.at(id) == bounds_in(before, id));
                if id == stroke.id {
                    bounds_of_a_stroke(self.strokes@, at as int);
                } else {
                    other_bounds_stay(before, at as int, stroke, id);
                }
            }
        }
    }

    /// A stroke was drawn, or drawn on: it reaches `bounds` now.
    pub fn stamp(&mut self, id: StrokeId, bounds: WorldBounds)
        requires
            old(self).wf(),
        ensures
            final(self).wf(),
            has_stroke(old(self).strokes@, id) ==> Self::edited(
                *old(self),
                *final(self),
                id,
                |s: WorldStroke| WorldStroke { bounds, ..s },
            ),
            !has_stroke(old(self).strokes@, id) ==> final(self).strokes@ == old(
                self,
            ).strokes@.push(WorldStroke { id, enabled: true, bounds }),
    {
        match self.place_of(id) {
            Some(at) => {
                let stroke = self.strokes[at];
                self.replace(at, WorldStroke { bounds, ..stroke });
            },
            None => {
                let ghost before = self.strokes@;
                self.strokes.push(WorldStroke { id, enabled: true, bounds });
                self.index.apply_sculpt_bounds_change(
                    BoundsChange { stroke: id, bounds: Some(bounds) },
                );
                proof {
                    assert(self.strokes@.drop_last() =~= before);
                    assert forall|other: StrokeId| #[trigger]
                        self.index.at(other) == bounds_in(self.strokes@, other) by {
                        assert(old(self).index.at(other) == bounds_in(before, other));
                    }
                }
            },
        }
    }

    /// Moves a stroke to `bounds`. The result says whether there is one.
    pub fn move_stroke(&mut self, id: StrokeId, bounds: WorldBounds) -> (r: bool)
        requires
            old(self).wf(),
        ensures
            final(self).wf(),
            r == has_stroke(old(self).strokes@, id),
            Self::edited(
                *old(self),
                *final(self),
                id,
                |s: WorldStroke| WorldStroke { bounds, ..s },
            ),
    {
        match self.place_of(id) {
            Some(at) => {
                let stroke = self.strokes[at];
                self.replace(at, WorldStroke { bounds, ..stroke });
                true
            },
            None => false,
        }
    }

    /// Switches a stroke on or off. The result says whether there is one.
    pub fn set_enabled(&mut self, id: StrokeId, enabled: bool) -> (r: bool)
        requires
            old(self).wf(),
        ensures
            final(self).wf(),
            r == has_stroke(old(self).strokes@, id),
            Self::edited(
                *old(self),
                *final(self),
                id,
                |s: WorldStroke| WorldStroke { enabled, ..s },
            ),
    {
        match self.place_of(id) {
            Some(at) => {
                let stroke = self.strokes[at];
                self.replace(at, WorldStroke { enabled, ..stroke });
                true
            },
            None => false,
        }
    }

    /// Deletes a stroke. The result says whether there was one.
    pub fn delete(&mut self, id: StrokeId) -> (r: bool)
        requires
            old(self).wf(),
        ensures
            final(self).wf(),
            r == has_stroke(old(self).strokes@, id),
            forall|i: int|
                #![trigger old(self).strokes@[i]]
                0 <= i < old(self).strokes@.len() && old(self).strokes@[i].id == id
                    ==> final(self).strokes@ == old(self).strokes@.remove(i),
            !r ==> final(self).strokes@ == old(self).strokes@,
    {
        match self.place_of(id) {
            Some(at) => {
                let ghost before = self.strokes@;
                self.strokes.remove(at);
                self.index.apply_sculpt_bounds_change(BoundsChange { stroke: id, bounds: None });
                proof {
                    assert(identities_differ(self.strokes@)) by {
                        assert forall|i: int, j: int|
                            #![trigger self.strokes@[i], self.strokes@[j]]
                            0 <= i < j < self.strokes@.len() implies self.strokes@[i].id
                            != self.strokes@[j].id by {
                            let k = if i < at { i } else { i + 1 };
                            let l = if j < at { j } else { j + 1 };
                            assert(before[k].id != before[l].id);
                        }
                    }
                    assert forall|other: StrokeId| #[trigger]
                        self.index.at(other) == bounds_in(self.strokes@, other) by {
                        assert(old(self).index.at(other) == bounds_in(before, other));
                        bounds_without(before, at as int, other);
                    }
                }
                true
            },
            None => false,
        }
    }
}

/// A stroke with an identity of its own is found where it is, unless it is off.
proof fn bounds_of_a_stroke(strokes: Seq<WorldStroke>, at: int)
    requires
        identities_differ(strokes),
        0 <= at < strokes.len(),
    ensures
        bounds_in(strokes, strokes[at].id) == if strokes[at].enabled {
            Some(strokes[at].bounds)
        } else {
            None
        },
    decreases strokes.len(),
{
    let id = strokes[at].id;
    let front = strokes.drop_last();
    if at == strokes.len() - 1 {
        unknown_has_no_bounds(front, id);
    } else {
        assert(strokes[strokes.len() - 1].id != id);
        assert(front[at] == strokes[at]);
        bounds_of_a_stroke(front, at);
    }
}

proof fn unknown_has_no_bounds(strokes: Seq<WorldStroke>, id: StrokeId)
    requires
        forall|i: int| #![trigger strokes[i]] 0 <= i < strokes.len() ==> strokes[i].id != id,
    ensures
        bounds_in(strokes, id) is None,
    decreases strokes.len(),
{
    if strokes.len() > 0 {
        let front = strokes.drop_last();
        assert forall|i: int| #![trigger front[i]] 0 <= i < front.len() implies front[i].id
            != id by {
            assert(strokes[i].id != id);
        }
        assert(strokes[strokes.len() - 1].id != id);
        unknown_has_no_bounds(front, id);
    }
}

proof fn other_bounds_stay(strokes: Seq<WorldStroke>, at: int, stroke: WorldStroke, id: StrokeId)
    requires
        0 <= at < strokes.len(),
        strokes[at].id != id,
        stroke.id != id,
    ensures
        bounds_in(strokes.update(at, stroke), id) == bounds_in(strokes, id),
    decreases strokes.len(),
{
    let front = strokes.drop_last();
    if at == strokes.len() - 1 {
        assert(strokes.update(at, stroke).drop_last() =~= front);
    } else {
        assert(strokes.update(at, stroke).drop_last() =~= front.update(at, stroke));
        other_bounds_stay(front, at, stroke, id);
    }
}

proof fn bounds_without(strokes: Seq<WorldStroke>, at: int, id: StrokeId)
    requires
        identities_differ(strokes),
        0 <= at < strokes.len(),
    ensures
        bounds_in(strokes.remove(at), id) == if strokes[at].id == id {
            None
        } else {
            bounds_in(strokes, id)
        },
    decreases strokes.len(),
{
    let front = strokes.drop_last();
    if at == strokes.len() - 1 {
        assert(strokes.remove(at) =~= front);
        if strokes[at].id == id {
            unknown_has_no_bounds(front, id);
        }
    } else {
        assert(strokes.remove(at).drop_last() =~= front.remove(at));
        assert(strokes.remove(at).last() == strokes.last());
        assert(front[at] == strokes[at]);
        assert(strokes[at].id != strokes[strokes.len() - 1].id);
        bounds_without(front, at, id);
    }
}

/// Undoing a deletion brings a stroke back under its identity and with its
/// bounds, and redoing it takes the stroke out again; no other stroke is found
/// anywhere else than before.
pub proof fn undo_brings_a_deleted_stroke_back(
    before: WorldFeatures,
    deleted: WorldFeatures,
    undone: WorldFeatures,
    redone: WorldFeatures,
    at: int,
)
    requires
        before.wf(),
        deleted.wf(),
        undone.wf(),
        redone.wf(),
        0 <= at < before.strokes@.len(),
        deleted.strokes@ == before.strokes@.remove(at),
        undone.strokes@ == before.strokes@,
        redone.strokes@ == deleted.strokes@,
    ensures
        deleted.index.at(before.strokes@[at].id) is None,
        forall|id: StrokeId| #[trigger] undone.index.at(id) == before.index.at(id),
        redone.index.at(before.strokes@[at].id) is None,
        forall|id: StrokeId|
            id != before.strokes@[at].id ==> #[trigger] redone.index.at(id) == before.index.at(id),
{
    assert forall|id: StrokeId|
        redone.index.at(id) == if id == before.strokes@[at].id {
            None
        } else {
            before.index.at(id)
        } && redone.index.at(id) == deleted.index.at(id) by {
        bounds_without(before.strokes@, at, id);
        assert(redone.index.at(id) == bounds_in(redone.strokes@, id));
        assert(deleted.index.at(id) == bounds_in(deleted.strokes@, id));
        assert(before.index.at(id) == bounds_in(before.strokes@, id));
    }
    assert forall|id: StrokeId| #[trigger] undone.index.at(id) == before.index.at(id) by {
        assert(before.index.at(id) == bounds_in(before.strokes@, id));
    }
}

/// The index finds every stroke that is switched on by its own bounds, and none that
/// is off or unknown.
pub proof fn the_index_finds_what_is_on(features: WorldFeatures, at: int, id: StrokeId)
    requires
        features.wf(),
        0 <= at < features.strokes@.len(),
    ensures
        features.strokes@[at].enabled ==> features.index.at(features.strokes@[at].id) == Some(
            features.strokes@[at].bounds,
        ),
        !features.strokes@[at].enabled ==> features.index.at(features.strokes@[at].id) is None,
        !has_stroke(features.strokes@, id) ==> features.index.at(id) is None,
{
    bounds_of_a_stroke(features.strokes@, at);
    assert(features.index.at(features.strokes@[at].id) == bounds_in(
        features.strokes@,
        features.strokes@[at].id,
    ));
    if !has_stroke(features.strokes@, id) {
        assert forall|i: int| #![trigger features.strokes@[i]]
            0 <= i < features.strokes@.len() implies features.strokes@[i].id != id by {}
        unknown_has_no_bounds(features.strokes@, id);
        assert(features.index.at(id) == bounds_in(features.strokes@, id));
    }
}

/// A stroke that is stamped is found at its new bounds if it is on, a new one
/// included, and keeps its identity; every other stroke is found as before.
pub proof fn stamped_strokes_are_found(
    features: &mut WorldFeatures,
    id: StrokeId,
    bounds: WorldBounds,
    other: int,
)
    requires
        old(features).wf(),
        call_ensures(WorldFeatures::stamp, (features, id, bounds), ()),
        0 <= other < old(features).strokes@.len(),
    ensures
        has_stroke(final(features).strokes@, id),
        old(features).strokes@[other].id != id ==> final(features).strokes@[other] == old(features).strokes@[other],
        old(features).strokes@[other].id == id ==> final(features).strokes@[other].bounds == bounds
            && final(features).strokes@[other].id == id && final(features).strokes@[other].enabled
            == old(features).strokes@[other].enabled,
        !has_stroke(old(features).strokes@, id) ==> final(features).index.at(id) == Some(bounds),
{
    let before = old(features).strokes@;
    let after = final(features).strokes@;
    if has_stroke(before, id) {
        let at = choose|at: int| 0 <= at < before.len() && before[at].id == id;
        assert(before[at].id == id);
        assert(after[at].id == id);
    } else {
        assert(after[before.len() as int].id == id);
        bounds_of_a_stroke(after, before.len() as int);
        assert(final(features).index.at(id) == bounds_in(after, id));
    }
}

/// A rebuilt index finds the strokes that are on by their own bounds, and no other.
pub proof fn rebuilt_indexes_find_what_is_on(
    strokes: &[WorldStroke],
    index: FeatureIndex,
    at: int,
)
    requires
        call_ensures(FeatureIndex::rebuild_authored_feature_index, (strokes,), index),
        identities_differ(strokes@),
        0 <= at < strokes@.len(),
    ensures
        strokes@[at].enabled ==> index.at(strokes@[at].id) == Some(strokes@[at].bounds),
        !strokes@[at].enabled ==> index.at(strokes@[at].id) is None,
{
    bounds_of_a_stroke(strokes@, at);
    assert(index.at(strokes@[at].id) == bounds_in(strokes@, strokes@[at].id));
}

/// The last entry of an identity counts, and an entry answers for no other identity.
pub proof fn the_last_entry_counts(entries: Seq<FeatureEntry>, entry: FeatureEntry, id: StrokeId)
    ensures
        entry_in(Seq::empty(), id) is None,
        entry_in(entries.push(entry), entry.id) == Some(entry.bounds),
        id != entry.id ==> entry_in(entries.push(entry), id) == entry_in(entries, id),
{
    assert(entries.push(entry).drop_last() =~= entries);
}

} // verus!
