//! What the background evaluator still has to recompute.
//!
//! The worker request carries one suffix of the layer stack and, where every
//! pending edit has a known footprint, one rectangle. Edits are folded into
//! that scope so that nothing dirty is ever left out: the scope may grow past
//! what the edits touched, it never shrinks until a fresh result is consumed.
use vstd::prelude::*;

use crate::quality::PreviewQuality;

verus! {

/// Interactive Full preview ceiling: one sample per world metre, capped at the
/// export class so that extreme worlds stay bounded.
pub const INTERACTIVE_PREVIEW_CAP: u32 = 8192;

#[derive(Debug, Clone, Copy, PartialEq, Eq, Hash, Structural)]
pub struct LayerId(pub u128);

/// A rectangle of the normalized terrain domain. Each coordinate is held as an
/// integer key that orders as the coordinate does; only the order matters here.
#[derive(Debug, Clone, Copy, PartialEq, Eq, Structural)]
pub struct UvRect {
    pub min_u: u32,
    pub min_v: u32,
    pub max_u: u32,
    pub max_v: u32,
}

pub open spec fn min_key(a: u32, b: u32) -> u32 {
    if a <= b {
        a
    } else {
        b
    }
}

pub open spec fn max_key(a: u32, b: u32) -> u32 {
    if a <= b {
        b
    } else {
        a
    }
}

impl UvRect {
    /// The point lies in the rectangle, edges included.
    pub open spec fn has_point(self, u: u32, v: u32) -> bool {
        self.min_u <= u <= self.max_u && self.min_v <= v <= self.max_v
    }

    /// The smallest rectangle around both.
    pub open spec fn hull(self, other: UvRect) -> UvRect {
        UvRect {
            min_u: min_key(self.min_u, other.min_u),
            min_v: min_key(self.min_v, other.min_v),
            max_u: max_key(self.max_u, other.max_u),
            max_v: max_key(self.max_v, other.max_v),
        }
    }

    pub fn union(self, other: UvRect) -> (r: UvRect)
        ensures
            r == self.hull(other),
    {
        UvRect {
            min_u: if self.min_u <= other.min_u {
                self.min_u
            } else {
                other.min_u
            },
            min_v: if self.min_v <= other.min_v {
                self.min_v
            } else {
                other.min_v
            },
            max_u: if self.max_u <= other.max_u {
                other.max_u
            } else {
                self.max_u
            },
            max_v: if self.max_v <= other.max_v {
                other.max_v
            } else {
                self.max_v
            },
        }
    }
}

/// A texel rectangle as origin and extent.
#[derive(Debug, Clone, Copy, PartialEq, Eq, Structural)]
pub struct TexelRect {
    pub x: u32,
    pub y: u32,
    pub w: u32,
    pub h: u32,
}

/// First and last-plus-one texel of one axis: the scaled lower edge rounded
/// down and the scaled upper edge rounded up, kept inside the texture and at
/// least one texel wide.
pub open spec fn texel_span(low: u32, high: u32, extent: u32) -> (int, int) {
    let first = if low < extent {
        low as int
    } else {
        extent - 1
    };
    let last = if high <= first {
        first + 1
    } else if high <= extent {
        high as int
    } else {
        extent as int
    };
    (first, last)
}

fn clamp_texel_span(low: u32, high: u32, extent: u32) -> (r: (u32, u32))
    requires
        0 < extent,
    ensures
        r.0 == texel_span(low, high, extent).0,
        r.1 == texel_span(low, high, extent).1,
        r.0 < r.1 <= extent,
{
    let first: u32 = if low < extent {
        low
    } else {
        extent - 1
    };
    let last: u32 = if high <= first {
        first + 1
    } else if high <= extent {
        high
    } else {
        extent
    };
    (first, last)
}

/// The edges of a footprint in texels: lower edges rounded down, upper edges
/// rounded up.
#[derive(Debug, Clone, Copy, PartialEq, Eq, Structural)]
pub struct ScaledEdges {
    pub min_x: u32,
    pub min_y: u32,
    pub max_x: u32,
    pub max_y: u32,
}

/// The texels of a `width` by `height` texture that an edit footprint touches.
/// `edges` is `None` when a coordinate of the footprint is not finite; the
/// whole field is then dirty.
pub fn uv_to_texel_rect(edges: Option<ScaledEdges>, width: u32, height: u32) -> (r: TexelRect)
    ensures
        width == 0 || height == 0 ==> r == (TexelRect { x: 0, y: 0, w: 0, h: 0 }),
        width > 0 && height > 0 && edges is None ==> r == (TexelRect {
            x: 0,
            y: 0,
            w: width,
            h: height,
        }),
        width > 0 && height > 0 && edges is Some ==> {
            let xs = texel_span(edges->0.min_x, edges->0.max_x, width);
            let ys = texel_span(edges->0.min_y, edges->0.max_y, height);
            &&& r.x == xs.0
            &&& r.y == ys.0
            &&& r.w == xs.1 - xs.0
            &&& r.h == ys.1 - ys.0
        },
        width > 0 && height > 0 ==> 0 < r.w && 0 < r.h && r.x + r.w <= width && r.y + r.h
            <= height,
{
    if width == 0 || height == 0 {
        return TexelRect { x: 0, y: 0, w: 0, h: 0 };
    }
    match edges {
        None => TexelRect { x: 0, y: 0, w: width, h: height },
        Some(edges) => {
            let (x0, x1) = clamp_texel_span(edges.min_x, edges.max_x, width);
            let (y0, y1) = clamp_texel_span(edges.min_y, edges.max_y, height);
            TexelRect { x: x0, y: y0, w: x1 - x0, h: y1 - y0 }
        },
    }
}

/// A layer of the evaluated stack, with the order of the stage it runs in.
#[derive(Debug, Clone, Copy, PartialEq, Eq, Structural)]
pub struct StackLayer {
    pub id: LayerId,
    pub stage_order: u8,
}

/// Position of the first layer `id`.
pub open spec fn first_position(layers: Seq<StackLayer>, id: LayerId) -> Option<int>
    decreases layers.len(),
{
    if layers.len() == 0 {
        None
    } else {
        match first_position(layers.drop_last(), id) {
            Some(at) => Some(at),
            None => if layers.last().id == id {
                Some(layers.len() - 1)
            } else {
                None
            },
        }
    }
}

/// `first_position` is a match without an earlier one, and is `None` only where
/// nothing matches.
pub proof fn first_position_is_first(layers: Seq<StackLayer>, id: LayerId)
    ensures
        match first_position(layers, id) {
            Some(at) => {
                &&& 0 <= at < layers.len()
                &&& layers[at].id == id
                &&& forall|j: int| #![trigger layers[j]] 0 <= j < at ==> layers[j].id != id
            },
            None => forall|j: int|
                #![trigger layers[j]]
                0 <= j < layers.len() ==> layers[j].id != id,
        },
    decreases layers.len(),
{
    if layers.len() > 0 {
        let front = layers.drop_last();
        first_position_is_first(front, id);
        assert forall|j: int| #![trigger layers[j]] 0 <= j < front.len() implies layers[j]
            == front[j] by {}
    }
}

fn position(layers: &[StackLayer], id: LayerId) -> (r: Option<usize>)
    ensures
        match r {
            Some(at) => first_position(layers@, id) == Some(at as int) && at < layers@.len()
                && layers@[at as int].id == id,
            None => first_position(layers@, id) is None,
        },
{
    proof {
        first_position_is_first(layers@, id);
    }
    let mut i: usize = 0;
    while i < layers.len()
        invariant
            i <= layers@.len(),
            forall|j: int| #![trigger layers@[j]] 0 <= j < i ==> layers@[j].id != id,
            match first_position(layers@, id) {
                Some(at) => {
                    &&& 0 <= at < layers@.len()
                    &&& layers@[at].id == id
                    &&& forall|j: int| #![trigger layers@[j]] 0 <= j < at ==> layers@[j].id != id
                },
                None => forall|j: int|
                    #![trigger layers@[j]]
                    0 <= j < layers@.len() ==> layers@[j].id != id,
            },
        decreases layers@.len() - i,
    {
        if layers[i].id == id {
            assert(layers@[i as int].id == id);
            return Some(i);
        }
        i += 1;
    }
    None
}

/// The scope that the next worker request carries.
#[derive(Debug, Clone, Copy, PartialEq, Eq, Structural)]
pub struct WorkerDirty {
    pub mark_all: bool,
    pub dirty_from: Option<LayerId>,
    pub region: Option<UvRect>,
}

impl WorkerDirty {
    /// Nothing is dirty.
    pub fn clean() -> (r: Self)
        ensures
            r == (WorkerDirty { mark_all: false, dirty_from: None, region: None }),
    {
        WorkerDirty { mark_all: false, dirty_from: None, region: None }
    }

    /// The whole field of every layer is dirty.
    pub open spec fn everything() -> WorkerDirty {
        WorkerDirty { mark_all: true, dirty_from: None, region: None }
    }

    /// The scope makes the worker recompute the layer at `index` of the stack
    /// at the point.
    pub open spec fn covers(self, layers: Seq<StackLayer>, index: int, u: u32, v: u32) -> bool {
        self.mark_all || {
            &&& self.dirty_from matches Some(from)
            &&& first_position(layers, from) matches Some(start)
            &&& start <= index
            &&& self.region matches Some(region) ==> region.has_point(u, v)
        }
    }

    /// The suffix that starts earlier of the pending one and the one at `next`.
    pub open spec fn earlier_suffix(
        self,
        layers: Seq<StackLayer>,
        id: LayerId,
        next: int,
    ) -> Option<LayerId> {
        match self.dirty_from {
            Some(current) => match first_position(layers, current) {
                Some(at) if at <= next => Some(current),
                _ => Some(id),
            },
            None => Some(id),
        }
    }

    /// The region after an edit with `footprint`: the first bounded edit seeds
    /// it, later ones join it, and an unbounded edit drops it for good.
    pub open spec fn joined_region(self, footprint: Option<UvRect>) -> Option<UvRect> {
        match footprint {
            None => None,
            Some(rect) => if self.dirty_from is None {
                Some(rect)
            } else {
                match self.region {
                    Some(existing) => Some(existing.hull(rect)),
                    None => None,
                }
            },
        }
    }

    /// The scope after an edit of layer `id`.
    pub open spec fn with_edit(
        self,
        layers: Seq<StackLayer>,
        id: LayerId,
        footprint: Option<UvRect>,
    ) -> WorkerDirty {
        if self.mark_all {
            self
        } else {
            match first_position(layers, id) {
                None => WorkerDirty::everything(),
                Some(next) => WorkerDirty {
                    mark_all: false,
                    dirty_from: self.earlier_suffix(layers, id, next),
                    region: self.joined_region(footprint),
                },
            }
        }
    }

    /// Folds an edit of layer `id` into the scope. `footprint` is `None` for an
    /// edit without a known extent.
    pub fn track_worker_dirty_from(
        &mut self,
        layers: &[StackLayer],
        id: LayerId,
        footprint: Option<UvRect>,
    )
        ensures
            *final(self) == old(self).with_edit(layers@, id, footprint),
    {
        if self.mark_all {
            return;
        }
        let had_pending = self.dirty_from.is_some();
        let next_index: usize = match position(layers, id) {
            Some(at) => at,
            None => {
                self.mark_all = true;
                self.dirty_from = None;
                self.region = None;
                return;
            },
        };
        let replace = match self.dirty_from {
            Some(current) => match position(layers, current) {
                Some(current_index) => next_index < current_index,
                None => true,
            },
            None => true,
        };
        if replace {
            self.dirty_from = Some(id);
        }
        match footprint {
            Some(rect) => {
                if !had_pending {
                    self.region = Some(rect);
                } else if let Some(existing) = self.region {
                    self.region = Some(existing.union(rect));
                }
            },
            None => {
                self.region = None;
            },
        }
    }

    /// Index of the first layer whose stage is at or after `min_order`.
    pub open spec fn is_first_in_stage(
        layers: Seq<StackLayer>,
        min_order: u8,
        at: int,
    ) -> bool {
        &&& 0 <= at < layers.len()
        &&& layers[at].stage_order >= min_order
        &&& forall|j: int| #![trigger layers[j]] 0 <= j < at ==> layers[j].stage_order < min_order
    }

    /// Folds a rebuild of every stage from `min_order` on into the scope, by the
    /// suffix that starts at the earliest layer of those stages. A stack without
    /// such a layer leaves the scope alone.
    pub fn track_worker_dirty_from_eval_stage(&mut self, layers: &[StackLayer], min_order: u8)
        ensures
            forall|at: int|
                #![trigger layers@[at]]
                Self::is_first_in_stage(layers@, min_order, at) ==> *final(self) == old(
                    self,
                ).with_edit(layers@, layers@[at].id, None),
            (forall|i: int|
                #![trigger layers@[i]]
                0 <= i < layers@.len() ==> layers@[i].stage_order < min_order) ==> *final(self)
                == *old(self),
    {
        let mut i: usize = 0;
        while i < layers.len()
            invariant
                i <= layers@.len(),
                *self == *old(self),
                forall|j: int|
                    #![trigger layers@[j]]
                    0 <= j < i ==> layers@[j].stage_order < min_order,
            decreases layers@.len() - i,
        {
            if layers[i].stage_order >= min_order {
                self.track_worker_dirty_from(layers, layers[i].id, None);
                assert(!(layers@[i as int].stage_order < min_order));
                return;
            }
            i += 1;
        }
    }

    /// Everything is dirty from now on.
    pub fn mark_all_dirty(&mut self)
        ensures
            *final(self) == WorkerDirty::everything(),
    {
        self.mark_all = true;
        self.dirty_from = None;
        self.region = None;
    }

    /// A fresh result covers everything that was pending.
    pub fn consume(&mut self)
        ensures
            *final(self) == (WorkerDirty { mark_all: false, dirty_from: None, region: None }),
    {
        self.mark_all = false;
        self.dirty_from = None;
        self.region = None;
    }

    /// Whether a bounded scope over a Full cache may be submitted straight at
    /// Full: the scope is a rectangle of a suffix, the cache holds checkpoints
    /// of the Full resolution, and the rectangle touches at most a quarter of
    /// the Full tile grid. A grid of fewer than four tiles has no tile to spare.
    pub open spec fn full_scope_admitted(
        self,
        requested: PreviewQuality,
        cache_res: Option<u32>,
        field: FullField,
    ) -> bool {
        &&& requested == PreviewQuality::Draft || requested == PreviewQuality::Medium
        &&& !self.mark_all
        &&& self.dirty_from is Some
        &&& self.region is Some
        &&& cache_res == Some(field.full_res())
        &&& field.tile_count matches Some(count)
        &&& 4 * field.scope_tiles <= count
    }

    pub fn admits_full_scope(
        &self,
        requested: PreviewQuality,
        cache_res: Option<u32>,
        field: FullField,
    ) -> (r: bool)
        ensures
            r == self.full_scope_admitted(requested, cache_res, field),
    {
        match requested {
            PreviewQuality::Full | PreviewQuality::Export => {
                return false;
            },
            _ => {},
        }
        if self.mark_all || self.dirty_from.is_none() || self.region.is_none() {
            return false;
        }
        let full: u32 = field.full_resolution();
        match cache_res {
            Some(res) => if res != full {
                return false;
            },
            None => {
                return false;
            },
        }
        match field.tile_count {
            None => false,
            Some(count) => field.scope_tiles <= count / 4,
        }
    }
}

/// The field at Full resolution, measured against a pending region.
#[derive(Debug, Clone, Copy, PartialEq, Eq, Structural)]
pub struct FullField {
    pub preview_resolution: u32,
    /// Tiles of the Full field; `None` when its metrics are invalid.
    pub tile_count: Option<u32>,
    /// Tiles that the pending region touches.
    pub scope_tiles: u32,
}

impl FullField {
    pub open spec fn full_res(self) -> u32 {
        min_key(self.preview_resolution, INTERACTIVE_PREVIEW_CAP)
    }

    pub fn full_resolution(&self) -> (r: u32)
        ensures
            r == self.full_res(),
    {
        interactive_resolution(self.preview_resolution)
    }
}

/// A document's preview resolution under the interactive ceiling.
pub fn interactive_resolution(preview: u32) -> (r: u32)
    ensures
        r == min_key(preview, INTERACTIVE_PREVIEW_CAP),
{
    if preview <= INTERACTIVE_PREVIEW_CAP {
        preview
    } else {
        INTERACTIVE_PREVIEW_CAP
    }
}

/// The union of two rectangles has every point of both.
pub proof fn union_has_both(a: UvRect, b: UvRect, u: u32, v: u32)
    requires
        a.has_point(u, v) || b.has_point(u, v),
    ensures
        a.hull(b).has_point(u, v),
{
}

/// Tracking an edit never loses dirt: what the scope covered before, it covers
/// afterwards.
pub proof fn tracking_keeps_pending_dirt(
    scope: WorkerDirty,
    layers: Seq<StackLayer>,
    id: LayerId,
    footprint: Option<UvRect>,
    index: int,
    u: u32,
    v: u32,
)
    requires
        scope.covers(layers, index, u, v),
    ensures
        scope.with_edit(layers, id, footprint).covers(layers, index, u, v),
{
    if !scope.mark_all && first_position(layers, id) is Some {
        let from = scope.dirty_from->0;
        if let (Some(rect), Some(existing)) = (footprint, scope.region) {
            union_has_both(existing, rect, u, v);
        }
    }
}

/// Tracking an edit covers it: every layer from the edited one on, at every
/// point of the footprint, and at every point when there is no footprint.
pub proof fn tracking_covers_the_edit(
    scope: WorkerDirty,
    layers: Seq<StackLayer>,
    id: LayerId,
    footprint: Option<UvRect>,
    index: int,
    u: u32,
    v: u32,
)
    requires
        first_position(layers, id) matches Some(at) && at <= index,
        footprint matches Some(rect) ==> rect.has_point(u, v),
    ensures
        scope.with_edit(layers, id, footprint).covers(layers, index, u, v),
{
    if let (Some(rect), Some(existing)) = (footprint, scope.region) {
        union_has_both(existing, rect, u, v);
    }
}

/// Once a suffix edit without a footprint is pending, or the whole field, no
/// later edit narrows the scope again.
pub proof fn escalated_region_is_never_narrowed(
    scope: WorkerDirty,
    layers: Seq<StackLayer>,
    id: LayerId,
    footprint: Option<UvRect>,
)
    requires
        scope.mark_all || (scope.dirty_from is Some && scope.region is None),
    ensures
        ({
            let after = scope.with_edit(layers, id, footprint);
            after.mark_all || (after.dirty_from is Some && after.region is None)
        }),
        scope.region is None ==> scope.with_edit(layers, id, footprint).region is None,
{
}

/// Tracking the same edit twice is tracking it once: a scope that a dropped job
/// carried can be carried again.
pub proof fn tracking_is_idempotent(
    scope: WorkerDirty,
    layers: Seq<StackLayer>,
    id: LayerId,
    footprint: Option<UvRect>,
)
    ensures
        scope.with_edit(layers, id, footprint).with_edit(layers, id, footprint) == scope.with_edit(
            layers,
            id,
            footprint,
        ),
{
}

/// A stage rebuild dirties every layer of the rebuilt stages: the suffix from
/// the earliest of them is a superset of them.
pub proof fn stage_suffix_covers_the_stages(
    scope: WorkerDirty,
    layers: Seq<StackLayer>,
    min_order: u8,
    at: int,
    index: int,
    u: u32,
    v: u32,
)
    requires
        WorkerDirty::is_first_in_stage(layers, min_order, at),
        0 <= index < layers.len(),
        layers[index].stage_order >= min_order,
    ensures
        scope.with_edit(layers, layers[at].id, None).covers(layers, index, u, v),
{
    let id = layers[at].id;
    first_position_is_first(layers, id);
    assert(at <= index) by {
        if index < at {
            assert(layers[index].stage_order < min_order);
        }
    }
    tracking_covers_the_edit(scope, layers, id, None, index, u, v);
}

/// The smallest rectangle around two is no larger than it has to be: whatever
/// rectangle holds all of both holds all of it.
pub proof fn the_union_is_the_smallest(a: UvRect, b: UvRect, around: UvRect)
    requires
        around.min_u <= a.min_u,
        around.min_u <= b.min_u,
        around.min_v <= a.min_v,
        around.min_v <= b.min_v,
        a.max_u <= around.max_u,
        b.max_u <= around.max_u,
        a.max_v <= around.max_v,
        b.max_v <= around.max_v,
    ensures
        around.min_u <= a.hull(b).min_u <= a.min_u,
        a.hull(b).min_u <= b.min_u,
        around.min_v <= a.hull(b).min_v <= a.min_v,
        a.hull(b).min_v <= b.min_v,
        a.max_u <= a.hull(b).max_u <= around.max_u,
        b.max_u <= a.hull(b).max_u,
        a.max_v <= a.hull(b).max_v <= around.max_v,
        b.max_v <= a.hull(b).max_v,
        a.hull(b) == b.hull(a),
        a.hull(a) == a,
{
}

/// A span of texels lies in the texture, is never empty, holds every texel of the
/// footprint that the texture has, and is the footprint itself where that fits.
pub proof fn texel_spans_hold_the_footprint(low: u32, high: u32, extent: u32, texel: int)
    requires
        0 < extent,
    ensures
        0 <= texel_span(low, high, extent).0 < texel_span(low, high, extent).1 <= extent,
        low <= texel < high && texel < extent ==> texel_span(low, high, extent).0 <= texel
            < texel_span(low, high, extent).1,
        low < high <= extent ==> texel_span(low, high, extent) == (low as int, high as int),
        low < extent && high <= low ==> texel_span(low, high, extent) == (low as int, low + 1),
        extent <= low ==> texel_span(low, high, extent) == (extent - 1, extent as int),
{
}

/// An edit dirties no more than it has to. A layer that the stack does not hold
/// dirties everything; any other edit leaves the scope a suffix that starts at the
/// edited layer or at the one that was pending, whichever comes first, and a first
/// edit keeps to its own footprint.
pub proof fn edits_dirty_no_more_than_they_must(
    scope: WorkerDirty,
    layers: Seq<StackLayer>,
    at: int,
    footprint: Option<UvRect>,
    index: int,
    u: u32,
    v: u32,
)
    requires
        !scope.mark_all,
        0 <= at < layers.len(),
        forall|j: int| #![trigger layers[j]] 0 <= j < at ==> layers[j].id != layers[at].id,
        scope.with_edit(layers, layers[at].id, footprint).covers(layers, index, u, v),
    ensures
        !scope.with_edit(layers, layers[at].id, footprint).mark_all,
        at <= index || scope.covers(layers, index, u, v) || footprint is Some || scope.region
            is Some,
        index < at ==> (scope.dirty_from matches Some(from) && first_position(
            layers,
            from,
        ) matches Some(start) && start <= index),
        scope.dirty_from is None && footprint is Some ==> footprint->0.min_u <= u
            <= footprint->0.max_u && footprint->0.min_v <= v <= footprint->0.max_v,
        scope.dirty_from is Some && scope.region is Some && footprint is Some ==> scope.region->0.hull(
            footprint->0,
        ).has_point(u, v),
{
    first_position_is_first(layers, layers[at].id);
    let edited = scope.with_edit(layers, layers[at].id, footprint);
    if let Some(from) = edited.dirty_from {
        first_position_is_first(layers, from);
    }
    if let Some(from) = scope.dirty_from {
        first_position_is_first(layers, from);
    }
}

/// An edit of a layer that the stack does not hold dirties every layer everywhere,
/// and so does every edit once everything is dirty.
pub proof fn unknown_edits_dirty_everything(
    scope: WorkerDirty,
    layers: Seq<StackLayer>,
    id: LayerId,
    footprint: Option<UvRect>,
    index: int,
    u: u32,
    v: u32,
)
    requires
        scope.mark_all || (forall|j: int|
            #![trigger layers[j]]
            0 <= j < layers.len() ==> layers[j].id != id),
    ensures
        scope.with_edit(layers, id, footprint).covers(layers, index, u, v),
        WorkerDirty::everything().covers(layers, index, u, v),
{
    first_position_is_first(layers, id);
}

/// A bounded scope over checkpoints of the Full resolution goes straight to Full
/// exactly while four times its tiles fit the grid: more tiles never help it, and
/// fewer never hurt.
pub proof fn full_scopes_are_admitted_by_size(
    scope: WorkerDirty,
    requested: PreviewQuality,
    field: FullField,
    fewer: u32,
)
    requires
        requested is Draft || requested is Medium,
        !scope.mark_all,
        scope.dirty_from is Some,
        scope.region is Some,
        field.tile_count is Some,
        fewer <= field.scope_tiles,
    ensures
        4 * field.scope_tiles <= field.tile_count->0 ==> scope.full_scope_admitted(
            requested,
            Some(field.full_res()),
            field,
        ),
        4 * field.scope_tiles > field.tile_count->0 ==> !scope.full_scope_admitted(
            requested,
            Some(field.full_res()),
            field,
        ),
        scope.full_scope_admitted(requested, Some(field.full_res()), field)
            ==> scope.full_scope_admitted(
            requested,
            Some(field.full_res()),
            FullField { scope_tiles: fewer, ..field },
        ),
        forall|other: u32|
            other != field.full_res() ==> !#[trigger] scope.full_scope_admitted(
                requested,
                Some(other),
                field,
            ),
        !scope.full_scope_admitted(requested, None, field),
        !(WorkerDirty { mark_all: true, ..scope }).full_scope_admitted(
            requested,
            Some(field.full_res()),
            field,
        ),
        !(WorkerDirty { dirty_from: None, ..scope }).full_scope_admitted(
            requested,
            Some(field.full_res()),
            field,
        ),
{
}

/// The Full resolution is the document's own up to the interactive ceiling, and
/// the ceiling beyond it.
pub proof fn full_resolution_stays_under_the_ceiling(field: FullField)
    ensures
        field.full_res() <= 8192,
        field.full_res() <= field.preview_resolution,
        field.full_res() == field.preview_resolution || field.full_res() == 8192,
{
}

/// Nothing is dirty at first, nor once the dirt was consumed.
pub proof fn consumed_dirt_is_gone(worker: &mut WorkerDirty, fresh: WorkerDirty)
    requires
        call_ensures(WorkerDirty::consume, (worker,), ()),
        call_ensures(WorkerDirty::clean, (), fresh),
    ensures
        *final(worker) == fresh,
        !fresh.mark_all,
        fresh.dirty_from is None,
        fresh.region is None,
{
}

/// An interactive preview has the resolution of the preview, up to its cap.
pub proof fn interactive_previews_are_capped(preview: u32, resolution: u32)
    requires
        call_ensures(interactive_resolution, (preview,), resolution),
    ensures
        resolution <= preview,
        resolution <= 8192,
        resolution == preview || resolution == 8192,
{
}

/// The first layer of some stages is the first whose stage is one of them: a layer of
/// the earliest stage counts, and one before it does not.
pub proof fn stages_start_at_their_first_layer(layers: Seq<StackLayer>, order: u8, at: int)
    requires
        0 <= at < layers.len(),
    ensures
        layers[at].stage_order < order ==> !WorkerDirty::is_first_in_stage(layers, order, at),
        layers[at].stage_order >= order && (forall|j: int|
            #![trigger layers[j]]
            0 <= j < at ==> layers[j].stage_order < order) ==> WorkerDirty::is_first_in_stage(
            layers,
            order,
            at,
        ),
        forall|j: int|
            #![trigger layers[j]]
            0 <= j < at && layers[j].stage_order >= order ==> !WorkerDirty::is_first_in_stage(
                layers,
                order,
                at,
            ),
{
}

} // verus!
