//! Streaming of terrain tiles: what to queue, what to publish, and when the
//! renderer may switch from the whole-field texture to the streamed pages.
use vstd::prelude::*;

use crate::dirty::LayerId;
use crate::eval::{EvalEffect, EvalState};
use crate::quality::GpuEvaluationIntent;

verus! {

/// Cost that the scheduler reckons per tile.
pub const TILE_ESTIMATE_US: u64 = 250;

/// Bit pattern of an unbounded distance.
pub const DISTANCE_INFINITE_BITS: u32 = 0x7f80_0000;

/// Bit pattern of the largest projected error.
pub const ERROR_LARGEST_BITS: u32 = 0x7f7f_ffff;

/// Frames over which a new stream fades in.
pub const TRANSITION_FRAMES: u32 = 8;

/// Identity of streamed content.
#[derive(Debug, Clone, Copy, PartialEq, Eq, Structural)]
pub struct TerrainContentStamp {
    pub document_revision: u64,
    pub plan_revision: u64,
    pub output_revision: u64,
    pub content_revision: u64,
}

#[derive(Debug, Clone, Copy, PartialEq, Eq, Structural)]
pub struct TileId {
    pub tx: u32,
    pub tz: u32,
}

/// A height tile of the whole terrain at one pyramid level.
#[derive(Debug, Clone, Copy, PartialEq, Eq, Structural)]
pub struct TerrainTileKey {
    pub level: u8,
    pub tile: TileId,
}

#[derive(Debug, Clone, Copy, PartialEq, Eq, Structural)]
pub enum TerrainTileWorkSource {
    CpuHeight,
    GpuPyramid,
    GpuCompiledPlan,
}

#[derive(Debug, Clone, Copy, PartialEq, Eq, Structural)]
pub enum TerrainDemandClass {
    CoarseCoverage,
    Refinement,
}

/// A tile that the scheduler is asked to bring in. Error and distance are bit
/// patterns of floating-point values.
#[derive(Debug, Clone, Copy, PartialEq, Eq, Structural)]
pub struct TerrainTileWorkRequest {
    pub key: TerrainTileKey,
    pub content: TerrainContentStamp,
    pub source: TerrainTileWorkSource,
    pub class: TerrainDemandClass,
    pub visible: bool,
    pub error_bits: u32,
    pub distance_bits: u32,
    pub estimated_us: u64,
}

/// Work that one frame may spend on tiles.
#[derive(Debug, Clone, Copy, PartialEq, Eq, Structural)]
pub struct TerrainTileWorkBudget {
    pub budget_us: u64,
    pub max_items: usize,
    pub max_pages: usize,
}

/// How many tiles fit a time budget: one per quarter millisecond, between one
/// and a frame's worth; an unlimited budget takes the export's worth.
pub open spec fn items_within(budget_us: u64) -> int {
    if budget_us == u64::MAX {
        128
    } else if budget_us / 250 < 1 {
        1
    } else if budget_us / 250 > 32 {
        32
    } else {
        budget_us as int / 250
    }
}

pub fn terrain_tile_work_budget(budget_us: u64, max_pages: usize) -> (r: TerrainTileWorkBudget)
    ensures
        r.budget_us == budget_us,
        r.max_items == items_within(budget_us),
        r.max_pages == if max_pages >= 1 {
            max_pages
        } else {
            1
        },
{
    let max_items: usize = if budget_us == u64::MAX {
        128
    } else {
        let quarters: u64 = budget_us / 250;
        if quarters < 1 {
            1
        } else if quarters > 32 {
            32
        } else {
            quarters as usize
        }
    };
    TerrainTileWorkBudget {
        budget_us,
        max_items,
        max_pages: if max_pages >= 1 {
            max_pages
        } else {
            1
        },
    }
}

/// One level of the resolution pyramid.
#[derive(Debug, Clone, Copy, PartialEq, Eq, Structural)]
pub struct PyramidLevel {
    pub index: u8,
    pub resolution: u32,
}

/// `level` is the first one of the pyramid with that resolution.
pub open spec fn is_level_of(levels: Seq<PyramidLevel>, resolution: u32, level: PyramidLevel) -> bool {
    exists|i: int|
        #![trigger levels[i]]
        {
            &&& 0 <= i < levels.len()
            &&& levels[i] == level
            &&& level.resolution == resolution
            &&& forall|j: int| #![trigger levels[j]] 0 <= j < i ==> levels[j].resolution != resolution
        }
}

/// The pyramid level of the last CPU height. `None` when there is no height or
/// its resolution is not a level; streaming then stays off.
pub fn streamed_level_for_last_height(levels: &[PyramidLevel], width: Option<u32>) -> (r: Option<
    PyramidLevel,
>)
    ensures
        match (width, r) {
            (Some(width), Some(level)) => is_level_of(levels@, width, level),
            (Some(width), None) => forall|i: int|
                #![trigger levels@[i]]
                0 <= i < levels@.len() ==> levels@[i].resolution != width,
            (None, r) => r is None,
        },
{
    let wanted: u32 = match width {
        Some(width) => width,
        None => {
            return None;
        },
    };
    let mut i: usize = 0;
    while i < levels.len()
        invariant
            width == Some(wanted),
            i <= levels@.len(),
            forall|j: int| #![trigger levels@[j]] 0 <= j < i ==> levels@[j].resolution != wanted,
        decreases levels@.len() - i,
    {
        let level = levels[i];
        if level.resolution == wanted {
            assert(levels@[i as int] == level);
            return Some(level);
        }
        i += 1;
    }
    None
}

/// The level of the current output: that of the GPU pyramid where there is one,
/// else that of the last CPU height.
pub fn streamed_level_for_current_output(
    gpu_source_level: Option<PyramidLevel>,
    levels: &[PyramidLevel],
    width: Option<u32>,
) -> (r: Option<PyramidLevel>)
    ensures
        gpu_source_level is Some ==> r == gpu_source_level,
        gpu_source_level is None ==> match (width, r) {
            (Some(width), Some(level)) => is_level_of(levels@, width, level),
            (Some(width), None) => forall|i: int|
                #![trigger levels@[i]]
                0 <= i < levels@.len() ==> levels@[i].resolution != width,
            (None, r) => r is None,
        },
{
    match gpu_source_level {
        Some(level) => Some(level),
        None => streamed_level_for_last_height(levels, width),
    }
}

/// Identity of a GPU pyramid.
#[derive(Debug, Clone, Copy, PartialEq, Eq, Structural)]
pub struct PyramidIdentity {
    pub content: TerrainContentStamp,
    pub output: u64,
}

/// A tile that the camera asks for.
#[derive(Debug, Clone, Copy, PartialEq, Eq, Structural)]
pub struct TileDemand {
    pub key: TerrainTileKey,
    pub class: TerrainDemandClass,
    pub error_bits: u32,
    pub distance_bits: u32,
}

/// Limits of one demand plan.
#[derive(Debug, Clone, Copy, PartialEq, Eq, Structural)]
pub struct DemandLimits {
    pub max_demand_tiles: usize,
    pub max_visited_nodes: usize,
}

/// As many tiles as the atlas has pages, and a bounded walk of the pyramid.
pub fn demand_limits(atlas_pages: Option<usize>) -> (r: DemandLimits)
    ensures
        ({
            let pages: int = match atlas_pages {
                Some(pages) => pages as int,
                None => 1,
            };
            let nodes = if 32 * pages <= usize::MAX {
                32 * pages
            } else {
                usize::MAX as int
            };
            &&& r.max_demand_tiles == pages
            &&& r.max_visited_nodes == if nodes >= 64 {
                nodes
            } else {
                64
            }
        }),
{
    let pages: usize = match atlas_pages {
        Some(pages) => pages,
        None => 1,
    };
    let nodes: usize = match pages.checked_mul(32) {
        Some(nodes) => nodes,
        None => usize::MAX,
    };
    DemandLimits {
        max_demand_tiles: pages,
        max_visited_nodes: if nodes >= 64 {
            nodes
        } else {
            64
        },
    }
}

/// The request that a demanded tile becomes.
pub open spec fn demand_request(
    demand: TileDemand,
    stamp: TerrainContentStamp,
) -> TerrainTileWorkRequest {
    TerrainTileWorkRequest {
        key: demand.key,
        content: stamp,
        source: TerrainTileWorkSource::GpuCompiledPlan,
        class: demand.class,
        visible: true,
        error_bits: demand.error_bits,
        distance_bits: demand.distance_bits,
        estimated_us: TILE_ESTIMATE_US,
    }
}

/// The requests for the demanded tiles that are not resident, in the order of
/// the plan.
pub open spec fn missing_requests(
    plan: Seq<TileDemand>,
    resident: Seq<bool>,
    stamp: TerrainContentStamp,
) -> Seq<TerrainTileWorkRequest>
    decreases plan.len(),
{
    if plan.len() == 0 {
        Seq::empty()
    } else {
        let front = missing_requests(plan.drop_last(), resident, stamp);
        if resident[plan.len() - 1] {
            front
        } else {
            front.push(demand_request(plan.last(), stamp))
        }
    }
}

/// Requests every demanded tile whose page is not current. `resident[i]` says
/// whether the page of `plan[i]` is.
pub fn demand_requests(plan: &[TileDemand], resident: &[bool], stamp: TerrainContentStamp) -> (r:
    Vec<TerrainTileWorkRequest>)
    requires
        plan@.len() == resident@.len(),
    ensures
        r@ == missing_requests(plan@, resident@, stamp),
{
    let mut requests: Vec<TerrainTileWorkRequest> = Vec::new();
    let mut i: usize = 0;
    while i < plan.len()
        invariant
            i <= plan@.len(),
            plan@.len() == resident@.len(),
            requests@ == missing_requests(plan@.take(i as int), resident@, stamp),
        decreases plan@.len() - i,
    {
        assert(plan@.take(i + 1).drop_last() =~= plan@.take(i as int));
        let demand = plan[i];
        if !resident[i] {
            requests.push(
                TerrainTileWorkRequest {
                    key: demand.key,
                    content: stamp,
                    source: TerrainTileWorkSource::GpuCompiledPlan,
                    class: demand.class,
                    visible: true,
                    error_bits: demand.error_bits,
                    distance_bits: demand.distance_bits,
                    estimated_us: TILE_ESTIMATE_US,
                },
            );
        }
        i += 1;
    }
    assert(plan@.take(i as int) =~= plan@);
    requests
}

/// The request that uploads one tile of a CPU height at `level`.
pub open spec fn cpu_tile_request(
    tile: TileId,
    level: u8,
    stamp: TerrainContentStamp,
) -> TerrainTileWorkRequest {
    TerrainTileWorkRequest {
        key: TerrainTileKey { level, tile },
        content: stamp,
        source: TerrainTileWorkSource::CpuHeight,
        class: TerrainDemandClass::CoarseCoverage,
        visible: false,
        error_bits: 0,
        distance_bits: DISTANCE_INFINITE_BITS,
        estimated_us: TILE_ESTIMATE_US,
    }
}

/// The request that covers one root tile of a GPU pyramid.
pub open spec fn root_tile_request(
    tile: TileId,
    stamp: TerrainContentStamp,
) -> TerrainTileWorkRequest {
    TerrainTileWorkRequest {
        key: TerrainTileKey { level: 0, tile },
        content: stamp,
        source: TerrainTileWorkSource::GpuCompiledPlan,
        class: TerrainDemandClass::CoarseCoverage,
        visible: true,
        error_bits: ERROR_LARGEST_BITS,
        distance_bits: 0,
        estimated_us: TILE_ESTIMATE_US,
    }
}

/// The tiles of a grid, row by row.
pub open spec fn grid_tiles(tiles_x: int, tiles_z: int) -> Seq<TileId>
    decreases tiles_z,
{
    if tiles_z <= 0 {
        Seq::empty()
    } else {
        grid_tiles(tiles_x, tiles_z - 1) + Seq::new(
            tiles_x as nat,
            |tx: int| TileId { tx: tx as u32, tz: (tiles_z - 1) as u32 },
        )
    }
}

/// Lists the tiles of a grid, row by row.
pub fn tiles_of_grid(tiles_x: u32, tiles_z: u32) -> (r: Vec<TileId>)
    ensures
        r@ == grid_tiles(tiles_x as int, tiles_z as int),
{
    let mut tiles: Vec<TileId> = Vec::new();
    let mut tz: u32 = 0;
    while tz < tiles_z
        invariant
            tz <= tiles_z,
            tiles@ == grid_tiles(tiles_x as int, tz as int),
        decreases tiles_z - tz,
    {
        let ghost rows = tiles@;
        let mut tx: u32 = 0;
        while tx < tiles_x
            invariant
                tx <= tiles_x,
                tiles@ == rows + Seq::new(
                    tx as nat,
                    |x: int| TileId { tx: x as u32, tz },
                ),
            decreases tiles_x - tx,
        {
            tiles.push(TileId { tx, tz });
            assert(tiles@ =~= rows + Seq::new(
                (tx + 1) as nat,
                |x: int| TileId { tx: x as u32, tz },
            ));
            tx += 1;
        }
        assert(tiles@ =~= grid_tiles(tiles_x as int, tz + 1));
        tz += 1;
    }
    tiles
}

/// Bootstraps a new GPU pyramid with its root coverage.
pub fn root_requests(tiles_x: u32, tiles_z: u32, stamp: TerrainContentStamp) -> (r: Vec<
    TerrainTileWorkRequest,
>)
    ensures
        r@ == grid_tiles(tiles_x as int, tiles_z as int).map_values(
            |tile: TileId| root_tile_request(tile, stamp),
        ),
{
    let tiles = tiles_of_grid(tiles_x, tiles_z);
    let mut requests: Vec<TerrainTileWorkRequest> = Vec::new();
    let mut i: usize = 0;
    while i < tiles.len()
        invariant
            i <= tiles@.len(),
            requests@ == tiles@.take(i as int).map_values(
                |tile: TileId| root_tile_request(tile, stamp),
            ),
        decreases tiles@.len() - i,
    {
        requests.push(
            TerrainTileWorkRequest {
                key: TerrainTileKey { level: 0, tile: tiles[i] },
                content: stamp,
                source: TerrainTileWorkSource::GpuCompiledPlan,
                class: TerrainDemandClass::CoarseCoverage,
                visible: true,
                error_bits: ERROR_LARGEST_BITS,
                distance_bits: 0,
                estimated_us: TILE_ESTIMATE_US,
            },
        );
        i += 1;
        assert(requests@ =~= tiles@.take(i as int).map_values(
            |tile: TileId| root_tile_request(tile, stamp),
        ));
    }
    assert(tiles@.take(i as int) =~= tiles@);
    requests
}

/// What the streamed side knows of the current output.
#[derive(Debug)]
pub struct TileStream {
    /// Counts with every output. A page belongs to the output that it was made
    /// of.
    pub output_revision: u64,
    /// The renderer shows pages. Otherwise it shows the whole-field texture.
    pub streaming: bool,
    /// The output whose pages the renderer was last told to show; pages of any
    /// other count as missing.
    pub streamed_revision: u64,
    /// The content that tiles are queued for; `None` while nothing is queued.
    pub live_content: Option<TerrainContentStamp>,
    pub next_cpu_tile_content_revision: u64,
    pub gpu_pyramid: Option<PyramidIdentity>,
    /// The transfer of geometric errors is under way.
    pub error_readback: bool,
    /// The pyramid whose geometric errors are known.
    pub planning_metadata: Option<PyramidIdentity>,
    pub latest_demand: Option<Vec<TileDemand>>,
}

/// What the streamed side asks of its host.
#[derive(Debug, Clone, Copy, PartialEq, Eq, Structural)]
pub enum StreamEffect {
    /// Cancel the jobs that build tiles, empty the queue and show its figures.
    ClearTileWork,
    /// Make every resident page unreachable, keep the allocation, and show the
    /// figures of the empty cache.
    ClearAtlas,
    /// Let the renderer show the whole-field texture.
    StreamingOff,
}

/// What became of the transfer of geometric errors.
#[derive(Debug, Clone, Copy, PartialEq, Eq, Structural)]
pub enum MetadataPoll {
    /// There is no transfer to poll.
    Idle,
    Pending,
    Failed,
    Ready(PyramidIdentity),
}

/// What a refresh of the demand sees.
#[derive(Debug)]
pub struct DemandSight {
    pub poll: MetadataPoll,
    /// The errors of a finished transfer could be made conservative.
    pub errors_accepted: bool,
    pub has_renderer: bool,
    /// The plan for the camera; `None` where planning failed.
    pub plan: Option<Vec<TileDemand>>,
    /// No tile is queued once the plan's requests are reconciled.
    pub scheduler_empty: bool,
}

/// How a refresh of the demand goes on.
#[derive(Debug, Clone, Copy, PartialEq, Eq, Structural)]
pub enum MetadataStep {
    /// Nothing more can be planned this frame.
    Stop,
    /// Plan with what is known.
    Plan,
    /// Make the errors conservative first; they belong to the live pyramid.
    CheckErrors,
}

impl TileStream {
    /// Everything that is queued or shown is of the output at hand.
    pub open spec fn wf(self) -> bool {
        &&& self.streaming ==> self.streamed_revision == self.output_revision
        &&& self.live_content matches Some(content) ==> content.output_revision
            == self.output_revision
        &&& self.gpu_pyramid matches Some(pyramid) ==> pyramid.content.output_revision
            == self.output_revision
    }

    /// A page of output `revision` is shown.
    pub open spec fn shows(self, revision: u64) -> bool {
        self.streaming && self.streamed_revision == revision
    }

    /// The demand is empty and nothing about it is under way.
    pub open spec fn demand_cleared(before: TileStream, after: TileStream) -> bool {
        &&& !after.error_readback
        &&& after.planning_metadata is None
        &&& after.latest_demand is None
        &&& after.next_cpu_tile_content_revision == before.next_cpu_tile_content_revision
    }

    /// The stream once nothing of the output is queued, planned or shown.
    pub open spec fn retired(self) -> TileStream {
        TileStream {
            streaming: false,
            live_content: None,
            gpu_pyramid: None,
            error_readback: false,
            planning_metadata: None,
            latest_demand: None,
            ..self
        }
    }

    /// The stream of the next output.
    pub open spec fn counted_on(self) -> TileStream {
        TileStream {
            output_revision: vstd::wrapping::u64_specs::wrapping_add(self.output_revision, 1),
            ..self
        }
    }

    /// What an effect of the evaluation does to the stream.
    pub open spec fn performed(self, effect: EvalEffect) -> TileStream {
        match effect {
            EvalEffect::AdvanceOutputRevision => self.counted_on().retired(),
            EvalEffect::ReconfigureRuntime => self.counted_on(),
            EvalEffect::RetireStreaming => self.retired(),
            _ => self,
        }
    }

    /// What effects do to the stream, one after the other.
    pub open spec fn performed_all(self, effects: Seq<EvalEffect>) -> TileStream
        decreases effects.len(),
    {
        if effects.len() == 0 {
            self
        } else {
            self.performed_all(effects.drop_last()).performed(effects.last())
        }
    }

    /// What retiring asks of the host.
    pub open spec fn retirement() -> Seq<StreamEffect> {
        seq![StreamEffect::ClearTileWork, StreamEffect::ClearAtlas, StreamEffect::StreamingOff]
    }

    /// What an effect of the evaluation asks of the host's streamed side.
    pub open spec fn asked_by(effect: EvalEffect) -> Seq<StreamEffect> {
        match effect {
            EvalEffect::AdvanceOutputRevision | EvalEffect::RetireStreaming => Self::retirement(),
            _ => seq![],
        }
    }

    /// What effects ask of the host's streamed side, one after the other.
    pub open spec fn asked_by_all(effects: Seq<EvalEffect>) -> Seq<StreamEffect>
        decreases effects.len(),
    {
        if effects.len() == 0 {
            seq![]
        } else {
            Self::asked_by_all(effects.drop_last()) + Self::asked_by(effects.last())
        }
    }

    /// The effects end the output at hand: the next one is counted, nothing of
    /// output `revision` is shown, and the host retires what it streams.
    pub open spec fn edited_by(self, effects: Seq<EvalEffect>, revision: u64) -> bool {
        let after = self.performed_all(effects);
        &&& after == self.counted_on().retired()
        &&& after.output_revision != self.output_revision
        &&& !after.shows(revision)
        &&& after.live_content is None
        &&& !after.can_plan()
        &&& after.wf()
        &&& Self::asked_by_all(effects) == Self::retirement()
    }

    /// A stream before the first output: nothing is queued and nothing shown.
    pub fn new() -> (r: Self)
        ensures
            r.wf(),
            r == r.retired(),
            r.output_revision == 0,
            r.next_cpu_tile_content_revision == 0,
    {
        TileStream {
            output_revision: 0,
            streaming: false,
            streamed_revision: 0,
            live_content: None,
            next_cpu_tile_content_revision: 0,
            gpu_pyramid: None,
            error_readback: false,
            planning_metadata: None,
            latest_demand: None,
        }
    }

    fn clear_terrain_demand(&mut self)
        ensures
            *final(self) == (TileStream {
                error_readback: false,
                planning_metadata: None,
                latest_demand: None,
                ..*old(self)
            }),
    {
        self.error_readback = false;
        self.planning_metadata = None;
        self.latest_demand = None;
    }

    /// Retires everything that was streamed, at the boundary between two outputs:
    /// queued tiles, the GPU pyramid and every demand on it, resident pages and
    /// the renderer's streaming. The whole-field texture is shown until the
    /// stream is synchronized again.
    pub fn retire_streamed_residency(&mut self) -> (r: Vec<StreamEffect>)
        ensures
            *final(self) == old(self).retired(),
            Self::demand_cleared(*old(self), *final(self)),
            r@ == Self::retirement(),
    {
        self.live_content = None;
        self.gpu_pyramid = None;
        self.clear_terrain_demand();
        self.streaming = false;
        let mut effects: Vec<StreamEffect> = Vec::new();
        effects.push(StreamEffect::ClearTileWork);
        effects.push(StreamEffect::ClearAtlas);
        effects.push(StreamEffect::StreamingOff);
        effects
    }

    /// The single door for edits: counts the output on and retires what was
    /// streamed of the one before, in the same step.
    pub fn advance_output_revision(&mut self) -> (r: Vec<StreamEffect>)
        ensures
            *final(self) == old(self).counted_on().retired(),
            final(self).output_revision == vstd::wrapping::u64_specs::wrapping_add(
                old(self).output_revision,
                1,
            ),
            final(self).gpu_pyramid is None,
            Self::demand_cleared(*old(self), *final(self)),
            !final(self).streaming,
            final(self).wf(),
            r@ == Self::retirement(),
    {
        self.output_revision = self.output_revision.wrapping_add(1);
        self.retire_streamed_residency()
    }

    /// Performs an effect of the evaluation on the stream. The result is what is
    /// left for the host to do on its streamed side.
    pub fn perform(&mut self, effect: EvalEffect) -> (r: Vec<StreamEffect>)
        ensures
            *final(self) == old(self).performed(effect),
            r@ == Self::asked_by(effect),
    {
        match effect {
            EvalEffect::AdvanceOutputRevision => self.advance_output_revision(),
            EvalEffect::ReconfigureRuntime => {
                self.output_revision = self.output_revision.wrapping_add(1);
                Vec::new()
            },
            EvalEffect::RetireStreaming => self.retire_streamed_residency(),
            _ => Vec::new(),
        }
    }

    /// A content revision after `last`, never zero.
    pub open spec fn next_content_revision(last: u64) -> u64 {
        let next = vstd::wrapping::u64_specs::wrapping_add(last, 1);
        if next >= 1 {
            next
        } else {
            1
        }
    }

    /// Queues every tile of a new CPU height, under a content revision of its
    /// own and of the output at hand; what was queued before is dropped. Without
    /// an atlas or a matching pyramid level nothing is queued and the whole-field
    /// path presents.
    pub fn queue_final_tile_uploads(
        &mut self,
        has_atlas: bool,
        level: Option<PyramidLevel>,
        tiles: &[TileId],
        document_revision: u64,
        plan_revision: u64,
    ) -> (r: Option<(TerrainContentStamp, Vec<TerrainTileWorkRequest>)>)
        ensures
            old(self).wf() ==> final(self).wf(),
            !has_atlas || level is None ==> {
                &&& r is None
                &&& *final(self) == (TileStream {
                    streaming: old(self).streaming,
                    ..old(self).retired()
                })
            },
            has_atlas && level is Some ==> {
                let stamp = TerrainContentStamp {
                    document_revision,
                    plan_revision,
                    output_revision: old(self).output_revision,
                    content_revision: Self::next_content_revision(
                        old(self).next_cpu_tile_content_revision,
                    ),
                };
                &&& *final(self) == (TileStream {
                    streaming: old(self).streaming,
                    live_content: Some(stamp),
                    next_cpu_tile_content_revision: stamp.content_revision,
                    ..old(self).retired()
                })
                &&& r matches Some(queued)
                &&& queued.0 == stamp
                &&& queued.1@ == tiles@.map_values(
                    |tile: TileId| cpu_tile_request(tile, level->0.index, stamp),
                )
            },
    {
        self.live_content = None;
        self.gpu_pyramid = None;
        self.clear_terrain_demand();
        if !has_atlas {
            return None;
        }
        let level: u8 = match level {
            Some(level) => level.index,
            None => {
                return None;
            },
        };
        let next: u64 = self.next_cpu_tile_content_revision.wrapping_add(1);
        self.next_cpu_tile_content_revision = if next >= 1 {
            next
        } else {
            1
        };
        let stamp = TerrainContentStamp {
            document_revision,
            plan_revision,
            output_revision: self.output_revision,
            content_revision: self.next_cpu_tile_content_revision,
        };
        self.live_content = Some(stamp);
        let mut requests: Vec<TerrainTileWorkRequest> = Vec::new();
        let mut i: usize = 0;
        while i < tiles.len()
            invariant
                i <= tiles@.len(),
                requests@ == tiles@.take(i as int).map_values(
                    |tile: TileId| cpu_tile_request(tile, level, stamp),
                ),
            decreases tiles@.len() - i,
        {
            requests.push(
                TerrainTileWorkRequest {
                    key: TerrainTileKey { level, tile: tiles[i] },
                    content: stamp,
                    source: TerrainTileWorkSource::CpuHeight,
                    class: TerrainDemandClass::CoarseCoverage,
                    visible: false,
                    error_bits: 0,
                    distance_bits: DISTANCE_INFINITE_BITS,
                    estimated_us: TILE_ESTIMATE_US,
                },
            );
            i += 1;
            assert(requests@ =~= tiles@.take(i as int).map_values(
                |tile: TileId| cpu_tile_request(tile, level, stamp),
            ));
        }
        assert(tiles@.take(i as int) =~= tiles@);
        Some((stamp, requests))
    }

    /// Takes a materialized pyramid in: the old demand is gone, the transfer of
    /// its geometric errors is under way, and its tiles are what is queued.
    pub fn pyramid_materialized(&mut self, identity: PyramidIdentity)
        ensures
            *final(self) == (TileStream {
                gpu_pyramid: Some(identity),
                error_readback: true,
                live_content: Some(identity.content),
                streaming: old(self).streaming,
                ..old(self).retired()
            }),
            old(self).wf() && identity.content.output_revision == old(self).output_revision
                ==> final(self).wf(),
    {
        self.clear_terrain_demand();
        self.error_readback = true;
        self.gpu_pyramid = Some(identity);
        self.live_content = Some(identity.content);
    }

    /// Takes the pyramid of a GPU output in, and asks for its root coverage while
    /// the geometric errors are on their way. `materialized` is the pyramid, if
    /// one could be made. An output that seeds no pyramid changes nothing. The
    /// requests replace whatever was queued.
    pub fn materialize_gpu_pyramid(
        &mut self,
        output: GpuOutputIdentity,
        eval_token: u64,
        has_atlas: bool,
        materialized: Option<PyramidIdentity>,
        root_tiles_x: u32,
        root_tiles_z: u32,
    ) -> (r: Option<(TerrainContentStamp, Vec<TerrainTileWorkRequest>)>)
        ensures
            !output.seeds_pyramid(eval_token, has_atlas) || materialized is None ==> {
                &&& r is None
                &&& *final(self) == *old(self)
            },
            output.seeds_pyramid(eval_token, has_atlas) && materialized is Some ==> {
                let identity = materialized->0;
                &&& *final(self) == (TileStream {
                    gpu_pyramid: Some(identity),
                    error_readback: true,
                    live_content: Some(identity.content),
                    streaming: old(self).streaming,
                    ..old(self).retired()
                })
                &&& r matches Some(queued)
                &&& queued.0 == identity.content
                &&& queued.1@ == grid_tiles(
                    root_tiles_x as int,
                    root_tiles_z as int,
                ).map_values(|tile: TileId| root_tile_request(tile, identity.content))
            },
            old(self).wf() && (materialized is Some
                ==> materialized->0.content.output_revision == old(self).output_revision)
                ==> final(self).wf(),
    {
        if !pyramid_admitted(output, eval_token, has_atlas) {
            return None;
        }
        match materialized {
            Some(identity) => {
                self.pyramid_materialized(identity);
                Some((identity.content, root_requests(root_tiles_x, root_tiles_z, identity.content)))
            },
            None => None,
        }
    }

    /// `identity` is that of the live pyramid, and of the live output revision.
    pub open spec fn is_live(self, identity: PyramidIdentity) -> bool {
        self.gpu_pyramid == Some(identity) && identity.content.output_revision
            == self.output_revision
    }

    fn live(&self, identity: PyramidIdentity) -> (r: bool)
        ensures
            r == self.is_live(identity),
    {
        match self.gpu_pyramid {
            Some(pyramid) => pyramid == identity && identity.content.output_revision
                == self.output_revision,
            None => false,
        }
    }

    /// Takes the transfer's state in. A pending or failed transfer stops the
    /// refresh; a finished one ends the transfer, and only errors of the live
    /// pyramid are looked at.
    pub fn poll_metadata(&mut self, poll: MetadataPoll) -> (r: MetadataStep)
        ensures
            r == match poll {
                MetadataPoll::Idle => MetadataStep::Plan,
                MetadataPoll::Pending | MetadataPoll::Failed => MetadataStep::Stop,
                MetadataPoll::Ready(identity) => if old(self).is_live(identity) {
                    MetadataStep::CheckErrors
                } else {
                    MetadataStep::Plan
                },
            },
            *final(self) == (TileStream {
                error_readback: if poll is Failed || poll is Ready {
                    false
                } else {
                    old(self).error_readback
                },
                ..*old(self)
            }),
    {
        match poll {
            MetadataPoll::Idle => MetadataStep::Plan,
            MetadataPoll::Pending => MetadataStep::Stop,
            MetadataPoll::Failed => {
                self.error_readback = false;
                MetadataStep::Stop
            },
            MetadataPoll::Ready(identity) => {
                self.error_readback = false;
                if self.live(identity) {
                    MetadataStep::CheckErrors
                } else {
                    MetadataStep::Plan
                }
            },
        }
    }

    /// The errors of the live pyramid are known: earlier demand is void.
    pub fn metadata_accepted(&mut self, identity: PyramidIdentity)
        ensures
            final(self).latest_demand is None,
            *final(self) == (TileStream {
                planning_metadata: Some(identity),
                latest_demand: final(self).latest_demand,
                ..*old(self)
            }),
    {
        self.planning_metadata = Some(identity);
        self.latest_demand = None;
    }

    /// Demand can be planned: the errors are those of the live pyramid.
    pub open spec fn can_plan(self) -> bool {
        self.planning_metadata matches Some(identity) && self.is_live(identity)
    }

    pub fn plannable(&self) -> (r: bool)
        ensures
            r == self.can_plan(),
    {
        match self.planning_metadata {
            Some(identity) => self.live(identity),
            None => false,
        }
    }

    fn same_demand(&self, plan: &Vec<TileDemand>) -> (r: bool)
        ensures
            r == (self.latest_demand matches Some(latest) && latest@ == plan@),
    {
        match &self.latest_demand {
            None => false,
            Some(latest) => {
                if latest.len() != plan.len() {
                    return false;
                }
                let mut i: usize = 0;
                while i < plan.len()
                    invariant
                        i <= plan@.len(),
                        latest@.len() == plan@.len(),
                        self.latest_demand == Some(*latest),
                        forall|j: int| #![trigger plan@[j]] 0 <= j < i ==> latest@[j] == plan@[j],
                    decreases plan@.len() - i,
                {
                    if latest[i] != plan[i] {
                        assert(latest@[i as int] != plan@[i as int]);
                        return false;
                    }
                    i += 1;
                }
                assert(latest@ =~= plan@);
                true
            },
        }
    }

    /// Keeps a new plan. The result says whether the caller has to come back:
    /// the plan changed or tiles are still queued.
    pub fn demand_planned(&mut self, plan: Vec<TileDemand>, scheduler_empty: bool) -> (r: bool)
        ensures
            r == (!(old(self).latest_demand matches Some(latest) && latest@ == plan@)
                || !scheduler_empty),
            final(self).latest_demand == Some(plan),
            *final(self) == (TileStream {
                latest_demand: final(self).latest_demand,
                ..*old(self)
            }),
    {
        let changed = !self.same_demand(&plan);
        self.latest_demand = Some(plan);
        changed || !scheduler_empty
    }

    /// What is known once the transfer has been looked at. Only accepted errors
    /// of the live pyramid count.
    pub open spec fn after_poll(self, seen: DemandSight) -> TileStream {
        let polled = TileStream {
            error_readback: self.error_readback && !(seen.poll is Failed) && !(seen.poll is Ready),
            ..self
        };
        match seen.poll {
            MetadataPoll::Ready(identity) => if self.is_live(identity) && seen.errors_accepted {
                TileStream { planning_metadata: Some(identity), latest_demand: None, ..polled }
            } else {
                polled
            },
            _ => polled,
        }
    }

    /// The refresh ends with the transfer.
    pub open spec fn stops_at_poll(self, seen: DemandSight) -> bool {
        match seen.poll {
            MetadataPoll::Idle => false,
            MetadataPoll::Pending | MetadataPoll::Failed => true,
            MetadataPoll::Ready(identity) => self.is_live(identity) && !seen.errors_accepted,
        }
    }

    /// The refresh comes to a plan.
    pub open spec fn plans(self, seen: DemandSight) -> bool {
        !self.stops_at_poll(seen) && self.after_poll(seen).can_plan() && seen.has_renderer && seen.plan is Some
    }

    /// Refreshes the demand: takes the transfer of geometric errors in and
    /// keeps the plan that the live pyramid, its errors and the camera lead to.
    /// The result says whether the caller has to come back.
    pub fn refresh_terrain_demand(&mut self, seen: DemandSight) -> (r: bool)
        ensures
            !old(self).plans(seen) ==> {
                &&& !r
                &&& *final(self) == old(self).after_poll(seen)
            },
            old(self).plans(seen) ==> {
                &&& r == (!(old(self).after_poll(seen).latest_demand matches Some(latest)
                    && latest@ == seen.plan->0@) || !seen.scheduler_empty)
                &&& *final(self) == (TileStream {
                    latest_demand: seen.plan,
                    live_content: Some(old(self).gpu_pyramid->0.content),
                    ..old(self).after_poll(seen)
                })
            },
            old(self).wf() ==> final(self).wf(),
    {
        match self.poll_metadata(seen.poll) {
            MetadataStep::Stop => {
                return false;
            },
            MetadataStep::Plan => {},
            MetadataStep::CheckErrors => {
                if !seen.errors_accepted {
                    return false;
                }
                if let MetadataPoll::Ready(identity) = seen.poll {
                    self.metadata_accepted(identity);
                }
            },
        }
        if !self.plannable() || !seen.has_renderer {
            return false;
        }
        match seen.plan {
            None => false,
            Some(plan) => {
                if let Some(pyramid) = self.gpu_pyramid {
                    self.live_content = Some(pyramid.content);
                }
                self.demand_planned(plan, seen.scheduler_empty)
            },
        }
    }

    /// Tiles can be uploaded. Where they cannot, what is queued is dropped.
    pub fn open_uploads(&mut self, has_atlas: bool, has_gpu: bool, has_height: bool) -> (r: bool)
        ensures
            r == (has_atlas && has_gpu && (has_height || old(self).gpu_pyramid is Some)),
            *final(self) == if r {
                *old(self)
            } else {
                TileStream { live_content: None, ..*old(self) }
            },
            old(self).wf() ==> final(self).wf(),
    {
        let open = can_upload_tiles(has_atlas, has_gpu, has_height, self.gpu_pyramid.is_some());
        if !open {
            self.live_content = None;
        }
        open
    }

    /// What is known of the stream when it is synchronized.
    pub open spec fn observed(self, sight: SyncSight) -> StreamObservation {
        StreamObservation {
            has_atlas: sight.has_atlas,
            live_content: self.live_content,
            level: sight.level,
            has_gpu_pyramid: self.gpu_pyramid is Some,
            error_readback: self.error_readback,
            has_demand: self.latest_demand is Some,
            scheduler_empty: sight.scheduler_empty,
            compiled_jobs_empty: sight.compiled_jobs_empty,
            root_current: sight.root_current,
        }
    }

    /// The stream once the renderer has been told `decision`. Without a renderer
    /// nobody is told.
    pub open spec fn told(self, decision: StreamDecision, has_renderer: bool) -> TileStream {
        match decision {
            StreamDecision::Disable if has_renderer => TileStream { streaming: false, ..self },
            StreamDecision::Enable { content, .. } if has_renderer => TileStream {
                streaming: true,
                streamed_revision: content.output_revision,
                ..self
            },
            _ => self,
        }
    }

    /// Synchronizes the renderer with the stream: it shows pages of the content
    /// that is live, or the whole-field texture.
    pub fn resync(&mut self, sight: SyncSight) -> (r: StreamDecision)
        ensures
            r == stream_decision(old(self).observed(sight)),
            *final(self) == old(self).told(r, sight.has_renderer),
            old(self).wf() ==> final(self).wf(),
    {
        let decision = sync_tile_stream_to_renderer(
            StreamObservation {
                has_atlas: sight.has_atlas,
                live_content: self.live_content,
                level: sight.level,
                has_gpu_pyramid: self.gpu_pyramid.is_some(),
                error_readback: self.error_readback,
                has_demand: self.latest_demand.is_some(),
                scheduler_empty: sight.scheduler_empty,
                compiled_jobs_empty: sight.compiled_jobs_empty,
                root_current: sight.root_current,
            },
        );
        if sight.has_renderer {
            match decision {
                StreamDecision::Leave => {},
                StreamDecision::Disable => {
                    self.streaming = false;
                },
                StreamDecision::Enable { content, .. } => {
                    self.streaming = true;
                    self.streamed_revision = content.output_revision;
                },
            }
        }
        decision
    }

    /// Ends the uploads of a frame: the renderer is synchronized where a tile was
    /// uploaded, and left alone otherwise.
    pub fn finish_uploads(&mut self, uploaded: usize, sight: SyncSight) -> (r: Option<
        StreamDecision,
    >)
        ensures
            uploaded == 0 ==> r is None && *final(self) == *old(self),
            uploaded > 0 ==> {
                &&& r == Some(stream_decision(old(self).observed(sight)))
                &&& *final(self) == old(self).told(r->0, sight.has_renderer)
            },
            old(self).wf() ==> final(self).wf(),
    {
        if uploaded == 0 {
            return None;
        }
        Some(self.resync(sight))
    }
}

/// What the host sees when the stream is synchronized.
#[derive(Debug, Clone, Copy, PartialEq, Eq, Structural)]
pub struct SyncSight {
    pub has_atlas: bool,
    pub has_renderer: bool,
    pub level: Option<PyramidLevel>,
    pub scheduler_empty: bool,
    pub compiled_jobs_empty: bool,
    /// Every root page holds the live content.
    pub root_current: bool,
}

/// Identity of a GPU output.
#[derive(Debug, Clone, Copy, PartialEq, Eq, Structural)]
pub struct GpuOutputIdentity {
    pub current_complete_final: bool,
    pub intent: GpuEvaluationIntent,
    pub generation: u64,
}

impl GpuOutputIdentity {
    /// Only a complete, final output of the current generation seeds a pyramid,
    /// and only where there is an atlas to stream into.
    pub open spec fn seeds_pyramid(self, eval_token: u64, has_atlas: bool) -> bool {
        self.current_complete_final && self.intent == GpuEvaluationIntent::Complete
            && self.generation == eval_token && has_atlas
    }
}

/// Whether an output seeds a pyramid.
pub fn pyramid_admitted(output: GpuOutputIdentity, eval_token: u64, has_atlas: bool) -> (r: bool)
    ensures
        r == output.seeds_pyramid(eval_token, has_atlas),
{
    output.current_complete_final && output.intent == GpuEvaluationIntent::Complete
        && output.generation == eval_token && has_atlas
}

/// Whether tiles can be uploaded at all: an atlas, a device, and something to
/// upload. Otherwise the queue is cleared.
pub fn can_upload_tiles(
    has_atlas: bool,
    has_gpu: bool,
    has_height: bool,
    has_pyramid: bool,
) -> (r: bool)
    ensures
        r == (has_atlas && has_gpu && (has_height || has_pyramid)),
{
    has_atlas && has_gpu && (has_height || has_pyramid)
}

/// A tile that the scheduler handed out.
#[derive(Debug, Clone, Copy, PartialEq, Eq, Structural)]
pub struct TileLease {
    pub id: u64,
    pub request: TerrainTileWorkRequest,
}

/// What to do with a lease first.
#[derive(Debug, Clone, Copy, PartialEq, Eq, Structural)]
pub enum LeaseStep {
    /// The content has moved on: give the lease back.
    Fail,
    /// The page is current already.
    SkipResident,
    /// Start a compiled tile job; fall back to the pyramid.
    StartCompiled,
    /// Upload the tile of the CPU height.
    UploadCpu,
    /// Publish the tile of the pyramid.
    PublishPyramid,
}

impl TileLease {
    pub open spec fn first_step(self, live: TerrainContentStamp, resident: bool) -> LeaseStep {
        if self.request.content != live {
            LeaseStep::Fail
        } else if resident {
            LeaseStep::SkipResident
        } else {
            match self.request.source {
                TerrainTileWorkSource::GpuCompiledPlan => LeaseStep::StartCompiled,
                TerrainTileWorkSource::CpuHeight => LeaseStep::UploadCpu,
                TerrainTileWorkSource::GpuPyramid => LeaseStep::PublishPyramid,
            }
        }
    }

    pub fn step(&self, live: TerrainContentStamp, resident: bool) -> (r: LeaseStep)
        ensures
            r == self.first_step(live, resident),
    {
        if self.request.content != live {
            return LeaseStep::Fail;
        }
        if resident {
            return LeaseStep::SkipResident;
        }
        match self.request.source {
            TerrainTileWorkSource::GpuCompiledPlan => LeaseStep::StartCompiled,
            TerrainTileWorkSource::CpuHeight => LeaseStep::UploadCpu,
            TerrainTileWorkSource::GpuPyramid => LeaseStep::PublishPyramid,
        }
    }
}

/// What to do after a compiled tile job was tried.
#[derive(Debug, Clone, Copy, PartialEq, Eq, Structural)]
pub enum CompiledStart {
    /// The job runs; keep the lease with it.
    Retain,
    /// Publish the tile of the complete-field pyramid instead.
    PublishPyramid,
    Fail,
}

/// The pyramid stands in only where it holds the live content.
pub fn after_compiled_start(
    started: bool,
    pyramid: Option<PyramidIdentity>,
    live: TerrainContentStamp,
) -> (r: CompiledStart)
    ensures
        r == if started {
            CompiledStart::Retain
        } else if pyramid matches Some(identity) && identity.content == live {
            CompiledStart::PublishPyramid
        } else {
            CompiledStart::Fail
        },
{
    if started {
        return CompiledStart::Retain;
    }
    if pyramid_is_live(pyramid, live) {
        CompiledStart::PublishPyramid
    } else {
        CompiledStart::Fail
    }
}

/// Whether the pyramid holds the live content.
pub fn pyramid_is_live(pyramid: Option<PyramidIdentity>, live: TerrainContentStamp) -> (r: bool)
    ensures
        r == (pyramid matches Some(identity) && identity.content == live),
{
    match pyramid {
        Some(identity) => identity.content == live,
        None => false,
    }
}

/// What a publication asks for.
#[derive(Debug, Clone, Copy, PartialEq, Eq, Structural)]
pub struct Published {
    /// Complete the lease; otherwise give it back.
    pub complete: bool,
    /// Keep the page from being evicted.
    pub pin: bool,
}

/// A published tile completes its lease; root tiles stay resident.
pub fn after_publication(published: bool, key: TerrainTileKey) -> (r: Published)
    ensures
        r == (Published { complete: published, pin: published && key.level == 0 }),
{
    Published { complete: published, pin: published && key.level == 0 }
}

/// What to do with a compiled tile job.
#[derive(Debug, Clone, Copy, PartialEq, Eq, Structural)]
pub enum CompiledJobStep {
    /// Newer content has replaced it.
    Cancel,
    /// The GPU is not done.
    Retain,
    Publish,
}

/// A compiled tile is published only for the live content and under a live
/// lease.
pub fn poll_compiled_tile_job(
    lease: TileLease,
    lease_live: bool,
    finished: bool,
    live: TerrainContentStamp,
) -> (r: CompiledJobStep)
    ensures
        r == if !lease_live || lease.request.content != live {
            CompiledJobStep::Cancel
        } else if finished {
            CompiledJobStep::Publish
        } else {
            CompiledJobStep::Retain
        },
{
    if !lease_live || lease.request.content != live {
        CompiledJobStep::Cancel
    } else if finished {
        CompiledJobStep::Publish
    } else {
        CompiledJobStep::Retain
    }
}

/// What a pass over the leases came to.
#[derive(Debug, Clone, Copy, PartialEq, Eq, Structural)]
pub enum LeaseOutcome {
    Failed,
    SkippedResident,
    Retained,
    Completed,
}

/// How a lease ended, given every answer that it can ask for: whether its page
/// was current, whether a compiled job started, whether its CPU tile exists,
/// and whether the publication went through.
#[derive(Debug, Clone, Copy, PartialEq, Eq, Structural)]
pub struct LeaseAnswers {
    pub resident: bool,
    pub compiled_started: bool,
    pub has_cpu_tile: bool,
    pub published: bool,
}

pub open spec fn lease_outcome(
    lease: TileLease,
    answers: LeaseAnswers,
    pyramid: Option<PyramidIdentity>,
    live: TerrainContentStamp,
) -> LeaseOutcome {
    let pyramid_live = pyramid matches Some(identity) && identity.content == live;
    let published = if answers.published {
        LeaseOutcome::Completed
    } else {
        LeaseOutcome::Failed
    };
    match lease.first_step(live, answers.resident) {
        LeaseStep::Fail => LeaseOutcome::Failed,
        LeaseStep::SkipResident => LeaseOutcome::SkippedResident,
        LeaseStep::StartCompiled => if answers.compiled_started {
            LeaseOutcome::Retained
        } else if pyramid_live {
            published
        } else {
            LeaseOutcome::Failed
        },
        LeaseStep::UploadCpu => if answers.has_cpu_tile {
            published
        } else {
            LeaseOutcome::Failed
        },
        LeaseStep::PublishPyramid => if pyramid_live {
            published
        } else {
            LeaseOutcome::Failed
        },
    }
}

/// How many of the outcomes uploaded a tile.
pub open spec fn completed_count(outcomes: Seq<LeaseOutcome>) -> nat
    decreases outcomes.len(),
{
    if outcomes.len() == 0 {
        0
    } else {
        completed_count(outcomes.drop_last()) + if outcomes.last() == LeaseOutcome::Completed {
            1nat
        } else {
            0nat
        }
    }
}

fn settle_lease(
    lease: TileLease,
    answers: LeaseAnswers,
    pyramid: Option<PyramidIdentity>,
    live: TerrainContentStamp,
) -> (r: LeaseOutcome)
    ensures
        r == lease_outcome(lease, answers, pyramid, live),
{
    let published = if answers.published {
        LeaseOutcome::Completed
    } else {
        LeaseOutcome::Failed
    };
    match lease.step(live, answers.resident) {
        LeaseStep::Fail => LeaseOutcome::Failed,
        LeaseStep::SkipResident => LeaseOutcome::SkippedResident,
        LeaseStep::StartCompiled => match after_compiled_start(
            answers.compiled_started,
            pyramid,
            live,
        ) {
            CompiledStart::Retain => LeaseOutcome::Retained,
            CompiledStart::PublishPyramid => published,
            CompiledStart::Fail => LeaseOutcome::Failed,
        },
        LeaseStep::UploadCpu => if answers.has_cpu_tile {
            published
        } else {
            LeaseOutcome::Failed
        },
        LeaseStep::PublishPyramid => if pyramid_is_live(pyramid, live) {
            published
        } else {
            LeaseOutcome::Failed
        },
    }
}

/// Settles a batch of leases in order. Every lease ends in exactly one outcome;
/// the count is that of the uploaded tiles, on top of `already_uploaded`.
pub fn upload_pending_terrain_tiles(
    leases: &[TileLease],
    answers: &[LeaseAnswers],
    pyramid: Option<PyramidIdentity>,
    live: TerrainContentStamp,
    already_uploaded: usize,
) -> (r: (Vec<LeaseOutcome>, usize))
    requires
        leases@.len() == answers@.len(),
        already_uploaded + leases@.len() <= usize::MAX,
    ensures
        r.0@.len() == leases@.len(),
        forall|i: int|
            #![trigger r.0@[i]]
            0 <= i < leases@.len() ==> r.0@[i] == lease_outcome(
                leases@[i],
                answers@[i],
                pyramid,
                live,
            ),
        r.1 == already_uploaded + completed_count(r.0@),
{
    let mut outcomes: Vec<LeaseOutcome> = Vec::new();
    let mut uploaded: usize = already_uploaded;
    let mut i: usize = 0;
    while i < leases.len()
        invariant
            i <= leases@.len(),
            leases@.len() == answers@.len(),
            already_uploaded + leases@.len() <= usize::MAX,
            outcomes@.len() == i,
            forall|j: int|
                #![trigger outcomes@[j]]
                0 <= j < i ==> outcomes@[j] == lease_outcome(
                    leases@[j],
                    answers@[j],
                    pyramid,
                    live,
                ),
            uploaded == already_uploaded + completed_count(outcomes@),
            uploaded <= already_uploaded + i,
        decreases leases@.len() - i,
    {
        let outcome = settle_lease(leases[i], answers[i], pyramid, live);
        let ghost before = outcomes@;
        outcomes.push(outcome);
        assert(outcomes@.drop_last() =~= before);
        if outcome == LeaseOutcome::Completed {
            uploaded += 1;
        }
        i += 1;
    }
    (outcomes, uploaded)
}

/// What the renderer falls back to where a page is missing.
#[derive(Debug, Clone, Copy, PartialEq, Eq, Structural)]
pub enum TerrainTerminalFallback {
    RootRequired,
    MonolithicMigration,
}

/// What is known when the stream is synchronized.
#[derive(Debug, Clone, Copy, PartialEq, Eq, Structural)]
pub struct StreamObservation {
    pub has_atlas: bool,
    pub live_content: Option<TerrainContentStamp>,
    pub level: Option<PyramidLevel>,
    pub has_gpu_pyramid: bool,
    pub error_readback: bool,
    pub has_demand: bool,
    pub scheduler_empty: bool,
    pub compiled_jobs_empty: bool,
    /// Every root page holds the live content.
    pub root_current: bool,
}

impl StreamObservation {
    /// The camera's demand is fully resident. Without a GPU pyramid there is no
    /// demand to wait for.
    pub open spec fn demand_ready(self) -> bool {
        !self.has_gpu_pyramid || (!self.error_readback && self.has_demand && self.scheduler_empty
            && self.compiled_jobs_empty)
    }
}

#[derive(Debug, Clone, Copy, PartialEq, Eq, Structural)]
pub enum StreamDecision {
    /// There is nothing to stream into.
    Leave,
    /// Present the whole-field texture.
    Disable,
    Enable {
        target: PyramidLevel,
        content: TerrainContentStamp,
        fallback: TerrainTerminalFallback,
    },
}

/// When streaming may be on.
pub open spec fn stream_decision(seen: StreamObservation) -> StreamDecision {
    if !seen.has_atlas {
        StreamDecision::Leave
    } else {
        match (seen.live_content, seen.level) {
            (Some(content), Some(target)) => if !seen.demand_ready() || (seen.has_gpu_pyramid
                && !seen.root_current) {
                StreamDecision::Disable
            } else {
                StreamDecision::Enable {
                    target,
                    content,
                    fallback: if seen.has_gpu_pyramid {
                        TerrainTerminalFallback::RootRequired
                    } else {
                        TerrainTerminalFallback::MonolithicMigration
                    },
                }
            },
            _ => StreamDecision::Disable,
        }
    }
}

/// Decides whether the renderer streams. A new GPU revision stays on the
/// whole-field texture until the camera's demand is resident, then switches
/// once.
pub fn sync_tile_stream_to_renderer(seen: StreamObservation) -> (r: StreamDecision)
    ensures
        r == stream_decision(seen),
{
    if !seen.has_atlas {
        return StreamDecision::Leave;
    }
    let content = match seen.live_content {
        Some(content) => content,
        None => {
            return StreamDecision::Disable;
        },
    };
    let target = match seen.level {
        Some(level) => level,
        None => {
            return StreamDecision::Disable;
        },
    };
    let demand_ready = !seen.has_gpu_pyramid || (!seen.error_readback && seen.has_demand
        && seen.scheduler_empty && seen.compiled_jobs_empty);
    if !demand_ready {
        return StreamDecision::Disable;
    }
    if seen.has_gpu_pyramid && !seen.root_current {
        return StreamDecision::Disable;
    }
    StreamDecision::Enable {
        target,
        content,
        fallback: if seen.has_gpu_pyramid {
            TerrainTerminalFallback::RootRequired
        } else {
            TerrainTerminalFallback::MonolithicMigration
        },
    }
}

/// Whether every page of a list is current.
pub fn all_current(resident: &[bool]) -> (r: bool)
    ensures
        r == forall|i: int| #![trigger resident@[i]] 0 <= i < resident@.len() ==> resident@[i],
{
    let mut i: usize = 0;
    while i < resident.len()
        invariant
            i <= resident@.len(),
            forall|j: int| #![trigger resident@[j]] 0 <= j < i ==> resident@[j],
        decreases resident@.len() - i,
    {
        if !resident[i] {
            assert(!resident@[i as int]);
            return false;
        }
        i += 1;
    }
    true
}

/// A GPU pyramid is streamed only once nothing of its demand is missing, so the
/// switch never shows the coarse root in place of the whole field.
pub proof fn stream_waits_for_the_whole_demand(seen: StreamObservation)
    requires
        seen.has_gpu_pyramid,
        stream_decision(seen) is Enable,
    ensures
        !seen.error_readback,
        seen.has_demand,
        seen.scheduler_empty,
        seen.compiled_jobs_empty,
        seen.root_current,
{
}

/// Stale content is never published: a lease of another content ends as failed,
/// whatever the answers.
pub proof fn stale_leases_publish_nothing(
    lease: TileLease,
    answers: LeaseAnswers,
    pyramid: Option<PyramidIdentity>,
    live: TerrainContentStamp,
)
    requires
        lease.request.content != live,
    ensures
        lease_outcome(lease, answers, pyramid, live) == LeaseOutcome::Failed,
{
}

/// Two CPU results never share a content identity, so a newer one replaces the
/// pages of the older instead of finding them current.
pub proof fn consecutive_cpu_results_differ(last: u64)
    ensures
        TileStream::next_content_revision(last) != last,
        TileStream::next_content_revision(last) >= 1,
{
}

/// An edit retires what was streamed, through whichever door it comes: the
/// output counts on, and no page of any output is shown, no tile queued and no
/// demand planned until the stream is synchronized with new content. The host is
/// asked to drop the queue and the pages and to switch streaming off, once.
pub proof fn edits_retire_streamed_pages(before: TileStream, id: LayerId, revision: u64)
    ensures
        before.edited_by(EvalState::suffix_dirt(id), revision),
        before.edited_by(EvalState::stage_dirt(id), revision),
        before.edited_by(EvalState::whole_dirt(), revision),
{
    reveal_with_fuel(TileStream::performed_all, 5);
    reveal_with_fuel(TileStream::asked_by_all, 5);
    let suffix = EvalState::suffix_dirt(id);
    assert(suffix.drop_last() =~= seq![suffix[0], suffix[1]]);
    assert(suffix.drop_last().drop_last() =~= seq![suffix[0]]);
    assert(suffix.drop_last().drop_last().drop_last() =~= Seq::<EvalEffect>::empty());
    let stage = EvalState::stage_dirt(id);
    assert(stage.drop_last() =~= seq![stage[0], stage[1]]);
    assert(stage.drop_last().drop_last() =~= seq![stage[0]]);
    assert(stage.drop_last().drop_last().drop_last() =~= Seq::<EvalEffect>::empty());
    let whole = EvalState::whole_dirt();
    assert(whole.drop_last() =~= seq![whole[0], whole[1], whole[2]]);
    assert(whole.drop_last().drop_last() =~= seq![whole[0], whole[1]]);
    assert(whole.drop_last().drop_last().drop_last() =~= seq![whole[0]]);
    assert(whole.drop_last().drop_last().drop_last().drop_last() =~= Seq::<EvalEffect>::empty());
    assert(TileStream::asked_by_all(suffix) =~= TileStream::retirement());
    assert(TileStream::asked_by_all(stage) =~= TileStream::retirement());
    assert(TileStream::asked_by_all(whole) =~= TileStream::retirement());
}

/// An edit anywhere in a list of effects retires what was streamed, and nothing
/// behind it brings any of it back: only new content does.
pub proof fn no_effect_undoes_a_retirement(
    before: TileStream,
    effects: Seq<EvalEffect>,
    at: int,
    revision: u64,
)
    requires
        0 <= at < effects.len(),
        effects[at] is AdvanceOutputRevision || effects[at] is RetireStreaming,
    ensures
        before.performed_all(effects) == before.performed_all(effects).retired(),
        before.performed_all(effects).wf(),
        !before.performed_all(effects).shows(revision),
        !before.performed_all(effects).can_plan(),
    decreases effects.len(),
{
    let front = effects.drop_last();
    if at < front.len() {
        assert(front[at] == effects[at]);
        no_effect_undoes_a_retirement(before, front, at, revision);
    }
}

/// Pages of an earlier output are never shown: whatever is shown is of the output
/// at hand.
pub proof fn only_current_pages_are_shown(stream: TileStream, revision: u64)
    requires
        stream.wf(),
        stream.shows(revision),
    ensures
        revision == stream.output_revision,
{
}

/// A retired stream stays off: synchronizing it shows nothing until new content
/// has been queued, and nothing can be planned until a new pyramid is known.
pub proof fn a_retired_stream_stays_off(stream: TileStream, sight: SyncSight)
    ensures
        !(stream_decision(stream.retired().observed(sight)) is Enable),
        !stream.retired().can_plan(),
{
}

/// The tiles that are missing are what is requested: one request for every demanded
/// tile whose page is not current, in the order of the plan, and none for a tile
/// whose page is. A request carries the demand as it stands, under the content that
/// was asked for.
pub proof fn missing_tiles_are_requested(
    plan: &[TileDemand],
    resident: &[bool],
    stamp: TerrainContentStamp,
    requests: Vec<TerrainTileWorkRequest>,
)
    requires
        plan@.len() == resident@.len(),
        call_ensures(demand_requests, (plan, resident, stamp), requests),
    ensures
        exists|at: Seq<int>| #[trigger]
            picks_the_missing(at, plan@, resident@, stamp, requests@),
        forall|i: int|
            0 <= i < plan@.len() && !#[trigger] resident@[i] ==> exists|k: int|
                0 <= k < requests@.len() && (#[trigger] requests@[k]).key == plan@[i].key,
        forall|k: int|
            0 <= k < requests@.len() ==> exists|i: int|
                0 <= i < plan@.len() && !#[trigger] resident@[i] && (
                #[trigger] requests@[k]).key == plan@[i].key,
{
    missing_are_picked(plan@, resident@, stamp);
    let at = choose|at: Seq<int>| #[trigger]
        picks_the_missing(at, plan@, resident@, stamp, requests@);
    assert forall|i: int| 0 <= i < plan@.len() && !#[trigger] resident@[i] implies exists|k: int|
        0 <= k < requests@.len() && (#[trigger] requests@[k]).key == plan@[i].key by {
        assert(at.contains(i));
        let k = choose|k: int| 0 <= k < at.len() && at[k] == i;
        assert(requests@[k].key == plan@[i].key);
    }
    assert forall|k: int| 0 <= k < requests@.len() implies exists|i: int|
        0 <= i < plan@.len() && !#[trigger] resident@[i] && (#[trigger] requests@[k]).key
            == plan@[i].key by {
        let i = at[k];
        assert(!resident@[i] && requests@[k].key == plan@[i].key);
    }
}

/// `at` lists the places of the plan whose pages are not current, in order, and the
/// requests are those of the demands at these places.
pub open spec fn picks_the_missing(
    at: Seq<int>,
    plan: Seq<TileDemand>,
    resident: Seq<bool>,
    stamp: TerrainContentStamp,
    requests: Seq<TerrainTileWorkRequest>,
) -> bool {
    &&& at.len() == requests.len()
    &&& forall|k: int, l: int| 0 <= k < l < at.len() ==> at[k] < at[l]
    &&& forall|i: int| 0 <= i < plan.len() && !resident[i] ==> #[trigger] at.contains(i)
    &&& forall|k: int|
        #![trigger at[k]]
        #![trigger requests[k]]
        0 <= k < at.len() ==> {
            &&& 0 <= at[k] < plan.len()
            &&& !resident[at[k]]
            &&& requests[k].key == plan[at[k]].key
            &&& requests[k].class == plan[at[k]].class
            &&& requests[k].error_bits == plan[at[k]].error_bits
            &&& requests[k].distance_bits == plan[at[k]].distance_bits
            &&& requests[k].content == stamp
            &&& requests[k].visible
            &&& requests[k].source is GpuCompiledPlan
        }
}

proof fn missing_are_picked(
    plan: Seq<TileDemand>,
    resident: Seq<bool>,
    stamp: TerrainContentStamp,
)
    requires
        plan.len() <= resident.len(),
    ensures
        exists|at: Seq<int>| #[trigger]
            picks_the_missing(at, plan, resident, stamp, missing_requests(plan, resident, stamp)),
    decreases plan.len(),
{
    let all = missing_requests(plan, resident, stamp);
    if plan.len() == 0 {
        assert(picks_the_missing(Seq::empty(), plan, resident, stamp, all));
    } else {
        let front = plan.drop_last();
        missing_are_picked(front, resident, stamp);
        let rest = missing_requests(front, resident, stamp);
        let at = choose|at: Seq<int>| #[trigger]
            picks_the_missing(at, front, resident, stamp, rest);
        let last = plan.len() - 1;
        assert forall|k: int| #![trigger at[k]] 0 <= k < at.len() implies plan[at[k]]
            == front[at[k]] by {}
        if resident[last] {
            assert(picks_the_missing(at, plan, resident, stamp, all));
        } else {
            let more = at.push(last);
            assert(more[at.len() as int] == last);
            assert forall|i: int| 0 <= i < plan.len() && !resident[i] implies #[trigger] more.contains(
                i,
            ) by {
                if i < last {
                    assert(at.contains(i));
                    let k = choose|k: int| 0 <= k < at.len() && at[k] == i;
                    assert(more[k] == i);
                }
            }
            assert forall|k: int, l: int| 0 <= k < l < more.len() implies more[k] < more[l] by {
                if l < at.len() {
                    assert(at[k] < at[l]);
                } else {
                    assert(at[k] < front.len());
                }
            }
            assert(picks_the_missing(more, plan, resident, stamp, all));
        }
    }
}

/// A grid has every tile once, row by row: the tile of column `tx` and row `tz`
/// comes after all full rows before it and all columns before it.
pub proof fn a_grid_has_every_tile_once(tiles_x: u32, tiles_z: u32, tx: int, tz: int)
    requires
        0 <= tx < tiles_x,
        0 <= tz < tiles_z,
    ensures
        grid_tiles(tiles_x as int, tiles_z as int).len() == tiles_x * tiles_z,
        0 <= tz * tiles_x + tx < tiles_x * tiles_z,
        grid_tiles(tiles_x as int, tiles_z as int)[tz * tiles_x + tx].tx == tx,
        grid_tiles(tiles_x as int, tiles_z as int)[tz * tiles_x + tx].tz == tz,
{
    grid_row(tiles_x as int, tiles_z as int, tx, tz);
}

proof fn grid_length(tiles_x: int, tiles_z: int)
    requires
        0 <= tiles_x,
        0 <= tiles_z,
    ensures
        grid_tiles(tiles_x, tiles_z).len() == tiles_x * tiles_z,
    decreases tiles_z,
{
    if tiles_z > 0 {
        grid_length(tiles_x, tiles_z - 1);
        assert(tiles_x * (tiles_z - 1) + tiles_x == tiles_x * tiles_z) by (nonlinear_arith);
    } else {
        assert(tiles_x * 0 == 0) by (nonlinear_arith);
    }
}

proof fn grid_row(tiles_x: int, tiles_z: int, tx: int, tz: int)
    requires
        0 <= tx < tiles_x <= u32::MAX,
        0 <= tz < tiles_z <= u32::MAX,
    ensures
        grid_tiles(tiles_x, tiles_z).len() == tiles_x * tiles_z,
        0 <= tz * tiles_x + tx < tiles_x * tiles_z,
        grid_tiles(tiles_x, tiles_z)[tz * tiles_x + tx].tx == tx,
        grid_tiles(tiles_x, tiles_z)[tz * tiles_x + tx].tz == tz,
    decreases tiles_z,
{
    grid_length(tiles_x, tiles_z);
    grid_length(tiles_x, tiles_z - 1);
    assert(0 <= tz * tiles_x) by (nonlinear_arith)
        requires
            0 <= tz,
            0 <= tiles_x,
    ;
    assert((tz + 1) * tiles_x <= tiles_x * tiles_z) by (nonlinear_arith)
        requires
            tz + 1 <= tiles_z,
            0 <= tiles_x,
    ;
    assert((tz + 1) * tiles_x == tz * tiles_x + tiles_x) by (nonlinear_arith);
    if tz < tiles_z - 1 {
        grid_row(tiles_x, tiles_z - 1, tx, tz);
    } else {
        assert(tz * tiles_x == tiles_x * (tiles_z - 1)) by (nonlinear_arith)
            requires
                tz == tiles_z - 1,
        ;
    }
}

/// The requests of a root cover it: one for each tile of its grid, at level zero and
/// of the pyramid's own content.
pub proof fn root_requests_cover_the_root(
    tiles_x: u32,
    tiles_z: u32,
    stamp: TerrainContentStamp,
    requests: Vec<TerrainTileWorkRequest>,
    tx: int,
    tz: int,
)
    requires
        call_ensures(root_requests, (tiles_x, tiles_z, stamp), requests),
        0 <= tx < tiles_x,
        0 <= tz < tiles_z,
    ensures
        requests@.len() == tiles_x * tiles_z,
        ({
            let request = requests@[tz * tiles_x + tx];
            &&& request.key.tile.tx == tx
            &&& request.key.tile.tz == tz
            &&& request.key.level == 0
            &&& request.content == stamp
            &&& request.visible
            &&& request.class is CoarseCoverage
            &&& request.source is GpuCompiledPlan
            &&& request.error_bits == 0x7f7f_ffffu32
            &&& request.distance_bits == 0
        }),
{
    a_grid_has_every_tile_once(tiles_x, tiles_z, tx, tz);
}

/// A frame takes one tile per quarter millisecond of its budget, at least one and at
/// most 32, and 128 without a limit; and it keeps at least one page. More time never
/// takes fewer tiles.
pub proof fn tile_budgets_grow_with_time(
    budget_us: u64,
    more_us: u64,
    max_pages: usize,
    less: TerrainTileWorkBudget,
    more: TerrainTileWorkBudget,
)
    requires
        call_ensures(terrain_tile_work_budget, (budget_us, max_pages), less),
        call_ensures(terrain_tile_work_budget, (more_us, max_pages), more),
        budget_us <= more_us,
    ensures
        less.max_items <= more.max_items,
        1 <= less.max_items <= 128,
        budget_us < 500 ==> less.max_items == 1,
        500 <= budget_us < 8250 ==> 250 * less.max_items <= budget_us < 250 * (less.max_items + 1),
        8000 <= budget_us && budget_us != u64::MAX ==> less.max_items == 32,
        budget_us == u64::MAX ==> less.max_items == 128,
        less.budget_us == budget_us,
        less.max_pages >= 1,
        max_pages >= 1 ==> less.max_pages == max_pages,
        max_pages == 0 ==> less.max_pages == 1,
{
}

/// As many tiles are demanded as there are pages, and the walk visits 32 nodes for
/// each of them and never fewer than 64.
pub proof fn demand_is_bounded_by_pages(pages: Option<usize>, limits: DemandLimits)
    requires
        call_ensures(demand_limits, (pages,), limits),
    ensures
        pages matches Some(n) ==> limits.max_demand_tiles == n,
        pages is None ==> limits.max_demand_tiles == 1,
        limits.max_visited_nodes >= 64,
        pages matches Some(n) ==> (2 <= n && 32 * n <= usize::MAX ==> limits.max_visited_nodes
            == 32 * n),
{
}

/// Every tile of a new CPU height is queued once, at the height's level and under a
/// content of its own and of the output at hand; without an atlas or a level nothing
/// is. Whatever was queued or planned before is gone either way, and what the
/// renderer shows stays until it is synchronized.
pub proof fn every_tile_of_a_height_is_queued(
    stream: &mut TileStream,
    has_atlas: bool,
    level: Option<PyramidLevel>,
    tiles: &[TileId],
    document: u64,
    plan: u64,
    queued: Option<(TerrainContentStamp, Vec<TerrainTileWorkRequest>)>,
)
    requires
        call_ensures(
            TileStream::queue_final_tile_uploads,
            (stream, has_atlas, level, tiles, document, plan),
            queued,
        ),
    ensures
        queued is Some <==> has_atlas && level is Some,
        final(stream).streaming == old(stream).streaming,
        final(stream).output_revision == old(stream).output_revision,
        final(stream).gpu_pyramid is None,
        final(stream).planning_metadata is None,
        final(stream).latest_demand is None,
        !final(stream).error_readback,
        queued is None ==> final(stream).live_content is None,
        queued matches Some((stamp, requests)) ==> {
            &&& stamp.document_revision == document
            &&& stamp.plan_revision == plan
            &&& stamp.output_revision == old(stream).output_revision
            &&& stamp.content_revision != old(stream).next_cpu_tile_content_revision
            &&& stamp.content_revision == final(stream).next_cpu_tile_content_revision
            &&& final(stream).live_content == Some(stamp)
            &&& requests@.len() == tiles@.len()
            &&& forall|i: int|
                #![trigger requests@[i]]
                0 <= i < tiles@.len() ==> {
                    &&& requests@[i].key.tile == tiles@[i]
                    &&& requests@[i].key.level == level->0.index
                    &&& requests@[i].content == stamp
                    &&& requests@[i].source is CpuHeight
                    &&& requests@[i].class is CoarseCoverage
                    &&& !requests@[i].visible
                }
        },
{
    consecutive_cpu_results_differ(old(stream).next_cpu_tile_content_revision);
}

/// Only a complete, final output of the current generation seeds a pyramid, and only
/// where there is an atlas. One that was made is live at once, and its errors are on
/// their way; nothing is planned by the errors of another.
pub proof fn only_final_outputs_seed_pyramids(
    stream: &mut TileStream,
    output: GpuOutputIdentity,
    token: u64,
    has_atlas: bool,
    made: Option<PyramidIdentity>,
    tiles_x: u32,
    tiles_z: u32,
    queued: Option<(TerrainContentStamp, Vec<TerrainTileWorkRequest>)>,
)
    requires
        call_ensures(
            TileStream::materialize_gpu_pyramid,
            (stream, output, token, has_atlas, made, tiles_x, tiles_z),
            queued,
        ),
    ensures
        !output.current_complete_final || output.intent is InteractiveLocal || output.generation
            != token || !has_atlas || made is None ==> queued is None && *final(stream) == *old(stream),
        output.current_complete_final && output.intent is Complete && output.generation == token
            && has_atlas ==> (made matches Some(pyramid) ==> {
            &&& queued matches Some((stamp, requests)) && stamp == pyramid.content
                && requests@.len() == grid_tiles(tiles_x as int, tiles_z as int).len()
            &&& final(stream).gpu_pyramid == Some(pyramid)
            &&& final(stream).error_readback
            &&& final(stream).live_content == Some(pyramid.content)
            &&& final(stream).planning_metadata is None
            &&& final(stream).latest_demand is None
            &&& final(stream).streaming == old(stream).streaming
            &&& final(stream).output_revision == old(stream).output_revision
        }),
{
}

/// Demand is planned only by accepted errors of the live pyramid: a transfer that is
/// pending or failed plans nothing, nor do refused errors or those of another
/// pyramid. Where a plan comes out it is kept, and the caller comes back while it
/// changes or tiles are queued.
pub proof fn demand_follows_the_live_pyramid(
    stream: &mut TileStream,
    seen: DemandSight,
    again: bool,
)
    requires
        call_ensures(TileStream::refresh_terrain_demand, (stream, seen), again),
    ensures
        seen.poll is Pending || seen.poll is Failed || !seen.has_renderer || seen.plan is None
            || old(stream).gpu_pyramid is None ==> !again,
        seen.poll is Pending || seen.poll is Failed ==> final(stream).latest_demand == old(stream).latest_demand && final(stream).planning_metadata == old(stream).planning_metadata,
        seen.poll is Failed || seen.poll is Ready ==> !final(stream).error_readback,
        seen.poll matches MetadataPoll::Ready(identity) ==> {
            let live = old(stream).gpu_pyramid == Some(identity)
                && identity.content.output_revision == old(stream).output_revision;
            &&& live && seen.errors_accepted ==> final(stream).planning_metadata == Some(identity)
            &&& live && !seen.errors_accepted ==> !again && final(stream).planning_metadata == old(stream).planning_metadata
            &&& live && seen.errors_accepted && seen.has_renderer && seen.plan is Some ==> again
                && final(stream).latest_demand == seen.plan && final(stream).live_content == Some(
                identity.content,
            )
            &&& !live ==> final(stream).planning_metadata == old(stream).planning_metadata
        },
        seen.poll is Idle && seen.has_renderer && seen.plan is Some && (
        old(stream).planning_metadata matches Some(identity) && old(stream).gpu_pyramid == Some(
            identity,
        ) && identity.content.output_revision == old(stream).output_revision) ==> {
            &&& final(stream).latest_demand == seen.plan
            &&& !seen.scheduler_empty ==> again
            &&& old(stream).latest_demand is None ==> again
            &&& (old(stream).latest_demand matches Some(latest) && latest@ == seen.plan->0@)
                && seen.scheduler_empty ==> !again
            &&& (old(stream).latest_demand matches Some(latest) && latest@ != seen.plan->0@)
                ==> again
        },
        final(stream).gpu_pyramid == old(stream).gpu_pyramid,
        final(stream).streaming == old(stream).streaming,
{
}

/// A lease of the live content whose page is missing is worked on by its source: a
/// compiled plan starts a job, and only where none starts does a live pyramid stand
/// in; a CPU tile is uploaded; a pyramid tile published. A resident page is left
/// alone.
pub proof fn leases_are_settled_by_their_source(
    lease: TileLease,
    answers: LeaseAnswers,
    pyramid: Option<PyramidIdentity>,
    live: TerrainContentStamp,
)
    requires
        lease.request.content == live,
    ensures
        ({
            let outcome = lease_outcome(lease, answers, pyramid, live);
            let step = lease.first_step(live, answers.resident);
            let stands_in = pyramid is Some && pyramid->0.content == live;
            &&& answers.resident ==> step is SkipResident && outcome is SkippedResident
            &&& !answers.resident ==> {
                &&& lease.request.source is GpuCompiledPlan ==> step is StartCompiled
                &&& lease.request.source is CpuHeight ==> step is UploadCpu
                &&& lease.request.source is GpuPyramid ==> step is PublishPyramid
                &&& lease.request.source is GpuCompiledPlan && answers.compiled_started
                    ==> outcome is Retained
                &&& lease.request.source is GpuCompiledPlan && !answers.compiled_started
                    && stands_in && answers.published ==> outcome is Completed
                &&& lease.request.source is CpuHeight && answers.has_cpu_tile && answers.published
                    ==> outcome is Completed
                &&& lease.request.source is GpuPyramid && stands_in && answers.published
                    ==> outcome is Completed
                &&& outcome is Completed ==> answers.published
                &&& outcome is Retained ==> lease.request.source is GpuCompiledPlan
                    && answers.compiled_started
                &&& !answers.published && !(outcome is Retained) ==> outcome is Failed
                &&& lease.request.source is CpuHeight && !answers.has_cpu_tile ==> outcome is Failed
                &&& !(lease.request.source is CpuHeight) && !stands_in && !answers.compiled_started
                    ==> outcome is Failed
            }
        }),
{
}

/// Stale leases are given back first.
pub proof fn stale_leases_are_given_back(
    lease: TileLease,
    live: TerrainContentStamp,
    resident: bool,
)
    requires
        lease.request.content != live,
    ensures
        lease.first_step(live, resident) is Fail,
{
}

/// The count of uploads is that of the completed leases: one more completed lease
/// counts one more, any other counts nothing.
pub proof fn uploads_are_counted(outcomes: Seq<LeaseOutcome>, next: LeaseOutcome)
    ensures
        completed_count(Seq::empty()) == 0,
        next is Completed ==> completed_count(outcomes.push(next)) == completed_count(outcomes) + 1,
        !(next is Completed) ==> completed_count(outcomes.push(next)) == completed_count(outcomes),
        completed_count(outcomes) <= outcomes.len(),
    decreases outcomes.len(),
{
    assert(outcomes.push(next).drop_last() =~= outcomes);
    if outcomes.len() > 0 {
        assert(outcomes =~= outcomes.drop_last().push(outcomes.last()));
        uploads_are_counted(outcomes.drop_last(), outcomes.last());
    }
}

/// A batch of leases is settled lease by lease, and the uploads are counted on top
/// of those before.
pub proof fn batches_are_settled_lease_by_lease(
    leases: &[TileLease],
    answers: &[LeaseAnswers],
    pyramid: Option<PyramidIdentity>,
    live: TerrainContentStamp,
    already: usize,
    settled: (Vec<LeaseOutcome>, usize),
    i: int,
)
    requires
        leases@.len() == answers@.len(),
        already + leases@.len() <= usize::MAX,
        call_ensures(
            upload_pending_terrain_tiles,
            (leases, answers, pyramid, live, already),
            settled,
        ),
        0 <= i < leases@.len(),
    ensures
        settled.0@.len() == leases@.len(),
        already <= settled.1 <= already + leases@.len(),
        leases@[i].request.content != live ==> settled.0@[i] is Failed,
        leases@[i].request.content == live && answers@[i].resident ==> settled.0@[i]
            is SkippedResident,
        leases@[i].request.content == live && !answers@[i].resident && answers@[i].published && (
        leases@[i].request.source is CpuHeight && answers@[i].has_cpu_tile) ==> settled.0@[i]
            is Completed,
        settled.0@[i] is Completed ==> settled.1 > already && answers@[i].published,
{
    let outcomes = settled.0@;
    if outcomes.len() > 0 {
        uploads_are_counted(outcomes.drop_last(), outcomes.last());
        assert(outcomes =~= outcomes.drop_last().push(outcomes.last()));
        uploads_are_counted(outcomes, outcomes.last());
    }
    if outcomes[i] is Completed {
        a_completed_lease_counts(outcomes, i);
    }
}

proof fn a_completed_lease_counts(outcomes: Seq<LeaseOutcome>, i: int)
    requires
        0 <= i < outcomes.len(),
        outcomes[i] is Completed,
    ensures
        completed_count(outcomes) >= 1,
    decreases outcomes.len(),
{
    if i < outcomes.len() - 1 {
        assert(outcomes.drop_last()[i] == outcomes[i]);
        a_completed_lease_counts(outcomes.drop_last(), i);
    }
}

/// A compiled tile is published once the GPU is done, for the live content and under
/// a live lease; without either it is cancelled.
pub proof fn compiled_tiles_wait_for_the_gpu(
    lease: TileLease,
    lease_live: bool,
    finished: bool,
    live: TerrainContentStamp,
    step: CompiledJobStep,
)
    requires
        call_ensures(poll_compiled_tile_job, (lease, lease_live, finished, live), step),
    ensures
        !lease_live || lease.request.content != live ==> step is Cancel,
        lease_live && lease.request.content == live && finished ==> step is Publish,
        lease_live && lease.request.content == live && !finished ==> step is Retain,
{
}

/// Published tiles complete their lease, and those of the root stay resident.
pub proof fn root_tiles_are_pinned(published: bool, key: TerrainTileKey, after: Published)
    requires
        call_ensures(after_publication, (published, key), after),
    ensures
        after.complete <==> published,
        after.pin ==> published && key.level == 0,
        published && key.level == 0 ==> after.pin,
{
}

/// The renderer switches to pages once there is content at a level and nothing of a
/// pyramid's demand is missing; it then shows that content at that level. A pyramid
/// falls back to its root, a CPU height to the whole field. Without an atlas nothing
/// is decided, and in every other case the whole field is shown.
pub proof fn pages_are_shown_once_complete(seen: StreamObservation)
    ensures
        ({
            let decision = stream_decision(seen);
            let complete = !seen.has_gpu_pyramid || (!seen.error_readback && seen.has_demand
                && seen.scheduler_empty && seen.compiled_jobs_empty && seen.root_current);
            &&& !seen.has_atlas ==> decision is Leave
            &&& seen.has_atlas && (seen.live_content is None || seen.level is None || !complete)
                ==> decision is Disable
            &&& seen.has_atlas && complete && seen.live_content is Some && seen.level is Some ==> {
                &&& decision matches StreamDecision::Enable { target, content, fallback }
                    && Some(target) == seen.level && Some(content) == seen.live_content && (
                seen.has_gpu_pyramid ==> fallback is RootRequired) && (!seen.has_gpu_pyramid
                    ==> fallback is MonolithicMigration)
            }
        }),
{
}

/// What the stream shows after it was synchronized: the pages of the live content
/// where they are complete, the whole field where they are not, and what it showed
/// before where nobody could be told or nothing was uploaded.
pub proof fn synchronizing_shows_the_live_content(
    stream: &mut TileStream,
    uploaded: usize,
    sight: SyncSight,
    decision: Option<StreamDecision>,
)
    requires
        call_ensures(TileStream::finish_uploads, (stream, uploaded, sight), decision),
    ensures
        uploaded == 0 || !sight.has_renderer || !sight.has_atlas ==> *final(stream) == *old(stream),
        uploaded == 0 <==> decision is None,
        uploaded > 0 && sight.has_renderer && sight.has_atlas ==> {
            &&& old(stream).live_content is None || sight.level is None ==> !final(stream).streaming
            &&& old(stream).gpu_pyramid is Some && (old(stream).error_readback || old(stream).latest_demand is None || !sight.scheduler_empty || !sight.compiled_jobs_empty
                || !sight.root_current) ==> !final(stream).streaming
            &&& old(stream).gpu_pyramid is None && sight.level is Some ==> (
            old(stream).live_content matches Some(content) ==> final(stream).streaming && final(stream).streamed_revision == content.output_revision)
            &&& old(stream).gpu_pyramid is Some && !old(stream).error_readback && old(stream).latest_demand is Some && sight.scheduler_empty && sight.compiled_jobs_empty
                && sight.root_current && sight.level is Some ==> (
            old(stream).live_content matches Some(content) ==> final(stream).streaming && final(stream).streamed_revision == content.output_revision)
        },
        final(stream).live_content == old(stream).live_content,
        final(stream).output_revision == old(stream).output_revision,
{
}

/// Uploads need an atlas, a device, and a height or a pyramid; where one is missing,
/// nothing stays queued.
pub proof fn uploads_need_something_to_upload(
    stream: &mut TileStream,
    has_atlas: bool,
    has_gpu: bool,
    has_height: bool,
    open: bool,
)
    requires
        call_ensures(TileStream::open_uploads, (stream, has_atlas, has_gpu, has_height), open),
    ensures
        has_atlas && has_gpu && (has_height || old(stream).gpu_pyramid is Some) ==> open && *final(stream) == *old(stream),
        !has_atlas || !has_gpu || (!has_height && old(stream).gpu_pyramid is None) ==> !open
            && final(stream).live_content is None,
        final(stream).streaming == old(stream).streaming,
        final(stream).gpu_pyramid == old(stream).gpu_pyramid,
{
}

/// What an effect of the evaluation does to the stream: only an edit or a new
/// configuration counts the output on, and only an edit or a retirement clears what
/// is queued, planned and shown, and asks the host to drop its part.
pub proof fn only_edits_end_an_output(stream: TileStream, effect: EvalEffect)
    ensures
        ({
            let after = stream.performed(effect);
            &&& effect is AdvanceOutputRevision || effect is ReconfigureRuntime
                ==> after.output_revision != stream.output_revision
            &&& !(effect is AdvanceOutputRevision) && !(effect is ReconfigureRuntime)
                ==> after.output_revision == stream.output_revision
            &&& effect is AdvanceOutputRevision || effect is RetireStreaming ==> !after.streaming
                && after.live_content is None && after.gpu_pyramid is None
                && after.planning_metadata is None && after.latest_demand is None
                && !after.error_readback && TileStream::asked_by(effect).contains(
                StreamEffect::ClearTileWork,
            ) && TileStream::asked_by(effect).contains(StreamEffect::ClearAtlas)
                && TileStream::asked_by(effect).contains(StreamEffect::StreamingOff)
            &&& !(effect is AdvanceOutputRevision) && !(effect is RetireStreaming)
                ==> after.streaming == stream.streaming && after.live_content
                == stream.live_content && TileStream::asked_by(effect).len() == 0
            &&& after.next_cpu_tile_content_revision == stream.next_cpu_tile_content_revision
        }),
{
    let asked = TileStream::asked_by(effect);
    if effect is AdvanceOutputRevision || effect is RetireStreaming {
        assert(asked[0] is ClearTileWork && asked[1] is ClearAtlas && asked[2] is StreamingOff);
    }
}

/// A level that is streamed is one of the list and has the wanted width; the level
/// that the GPU works from comes before it.
pub proof fn the_streamed_level_has_the_wanted_width(
    source: Option<PyramidLevel>,
    levels: &[PyramidLevel],
    width: Option<u32>,
    found: Option<PyramidLevel>,
)
    requires
        call_ensures(streamed_level_for_current_output, (source, levels, width), found),
    ensures
        source is Some ==> found == source,
        source is None && width is None ==> found is None,
        source is None ==> (width matches Some(wanted) ==> (found matches Some(level)
            ==> level.resolution == wanted && levels@.contains(level))),
{
    if source is None && width is Some && found is Some {
        let wanted = width->0;
        let level = found->0;
        let i = choose|i: int|
            #![trigger levels@[i]]
            {
                &&& 0 <= i < levels@.len()
                &&& levels@[i] == level
                &&& level.resolution == wanted
                &&& forall|j: int|
                    #![trigger levels@[j]]
                    0 <= j < i ==> levels@[j].resolution != wanted
            };
        assert(levels@[i] == level);
    }
}

/// The level of the last height is chosen as that of an output without a GPU source.
pub proof fn the_last_height_has_its_own_level(
    levels: &[PyramidLevel],
    width: Option<u32>,
    found: Option<PyramidLevel>,
)
    requires
        call_ensures(streamed_level_for_last_height, (levels, width), found),
    ensures
        width is None ==> found is None,
        width matches Some(wanted) ==> (found matches Some(level) ==> level.resolution == wanted),
        width matches Some(wanted) ==> (found matches Some(level) ==> levels@.contains(level)),
{
    if width is Some && found is Some {
        let wanted = width->0;
        let level = found->0;
        let i = choose|i: int|
            #![trigger levels@[i]]
            {
                &&& 0 <= i < levels@.len()
                &&& levels@[i] == level
                &&& level.resolution == wanted
                &&& forall|j: int|
                    #![trigger levels@[j]]
                    0 <= j < i ==> levels@[j].resolution != wanted
            };
        assert(levels@[i].resolution == wanted);
    }
}

/// New metadata is planned with, and what was demanded before it is forgotten.
pub proof fn new_metadata_is_planned_afresh(stream: &mut TileStream, identity: PyramidIdentity)
    requires
        call_ensures(TileStream::metadata_accepted, (stream, identity), ()),
    ensures
        final(stream).planning_metadata == Some(identity),
        final(stream).latest_demand is None,
{
}

/// A plan is remembered; it is new work unless it is what was demanded last and the
/// scheduler has nothing left.
pub proof fn unchanged_plans_are_no_new_work(
    stream: &mut TileStream,
    plan: Vec<TileDemand>,
    scheduler_empty: bool,
    work: bool,
)
    requires
        call_ensures(TileStream::demand_planned, (stream, plan, scheduler_empty), work),
    ensures
        final(stream).latest_demand == Some(plan),
        !scheduler_empty ==> work,
        old(stream).latest_demand is None ==> work,
        old(stream).latest_demand matches Some(latest) ==> (latest@ != plan@ ==> work),
        old(stream).latest_demand matches Some(latest) ==> (latest@ == plan@ && scheduler_empty
            ==> !work),
{
}

/// Tiles are uploaded where there is an atlas and a GPU, and a height or a pyramid to
/// take them from.
pub proof fn uploads_need_somewhere_and_something(
    atlas: bool,
    gpu: bool,
    height: bool,
    pyramid: bool,
    can: bool,
)
    requires
        call_ensures(can_upload_tiles, (atlas, gpu, height, pyramid), can),
    ensures
        can ==> atlas && gpu,
        can ==> height || pyramid,
        atlas && gpu && height ==> can,
        atlas && gpu && pyramid ==> can,
{
}

/// A started job is kept; one that did not start is published from a pyramid of the
/// live content, and has failed without one.
pub proof fn unstarted_jobs_fall_back_to_the_pyramid(
    started: bool,
    pyramid: Option<PyramidIdentity>,
    live: TerrainContentStamp,
    next: CompiledStart,
    is_live: bool,
)
    requires
        call_ensures(after_compiled_start, (started, pyramid, live), next),
        call_ensures(pyramid_is_live, (pyramid, live), is_live),
    ensures
        next is Retain <==> started,
        next is PublishPyramid <==> !started && is_live,
        next is Fail <==> !started && !is_live,
        pyramid is None ==> !is_live,
        pyramid matches Some(identity) ==> (is_live <==> identity.content == live),
{
}

/// A pyramid is seeded by a complete and final output of the live evaluation, where
/// there is an atlas for it.
pub proof fn pyramids_come_from_whole_outputs(
    output: GpuOutputIdentity,
    token: u64,
    atlas: bool,
    admitted: bool,
)
    requires
        call_ensures(pyramid_admitted, (output, token, atlas), admitted),
    ensures
        admitted ==> output.current_complete_final,
        admitted ==> output.intent is Complete,
        admitted ==> output.generation == token,
        admitted ==> atlas,
        output.current_complete_final && output.intent is Complete && output.generation == token
            && atlas ==> admitted,
{
}

/// A retired stream shows and plans nothing, says so to whoever draws it, and keeps
/// its counters.
pub proof fn retired_streams_are_silent(stream: &mut TileStream, effects: Vec<StreamEffect>)
    requires
        call_ensures(TileStream::retire_streamed_residency, (stream,), effects),
    ensures
        !final(stream).streaming,
        final(stream).live_content is None,
        final(stream).gpu_pyramid is None,
        final(stream).latest_demand is None,
        final(stream).planning_metadata is None,
        !final(stream).error_readback,
        final(stream).next_cpu_tile_content_revision == old(stream).next_cpu_tile_content_revision,
        final(stream).output_revision == old(stream).output_revision,
        effects@.contains(StreamEffect::ClearTileWork),
        effects@.contains(StreamEffect::ClearAtlas),
        effects@.contains(StreamEffect::StreamingOff),
{
    assert(effects@[0] == StreamEffect::ClearTileWork);
    assert(effects@[1] == StreamEffect::ClearAtlas);
    assert(effects@[2] == StreamEffect::StreamingOff);
}

} // verus!
