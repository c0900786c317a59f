//! Programmatic height-pyramid package export.
//!
//! The controller walks the pyramid from its root to its finest level, one tile
//! at a time: evaluate, read back, write. It owns the order and the ways an
//! export can end; the caller owns the scheduler, the producer and the package
//! builder and reports what each of them answered.
use vstd::prelude::*;

use crate::tile_stream::{
    TerrainContentStamp, TerrainDemandClass, TerrainTileKey, TerrainTileWorkRequest,
    TerrainTileWorkSource, TileId, TileLease,
};

verus! {

/// Why an export cannot start.
pub enum ExportPreflightError {
    /// The document's metrics do not admit the export resolution.
    Metrics(String),
    Plan(String),
    Unsupported(String),
    /// The package could not be opened.
    Package(String),
}

impl ExportPreflightError {
    pub open spec fn text(self) -> Seq<char> {
        match self {
            ExportPreflightError::Metrics(detail) => detail@,
            ExportPreflightError::Plan(detail) => "compiled export plan failed: "@ + detail@,
            ExportPreflightError::Unsupported(detail) => "streaming export is unsupported: "@
                + detail@,
            ExportPreflightError::Package(detail) => detail@,
        }
    }

    pub fn message(self) -> (r: String)
        ensures
            r@ == self.text(),
    {
        match self {
            ExportPreflightError::Metrics(detail) => detail,
            ExportPreflightError::Plan(detail) => {
                let mut text = "compiled export plan failed: ".to_owned();
                text.append(detail.as_str());
                text
            },
            ExportPreflightError::Unsupported(detail) => {
                let mut text = "streaming export is unsupported: ".to_owned();
                text.append(detail.as_str());
                text
            },
            ExportPreflightError::Package(detail) => detail,
        }
    }
}

/// What the preflight found: the size of the pyramid and of its finest level.
#[derive(Debug, Clone, Copy, PartialEq, Eq, Structural)]
pub struct ExportShape {
    pub total_tiles: usize,
    /// Tiles of the finest level; `None` when it has no metrics.
    pub finest_tiles: Option<usize>,
    pub max_level: u8,
}

/// What the caller sets up for a started export.
#[derive(Debug, Clone, Copy, PartialEq, Eq, Structural)]
pub struct ExportStart {
    pub stamp: TerrainContentStamp,
    pub scheduler_capacity: usize,
    /// The level to queue first.
    pub level: u8,
}

/// What to do in a frame.
#[derive(Debug, Clone, Copy, PartialEq, Eq, Structural)]
pub enum ExportStep {
    /// No export runs.
    Idle,
    /// The export was cancelled: drop everything.
    Cancel,
    PollReadback(TileLease),
    PollEvaluation(TileLease),
    /// Take the next tile of the level.
    Dequeue,
}

/// What came of a tile's readback.
pub enum ReadbackOutcome {
    Pending,
    /// The tile is in the package.
    Written,
    WriteFailed(String),
    Failed(String),
}

/// What came of a tile's evaluation.
pub enum EvaluationOutcome {
    Pending,
    ReadbackStarted,
    Failed(String),
}

/// What came of taking the next tile.
pub enum DequeueOutcome {
    /// The level has no tile left to hand out.
    Empty,
    Started(TileLease),
    PreflightChanged(String),
    InvalidDomain(String),
    ProductionFailed(String),
}

/// What to do with the lease of the tile that was worked on.
#[derive(Debug, Clone, Copy, PartialEq, Eq, Structural)]
pub enum LeaseFate {
    Keep,
    Complete,
    /// Give it back to the scheduler.
    Fail,
    /// The scheduler is cleared anyway.
    Clear,
}

/// How the walk over the levels goes on.
#[derive(Debug, Clone, Copy, PartialEq, Eq, Structural)]
pub enum LevelStep {
    /// The level still has work.
    Wait,
    Queue(u8),
    /// Close the package.
    Finish,
}

/// The plain state of an export.
#[derive(Debug, Clone, Copy, PartialEq, Eq, Structural)]
pub struct ExportCore {
    pub stamp: TerrainContentStamp,
    pub evaluation: Option<TileLease>,
    pub readback: Option<TileLease>,
    pub has_package: bool,
    pub current_level: u8,
    pub max_level: u8,
    pub total_tiles: usize,
    pub completed_tiles: usize,
    pub cancel_requested: bool,
    pub busy: bool,
}

impl ExportCore {
    /// No tile is in work and no package is open.
    pub open spec fn stopped(self) -> ExportCore {
        ExportCore { evaluation: None, readback: None, has_package: false, busy: false, ..self }
    }

    /// The level has nothing in work and nothing queued.
    pub open spec fn level_done(self, scheduler_empty: bool) -> bool {
        self.busy && scheduler_empty && self.evaluation is None && self.readback is None
    }

    /// How the walk over the levels goes on from here.
    pub open spec fn level_step(self, scheduler_empty: bool) -> LevelStep {
        if !self.level_done(scheduler_empty) {
            LevelStep::Wait
        } else if self.current_level < self.max_level {
            LevelStep::Queue((self.current_level + 1) as u8)
        } else {
            LevelStep::Finish
        }
    }

    /// The state once the walk went on.
    pub open spec fn after_step(self, scheduler_empty: bool) -> ExportCore {
        ExportCore {
            current_level: match self.level_step(scheduler_empty) {
                LevelStep::Queue(level) => level,
                _ => self.current_level,
            },
            ..self
        }
    }

    /// The first `n` steps of the walk where each level is done in its turn.
    pub open spec fn walk(self, n: nat) -> Seq<LevelStep>
        decreases n,
    {
        if n == 0 {
            seq![]
        } else {
            seq![self.level_step(true)] + self.after_step(true).walk((n - 1) as nat)
        }
    }
}

pub struct HeightPyramidExportController<P> {
    pub core: ExportCore,
    pub result: Option<Result<P, String>>,
}

pub open spec fn text_of<P>(result: Option<Result<P, String>>, message: Seq<char>) -> bool {
    result matches Some(Err(text)) && text@ == message
}

impl<P> HeightPyramidExportController<P> {
    /// A tile is either evaluated or read back; work and a package exist only
    /// while the export runs, and a result only once it does not.
    pub open spec fn wf(self) -> bool {
        &&& self.core.busy ==> self.result is None && self.core.has_package
        &&& !self.core.busy ==> self.core.evaluation is None && self.core.readback is None
            && !self.core.has_package && !self.core.cancel_requested
        &&& !(self.core.evaluation is Some && self.core.readback is Some)
        &&& self.core.current_level <= self.core.max_level
    }

    pub fn new() -> (r: Self)
        ensures
            r.wf(),
            !r.core.busy,
            r.result is None,
            r.core.total_tiles == 0,
            r.core.completed_tiles == 0,
    {
        HeightPyramidExportController {
            core: ExportCore {
                stamp: TerrainContentStamp {
                    document_revision: 0,
                    plan_revision: 0,
                    output_revision: 0,
                    content_revision: 0,
                },
                evaluation: None,
                readback: None,
                has_package: false,
                current_level: 0,
                max_level: 0,
                total_tiles: 0,
                completed_tiles: 0,
                cancel_requested: false,
                busy: false,
            },
            result: None,
        }
    }

    /// Starts an export of `generation` at the root level. A running export, or
    /// a failed preflight, is refused and changes nothing.
    pub fn start(
        &mut self,
        generation: u64,
        prepared: Result<ExportShape, ExportPreflightError>,
    ) -> (r: Result<ExportStart, String>)
        requires
            old(self).wf(),
        ensures
            final(self).wf(),
            old(self).core.busy ==> {
                &&& *final(self) == *old(self)
                &&& r matches Err(text)
                &&& text@ == "height-pyramid export is already running"@
            },
            !old(self).core.busy && prepared is Err ==> {
                &&& *final(self) == *old(self)
                &&& r matches Err(text)
                &&& text@ == prepared->Err_0.text()
            },
            !old(self).core.busy && prepared is Ok ==> {
                let shape = prepared->Ok_0;
                let stamp = TerrainContentStamp {
                    document_revision: generation,
                    plan_revision: generation,
                    output_revision: generation,
                    content_revision: generation,
                };
                &&& r == Ok::<ExportStart, String>(
                    ExportStart {
                        stamp,
                        scheduler_capacity: match shape.finest_tiles {
                            Some(tiles) if tiles >= 1 => tiles,
                            _ => 1,
                        },
                        level: 0,
                    },
                )
                &&& final(self).result is None
                &&& final(self).core == (ExportCore {
                    stamp,
                    evaluation: None,
                    readback: None,
                    has_package: true,
                    current_level: 0,
                    max_level: shape.max_level,
                    total_tiles: shape.total_tiles,
                    completed_tiles: 0,
                    cancel_requested: false,
                    busy: true,
                })
            },
    {
        if self.core.busy {
            return Err("height-pyramid export is already running".to_owned());
        }
        let shape = match prepared {
            Ok(shape) => shape,
            Err(error) => {
                return Err(error.message());
            },
        };
        let stamp = TerrainContentStamp {
            document_revision: generation,
            plan_revision: generation,
            output_revision: generation,
            content_revision: generation,
        };
        self.core = ExportCore {
            stamp,
            evaluation: None,
            readback: None,
            has_package: true,
            current_level: 0,
            max_level: shape.max_level,
            total_tiles: shape.total_tiles,
            completed_tiles: 0,
            cancel_requested: false,
            busy: true,
        };
        self.result = None;
        let scheduler_capacity: usize = match shape.finest_tiles {
            Some(tiles) => if tiles >= 1 {
                tiles
            } else {
                1
            },
            None => 1,
        };
        Ok(ExportStart { stamp, scheduler_capacity, level: 0 })
    }

    pub fn is_busy(&self) -> (r: bool)
        ensures
            r == self.core.busy,
    {
        self.core.busy
    }

    /// Written tiles over all tiles; the divisor is never zero.
    pub fn progress(&self) -> (r: (usize, usize))
        ensures
            r.0 == self.core.completed_tiles,
            r.1 == if self.core.total_tiles >= 1 {
                self.core.total_tiles
            } else {
                1
            },
    {
        (
            self.core.completed_tiles,
            if self.core.total_tiles >= 1 {
                self.core.total_tiles
            } else {
                1
            },
        )
    }

    /// Asks a running export to stop.
    pub fn cancel(&mut self)
        requires
            old(self).wf(),
        ensures
            final(self).wf(),
            final(self).result == old(self).result,
            final(self).core == (ExportCore {
                cancel_requested: old(self).core.cancel_requested || old(self).core.busy,
                ..old(self).core
            }),
    {
        if self.core.busy {
            self.core = ExportCore { cancel_requested: true, ..self.core };
        }
    }

    pub fn take_result(&mut self) -> (r: Option<Result<P, String>>)
        requires
            old(self).wf(),
        ensures
            final(self).wf(),
            r == old(self).result,
            final(self).result is None,
            final(self).core == old(self).core,
    {
        self.result.take()
    }

    /// The boundary that a frame works on: cancellation first, then the tile
    /// that is read back, then the tile that is evaluated, then the next tile.
    pub open spec fn step_of(self) -> ExportStep {
        if !self.core.busy {
            ExportStep::Idle
        } else if self.core.cancel_requested {
            ExportStep::Cancel
        } else {
            match (self.core.readback, self.core.evaluation) {
                (Some(lease), _) => ExportStep::PollReadback(lease),
                (None, Some(lease)) => ExportStep::PollEvaluation(lease),
                (None, None) => ExportStep::Dequeue,
            }
        }
    }

    /// Says what to do in this frame. A cancelled export is dropped here: no
    /// package, no result.
    pub fn pump(&mut self) -> (r: ExportStep)
        requires
            old(self).wf(),
        ensures
            final(self).wf(),
            r == old(self).step_of(),
            !(r is Cancel) ==> *final(self) == *old(self),
            r is Cancel ==> {
                &&& final(self).core == (ExportCore {
                    cancel_requested: false,
                    ..old(self).core.stopped()
                })
                &&& final(self).result is None
            },
    {
        if !self.core.busy {
            return ExportStep::Idle;
        }
        if self.core.cancel_requested {
            self.core = ExportCore {
                evaluation: None,
                readback: None,
                has_package: false,
                busy: false,
                cancel_requested: false,
                ..self.core
            };
            self.result = None;
            return ExportStep::Cancel;
        }
        match self.core.readback {
            Some(lease) => ExportStep::PollReadback(lease),
            None => match self.core.evaluation {
                Some(lease) => ExportStep::PollEvaluation(lease),
                None => ExportStep::Dequeue,
            },
        }
    }

    fn fail(&mut self, message: String)
        requires
            !old(self).core.cancel_requested,
            old(self).core.current_level <= old(self).core.max_level,
        ensures
            final(self).wf(),
            final(self).core == old(self).core.stopped(),
            final(self).result == Some(Err::<P, String>(message)),
    {
        self.core = ExportCore {
            evaluation: None,
            readback: None,
            has_package: false,
            busy: false,
            ..self.core
        };
        self.result = Some(Err(message));
    }

    /// Takes a readback's outcome in.
    pub fn readback_polled(&mut self, outcome: ReadbackOutcome) -> (r: LeaseFate)
        requires
            old(self).wf(),
            old(self).step_of() is PollReadback,
            old(self).core.completed_tiles < usize::MAX,
        ensures
            final(self).wf(),
            match outcome {
                ReadbackOutcome::Pending => r == LeaseFate::Keep && *final(self) == *old(self),
                ReadbackOutcome::Written => {
                    &&& r == LeaseFate::Complete
                    &&& final(self).result is None
                    &&& final(self).core == (ExportCore {
                        readback: None,
                        completed_tiles: (old(self).core.completed_tiles + 1) as usize,
                        ..old(self).core
                    })
                },
                ReadbackOutcome::WriteFailed(message) => {
                    &&& r == LeaseFate::Clear
                    &&& final(self).core == old(self).core.stopped()
                    &&& final(self).result == Some(Err::<P, String>(message))
                },
                ReadbackOutcome::Failed(message) => {
                    &&& r == LeaseFate::Fail
                    &&& final(self).core == old(self).core.stopped()
                    &&& final(self).result == Some(Err::<P, String>(message))
                },
            },
    {
        match outcome {
            ReadbackOutcome::Pending => LeaseFate::Keep,
            ReadbackOutcome::Written => {
                let completed: usize = self.core.completed_tiles + 1;
                self.core = ExportCore {
                    readback: None,
                    completed_tiles: completed,
                    ..self.core
                };
                LeaseFate::Complete
            },
            ReadbackOutcome::WriteFailed(message) => {
                self.fail(message);
                LeaseFate::Clear
            },
            ReadbackOutcome::Failed(message) => {
                self.fail(message);
                LeaseFate::Fail
            },
        }
    }

    /// Takes an evaluation's outcome in: a finished tile is read back.
    pub fn evaluation_polled(&mut self, outcome: EvaluationOutcome) -> (r: LeaseFate)
        requires
            old(self).wf(),
            old(self).step_of() is PollEvaluation,
        ensures
            final(self).wf(),
            match outcome {
                EvaluationOutcome::Pending => r == LeaseFate::Keep && *final(self) == *old(self),
                EvaluationOutcome::ReadbackStarted => {
                    &&& r == LeaseFate::Keep
                    &&& final(self).result is None
                    &&& final(self).core == (ExportCore {
                        evaluation: None,
                        readback: old(self).core.evaluation,
                        ..old(self).core
                    })
                },
                EvaluationOutcome::Failed(message) => {
                    &&& r == LeaseFate::Fail
                    &&& final(self).core == old(self).core.stopped()
                    &&& final(self).result == Some(Err::<P, String>(message))
                },
            },
    {
        match outcome {
            EvaluationOutcome::Pending => LeaseFate::Keep,
            EvaluationOutcome::ReadbackStarted => {
                self.core = ExportCore {
                    evaluation: None,
                    readback: self.core.evaluation,
                    ..self.core
                };
                LeaseFate::Keep
            },
            EvaluationOutcome::Failed(message) => {
                self.fail(message);
                LeaseFate::Fail
            },
        }
    }

    /// Takes the outcome of taking the next tile in.
    pub fn tile_dequeued(&mut self, outcome: DequeueOutcome) -> (r: LeaseFate)
        requires
            old(self).wf(),
            old(self).step_of() is Dequeue,
        ensures
            final(self).wf(),
            match outcome {
                DequeueOutcome::Empty => r == LeaseFate::Keep && *final(self) == *old(self),
                DequeueOutcome::Started(lease) => {
                    &&& r == LeaseFate::Keep
                    &&& final(self).result is None
                    &&& final(self).core == (ExportCore {
                        evaluation: Some(lease),
                        ..old(self).core
                    })
                },
                DequeueOutcome::PreflightChanged(detail) => {
                    &&& r == LeaseFate::Fail
                    &&& final(self).core == old(self).core.stopped()
                    &&& text_of(
                        final(self).result,
                        "streaming export preflight changed: "@ + detail@,
                    )
                },
                DequeueOutcome::InvalidDomain(detail) => {
                    &&& r == LeaseFate::Fail
                    &&& final(self).core == old(self).core.stopped()
                    &&& text_of(final(self).result, "invalid export tile domain: "@ + detail@)
                },
                DequeueOutcome::ProductionFailed(detail) => {
                    &&& r == LeaseFate::Fail
                    &&& final(self).core == old(self).core.stopped()
                    &&& text_of(
                        final(self).result,
                        "GPU height tile production failed: "@ + detail@,
                    )
                },
            },
    {
        match outcome {
            DequeueOutcome::Empty => LeaseFate::Keep,
            DequeueOutcome::Started(lease) => {
                self.core = ExportCore { evaluation: Some(lease), ..self.core };
                LeaseFate::Keep
            },
            DequeueOutcome::PreflightChanged(detail) => {
                let mut message = "streaming export preflight changed: ".to_owned();
                message.append(detail.as_str());
                self.fail(message);
                LeaseFate::Fail
            },
            DequeueOutcome::InvalidDomain(detail) => {
                let mut message = "invalid export tile domain: ".to_owned();
                message.append(detail.as_str());
                self.fail(message);
                LeaseFate::Fail
            },
            DequeueOutcome::ProductionFailed(detail) => {
                let mut message = "GPU height tile production failed: ".to_owned();
                message.append(detail.as_str());
                self.fail(message);
                LeaseFate::Fail
            },
        }
    }

    /// Moves on once a level has nothing left: to the next level, or to the
    /// end.
    pub fn advance_level_or_finish(&mut self, scheduler_empty: bool) -> (r: LevelStep)
        requires
            old(self).wf(),
        ensures
            final(self).wf(),
            final(self).result == old(self).result,
            r == old(self).core.level_step(scheduler_empty),
            final(self).core == old(self).core.after_step(scheduler_empty),
    {
        if !self.core.busy || !scheduler_empty || self.core.evaluation.is_some()
            || self.core.readback.is_some() {
            return LevelStep::Wait;
        }
        if self.core.current_level < self.core.max_level {
            let level: u8 = self.core.current_level + 1;
            self.core = ExportCore { current_level: level, ..self.core };
            return LevelStep::Queue(level);
        }
        LevelStep::Finish
    }

    /// Takes the closed package, or why it could not be closed.
    pub fn finished(&mut self, outcome: Result<P, String>)
        requires
            old(self).wf(),
            old(self).core.busy,
            !old(self).core.cancel_requested,
        ensures
            final(self).wf(),
            final(self).core == old(self).core.stopped(),
            final(self).result == Some(outcome),
    {
        self.core = ExportCore {
            evaluation: None,
            readback: None,
            has_package: false,
            busy: false,
            ..self.core
        };
        self.result = Some(outcome);
    }
}

/// Texels of a page: the tile and its halo on both sides.
pub fn page_extent(tile_size: u32, halo: u32) -> (r: u32)
    requires
        tile_size + 2 * halo <= u32::MAX,
    ensures
        r == tile_size + 2 * halo,
{
    tile_size + halo * 2
}

/// The request for one tile of an exported level.
pub open spec fn level_request(
    tile: TileId,
    level: u8,
    stamp: TerrainContentStamp,
    operation_halo: u32,
) -> TerrainTileWorkRequest {
    TerrainTileWorkRequest {
        key: TerrainTileKey { level, tile },
        content: stamp,
        source: TerrainTileWorkSource::GpuCompiledPlan,
        class: TerrainDemandClass::CoarseCoverage,
        visible: true,
        error_bits: crate::tile_stream::ERROR_LARGEST_BITS,
        distance_bits: 0,
        estimated_us: (if operation_halo >= 1 {
            operation_halo as int
        } else {
            1
        } * 250) as u64,
    }
}

/// Requests every tile of a level, in order.
pub fn queue_level(
    tiles: &[TileId],
    level: u8,
    stamp: TerrainContentStamp,
    operation_halo: u32,
) -> (r: Vec<TerrainTileWorkRequest>)
    ensures
        r@ == tiles@.map_values(|tile: TileId| level_request(tile, level, stamp, operation_halo)),
{
    let halo: u64 = if operation_halo >= 1 {
        operation_halo as u64
    } else {
        1
    };
    let estimated_us: u64 = halo * 250;
    let mut requests: Vec<TerrainTileWorkRequest> = Vec::new();
    let mut i: usize = 0;
    while i < tiles.len()
        invariant
            i <= tiles@.len(),
            estimated_us == if operation_halo >= 1 {
                operation_halo as int
            } else {
                1
            } * 250,
            requests@ == tiles@.take(i as int).map_values(
                |tile: TileId| level_request(tile, level, stamp, operation_halo),
            ),
        decreases tiles@.len() - i,
    {
        requests.push(
            TerrainTileWorkRequest {
                key: TerrainTileKey { level, tile: tiles[i] },
                content: stamp,
                source: TerrainTileWorkSource::GpuCompiledPlan,
                class: TerrainDemandClass::CoarseCoverage,
                visible: true,
                error_bits: crate::tile_stream::ERROR_LARGEST_BITS,
                distance_bits: 0,
                estimated_us,
            },
        );
        i += 1;
        assert(requests@ =~= tiles@.take(i as int).map_values(
            |tile: TileId| level_request(tile, level, stamp, operation_halo),
        ));
    }
    assert(tiles@.take(i as int) =~= tiles@);
    requests
}

/// A cancelled export publishes nothing: once cancellation was asked for, the
/// next frame drops the export, whatever it was waiting for.
pub proof fn cancellation_wins_over_work<P>(export: HeightPyramidExportController<P>)
    requires
        export.wf(),
        export.core.busy,
        export.core.cancel_requested,
    ensures
        export.step_of() is Cancel,
        (HeightPyramidExportController::<P> {
            core: ExportCore { cancel_requested: false, ..export.core.stopped() },
            result: None,
        }).wf(),
        (HeightPyramidExportController::<P> {
            core: ExportCore { cancel_requested: false, ..export.core.stopped() },
            result: None,
        }).step_of() is Idle,
{
}

/// The walk from a level that is done leads through every finer level, one by
/// one, and ends behind the finest.
pub proof fn every_finer_level_is_walked_once(core: ExportCore)
    requires
        core.level_done(true),
        core.current_level <= core.max_level,
    ensures
        core.walk((core.max_level - core.current_level + 1) as nat) == Seq::new(
            (core.max_level - core.current_level + 1) as nat,
            |i: int|
                if i < core.max_level - core.current_level {
                    LevelStep::Queue((core.current_level + 1 + i) as u8)
                } else {
                    LevelStep::Finish
                },
        ),
    decreases core.max_level - core.current_level,
{
    let n = (core.max_level - core.current_level + 1) as nat;
    let after = core.after_step(true);
    reveal_with_fuel(ExportCore::walk, 2);
    if core.current_level < core.max_level {
        every_finer_level_is_walked_once(after);
    }
    assert(core.walk(n) =~= Seq::new(
        n,
        |i: int|
            if i < core.max_level - core.current_level {
                LevelStep::Queue((core.current_level + 1 + i) as u8)
            } else {
                LevelStep::Finish
            },
    ));
}

/// A level with work left is not left.
pub proof fn a_level_with_work_is_kept(core: ExportCore, scheduler_empty: bool)
    requires
        !scheduler_empty || core.evaluation is Some || core.readback is Some,
    ensures
        core.level_step(scheduler_empty) is Wait,
        core.after_step(scheduler_empty) == core,
{
}

/// A level is exported whole: the request at any place is for the tile that is
/// listed there, at this level and of the export's own content, and there are no
/// others. So every tile is asked for as often as it is listed.
pub proof fn a_level_is_exported_whole(
    tiles: &[TileId],
    level: u8,
    stamp: TerrainContentStamp,
    halo: u32,
    requests: Vec<TerrainTileWorkRequest>,
)
    requires
        call_ensures(queue_level, (tiles, level, stamp, halo), requests),
    ensures
        requests@.len() == tiles@.len(),
        forall|i: int|
            #![trigger requests@[i]]
            0 <= i < tiles@.len() ==> {
                &&& requests@[i].key.tile == tiles@[i]
                &&& requests@[i].key.level == level
                &&& requests@[i].content == stamp
                &&& requests@[i].visible
                &&& requests@[i].source is GpuCompiledPlan
                &&& requests@[i].class is CoarseCoverage
                &&& requests@[i].estimated_us == 250 * (if halo == 0 {
                    1
                } else {
                    halo as int
                })
            },
        requests@.map_values(|r: TerrainTileWorkRequest| r.key.tile) == tiles@,
{
    assert(requests@.map_values(|r: TerrainTileWorkRequest| r.key.tile) =~= tiles@);
}

/// An export starts where none runs and the preflight succeeded: at the root, with
/// nothing written, and under the generation that was asked for. Any other start
/// changes nothing.
pub proof fn exports_start_at_the_root<P>(
    export: &mut HeightPyramidExportController<P>,
    generation: u64,
    prepared: Result<ExportShape, ExportPreflightError>,
    started: Result<ExportStart, String>,
)
    requires
        old(export).wf(),
        call_ensures(
            HeightPyramidExportController::<P>::start,
            (export, generation, prepared),
            started,
        ),
    ensures
        started is Ok <==> !old(export).core.busy && prepared is Ok,
        started is Err ==> *final(export) == *old(export),
        started matches Ok(start) ==> {
            &&& start.level == 0
            &&& start.stamp.document_revision == generation
            &&& start.stamp.plan_revision == generation
            &&& start.stamp.output_revision == generation
            &&& start.stamp.content_revision == generation
            &&& start.scheduler_capacity >= 1
            &&& prepared->Ok_0.finest_tiles matches Some(n) ==> (n >= 1
                ==> start.scheduler_capacity == n)
            &&& final(export).core.busy
            &&& final(export).core.stamp == start.stamp
            &&& final(export).core.current_level == 0
            &&& final(export).core.max_level == prepared->Ok_0.max_level
            &&& final(export).core.total_tiles == prepared->Ok_0.total_tiles
            &&& final(export).core.completed_tiles == 0
            &&& !final(export).core.cancel_requested
            &&& final(export).result is None
        },
{
}

/// A frame of an export goes on with what is at hand: the tile that is read back
/// comes before the one that is evaluated, and that before the next tile.
pub proof fn work_at_hand_comes_first<P>(export: HeightPyramidExportController<P>)
    ensures
        !export.core.busy ==> export.step_of() is Idle,
        export.core.busy && !export.core.cancel_requested ==> {
            &&& export.core.readback matches Some(lease) ==> export.step_of()
                == ExportStep::PollReadback(lease)
            &&& export.core.readback is None ==> (export.core.evaluation matches Some(lease)
                ==> export.step_of() == ExportStep::PollEvaluation(lease))
            &&& export.core.readback is None && export.core.evaluation is None
                ==> export.step_of() is Dequeue
        },
{
}

/// A written tile counts once and frees the readback; a pending one changes nothing;
/// a failure ends the export with its message, and nothing more is counted.
pub proof fn written_tiles_count_once<P>(
    export: &mut HeightPyramidExportController<P>,
    outcome: ReadbackOutcome,
    fate: LeaseFate,
)
    requires
        old(export).wf(),
        old(export).step_of() is PollReadback,
        old(export).core.completed_tiles < usize::MAX,
        call_ensures(
            HeightPyramidExportController::<P>::readback_polled,
            (export, outcome),
            fate,
        ),
    ensures
        outcome is Pending ==> fate is Keep && *final(export) == *old(export),
        outcome is Written ==> fate is Complete && final(export).core.completed_tiles == old(export).core.completed_tiles + 1 && final(export).core.readback is None && final(export).core.busy && final(export).core.current_level == old(export).core.current_level,
        outcome matches ReadbackOutcome::Failed(message) ==> fate is Fail && final(export).result
            == Some(Err::<P, String>(message)),
        outcome matches ReadbackOutcome::WriteFailed(message) ==> fate is Clear && final(export).result == Some(Err::<P, String>(message)),
        outcome is Failed || outcome is WriteFailed ==> !final(export).core.busy && final(export).core.readback is None && !final(export).core.has_package && final(export).core.completed_tiles == old(export).core.completed_tiles,
{
}

/// An evaluated tile is read back under its own lease; a failed one ends the export.
pub proof fn evaluated_tiles_are_read_back<P>(
    export: &mut HeightPyramidExportController<P>,
    outcome: EvaluationOutcome,
    fate: LeaseFate,
)
    requires
        old(export).wf(),
        old(export).step_of() is PollEvaluation,
        call_ensures(
            HeightPyramidExportController::<P>::evaluation_polled,
            (export, outcome),
            fate,
        ),
    ensures
        outcome is Pending ==> fate is Keep && *final(export) == *old(export),
        outcome is ReadbackStarted ==> fate is Keep && final(export).core.readback == old(export).core.evaluation && final(export).core.evaluation is None && final(export).core.busy,
        outcome matches EvaluationOutcome::Failed(message) ==> fate is Fail && final(export).result
            == Some(Err::<P, String>(message)) && !final(export).core.busy,
        final(export).core.completed_tiles == old(export).core.completed_tiles,
{
}

/// A tile that was handed out is evaluated; an empty queue changes nothing; any
/// failure gives the lease back and ends the export without a package.
pub proof fn dequeued_tiles_are_evaluated<P>(
    export: &mut HeightPyramidExportController<P>,
    outcome: DequeueOutcome,
    fate: LeaseFate,
)
    requires
        old(export).wf(),
        old(export).step_of() is Dequeue,
        call_ensures(HeightPyramidExportController::<P>::tile_dequeued, (export, outcome), fate),
    ensures
        outcome is Empty ==> fate is Keep && *final(export) == *old(export),
        outcome matches DequeueOutcome::Started(lease) ==> fate is Keep && final(export).core.evaluation == Some(lease) && final(export).core.busy,
        outcome is PreflightChanged || outcome is InvalidDomain || outcome is ProductionFailed
            ==> fate is Fail && !final(export).core.busy && (final(export).result matches Some(
            Err(_),
        )) && !final(export).core.has_package,
        final(export).core.completed_tiles == old(export).core.completed_tiles,
{
}

/// A level that is done leads to the next finer one, and the finest to the end.
pub proof fn done_levels_lead_on<P>(
    export: &mut HeightPyramidExportController<P>,
    scheduler_empty: bool,
    step: LevelStep,
)
    requires
        old(export).wf(),
        call_ensures(
            HeightPyramidExportController::<P>::advance_level_or_finish,
            (export, scheduler_empty),
            step,
        ),
    ensures
        ({
            let core = old(export).core;
            let done = core.busy && scheduler_empty && core.evaluation is None && core.readback
                is None;
            &&& !done ==> step is Wait && final(export).core == core
            &&& done && core.current_level < core.max_level ==> (
            step matches LevelStep::Queue(level) && level == core.current_level + 1 && final(export).core.current_level == level)
            &&& done && core.current_level == core.max_level ==> step is Finish && final(export).core == core
        }),
{
}

/// A cancelled export leaves neither a package nor a result, and is asked to stop
/// only while it runs. A result is handed out once.
pub proof fn cancelled_exports_leave_nothing<P>(
    export: &mut HeightPyramidExportController<P>,
    step: ExportStep,
)
    requires
        old(export).wf(),
        call_ensures(HeightPyramidExportController::<P>::pump, (export,), step),
    ensures
        old(export).core.busy && old(export).core.cancel_requested ==> step is Cancel && !final(export).core.busy && final(export).result is None && !final(export).core.has_package && final(export).core.evaluation is None && final(export).core.readback is None && !final(export).core.cancel_requested,
        !old(export).core.busy ==> step is Idle,
        !(step is Cancel) ==> *final(export) == *old(export),
{
}

/// Progress counts the tiles that are done out of all of them, of which at least one
/// is shown.
pub proof fn progress_is_out_of_all_tiles<P>(
    export: HeightPyramidExportController<P>,
    shown: (usize, usize),
)
    requires
        call_ensures(HeightPyramidExportController::<P>::progress, (&export,), shown),
    ensures
        shown.0 == export.core.completed_tiles,
        shown.1 >= 1,
        export.core.total_tiles >= 1 ==> shown.1 == export.core.total_tiles,
        export.core.total_tiles == 0 ==> shown.1 == 1,
{
}

/// A page holds its tile and the halo on both sides.
pub proof fn pages_hold_their_halo(tile_size: u32, halo: u32, extent: u32)
    requires
        tile_size + 2 * halo <= u32::MAX,
        call_ensures(page_extent, (tile_size, halo), extent),
    ensures
        extent - halo == tile_size + halo,
{
}

} // verus!
