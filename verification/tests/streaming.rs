//! Tile streaming, GPU evaluation and refinement, previews and export.

use terra_app::actions::{ApplyCtx, BatchEffect, BatchObservation};
use terra_app::clock::{Duration, Instant};
use terra_app::dirty::{LayerId, StackLayer, TexelRect, UvRect, WorkerDirty};
use terra_app::document_reset::{
    reset_runtime_for_document, AtlasAddressing, AtlasPlan, AtlasShape, DocumentSight, HostSight,
    PresentationPlan, RenderDirt, ResetStep, TerrainTraversalMode, WorldSight,
};
use terra_app::eval::{
    BuildProgress, EvalEffect, EvalPath, EvalState, FrameDeadlineKind, PlanEdit, RefineTiming,
};
use terra_app::eval_step::{
    DeferredSuffix, DirtyRectUse, GpuResult, PlanRequest, Presentation, StepObservation,
};
use terra_app::export::{
    page_extent, queue_level, DequeueOutcome, EvaluationOutcome, ExportPreflightError,
    ExportShape, ExportStep, HeightPyramidExportController, LeaseFate, LevelStep,
    ReadbackOutcome,
};
use terra_app::frame_trace::{EvaluationTraceId, FrameTraceEventKind};
use terra_app::pipeline_compile::TerrainShaderVariant;
use terra_app::preview2d::{
    climate_layer, ensure_climate_aux, grey_rgba, isolated_biome, ClimateCandidate,
    Preview2dMode, PreviewObservation, PreviewSource, PreviewState,
};
use terra_app::quality::{GpuEvaluationIntent, PreviewQuality};
use terra_app::refinement::{GpuRefinementStep, RefinementGate, RefinementVerdict, UnitOutcome};
use terra_app::tile_stream::{
    after_compiled_start, after_publication, all_current, can_upload_tiles, demand_limits,
    demand_requests, poll_compiled_tile_job, pyramid_admitted, root_requests,
    streamed_level_for_current_output, streamed_level_for_last_height,
    sync_tile_stream_to_renderer, terrain_tile_work_budget, tiles_of_grid, DemandSight,
    upload_pending_terrain_tiles, CompiledJobStep, CompiledStart, GpuOutputIdentity,
    LeaseAnswers, LeaseOutcome, MetadataPoll, MetadataStep, PyramidIdentity, PyramidLevel,
    StreamDecision, StreamEffect, StreamObservation, SyncSight, TerrainContentStamp,
    TerrainDemandClass, TerrainTerminalFallback, TerrainTileKey, TerrainTileWorkRequest,
    TerrainTileWorkSource, TileDemand, TileId, TileLease, TileStream,
};

const TIMING: RefineTiming = RefineTiming {
    refine_interval: Duration { nanos: 250_000_000 },
    post_input_grace: Duration { nanos: 400_000_000 },
};

fn at(millis: u64) -> Instant {
    Instant {
        nanos: 5_000_000_000 + Duration::from_millis(millis).nanos,
    }
}

fn stamp(revision: u64) -> TerrainContentStamp {
    TerrainContentStamp {
        document_revision: 1,
        plan_revision: 1,
        output_revision: revision,
        content_revision: 1,
    }
}

fn levels() -> Vec<PyramidLevel> {
    vec![
        PyramidLevel {
            index: 0,
            resolution: 64,
        },
        PyramidLevel {
            index: 1,
            resolution: 128,
        },
    ]
}

fn stream() -> TileStream {
    TileStream {
        output_revision: 3,
        live_content: Some(stamp(3)),
        gpu_pyramid: Some(PyramidIdentity {
            content: stamp(3),
            output: 3,
        }),
        error_readback: true,
        ..TileStream::new()
    }
}

fn observation(level: Option<PyramidLevel>) -> StreamObservation {
    StreamObservation {
        has_atlas: true,
        live_content: Some(stamp(3)),
        level,
        has_gpu_pyramid: false,
        error_readback: false,
        has_demand: false,
        scheduler_empty: true,
        compiled_jobs_empty: true,
        root_current: false,
    }
}

fn lease(source: TerrainTileWorkSource, revision: u64) -> TileLease {
    let mut request = root_requests(1, 1, stamp(revision))[0];
    request.source = source;
    TileLease { id: 1, request }
}

#[test]
fn tile_work_budgets_follow_every_refinement_state() {
    assert_eq!(terrain_tile_work_budget(2_000, 256).max_items, 8);
    assert_eq!(terrain_tile_work_budget(5_000, 256).max_items, 20);
    assert_eq!(terrain_tile_work_budget(8_000, 256).max_items, 32);
    assert_eq!(terrain_tile_work_budget(1_000, 256).max_items, 4);
    assert_eq!(terrain_tile_work_budget(u64::MAX, 256).max_items, 128);
}

#[test]
fn a_budget_admits_at_least_one_tile() {
    let budget = terrain_tile_work_budget(0, 0);
    assert_eq!(budget.max_items, 1);
    assert_eq!(budget.max_pages, 1);
    assert_eq!(terrain_tile_work_budget(1_000_000, 4).max_items, 32);
}

#[test]
fn non_pyramid_resolution_disables_streaming() {
    let (mut host, _eval, _handle) = host_with_one_streamed_page();
    assert!(host.stream.streaming);

    // An odd resolution cannot be a power-of-two pyramid level.
    let odd = 64 * 2 + 1;
    let level = streamed_level_for_last_height(&levels(), Some(odd));
    assert_eq!(
        level, None,
        "an odd resolution must not resolve to a pyramid level"
    );
    let queued = host
        .stream
        .queue_final_tile_uploads(true, level, &tiles_of_grid(2, 2), 1, 1);
    assert!(
        queued.is_none() && host.stream.live_content.is_none(),
        "a non-pyramid resolution must not queue tile uploads"
    );
    assert_eq!(host.sync(level), StreamDecision::Disable);
    assert!(
        !host.stream.streaming && host.streams.is_none(),
        "a non-pyramid resolution must fall back to the monolithic path"
    );
    assert_eq!(
        sync_tile_stream_to_renderer(observation(None)),
        StreamDecision::Disable
    );
}

#[test]
fn streamed_resolution_tracks_pages_not_monolithic_tex_size() {
    let (mut host, _eval, _handle) = host_with_one_streamed_page();
    let page_res = 64;
    assert!(host.stream.streaming);

    // The height that the pages hold decides, whatever the texture is.
    let level = streamed_level_for_last_height(&levels(), Some(page_res));
    match host.sync(level) {
        StreamDecision::Enable { target, .. } => assert_eq!(
            target.resolution, page_res,
            "streamed resolution must track resident pages, not the monolithic tex_size"
        ),
        other => panic!("streaming stays off: {other:?}"),
    }
    assert!(host.stream.streaming);
}

#[derive(Debug, Clone, Copy, PartialEq)]
struct Page {
    key: TerrainTileKey,
    content: TerrainContentStamp,
    generation: u32,
}

/// A page by its slot and the generation of what the slot holds.
#[derive(Debug, Clone, Copy, PartialEq)]
struct PageHandle {
    slot: usize,
    generation: u32,
}

/// Tile queue, page table and renderer of a host, as far as streaming shows.
struct Host {
    stream: TileStream,
    shape: AtlasShape,
    queued: Vec<TerrainTileWorkRequest>,
    pages: Vec<Option<Page>>,
    generations: u32,
    streams: Option<u64>,
    /// What the interface says of the page cache.
    shown_resident: usize,
}

impl Host {
    fn new() -> Host {
        Host {
            stream: TileStream::new(),
            shape: AtlasShape {
                tile_size: 64,
                halo: 2,
                max_pages: 4,
            },
            queued: Vec::new(),
            pages: vec![None; 4],
            generations: 0,
            streams: None,
            shown_resident: 0,
        }
    }

    fn take(&mut self, effect: StreamEffect) {
        match effect {
            StreamEffect::ClearTileWork => self.queued.clear(),
            StreamEffect::ClearAtlas => {
                self.pages = vec![None; self.pages.len()];
                self.shown_resident = self.live().len();
            }
            StreamEffect::StreamingOff => self.streams = None,
        }
    }

    fn perform(&mut self, effects: &[EvalEffect]) {
        for effect in effects {
            for asked in self.stream.perform(*effect) {
                self.take(asked);
            }
        }
    }

    /// Queues, uploads and synchronizes the only tile of a new height.
    fn stream_one_tile(&mut self) -> (PageHandle, TerrainTileKey) {
        let level = streamed_level_for_last_height(&levels(), Some(64));
        let (content, requests) = self
            .stream
            .queue_final_tile_uploads(true, level, &tiles_of_grid(1, 1), 1, 1)
            .expect("tile upload queued");
        self.queued = requests;
        assert!(self.stream.open_uploads(true, true, true));
        let leases = [TileLease {
            id: 1,
            request: self.queued[0],
        }];
        let answers = [LeaseAnswers {
            resident: false,
            compiled_started: false,
            has_cpu_tile: true,
            published: true,
        }];
        let (outcomes, uploaded) = upload_pending_terrain_tiles(&leases, &answers, None, content, 0);
        assert_eq!(uploaded, 1);
        assert_eq!(outcomes, [LeaseOutcome::Completed]);
        self.queued.clear();
        let slot = self
            .pages
            .iter()
            .position(Option::is_none)
            .expect("a free page");
        self.generations += 1;
        let key = leases[0].request.key;
        self.pages[slot] = Some(Page {
            key,
            content,
            generation: self.generations,
        });
        self.shown_resident = self.live().len();
        if let Some(decision) = self.stream.finish_uploads(uploaded, self.sight(level)) {
            self.show(decision);
        }
        (
            PageHandle {
                slot,
                generation: self.generations,
            },
            key,
        )
    }

    fn sight(&self, level: Option<PyramidLevel>) -> SyncSight {
        let content = self.stream.live_content;
        SyncSight {
            has_atlas: true,
            has_renderer: true,
            level,
            scheduler_empty: self.queued.is_empty(),
            compiled_jobs_empty: true,
            root_current: self.live().iter().all(|page| Some(page.content) == content),
        }
    }

    fn show(&mut self, decision: StreamDecision) {
        match decision {
            StreamDecision::Enable { content, .. } => self.streams = Some(content.output_revision),
            StreamDecision::Disable => self.streams = None,
            StreamDecision::Leave => {}
        }
    }

    fn sync(&mut self, level: Option<PyramidLevel>) -> StreamDecision {
        let sight = self.sight(level);
        let decision = self.stream.resync(sight);
        self.show(decision);
        decision
    }

    fn live(&self) -> Vec<Page> {
        self.pages.iter().flatten().copied().collect()
    }

    fn resolve(&self, handle: PageHandle) -> Option<Page> {
        self.pages[handle.slot].filter(|page| page.generation == handle.generation)
    }

    fn assert_streamed_residency_retired(&self, old_handle: PageHandle) {
        assert_eq!(self.live(), []);
        assert_eq!(self.resolve(old_handle), None);
        assert!(self.queued.is_empty());
        assert_eq!(self.streams, None);
        assert!(!self.stream.streaming);
        assert_eq!(self.stream.live_content, None);
        assert_eq!(self.stream.gpu_pyramid, None);
    }

    fn assert_single_live_page_at_current_revision(&self, key: TerrainTileKey) {
        let revision = self.stream.output_revision;
        assert!(
            self.stream.streaming,
            "streaming stays enabled after a completed sync"
        );
        assert_eq!(
            self.streams,
            Some(revision),
            "renderer streams the current output revision"
        );
        let live = self.live();
        assert_eq!(live.len(), 1, "exactly one page resident after sync");
        assert_eq!(live[0].key, key, "page matches key");
        assert_eq!(
            live[0].content.output_revision, revision,
            "page stamped with the current output revision"
        );
    }
}

/// Every source of residency agrees: no page of an earlier output is left, the
/// figure that is shown counts the pages, and pages are streamed only where there
/// are some of this output.
fn assert_residency_sources_agree(host: &Host) {
    let revision = host.stream.output_revision;
    let live = host.live();
    let stale = live
        .iter()
        .filter(|page| page.content.output_revision != revision)
        .count();
    assert_eq!(
        stale, 0,
        "no page-table row may carry a prior output revision"
    );
    assert_eq!(host.shown_resident, live.len());
    assert_eq!(host.stream.streaming, host.streams.is_some());
    if let Some(streamed) = host.streams {
        assert!(!live.is_empty(), "streaming enabled while the page table is empty");
        assert_eq!(
            streamed, revision,
            "streaming enabled at a revision the pages are not stamped with"
        );
    }
}

#[test]
fn residency_counts_agree_across_hud_sources_and_page_table() {
    let (mut host, mut eval, _old_handle) = host_with_one_streamed_page();
    assert_residency_sources_agree(&host);

    let effects = eval.mark_dirty_from(&stack(), LayerId(99));
    host.perform(&effects);
    assert_residency_sources_agree(&host);

    host.stream_one_tile();
    assert_residency_sources_agree(&host);
}

fn host_with_one_streamed_page() -> (Host, EvalState, PageHandle) {
    let mut host = Host::new();
    let (handle, key) = host.stream_one_tile();
    host.assert_single_live_page_at_current_revision(key);
    let mut eval = EvalState::new(at(0));
    eval.core.worker_dirty = WorkerDirty::clean();
    (host, eval, handle)
}

fn stack() -> Vec<StackLayer> {
    vec![StackLayer {
        id: LayerId(3),
        stage_order: 0,
    }]
}

#[test]
fn edit_via_mark_dirty_from_retires_streamed_pages_until_resync() {
    let (mut host, mut eval, old_handle) = host_with_one_streamed_page();
    let revision_before = host.stream.output_revision;

    // An unknown layer id dirties the whole stack.
    let effects = eval.mark_dirty_from(&stack(), LayerId(99));
    assert!(eval.core.worker_dirty.mark_all);
    host.perform(&effects);

    assert_ne!(host.stream.output_revision, revision_before);
    host.assert_streamed_residency_retired(old_handle);

    let (_, new_key) = host.stream_one_tile();
    assert_ne!(host.stream.output_revision, revision_before);
    host.assert_single_live_page_at_current_revision(new_key);
}

#[test]
fn edit_via_mark_dirty_from_stage_retires_streamed_pages() {
    let (mut host, mut eval, old_handle) = host_with_one_streamed_page();
    let revision_before = host.stream.output_revision;

    let effects = eval.mark_dirty_from_stage(&stack(), LayerId(99));
    host.perform(&effects);

    assert_ne!(host.stream.output_revision, revision_before);
    host.assert_streamed_residency_retired(old_handle);

    let (_, new_key) = host.stream_one_tile();
    host.assert_single_live_page_at_current_revision(new_key);
}

#[test]
fn mark_all_layers_dirty_retires_streamed_pages() {
    let (mut host, mut eval, old_handle) = host_with_one_streamed_page();
    let revision_before = host.stream.output_revision;

    let effects = eval.mark_all_layers_dirty();
    host.perform(&effects);

    assert_ne!(host.stream.output_revision, revision_before);
    host.assert_streamed_residency_retired(old_handle);

    let (_, new_key) = host.stream_one_tile();
    host.assert_single_live_page_at_current_revision(new_key);
}

#[test]
fn every_door_says_what_it_dirties() {
    let mut eval = EvalState::new(at(0));
    let id = LayerId(3);
    assert_eq!(
        eval.mark_dirty_from(&stack(), id),
        [
            EvalEffect::EvaluatorDirtyFrom(id),
            EvalEffect::AdvanceOutputRevision,
            EvalEffect::GpuMarkDirtyFrom(id),
        ]
    );
    assert_eq!(
        eval.mark_dirty_from_stage(&stack(), id),
        [
            EvalEffect::EvaluatorDirtyFromStage(id),
            EvalEffect::AdvanceOutputRevision,
            EvalEffect::GpuMarkDirtyFrom(id),
        ]
    );
    assert_eq!(
        eval.mark_all_layers_dirty(),
        [
            EvalEffect::EvaluatorAllDirty,
            EvalEffect::ReconfigureRuntime,
            EvalEffect::RetireStreaming,
            EvalEffect::GpuMarkAllDirty,
        ]
    );
    let mut tiles = stream();
    assert!(tiles.perform(EvalEffect::ReconfigureRuntime).is_empty());
    assert_eq!(tiles.output_revision, 4);
    tiles.output_revision = u64::MAX;
    assert_eq!(
        tiles.advance_output_revision(),
        [
            StreamEffect::ClearTileWork,
            StreamEffect::ClearAtlas,
            StreamEffect::StreamingOff,
        ]
    );
    assert_eq!(tiles.output_revision, 0);
}

#[test]
fn a_dirtying_batch_retires_streamed_pages() {
    let seen = BatchObservation {
        plan_shape_matches: true,
        edited_is_group: false,
        edited_is_sculpt_base: true,
        selection_changed: false,
    };
    let dirty_layer = ApplyCtx {
        dirty_from: Some(LayerId(3)),
        sculpt_dirty_region_uv: Some(UvRect {
            min_u: 0.25f32.to_bits(),
            min_v: 0.25f32.to_bits(),
            max_u: 0.5f32.to_bits(),
            max_v: 0.5f32.to_bits(),
        }),
        ..ApplyCtx::new()
    };
    let new_masks = ApplyCtx {
        mask_assets_mutated: true,
        ..ApplyCtx::new()
    };
    for ctx in [dirty_layer, new_masks] {
        let (mut host, mut eval, old_handle) = host_with_one_streamed_page();
        let revision_before = host.stream.output_revision;
        for effect in eval.apply_actions(&ctx, &seen, &stack()) {
            if let BatchEffect::Eval(effect) = effect {
                host.perform(&[effect]);
            }
        }
        assert_ne!(host.stream.output_revision, revision_before);
        host.assert_streamed_residency_retired(old_handle);
    }
    let mut eval = EvalState::new(at(0));
    let renamed = ApplyCtx {
        doc_mutated: true,
        ..ApplyCtx::new()
    };
    assert_eq!(
        eval.apply_actions(&renamed, &seen, &stack()),
        [BatchEffect::MarkDocumentDirty],
        "a batch that dirties nothing keeps the pages"
    );
}

#[test]
fn uploads_need_somewhere_to_go() {
    let mut tiles = stream();
    assert!(tiles.open_uploads(true, true, false));
    assert_eq!(tiles.live_content, Some(stamp(3)));
    assert!(!tiles.open_uploads(true, false, true));
    assert_eq!(tiles.live_content, None);
    let sight = SyncSight {
        has_atlas: true,
        has_renderer: true,
        level: Some(levels()[0]),
        scheduler_empty: true,
        compiled_jobs_empty: true,
        root_current: true,
    };
    tiles.streaming = true;
    assert_eq!(tiles.finish_uploads(0, sight), None);
    assert!(tiles.streaming, "without an upload the renderer is left alone");
    assert_eq!(tiles.resync(sight), StreamDecision::Disable);
    assert!(!tiles.streaming, "nothing is live, so nothing is shown");
    let mut blind = TileStream {
        output_revision: 3,
        live_content: Some(stamp(3)),
        ..TileStream::new()
    };
    let without = SyncSight {
        has_renderer: false,
        ..sight
    };
    assert!(matches!(
        blind.resync(without),
        StreamDecision::Enable { .. }
    ));
    assert!(!blind.streaming, "there is no renderer to show pages");
}

fn bounded_document(host: &Host, has_variant: bool) -> DocumentSight {
    DocumentSight {
        world: WorldSight::Bounded {
            preview_resolution: 64,
            tile_size: host.shape.tile_size,
            halo: host.shape.halo,
        },
        host: HostSight {
            has_gpu: true,
            device_layers: 4,
            atlas: Some(host.shape),
            has_gpu_engine: true,
            has_renderer: true,
            has_variant,
        },
    }
}

#[test]
fn reset_then_upload_preserves_atlas_and_invalidates_old_page() {
    let (mut host, mut eval, old_handle) = host_with_one_streamed_page();
    let atlas_config = host.shape;
    let revision_before = host.stream.output_revision;

    let sight = bounded_document(&host, true);
    let reset = reset_runtime_for_document(&mut eval, &mut host.stream, sight);
    for step in &reset.steps {
        match step {
            ResetStep::Eval(effect) => assert!(
                host.stream.perform(*effect).is_empty(),
                "the reset has its own steps for the stream"
            ),
            ResetStep::Stream(effect) => host.take(*effect),
            ResetStep::Atlas(plan) if plan.replace => {
                host.shape = plan.shape;
                host.pages = vec![None; plan.shape.max_pages as usize];
            }
            _ => {}
        }
    }

    assert_eq!(host.shape, atlas_config, "reset must retain atlas");
    host.assert_streamed_residency_retired(old_handle);
    assert_ne!(host.stream.output_revision, revision_before);

    let (new_handle, new_key) = host.stream_one_tile();
    assert_eq!(new_handle.slot, old_handle.slot);
    assert_ne!(new_handle.generation, old_handle.generation);
    assert_eq!(host.resolve(old_handle), None);
    host.assert_single_live_page_at_current_revision(new_key);
}

#[test]
fn a_reset_is_a_list_of_steps() {
    let (mut host, mut eval, _) = host_with_one_streamed_page();
    let mut sight = bounded_document(&host, true);
    let reset = reset_runtime_for_document(&mut eval, &mut host.stream, sight);
    assert!(reset.presentation_ready);
    assert_eq!(
        reset.steps,
        [
            ResetStep::Eval(EvalEffect::ForgetStreamedFigures),
            ResetStep::Eval(EvalEffect::DropPublishedFields),
            ResetStep::Eval(EvalEffect::ClearEvaluatorCaches),
            ResetStep::Eval(EvalEffect::RefreshUploads(RenderDirt::everything())),
            ResetStep::Eval(EvalEffect::ClearPlanCache),
            ResetStep::Eval(EvalEffect::ClearDeadline(
                FrameDeadlineKind::FullFieldRefinement
            )),
            ResetStep::Stream(StreamEffect::ClearTileWork),
            ResetStep::ConfigureBounded { resolution: 256 },
            ResetStep::Atlas(AtlasPlan {
                shape: AtlasShape {
                    tile_size: 64,
                    halo: 2,
                    max_pages: 4,
                },
                replace: false,
                addressing: AtlasAddressing::Hierarchy,
            }),
            ResetStep::ResetGpuEngine,
            ResetStep::Present(PresentationPlan::Present {
                variant: TerrainShaderVariant::Bounded,
                traversal: TerrainTraversalMode::Bounded,
                frame_infinite: false,
            }),
            ResetStep::Stream(StreamEffect::ClearTileWork),
            ResetStep::Stream(StreamEffect::ClearAtlas),
            ResetStep::Stream(StreamEffect::StreamingOff),
        ]
    );
    let revision = host.stream.output_revision;
    sight.world = WorldSight::Infinite {
        topology_valid: false,
        topology_taken: false,
        tile_size: 64,
        halo: 2,
        page_capacity: 8,
    };
    sight.host.has_gpu = false;
    sight.host.has_variant = false;
    let failed = reset_runtime_for_document(&mut eval, &mut host.stream, sight);
    assert!(!failed.presentation_ready);
    assert_eq!(
        failed.steps[6..9],
        [
            ResetStep::Stream(StreamEffect::ClearTileWork),
            ResetStep::ReportTopology,
            ResetStep::Present(PresentationPlan::Placeholder),
        ]
    );
    assert_eq!(host.stream.output_revision, revision);
    sight.world = WorldSight::Infinite {
        topology_valid: true,
        topology_taken: false,
        tile_size: 64,
        halo: 2,
        page_capacity: 8,
    };
    let refused = reset_runtime_for_document(&mut eval, &mut host.stream, sight);
    assert_eq!(refused.steps[7], ResetStep::ConfigureInfinite);
    assert_eq!(host.stream.output_revision, revision);
    sight.host.has_renderer = false;
    let headless = reset_runtime_for_document(&mut eval, &mut host.stream, sight);
    assert!(headless.presentation_ready);
}

#[test]
fn consecutive_cpu_heights_have_revisions_of_their_own() {
    let mut tiles = stream();
    let level = Some(levels()[1]);
    let first = tiles
        .queue_final_tile_uploads(true, level, &tiles_of_grid(2, 1), 1, 1)
        .unwrap();
    let second = tiles
        .queue_final_tile_uploads(true, level, &tiles_of_grid(2, 1), 1, 1)
        .unwrap();
    assert_ne!(first.0, second.0);
    assert_eq!(first.1.len(), 2);
    assert_eq!(first.1[0].source, TerrainTileWorkSource::CpuHeight);
    assert_eq!(first.1[1].key.tile, TileId { tx: 1, tz: 0 });
}

#[test]
fn stale_leases_fail_and_resident_ones_are_skipped() {
    let yes = LeaseAnswers {
        resident: false,
        compiled_started: true,
        has_cpu_tile: true,
        published: true,
    };
    let leases = [
        lease(TerrainTileWorkSource::CpuHeight, 2),
        lease(TerrainTileWorkSource::CpuHeight, 3),
        lease(TerrainTileWorkSource::GpuCompiledPlan, 3),
        lease(TerrainTileWorkSource::GpuPyramid, 3),
    ];
    let answers = [
        yes,
        LeaseAnswers {
            resident: true,
            ..yes
        },
        yes,
        yes,
    ];
    let (outcomes, uploaded) =
        upload_pending_terrain_tiles(&leases, &answers, stream().gpu_pyramid, stamp(3), 5);
    assert_eq!(
        outcomes,
        [
            LeaseOutcome::Failed,
            LeaseOutcome::SkippedResident,
            LeaseOutcome::Retained,
            LeaseOutcome::Completed
        ]
    );
    assert_eq!(uploaded, 6);
}

#[test]
fn a_compiled_tile_needs_a_live_lease() {
    let held = lease(TerrainTileWorkSource::GpuCompiledPlan, 3);
    assert_eq!(
        poll_compiled_tile_job(held, true, false, stamp(3)),
        CompiledJobStep::Retain
    );
    assert_eq!(
        poll_compiled_tile_job(held, true, true, stamp(3)),
        CompiledJobStep::Publish
    );
    assert_eq!(
        poll_compiled_tile_job(held, false, true, stamp(3)),
        CompiledJobStep::Cancel
    );
    assert_eq!(
        poll_compiled_tile_job(held, true, true, stamp(4)),
        CompiledJobStep::Cancel
    );
    assert_eq!(
        after_compiled_start(false, stream().gpu_pyramid, stamp(3)),
        CompiledStart::PublishPyramid
    );
    assert_eq!(
        after_compiled_start(false, None, stamp(3)),
        CompiledStart::Fail
    );
    assert!(after_publication(true, held.request.key).pin);
    assert!(
        !after_publication(
            true,
            TerrainTileKey {
                level: 1,
                ..held.request.key
            }
        )
        .pin
    );
}

#[test]
fn a_refresh_plans_only_with_accepted_errors_of_the_live_pyramid() {
    let demand = TileDemand {
        key: TerrainTileKey {
            level: 2,
            tile: TileId { tx: 1, tz: 0 },
        },
        class: TerrainDemandClass::Refinement,
        error_bits: 1.0f32.to_bits(),
        distance_bits: 2.0f32.to_bits(),
    };
    let sight = |poll: MetadataPoll| DemandSight {
        poll,
        errors_accepted: true,
        has_renderer: true,
        plan: Some(vec![demand]),
        scheduler_empty: true,
    };
    let mut tiles = stream();
    let identity = tiles.gpu_pyramid.unwrap();
    assert!(!tiles.refresh_terrain_demand(sight(MetadataPoll::Pending)));
    assert!(tiles.error_readback);
    let rejected = DemandSight {
        errors_accepted: false,
        ..sight(MetadataPoll::Ready(identity))
    };
    assert!(!tiles.refresh_terrain_demand(rejected));
    assert!(tiles.planning_metadata.is_none());
    assert!(!tiles.error_readback);
    assert!(tiles.refresh_terrain_demand(sight(MetadataPoll::Ready(identity))));
    assert_eq!(tiles.latest_demand.as_deref(), Some(&[demand][..]));
    assert!(!tiles.refresh_terrain_demand(sight(MetadataPoll::Idle)));
    let unplanned = DemandSight {
        plan: None,
        ..sight(MetadataPoll::Idle)
    };
    assert!(!tiles.refresh_terrain_demand(unplanned));
    let queued = DemandSight {
        scheduler_empty: false,
        ..sight(MetadataPoll::Idle)
    };
    assert!(tiles.refresh_terrain_demand(queued));
}

#[test]
fn a_new_pyramid_replaces_what_was_planned() {
    let mut tiles = TileStream {
        output_revision: 3,
        planning_metadata: stream().gpu_pyramid,
        latest_demand: Some(Vec::new()),
        ..TileStream::new()
    };
    let identity = PyramidIdentity {
        content: stamp(3),
        output: 8,
    };
    let output = GpuOutputIdentity {
        current_complete_final: true,
        intent: GpuEvaluationIntent::Complete,
        generation: 7,
    };
    let made = Some(identity);
    assert!(tiles
        .materialize_gpu_pyramid(output, 8, true, made, 2, 1)
        .is_none());
    assert!(tiles
        .materialize_gpu_pyramid(output, 7, true, None, 2, 1)
        .is_none());
    assert!(tiles.latest_demand.is_some(), "nothing was taken in");
    let (content, requests) = tiles
        .materialize_gpu_pyramid(output, 7, true, made, 2, 1)
        .unwrap();
    assert_eq!(content, stamp(3));
    assert_eq!(requests, root_requests(2, 1, stamp(3)));
    assert_eq!(tiles.gpu_pyramid, Some(identity));
    assert_eq!(tiles.live_content, Some(stamp(3)));
    assert!(tiles.error_readback);
    assert!(tiles.planning_metadata.is_none() && tiles.latest_demand.is_none());
    assert!(!tiles.plannable());
}

#[test]
fn metadata_of_the_live_pyramid_is_planned_with() {
    let mut tiles = stream();
    let identity = tiles.gpu_pyramid.unwrap();
    assert_eq!(
        tiles.poll_metadata(MetadataPoll::Pending),
        MetadataStep::Stop
    );
    assert!(tiles.error_readback);
    assert_eq!(
        tiles.poll_metadata(MetadataPoll::Ready(identity)),
        MetadataStep::CheckErrors
    );
    tiles.metadata_accepted(identity);
    assert!(tiles.plannable());
    tiles.output_revision = 4;
    assert!(!tiles.plannable(), "errors of an earlier output plan nothing");
    tiles.output_revision = 3;
    let demand = TileDemand {
        key: TerrainTileKey {
            level: 1,
            tile: TileId { tx: 0, tz: 0 },
        },
        class: TerrainDemandClass::Refinement,
        error_bits: 1.0f32.to_bits(),
        distance_bits: 2.0f32.to_bits(),
    };
    assert!(tiles.demand_planned(vec![demand], true));
    assert!(!tiles.demand_planned(vec![demand], true));
    assert!(tiles.demand_planned(vec![demand], false));
    let requests = demand_requests(&[demand, demand], &[true, false], stamp(3));
    assert_eq!(requests.len(), 1);
    assert_eq!(requests[0].error_bits, 1.0f32.to_bits());
}

#[test]
fn the_stream_switches_once_the_demand_is_resident() {
    let waiting = StreamObservation {
        has_gpu_pyramid: true,
        has_demand: true,
        root_current: true,
        scheduler_empty: false,
        ..observation(Some(levels()[1]))
    };
    assert_eq!(
        sync_tile_stream_to_renderer(waiting),
        StreamDecision::Disable
    );
    let resident = StreamObservation {
        scheduler_empty: true,
        ..waiting
    };
    assert_eq!(
        sync_tile_stream_to_renderer(resident),
        StreamDecision::Enable {
            target: levels()[1],
            content: stamp(3),
            fallback: TerrainTerminalFallback::RootRequired,
        }
    );
    let without = StreamObservation {
        has_atlas: false,
        ..resident
    };
    assert_eq!(sync_tile_stream_to_renderer(without), StreamDecision::Leave);
    assert!(all_current(&[true, true]));
    assert!(!all_current(&[true, false]));
}

#[test]
fn a_pyramid_needs_a_complete_output_of_this_generation() {
    let output = GpuOutputIdentity {
        current_complete_final: true,
        intent: GpuEvaluationIntent::Complete,
        generation: 7,
    };
    assert!(pyramid_admitted(output, 7, true));
    assert!(!pyramid_admitted(output, 8, true));
    assert!(!pyramid_admitted(output, 7, false));
    assert!(can_upload_tiles(true, true, true, false));
    assert!(!can_upload_tiles(true, true, false, false));
    assert_eq!(
        streamed_level_for_current_output(Some(levels()[1]), &levels(), Some(64)),
        Some(levels()[1])
    );
    assert!(demand_limits(Some(16)).max_demand_tiles <= 16);
}

fn step_observation() -> StepObservation {
    StepObservation {
        selected_is_bounded_sculpt: true,
        selected_layer_name: Some("Base".to_string()),
        full_resolution: 512,
        texture: Some((512, 512)),
    }
}

fn gpu_result() -> GpuResult {
    GpuResult {
        did_eval: true,
        fully_gpu: true,
        cpu_fallback: false,
        deferred: None,
        resume_cpu_from: None,
        width: 512,
        height: 512,
        has_output: true,
        dirty_region: None,
        tiles_x: 4,
        tiles_z: 4,
    }
}

#[test]
fn a_bounded_stroke_keeps_a_resident_full_texture() {
    let mut eval = EvalState::new(at(0));
    eval.core.force_draft = true;
    eval.core.last_eval_gpu_supported = true;
    let region = UvRect {
        min_u: 0,
        min_v: 0,
        max_u: 1,
        max_v: 1,
    };
    eval.core.pending_gpu_dirty_region = Some(region);
    assert_eq!(
        eval.dirty_rect_for(GpuEvaluationIntent::InteractiveLocal),
        DirtyRectUse::Region(region)
    );
    assert_eq!(
        eval.dirty_rect_for(GpuEvaluationIntent::Complete),
        DirtyRectUse::Clear
    );
    let step =
        eval.run_eval_step_with_intent(GpuEvaluationIntent::InteractiveLocal, step_observation());
    assert_eq!(step.quality, PreviewQuality::Full);
    eval.core.force_draft = true;
    let evicted = StepObservation {
        texture: Some((128, 128)),
        ..step_observation()
    };
    let step = eval.run_eval_step_with_intent(GpuEvaluationIntent::InteractiveLocal, evicted);
    assert_eq!(step.quality, PreviewQuality::Draft);
}

#[test]
fn a_gpu_result_is_shown_whole_or_by_its_region() {
    let mut eval = EvalState::new(at(0));
    let step = eval.run_eval_step_with_intent(GpuEvaluationIntent::Complete, step_observation());
    let verdict =
        eval.accept_gpu_result(step, gpu_result(), EvaluationTraceId::new(5), 100, 200);
    assert_eq!(verdict.presentation, Presentation::Shared);
    assert!(!verdict.enqueue);
    assert_eq!(eval.ui.profile.path, EvalPath::Gpu);
    assert_eq!(eval.core.last_accepted_evaluation_id, 5);
    assert_eq!(eval.ui.profile.settled_authoritative_us, 200);
    let region = TexelRect {
        x: 1,
        y: 2,
        w: 3,
        h: 4,
    };
    let bounded = GpuResult {
        dirty_region: Some(region),
        ..gpu_result()
    };
    let verdict = eval.accept_gpu_result(step, bounded, EvaluationTraceId::new(6), 100, 200);
    assert_eq!(verdict.presentation, Presentation::Region(region));
}

#[test]
fn a_stale_gpu_result_is_refused() {
    let mut eval = EvalState::new(at(0));
    let step = eval.run_eval_step_with_intent(GpuEvaluationIntent::Complete, step_observation());
    eval.core.eval_token = 9;
    let verdict =
        eval.accept_gpu_result(step, gpu_result(), EvaluationTraceId::new(5), 100, 200);
    assert_eq!(verdict.presentation, Presentation::RefusedStale);
    assert_eq!(eval.core.last_accepted_evaluation_id, 0);
}

#[test]
fn a_deferred_suffix_is_remembered() {
    let mut eval = EvalState::new(at(0));
    let step =
        eval.run_eval_step_with_intent(GpuEvaluationIntent::InteractiveLocal, step_observation());
    let deferred = GpuResult {
        deferred: Some(DeferredSuffix {
            layer_name: Some("Rivers".to_string()),
            deferred_layers: 2,
        }),
        ..gpu_result()
    };
    eval.accept_gpu_result(step, deferred, EvaluationTraceId::new(5), 100, 200);
    let suffix = eval.deferred_full_field.as_ref().unwrap();
    assert_eq!(suffix.layer_name, "Rivers");
    assert_eq!(suffix.deferred_layers, 2);
    assert_eq!(eval.ui.profile.path.label(), EvalPath::GpuFullFieldDeferred.label());
}

#[test]
fn plan_edits_are_handed_over_once() {
    let mut eval = EvalState::new(at(0));
    assert!(matches!(eval.take_plan_request(), PlanRequest::Acquire));
    eval.pending_plan_edits.push(PlanEdit::Structure);
    assert!(matches!(
        eval.take_plan_request(),
        PlanRequest::Update(edits) if edits == [PlanEdit::Structure]
    ));
    assert!(eval.pending_plan_edits.is_empty());
    eval.plan_acquired();
    assert!(eval.core.pending_plan_invalidation);
    assert!(eval.plan_unsupported(12));
    assert_eq!(eval.ui.profile.eval_us, 12);
}

#[test]
fn a_refinement_runs_to_publication() {
    let mut eval = EvalState::new(at(0));
    assert!(!eval.can_begin_refinement(PreviewQuality::Draft));
    let job = eval
        .begin_gpu_refinement(
            PreviewQuality::Medium,
            true,
            None,
            EvaluationTraceId::new(2),
            at(1),
        )
        .unwrap();
    assert_eq!(job.id, 1);
    assert!(!eval.can_begin_refinement(PreviewQuality::Medium));
    assert_eq!(
        eval.refinement_gate(false),
        RefinementGate::Advance(job)
    );
    let submitted = eval.advance_gpu_refinement(
        job,
        UnitOutcome::Stepped {
            step: GpuRefinementStep::Submitted,
            in_flight_before: 0,
            in_flight_after: 1,
        },
        false,
        Duration::from_millis(4),
    );
    assert_eq!(
        submitted,
        RefinementVerdict::Continue {
            record: FrameTraceEventKind::RefinementSubmissionQueued,
            progressed: true,
        }
    );
    assert_eq!(
        eval.ui.build_progress,
        Some(BuildProgress::InFlight {
            quality: PreviewQuality::Medium,
            elapsed: Duration::from_millis(4),
        })
    );
    let RefinementGate::Advance(job) = eval.refinement_gate(false) else {
        panic!("the job is gone");
    };
    let ready = UnitOutcome::Stepped {
        step: GpuRefinementStep::ReadyToPublish,
        in_flight_before: 1,
        in_flight_after: 0,
    };
    let verdict = eval.advance_gpu_refinement(job, ready, false, Duration::from_millis(9));
    assert!(matches!(verdict, RefinementVerdict::Publish { .. }));
    eval.refinement_published(job, at(10), TIMING);
    assert_eq!(eval.core.scheduler_quality, PreviewQuality::Medium);
    assert_eq!(eval.core.last_accepted_evaluation_id, 2);
}

#[test]
fn input_and_edits_overtake_a_refinement() {
    let mut eval = EvalState::new(at(0));
    let begin = |eval: &mut EvalState| {
        eval.begin_gpu_refinement(
            PreviewQuality::Full,
            true,
            None,
            EvaluationTraceId::new(2),
            at(1),
        )
        .unwrap()
    };
    let job = begin(&mut eval);
    assert_eq!(eval.refinement_gate(true), RefinementGate::Superseded(job));
    assert_eq!(eval.refinement_gate(false), RefinementGate::NoJob);
    let job = begin(&mut eval);
    eval.core.eval_token = 5;
    assert!(!job.is_fresh(5));
    assert_eq!(eval.refinement_gate(false), RefinementGate::Superseded(job));
    let failed =
        eval.advance_gpu_refinement(job, UnitOutcome::Failed, false, Duration::from_millis(1));
    assert_eq!(failed, RefinementVerdict::Failed { job, enqueue: true });
}

fn preview(keys: &[&str]) -> PreviewObservation {
    PreviewObservation {
        has_height: true,
        geomorph_debug: false,
        has_placement_channels: false,
        selected_mask_baked: false,
        any_mask_baked: false,
        keys: keys.iter().map(|key| key.to_string()).collect(),
    }
}

fn drawn(mode: Preview2dMode, seen: &PreviewObservation) -> PreviewSource {
    let mut state = PreviewState {
        mode,
        last_mode: mode,
        force_refresh: true,
        dirty: false,
    };
    state.note_preview_request();
    state.refresh_2d_preview(seen)
}

#[test]
fn a_preview_draws_from_the_field_of_its_mode() {
    assert_eq!(
        drawn(Preview2dMode::Height, &preview(&[])),
        PreviewSource::Height
    );
    assert_eq!(
        drawn(Preview2dMode::Flow, &preview(&[])),
        PreviewSource::AwaitFlow
    );
    assert_eq!(
        drawn(Preview2dMode::Flow, &preview(&["flow_accumulation"])),
        PreviewSource::Flow
    );
    assert_eq!(
        drawn(Preview2dMode::Mask, &preview(&["materials"])),
        PreviewSource::MaterialsField
    );
    assert_eq!(
        drawn(Preview2dMode::Temperature, &preview(&[])),
        PreviewSource::Zeros
    );
    assert!(matches!(
        drawn(Preview2dMode::Temperature, &preview(&["temperature"])),
        PreviewSource::ModeField { .. }
    ));
}

#[test]
fn a_drawn_preview_is_kept_until_something_changes() {
    let mut state = PreviewState {
        mode: Preview2dMode::Slope,
        last_mode: Preview2dMode::Height,
        force_refresh: false,
        dirty: false,
    };
    state.note_preview_request();
    assert_eq!(
        state.refresh_2d_preview(&preview(&[])),
        PreviewSource::Slope
    );
    state.note_preview_request();
    assert_eq!(state.refresh_2d_preview(&preview(&[])), PreviewSource::Keep);
}

#[test]
fn a_climate_bake_is_drawn_and_uploaded_for_overlays() {
    for (for_lit, waiting, uploads) in [
        (false, false, true),
        (true, false, false),
        (true, true, true),
        (false, true, true),
    ] {
        let mut state = PreviewState {
            mode: Preview2dMode::Snow,
            last_mode: Preview2dMode::Snow,
            force_refresh: false,
            dirty: false,
        };
        let mut eval = EvalState::new(Instant { nanos: 1 });
        eval.core.needs_height_upload = waiting;
        state.take_climate_bake(&mut eval, for_lit);
        assert_eq!(eval.core.needs_height_upload, uploads);
        assert!(eval.core.preview_dirty && state.dirty);
        assert!(matches!(
            state.refresh_2d_preview(&preview(&["snow"])),
            PreviewSource::ModeField { .. }
        ));
        assert!(!state.dirty);
    }
}

#[test]
fn climate_is_baked_where_it_is_missing() {
    let keys = preview(&["snow", "temperature"]).keys;
    assert!(ensure_climate_aux(Preview2dMode::Lit, true, &keys, true, true));
    assert!(!ensure_climate_aux(
        Preview2dMode::Lit,
        true,
        &keys,
        true,
        false
    ));
    assert!(!ensure_climate_aux(
        Preview2dMode::Snow,
        false,
        &keys,
        true,
        true
    ));
    let layers = [
        ClimateCandidate {
            is_biomes: true,
            enabled: false,
            use_climate: true,
        },
        ClimateCandidate {
            is_biomes: true,
            enabled: true,
            use_climate: true,
        },
    ];
    assert_eq!(climate_layer(&layers), Some(1));
    assert_eq!(isolated_biome(true, Some(7)), Some(7));
    assert_eq!(isolated_biome(false, Some(7)), None);
    assert_eq!(grey_rgba(&[1, 2]), [1, 1, 1, 255, 2, 2, 2, 255]);
}

type Exporter = HeightPyramidExportController<usize>;

fn shape(max_level: u8, total_tiles: usize) -> ExportShape {
    ExportShape {
        total_tiles,
        finest_tiles: Some(total_tiles),
        max_level,
    }
}

#[test]
fn cancellation_drops_staging_without_publication() {
    let mut controller = Exporter::new();
    controller.start(73, Ok(shape(2, 14))).unwrap();
    assert_eq!(controller.pump(), ExportStep::Dequeue);
    controller.cancel();
    assert_eq!(controller.pump(), ExportStep::Cancel);
    assert!(!controller.is_busy());
    assert!(controller.take_result().is_none());
    assert!(!controller.core.has_package);
}

#[test]
fn levels_are_walked_one_by_one() {
    let mut controller = Exporter::new();
    controller.start(5, Ok(shape(3, 20))).unwrap();
    let work = lease(TerrainTileWorkSource::GpuCompiledPlan, 5);
    assert_eq!(controller.pump(), ExportStep::Dequeue);
    controller.tile_dequeued(DequeueOutcome::Started(work));
    assert_eq!(controller.advance_level_or_finish(true), LevelStep::Wait);
    controller.evaluation_polled(EvaluationOutcome::ReadbackStarted);
    assert_eq!(controller.advance_level_or_finish(true), LevelStep::Wait);
    controller.readback_polled(ReadbackOutcome::Written);
    assert_eq!(controller.advance_level_or_finish(false), LevelStep::Wait);
    let walk: Vec<LevelStep> = (0..4)
        .map(|_| controller.advance_level_or_finish(true))
        .collect();
    assert_eq!(
        walk,
        [
            LevelStep::Queue(1),
            LevelStep::Queue(2),
            LevelStep::Queue(3),
            LevelStep::Finish,
        ]
    );
}

#[test]
fn gpu_controller_exports_complete_deterministic_package() {
    let mut controller = Exporter::new();
    let start = controller.start(71, Ok(shape(1, 2))).unwrap();
    assert_eq!(start.level, 0);
    assert_eq!(start.stamp.content_revision, 71);
    let mut level = start.level;
    let mut submitted = 0;
    let mut queue = queue_level(&tiles_of_grid(1, 1), level, start.stamp, 0);
    while controller.is_busy() {
        match controller.pump() {
            ExportStep::Dequeue => match queue.pop() {
                Some(request) => {
                    submitted += 1;
                    controller.tile_dequeued(DequeueOutcome::Started(TileLease {
                        id: submitted,
                        request,
                    }));
                }
                None => {
                    controller.tile_dequeued(DequeueOutcome::Empty);
                }
            },
            ExportStep::PollEvaluation(_) => {
                controller.evaluation_polled(EvaluationOutcome::ReadbackStarted);
            }
            ExportStep::PollReadback(_) => {
                controller.readback_polled(ReadbackOutcome::Written);
            }
            other => panic!("unexpected step {other:?}"),
        }
        match controller.advance_level_or_finish(queue.is_empty()) {
            LevelStep::Wait => {}
            LevelStep::Queue(next) => {
                level = next;
                queue = queue_level(&tiles_of_grid(1, 1), level, start.stamp, 0);
            }
            LevelStep::Finish => {
                let written = controller.progress().0;
                controller.finished(Ok(written));
            }
        }
    }
    assert_eq!(level, 1);
    let result = controller.take_result().expect("finished result").unwrap();
    assert_eq!(result, 2);
    assert_eq!(submitted, result as u64);
}

#[test]
fn a_second_export_waits_for_the_first() {
    let mut controller = Exporter::new();
    controller.start(1, Ok(shape(0, 1))).unwrap();
    assert_eq!(
        controller.start(2, Ok(shape(0, 1))).unwrap_err(),
        "height-pyramid export is already running"
    );
}

#[test]
fn every_preflight_failure_has_its_text() {
    let mut refused = |error: ExportPreflightError| {
        Exporter::new().start(1, Err(error)).unwrap_err()
    };
    assert_eq!(refused(ExportPreflightError::Metrics("m".to_string())), "m");
    assert_eq!(
        refused(ExportPreflightError::Plan("p".to_string())),
        "compiled export plan failed: p"
    );
    assert_eq!(
        refused(ExportPreflightError::Unsupported("u".to_string())),
        "streaming export is unsupported: u"
    );
    assert_eq!(refused(ExportPreflightError::Package("k".to_string())), "k");
}

#[test]
fn a_failed_tile_ends_the_export_with_its_error() {
    let failures = [
        (
            DequeueOutcome::PreflightChanged("x".to_string()),
            "streaming export preflight changed: x",
        ),
        (
            DequeueOutcome::InvalidDomain("x".to_string()),
            "invalid export tile domain: x",
        ),
        (
            DequeueOutcome::ProductionFailed("x".to_string()),
            "GPU height tile production failed: x",
        ),
    ];
    for (outcome, text) in failures {
        let mut controller = Exporter::new();
        controller.start(1, Ok(shape(0, 1))).unwrap();
        assert_eq!(controller.tile_dequeued(outcome), LeaseFate::Fail);
        assert!(!controller.is_busy());
        assert_eq!(controller.take_result().unwrap().unwrap_err(), text);
    }
    let mut controller = Exporter::new();
    controller.start(1, Ok(shape(0, 1))).unwrap();
    controller.tile_dequeued(DequeueOutcome::Started(lease(
        TerrainTileWorkSource::GpuCompiledPlan,
        1,
    )));
    controller.evaluation_polled(EvaluationOutcome::ReadbackStarted);
    assert_eq!(
        controller.readback_polled(ReadbackOutcome::WriteFailed("disk".to_string())),
        LeaseFate::Clear
    );
    assert_eq!(controller.take_result().unwrap().unwrap_err(), "disk");
}

#[test]
fn export_tiles_are_priced_by_their_halo() {
    let requests = queue_level(&tiles_of_grid(2, 2), 3, stamp(1), 6);
    assert_eq!(requests.len(), 4);
    assert_eq!(requests[3].estimated_us, 1_500);
    assert_eq!(requests[3].key.level, 3);
    assert_eq!(page_extent(128, 4), 136);
    assert_eq!(
        tiles_of_grid(2, 2)[1..3],
        [TileId { tx: 1, tz: 0 }, TileId { tx: 0, tz: 1 }]
    );
}
