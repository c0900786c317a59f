//! Brushes: what they may paint, and the actions of their dabs.

use terra_app::dirty::LayerId;
use terra_app::paint::{
    interpolation_steps, paint_at_cursor, pick_terrain_surface, sync_mask_overlay_to_renderer,
    tinted_rgba, update_brush_gizmo, BiomePaintTool, BiomePolygon, EditorTool, GizmoPlan,
    GizmoRadius, MaskId, MaskOverlay, MaskPaintTool, PaintAction, PaintGates, PaintPlan,
    PaintPoint, PaintTools, PickPlan, PolygonClick, PolygonVertex, SculptStrokeKind, ShapeTool,
    StampRadius, StampStrength, StampTarget, StrokeState,
};

const LAYER: LayerId = LayerId(3);
const BIOME: LayerId = LayerId(4);
const MASK: MaskId = MaskId(5);

fn gates(tool: EditorTool) -> PaintGates {
    PaintGates {
        in_editor: true,
        gui_wants_pointer: false,
        cursor_in_viewport: true,
        modifiers_alt: false,
        tool,
        tool_is_sculpt: false,
        tool_is_place_point: false,
        has_sculpt_stroke: false,
        foundation_supports: None,
        has_active_biome: false,
        has_paint_mask: false,
        has_selected_mask: false,
        mask_view: false,
    }
}

fn sculpting() -> PaintGates {
    PaintGates {
        tool_is_sculpt: true,
        has_sculpt_stroke: true,
        ..gates(EditorTool::Other(1))
    }
}

fn tools() -> PaintTools {
    PaintTools {
        shape_tool: None,
        active_biome: None,
        biome_tool: BiomePaintTool::Paint,
        biome_tool_sculpts: false,
        paint_mask: None,
    }
}

fn vertex(u: f32, v: f32) -> PolygonVertex {
    PolygonVertex {
        u_bits: u.to_bits(),
        v_bits: v.to_bits(),
    }
}

#[test]
fn runtime_gate_applies_only_to_selected_foundation() {
    let raise = PaintGates {
        foundation_supports: Some(true),
        ..sculpting()
    };
    assert!(raise.active_sculpt_brush_available_for_selection());
    let terrace = PaintGates {
        foundation_supports: Some(false),
        ..sculpting()
    };
    assert!(!terrace.active_sculpt_brush_available_for_selection());

    let flat = PaintGates {
        foundation_supports: None,
        ..sculpting()
    };
    assert!(flat.active_sculpt_brush_available_for_selection());
}

#[test]
fn painting_and_flying_exclude_each_other() {
    let brush = sculpting();
    assert!(brush.viewport_paint_active());
    assert!(!brush.viewport_camera_fly_active());
    let with_alt = PaintGates {
        modifiers_alt: true,
        ..brush
    };
    assert!(with_alt.viewport_camera_fly_active());
    let over_chrome = PaintGates {
        gui_wants_pointer: true,
        ..gates(EditorTool::Other(0))
    };
    assert!(!over_chrome.viewport_camera_active());
    assert!(gates(EditorTool::Other(0)).viewport_camera_active());
}

#[test]
fn the_mask_overlay_needs_a_mask_and_a_reason() {
    let painting = PaintGates {
        has_selected_mask: true,
        ..gates(EditorTool::PaintMask)
    };
    assert!(painting.should_show_mask_overlay());
    assert!(!gates(EditorTool::PaintMask).should_show_mask_overlay());
    let viewing = PaintGates {
        has_paint_mask: true,
        mask_view: true,
        ..gates(EditorTool::Other(0))
    };
    assert!(viewing.should_show_mask_overlay());
    assert_eq!(
        sync_mask_overlay_to_renderer(true, true, true, true),
        MaskOverlay::Painted
    );
    assert_eq!(
        sync_mask_overlay_to_renderer(true, true, false, true),
        MaskOverlay::Baked
    );
    assert_eq!(
        sync_mask_overlay_to_renderer(false, true, true, true),
        MaskOverlay::Clear
    );
}

#[test]
fn the_gizmo_follows_an_armed_brush() {
    assert_eq!(
        update_brush_gizmo(&sculpting(), false),
        GizmoPlan::Pick {
            radius: GizmoRadius::Sculpt,
            show: true
        }
    );
    assert_eq!(
        update_brush_gizmo(&gates(EditorTool::Other(0)), false),
        GizmoPlan::Pick {
            radius: GizmoRadius::Probe,
            show: false
        }
    );
    let hidden = PaintGates {
        cursor_in_viewport: false,
        ..sculpting()
    };
    assert_eq!(update_brush_gizmo(&hidden, true), GizmoPlan::Hide);
}

#[test]
fn a_pick_prefers_the_gpu() {
    assert_eq!(
        pick_terrain_surface(true, false, false, true, true, false),
        PickPlan::GpuHit
    );
    assert_eq!(
        pick_terrain_surface(true, false, false, true, false, false),
        PickPlan::CpuRaycast
    );
    assert_eq!(
        pick_terrain_surface(true, false, false, true, false, true),
        PickPlan::NoHit
    );
    assert_eq!(
        pick_terrain_surface(true, true, true, true, true, false),
        PickPlan::GpuHit
    );
    assert_eq!(
        pick_terrain_surface(true, true, false, true, true, false),
        PickPlan::NoHit
    );
}

#[test]
fn a_way_has_bounded_steps() {
    assert_eq!(interpolation_steps(4), [1, 2, 3]);
    assert!(interpolation_steps(0).is_empty());
    assert_eq!(interpolation_steps(1_000).len(), 31);
}

#[test]
fn a_dab_finds_its_target() {
    let point = Some(PaintPoint(9));
    let refused = PaintGates {
        foundation_supports: Some(false),
        ..sculpting()
    };
    let plan = paint_at_cursor(&refused, tools(), point);
    assert_eq!(plan, PaintPlan::BrushRefused);
    assert!(plan.status().unwrap().contains("Foundation"));
    assert_eq!(
        paint_at_cursor(&sculpting(), tools(), None),
        PaintPlan::Missed
    );
    assert_eq!(
        paint_at_cursor(
            &sculpting(),
            PaintTools {
                shape_tool: Some(ShapeTool::Raise),
                ..tools()
            },
            point
        ),
        PaintPlan::Shape {
            tool: ShapeTool::Raise,
            point: PaintPoint(9)
        }
    );
    assert_eq!(
        paint_at_cursor(&gates(EditorTool::Hardness), tools(), point),
        PaintPlan::Field {
            stroke_kind: SculptStrokeKind::Hardness,
            point: PaintPoint(9)
        }
    );
    let no_biome = paint_at_cursor(&gates(EditorTool::PaintBiome), tools(), point);
    assert_eq!(no_biome, PaintPlan::NoBiome);
    assert!(no_biome.status().is_some());
    assert_eq!(
        paint_at_cursor(
            &gates(EditorTool::PaintBiome),
            PaintTools {
                active_biome: Some(BIOME),
                biome_tool: BiomePaintTool::LowerPaint,
                biome_tool_sculpts: true,
                ..tools()
            },
            point
        ),
        PaintPlan::BrushBiome {
            biome: BIOME,
            sculpt: Some(ShapeTool::Lower),
            point: PaintPoint(9)
        }
    );
    assert_eq!(
        paint_at_cursor(
            &gates(EditorTool::PaintMask),
            PaintTools {
                paint_mask: Some(MASK),
                ..tools()
            },
            point
        ),
        PaintPlan::Mask {
            mask: MASK,
            point: PaintPoint(9)
        }
    );
}

#[test]
fn a_shape_drag_dabs_the_way_and_a_stamp_only_once() {
    let mut stroke = StrokeState::idle();
    let way = [PaintPoint(1), PaintPoint(2)];
    let actions = stroke.paint_shape(
        LAYER,
        ShapeTool::Smooth,
        false,
        SculptStrokeKind::Smooth,
        PaintPoint(3),
        &way,
    );
    assert_eq!(actions.len(), 3);
    assert_eq!(
        actions[2],
        PaintAction::SculptStamp {
            layer: LAYER,
            point: PaintPoint(3),
            radius: StampRadius::Sculpt,
            strength: StampStrength::SculptTenth,
            stroke_kind: SculptStrokeKind::Smooth,
            target: StampTarget::Zero,
        }
    );
    assert!(stroke.sculpt_stroke_active && stroke.force_draft);
    let again = stroke.paint_shape(
        LAYER,
        ShapeTool::CraterStamp,
        true,
        SculptStrokeKind::Other(1),
        PaintPoint(4),
        &way,
    );
    assert!(again.is_empty());
}

#[test]
fn a_biome_drag_snapshots_once() {
    let mut stroke = StrokeState::idle();
    let first = stroke.paint_biome_brush(
        BIOME,
        BiomePaintTool::Paint,
        true,
        None,
        true,
        PaintPoint(1),
        &[],
    );
    assert_eq!(
        first,
        [
            PaintAction::BeginBiomePaintStroke { biome: BIOME },
            PaintAction::BiomeStamp {
                biome: BIOME,
                point: PaintPoint(1),
                erase: true,
                mode: BiomePaintTool::Paint,
            }
        ]
    );
    let second = stroke.paint_biome_brush(
        BIOME,
        BiomePaintTool::RaisePaint,
        true,
        Some(LAYER),
        false,
        PaintPoint(2),
        &[],
    );
    assert_eq!(second.len(), 2);
    let mut flood = StrokeState::idle();
    assert_eq!(
        flood
            .paint_biome_flood(BIOME, false, PaintPoint(1))
            .len(),
        3
    );
    assert!(flood
        .paint_biome_flood(BIOME, false, PaintPoint(2))
        .is_empty());
}

#[test]
fn inverting_a_mask_brush_swaps_paint_and_erase() {
    assert_eq!(MaskPaintTool::Paint.inverted(), MaskPaintTool::Erase);
    assert_eq!(MaskPaintTool::Erase.inverted(), MaskPaintTool::Paint);
    assert_eq!(MaskPaintTool::Smooth.inverted(), MaskPaintTool::Smooth);
    let mut stroke = StrokeState::idle();
    let actions = stroke.paint_mask(MASK, MaskPaintTool::Paint, true, PaintPoint(7), &[]);
    assert_eq!(
        actions,
        [PaintAction::MaskStamp {
            mask: MASK,
            point: PaintPoint(7),
            tool: MaskPaintTool::Erase,
        }]
    );
}

#[test]
fn a_polygon_closes_near_its_first_vertex() {
    let mut polygon = BiomePolygon {
        vertices: Vec::new(),
    };
    let mut stroke = StrokeState::idle();
    let mut click = |polygon: &mut BiomePolygon, near: bool, preview: Option<u32>| {
        polygon.click(
            &mut stroke,
            BIOME,
            Some(vertex(0.1, 0.2)),
            near,
            preview,
            false,
            PaintPoint(1),
        )
    };
    for count in 1..=3 {
        let placed = click(&mut polygon, true, Some(32));
        assert!(matches!(&placed, PolygonClick::Added(n) if *n == count));
        assert!(placed.status().starts_with("Polygon vertex "));
    }
    let closed = click(&mut polygon, true, Some(32));
    assert!(closed.status().starts_with("Polygon fill (3"));
    match closed {
        PolygonClick::Closed { vertices, actions } => {
            assert_eq!(vertices.len(), 3);
            assert_eq!(
                actions,
                [
                    PaintAction::FillBiomePolygon {
                        biome: BIOME,
                        resolution: 64,
                        erase: false,
                    },
                    PaintAction::BeginBiomePaintStroke { biome: BIOME },
                    PaintAction::EndBiomePaintStroke,
                ]
            );
        }
        _ => panic!("the polygon stays open"),
    }
    assert!(polygon.vertices.is_empty());
    assert!(stroke.placement_tint_dirty);
}

#[test]
fn a_polygon_is_committed_with_three_vertices() {
    let mut stroke = StrokeState::idle();
    let mut polygon = BiomePolygon {
        vertices: vec![vertex(0.0, 0.0), vertex(1.0, 0.0)],
    };
    assert!(polygon
        .commit_biome_polygon_fill(&mut stroke, Some(BIOME), Some(512), true)
        .is_none());
    polygon.vertices.push(vertex(0.0, 1.0));
    assert!(polygon
        .commit_biome_polygon_fill(&mut stroke, None, Some(512), true)
        .is_none());
    assert!(matches!(
        polygon.commit_biome_polygon_fill(&mut stroke, Some(BIOME), None, true),
        Some(PolygonClick::Unavailable)
    ));
    assert!(polygon.vertices.is_empty());
    polygon.vertices = vec![vertex(0.0, 0.0), vertex(1.0, 0.0), vertex(0.0, 1.0)];
    match polygon.commit_biome_polygon_fill(&mut stroke, Some(BIOME), Some(512), true) {
        Some(PolygonClick::Closed { vertices, actions }) => {
            assert_eq!(vertices.len(), 3);
            assert_eq!(
                actions,
                [
                    PaintAction::EnsurePlacementLayer,
                    PaintAction::BeginBiomePaintStroke { biome: BIOME },
                    PaintAction::FillBiomePolygon {
                        biome: BIOME,
                        resolution: 512,
                        erase: true,
                    },
                    PaintAction::EndBiomePaintStroke,
                ]
            );
        }
        _ => panic!("the polygon stays open"),
    }
}

#[test]
fn every_biome_dab_needs_a_placement_layer() {
    for biome_tool in [
        BiomePaintTool::Normalize,
        BiomePaintTool::FloodFill,
        BiomePaintTool::PolygonFill,
        BiomePaintTool::Erase,
    ] {
        let tools = PaintTools {
            shape_tool: None,
            active_biome: Some(BIOME),
            biome_tool,
            biome_tool_sculpts: false,
            paint_mask: Some(MASK),
        };
        let dab = |tool: EditorTool, tools: PaintTools, point: Option<PaintPoint>| {
            paint_at_cursor(&gates(tool), tools, point).needs_placement_layer()
        };
        let point = Some(PaintPoint(1));
        assert!(dab(EditorTool::PaintBiome, tools, point));
        assert!(!dab(EditorTool::PaintBiome, tools, None));
        assert!(!dab(EditorTool::PaintMask, tools, point));
        assert!(!dab(EditorTool::Protect, tools, point));
        let nobody = PaintTools {
            active_biome: None,
            ..tools
        };
        assert!(!dab(EditorTool::PaintBiome, nobody, point));
    }
}

#[test]
fn a_tint_repeats_its_colour() {
    assert_eq!(tinted_rgba(1, 2, 3, &[9, 0]), [1, 2, 3, 9, 1, 2, 3, 0]);
}
