//! Brushes: when the pointer paints, what a dab does, and what the overlays
//! show of it.
//!
//! Positions, radii and strengths are floating-point values of the interface;
//! here a position is the number under which the caller keeps it, and radii
//! and strengths are named by the rule that yields them.
use vstd::prelude::*;

use crate::dirty::LayerId;
use crate::text::push_decimal;

verus! {

/// A picked point of the terrain, by the number that the caller keeps it under.
#[derive(Debug, Clone, Copy, PartialEq, Eq, Structural)]
pub struct PaintPoint(pub u64);

#[derive(Debug, Clone, Copy, PartialEq, Eq, Structural)]
pub struct MaskId(pub u128);

/// Tools that paint in a way of their own.
#[derive(Debug, Clone, Copy, PartialEq, Eq, Structural)]
pub enum EditorTool {
    Protect,
    Hardness,
    Sediment,
    PaintBiome,
    PaintMask,
    Other(u16),
}

#[derive(Debug, Clone, Copy, PartialEq, Eq, Structural)]
pub enum ShapeTool {
    Raise,
    Lower,
    Smooth,
    Flatten,
    Pinch,
    MountainStamp,
    CraterStamp,
    HeightStamp,
    PlateauStamp,
    Other(u16),
}

#[derive(Debug, Clone, Copy, PartialEq, Eq, Structural)]
pub enum SculptStrokeKind {
    Raise,
    Lower,
    Smooth,
    Flatten,
    Protect,
    Hardness,
    Sediment,
    Other(u16),
}

#[derive(Debug, Clone, Copy, PartialEq, Eq, Structural)]
pub enum BiomePaintTool {
    Paint,
    Erase,
    Normalize,
    FloodFill,
    PolygonFill,
    Raise,
    RaisePaint,
    Lower,
    LowerPaint,
    Flatten,
    FlattenPaint,
    Other(u16),
}

#[derive(Debug, Clone, Copy, PartialEq, Eq, Structural)]
pub enum MaskPaintTool {
    Paint,
    Erase,
    Smooth,
    FloodFill,
}

impl MaskPaintTool {
    /// The tool that Shift or the inverted brush turns this one into.
    pub open spec fn opposite(self) -> MaskPaintTool {
        match self {
            MaskPaintTool::Paint => MaskPaintTool::Erase,
            MaskPaintTool::Erase => MaskPaintTool::Paint,
            other => other,
        }
    }

    pub fn inverted(self) -> (r: MaskPaintTool)
        ensures
            r == self.opposite(),
    {
        match self {
            MaskPaintTool::Paint => MaskPaintTool::Erase,
            MaskPaintTool::Erase => MaskPaintTool::Paint,
            MaskPaintTool::Smooth => MaskPaintTool::Smooth,
            MaskPaintTool::FloodFill => MaskPaintTool::FloodFill,
        }
    }
}

/// The rule for a dab's strength.
#[derive(Debug, Clone, Copy, PartialEq, Eq, Structural)]
pub enum StampStrength {
    /// The sculpt strength as set.
    Sculpt,
    /// A tenth of it, kept within the unit range of soft brushes.
    SculptTenth,
    /// The sculpt strength, but enough to leave a visible stamp.
    SculptForStamp,
    /// The sculpt strength kept within the unit range.
    SculptUnit,
}

/// The rule for a dab's radius.
#[derive(Debug, Clone, Copy, PartialEq, Eq, Structural)]
pub enum StampRadius {
    Sculpt,
    /// Never below what a mask can resolve.
    SculptFloored,
}

/// The height that a dab aims at.
#[derive(Debug, Clone, Copy, PartialEq, Eq, Structural)]
pub enum StampTarget {
    Zero,
    /// The height under the cursor.
    PointHeight,
}

/// What a dab asks the document for, in order.
#[derive(Debug, Clone, Copy, PartialEq, Eq, Structural)]
pub enum PaintAction {
    SculptStamp {
        layer: LayerId,
        point: PaintPoint,
        radius: StampRadius,
        strength: StampStrength,
        stroke_kind: SculptStrokeKind,
        target: StampTarget,
    },
    /// Have a placement layer selected, making one where there is none.
    EnsurePlacementLayer,
    NormalizeBiomePlacement,
    BeginBiomePaintStroke { biome: LayerId },
    BiomeStamp { biome: LayerId, point: PaintPoint, erase: bool, mode: BiomePaintTool },
    EndBiomePaintStroke,
    /// Fill the closed polygon in the selected placement layer and carry it to
    /// the mask.
    FillBiomePolygon { biome: LayerId, resolution: u32, erase: bool },
    MaskStamp { mask: MaskId, point: PaintPoint, tool: MaskPaintTool },
}

/// What decides whether the pointer paints or moves the camera.
#[derive(Debug, Clone, Copy, PartialEq, Eq, Structural)]
pub struct PaintGates {
    pub in_editor: bool,
    pub gui_wants_pointer: bool,
    pub cursor_in_viewport: bool,
    pub modifiers_alt: bool,
    pub tool: EditorTool,
    pub tool_is_sculpt: bool,
    pub tool_is_place_point: bool,
    /// The tool has a sculpt stroke.
    pub has_sculpt_stroke: bool,
    /// Whether the selected layer supports the stroke, where it is a
    /// Foundation.
    pub foundation_supports: Option<bool>,
    pub has_active_biome: bool,
    pub has_paint_mask: bool,
    pub has_selected_mask: bool,
    pub mask_view: bool,
}

impl PaintGates {
    /// Only a selected Foundation can refuse a sculpt brush.
    pub open spec fn brush_available(self) -> bool {
        !self.has_sculpt_stroke || self.foundation_supports != Some(false)
    }

    pub fn active_sculpt_brush_available_for_selection(&self) -> (r: bool)
        ensures
            r == self.brush_available(),
    {
        if !self.has_sculpt_stroke {
            return true;
        }
        match self.foundation_supports {
            Some(supported) => supported,
            None => true,
        }
    }

    /// A left-drag paints.
    pub open spec fn paints(self) -> bool {
        self.in_editor && if self.tool_is_sculpt {
            self.brush_available()
        } else if self.tool == EditorTool::PaintBiome {
            self.has_active_biome
        } else {
            self.tool == EditorTool::PaintMask && self.has_paint_mask
        }
    }

    pub fn viewport_paint_active(&self) -> (r: bool)
        ensures
            r == self.paints(),
    {
        if !self.in_editor {
            return false;
        }
        if self.tool_is_sculpt {
            return self.active_sculpt_brush_available_for_selection();
        }
        if self.tool == EditorTool::PaintBiome {
            return self.has_active_biome;
        }
        self.tool == EditorTool::PaintMask && self.has_paint_mask
    }

    /// The camera may fly: Alt always grants it, and otherwise the tool must
    /// neither paint nor place points.
    pub open spec fn flies(self) -> bool {
        self.in_editor && (self.modifiers_alt || (!self.tool_is_place_point && !self.paints()))
    }

    pub fn viewport_camera_fly_active(&self) -> (r: bool)
        ensures
            r == self.flies(),
    {
        if !self.in_editor {
            return false;
        }
        if self.tool_is_place_point && !self.modifiers_alt {
            return false;
        }
        self.modifiers_alt || !self.viewport_paint_active()
    }

    /// The camera owns the pointer.
    pub fn viewport_camera_active(&self) -> (r: bool)
        ensures
            r == (self.in_editor && !self.gui_wants_pointer && self.cursor_in_viewport
                && self.flies()),
    {
        if !self.in_editor {
            return false;
        }
        if self.gui_wants_pointer || !self.cursor_in_viewport {
            return false;
        }
        self.viewport_camera_fly_active()
    }

    /// A paint tool is selected, so the gizmo follows the cursor.
    pub open spec fn armed(self) -> bool {
        self.tool_is_sculpt || self.tool_is_place_point || (self.tool == EditorTool::PaintMask
            && self.has_paint_mask) || self.tool == EditorTool::PaintBiome
    }

    pub fn viewport_paint_tool_armed(&self) -> (r: bool)
        ensures
            r == self.armed(),
    {
        self.tool_is_sculpt || self.tool_is_place_point || (self.tool == EditorTool::PaintMask
            && self.has_paint_mask) || self.tool == EditorTool::PaintBiome
    }

    /// The active mask tints the terrain.
    pub fn should_show_mask_overlay(&self) -> (r: bool)
        ensures
            r == ((self.has_paint_mask || self.has_selected_mask) && (self.tool
                == EditorTool::PaintMask || self.mask_view)),
    {
        if !(self.has_paint_mask || self.has_selected_mask) {
            return false;
        }
        self.tool == EditorTool::PaintMask || self.mask_view
    }
}

/// How the gizmo's radius is found.
#[derive(Debug, Clone, Copy, PartialEq, Eq, Structural)]
pub enum GizmoRadius {
    /// Three spacings of an infinite project, or a small fixed dot.
    Probe,
    /// As `Probe`, but for placing points in an infinite project.
    InfinitePoint,
    InfiniteBrush,
    BoundedPoint,
    Sculpt,
    SculptFloored,
}

/// What the brush gizmo does.
#[derive(Debug, Clone, Copy, PartialEq, Eq, Structural)]
pub enum GizmoPlan {
    Hide,
    /// Ask for the surface under the cursor; show the gizmo where `show` says.
    Pick { radius: GizmoRadius, show: bool },
}

/// Keeps the surface under the cursor known, and shows the brush while a paint
/// tool is armed.
pub fn update_brush_gizmo(gates: &PaintGates, infinite: bool) -> (r: GizmoPlan)
    ensures
        r == if !gates.cursor_in_viewport || gates.gui_wants_pointer || gates.modifiers_alt {
            GizmoPlan::Hide
        } else {
            GizmoPlan::Pick {
                show: gates.armed(),
                radius: if !gates.armed() {
                    GizmoRadius::Probe
                } else if infinite {
                    if gates.tool_is_place_point {
                        GizmoRadius::InfinitePoint
                    } else {
                        GizmoRadius::InfiniteBrush
                    }
                } else if gates.tool_is_place_point {
                    GizmoRadius::BoundedPoint
                } else if gates.tool_is_sculpt {
                    GizmoRadius::Sculpt
                } else {
                    GizmoRadius::SculptFloored
                },
            }
        },
{
    if !gates.cursor_in_viewport || gates.gui_wants_pointer || gates.modifiers_alt {
        return GizmoPlan::Hide;
    }
    let show = gates.viewport_paint_tool_armed();
    let radius = if !show {
        GizmoRadius::Probe
    } else if infinite {
        if gates.tool_is_place_point {
            GizmoRadius::InfinitePoint
        } else {
            GizmoRadius::InfiniteBrush
        }
    } else if gates.tool_is_place_point {
        GizmoRadius::BoundedPoint
    } else if gates.tool_is_sculpt {
        GizmoRadius::Sculpt
    } else {
        GizmoRadius::SculptFloored
    };
    GizmoPlan::Pick { radius, show }
}

/// Where a surface hit comes from.
#[derive(Debug, Clone, Copy, PartialEq, Eq, Structural)]
pub enum PickPlan {
    NoHit,
    /// The latest GPU depth result.
    GpuHit,
    /// A raycast against the CPU height.
    CpuRaycast,
}

/// Chooses the surface hit. A stroke in progress goes on under interface
/// chrome; an infinite project has no CPU height to fall back to.
pub fn pick_terrain_surface(
    cursor_in_viewport: bool,
    gui_wants_pointer: bool,
    stroke_active: bool,
    has_renderer: bool,
    has_gpu_hit: bool,
    infinite: bool,
) -> (r: PickPlan)
    ensures
        r == if !cursor_in_viewport || (gui_wants_pointer && !stroke_active) || !has_renderer {
            PickPlan::NoHit
        } else if has_gpu_hit {
            PickPlan::GpuHit
        } else if infinite {
            PickPlan::NoHit
        } else {
            PickPlan::CpuRaycast
        },
{
    if !cursor_in_viewport {
        return PickPlan::NoHit;
    }
    if gui_wants_pointer && !stroke_active {
        return PickPlan::NoHit;
    }
    if !has_renderer {
        return PickPlan::NoHit;
    }
    if has_gpu_hit {
        return PickPlan::GpuHit;
    }
    if infinite {
        return PickPlan::NoHit;
    }
    PickPlan::CpuRaycast
}

/// Dabs between two samples: the inner divisions of the way, at most as many
/// as one sample may add.
pub fn interpolation_steps(wanted: u32) -> (r: Vec<u32>)
    ensures
        ({
            let steps = if wanted < 1 {
                1
            } else if wanted > 32 {
                32
            } else {
                wanted as int
            };
            &&& r@.len() == steps - 1
            &&& forall|i: int| #![trigger r@[i]] 0 <= i < r@.len() ==> r@[i] == i + 1
        }),
{
    let steps: u32 = if wanted < 1 {
        1
    } else if wanted > 32 {
        32
    } else {
        wanted
    };
    let mut indices: Vec<u32> = Vec::new();
    let mut index: u32 = 1;
    while index < steps
        invariant
            1 <= index <= steps,
            steps <= 32,
            indices@.len() == index - 1,
            forall|i: int| #![trigger indices@[i]] 0 <= i < indices@.len() ==> indices@[i] == i + 1,
        decreases steps - index,
    {
        indices.push(index);
        index += 1;
    }
    indices
}

/// What a dab paints on.
#[derive(Debug, Clone, Copy, PartialEq, Eq, Structural)]
pub enum PaintTarget {
    /// A shape tool writes the shape history.
    Shape(ShapeTool),
    /// A constraint brush writes the authoring layer.
    Field(SculptStrokeKind),
    Biome(LayerId),
    /// Biomes can only be painted once one is active.
    NoBiome,
    Mask(MaskId),
    Nothing,
}

/// Chooses what a dab paints on.
pub fn paint_target(
    tool: EditorTool,
    shape_tool: Option<ShapeTool>,
    active_biome: Option<LayerId>,
    paint_mask: Option<MaskId>,
) -> (r: PaintTarget)
    ensures
        r == match (shape_tool, tool) {
            (Some(shape), _) => PaintTarget::Shape(shape),
            (None, EditorTool::Protect) => PaintTarget::Field(SculptStrokeKind::Protect),
            (None, EditorTool::Hardness) => PaintTarget::Field(SculptStrokeKind::Hardness),
            (None, EditorTool::Sediment) => PaintTarget::Field(SculptStrokeKind::Sediment),
            (None, EditorTool::PaintBiome) => match active_biome {
                Some(biome) => PaintTarget::Biome(biome),
                None => PaintTarget::NoBiome,
            },
            (None, _) => match paint_mask {
                Some(mask) => PaintTarget::Mask(mask),
                None => PaintTarget::Nothing,
            },
        },
{
    if let Some(shape) = shape_tool {
        return PaintTarget::Shape(shape);
    }
    match tool {
        EditorTool::Protect => PaintTarget::Field(SculptStrokeKind::Protect),
        EditorTool::Hardness => PaintTarget::Field(SculptStrokeKind::Hardness),
        EditorTool::Sediment => PaintTarget::Field(SculptStrokeKind::Sediment),
        EditorTool::PaintBiome => match active_biome {
            Some(biome) => PaintTarget::Biome(biome),
            None => PaintTarget::NoBiome,
        },
        EditorTool::PaintMask | EditorTool::Other(_) => match paint_mask {
            Some(mask) => PaintTarget::Mask(mask),
            None => PaintTarget::Nothing,
        },
    }
}

/// What a dab at the cursor comes to.
#[derive(Debug, Clone, Copy, PartialEq, Eq, Structural)]
pub enum PaintPlan {
    /// The selected Foundation refuses the brush.
    BrushRefused,
    /// The cursor is not on the terrain.
    Missed,
    Shape { tool: ShapeTool, point: PaintPoint },
    Field { stroke_kind: SculptStrokeKind, point: PaintPoint },
    NoBiome,
    NormalizeBiomes,
    FloodBiome { biome: LayerId, point: PaintPoint },
    PolygonBiome { biome: LayerId, point: PaintPoint },
    /// `sculpt` names the shape tool whose history layer takes the sculpt dabs.
    BrushBiome { biome: LayerId, sculpt: Option<ShapeTool>, point: PaintPoint },
    Mask { mask: MaskId, point: PaintPoint },
    Nothing,
}

impl PaintPlan {
    /// How a biome tool paints at `point`.
    pub open spec fn for_biome(
        biome: LayerId,
        tool: BiomePaintTool,
        sculpts: bool,
        point: PaintPoint,
    ) -> PaintPlan {
        match tool {
            BiomePaintTool::Normalize => PaintPlan::NormalizeBiomes,
            BiomePaintTool::FloodFill => PaintPlan::FloodBiome { biome, point },
            BiomePaintTool::PolygonFill => PaintPlan::PolygonBiome { biome, point },
            _ => PaintPlan::BrushBiome {
                biome,
                sculpt: if sculpts {
                    Some(tool.shape_rule())
                } else {
                    None
                },
                point,
            },
        }
    }

    /// The dab writes biome placement: there has to be a layer for it before
    /// anything else happens.
    pub open spec fn writes_placement(self) -> bool {
        self is NormalizeBiomes || self is FloodBiome || self is PolygonBiome || self is BrushBiome
    }

    pub fn needs_placement_layer(self) -> (r: bool)
        ensures
            r == self.writes_placement(),
    {
        match self {
            PaintPlan::NormalizeBiomes
            | PaintPlan::FloodBiome { .. }
            | PaintPlan::PolygonBiome { .. }
            | PaintPlan::BrushBiome { .. } => true,
            _ => false,
        }
    }

    /// What the status line says of a dab that changes nothing.
    pub open spec fn complaint(self) -> Option<Seq<char>> {
        match self {
            PaintPlan::BrushRefused => Some(
                "That brush isn't supported by the selected Foundation layer."@,
            ),
            PaintPlan::NoBiome => Some("Select a biome (or create one) before painting."@),
            _ => None,
        }
    }

    pub fn status(self) -> (r: Option<&'static str>)
        ensures
            match r {
                Some(text) => self.complaint() == Some(text@),
                None => self.complaint() is None,
            },
    {
        match self {
            PaintPlan::BrushRefused => Some(
                "That brush isn't supported by the selected Foundation layer.",
            ),
            PaintPlan::NoBiome => Some("Select a biome (or create one) before painting."),
            _ => None,
        }
    }
}

/// The tools that a dab chooses between.
#[derive(Debug, Clone, Copy, PartialEq, Eq, Structural)]
pub struct PaintTools {
    pub shape_tool: Option<ShapeTool>,
    pub active_biome: Option<LayerId>,
    pub biome_tool: BiomePaintTool,
    /// The biome tool also shapes the terrain.
    pub biome_tool_sculpts: bool,
    pub paint_mask: Option<MaskId>,
}

/// Decides what a dab at the cursor does. `point` is the picked terrain under
/// the cursor.
pub fn paint_at_cursor(gates: &PaintGates, tools: PaintTools, point: Option<PaintPoint>) -> (r:
    PaintPlan)
    ensures
        gates.tool_is_sculpt && !gates.brush_available() ==> r == PaintPlan::BrushRefused,
        !(gates.tool_is_sculpt && !gates.brush_available()) && point is None ==> r
            == PaintPlan::Missed,
        !(gates.tool_is_sculpt && !gates.brush_available()) ==> (point matches Some(point) ==> r
            == match (tools.shape_tool, gates.tool) {
            (Some(tool), _) => PaintPlan::Shape { tool, point },
            (None, EditorTool::Protect) => PaintPlan::Field {
                stroke_kind: SculptStrokeKind::Protect,
                point,
            },
            (None, EditorTool::Hardness) => PaintPlan::Field {
                stroke_kind: SculptStrokeKind::Hardness,
                point,
            },
            (None, EditorTool::Sediment) => PaintPlan::Field {
                stroke_kind: SculptStrokeKind::Sediment,
                point,
            },
            (None, EditorTool::PaintBiome) => match tools.active_biome {
                Some(biome) => PaintPlan::for_biome(
                    biome,
                    tools.biome_tool,
                    tools.biome_tool_sculpts,
                    point,
                ),
                None => PaintPlan::NoBiome,
            },
            (None, _) => match tools.paint_mask {
                Some(mask) => PaintPlan::Mask { mask, point },
                None => PaintPlan::Nothing,
            },
        }),
        r.writes_placement() == (point is Some && !(gates.tool_is_sculpt
            && !gates.brush_available()) && tools.shape_tool is None && gates.tool
            == EditorTool::PaintBiome && tools.active_biome is Some),
{
    if gates.tool_is_sculpt && !gates.active_sculpt_brush_available_for_selection() {
        return PaintPlan::BrushRefused;
    }
    let point = match point {
        Some(point) => point,
        None => {
            return PaintPlan::Missed;
        },
    };
    match paint_target(gates.tool, tools.shape_tool, tools.active_biome, tools.paint_mask) {
        PaintTarget::Shape(tool) => PaintPlan::Shape { tool, point },
        PaintTarget::Field(stroke_kind) => PaintPlan::Field { stroke_kind, point },
        PaintTarget::NoBiome => PaintPlan::NoBiome,
        PaintTarget::Nothing => PaintPlan::Nothing,
        PaintTarget::Mask(mask) => PaintPlan::Mask { mask, point },
        PaintTarget::Biome(biome) => match tools.biome_tool {
            BiomePaintTool::Normalize => PaintPlan::NormalizeBiomes,
            BiomePaintTool::FloodFill => PaintPlan::FloodBiome { biome, point },
            BiomePaintTool::PolygonFill => PaintPlan::PolygonBiome { biome, point },
            _ => PaintPlan::BrushBiome {
                biome,
                sculpt: if tools.biome_tool_sculpts {
                    Some(tools.biome_tool.shape_tool())
                } else {
                    None
                },
                point,
            },
        },
    }
}

impl ShapeTool {
    /// Soft tools take a tenth of the strength, stamps enough to be seen.
    pub open spec fn strength_rule(self) -> StampStrength {
        match self {
            ShapeTool::Smooth | ShapeTool::Pinch => StampStrength::SculptTenth,
            ShapeTool::MountainStamp | ShapeTool::CraterStamp => StampStrength::SculptForStamp,
            _ => StampStrength::Sculpt,
        }
    }

    /// Height and plateau stamps aim at the height under the cursor.
    pub open spec fn target_rule(self) -> StampTarget {
        match self {
            ShapeTool::HeightStamp | ShapeTool::PlateauStamp => StampTarget::PointHeight,
            _ => StampTarget::Zero,
        }
    }

    fn stamp_rules(self) -> (r: (StampStrength, StampTarget))
        ensures
            r.0 == self.strength_rule(),
            r.1 == self.target_rule(),
    {
        match self {
            ShapeTool::Smooth | ShapeTool::Pinch => (StampStrength::SculptTenth, StampTarget::Zero),
            ShapeTool::MountainStamp | ShapeTool::CraterStamp => (
                StampStrength::SculptForStamp,
                StampTarget::Zero,
            ),
            ShapeTool::HeightStamp | ShapeTool::PlateauStamp => (
                StampStrength::Sculpt,
                StampTarget::PointHeight,
            ),
            _ => (StampStrength::Sculpt, StampTarget::Zero),
        }
    }
}

impl BiomePaintTool {
    /// The stroke that a sculpting biome tool adds.
    pub open spec fn stroke_rule(self) -> SculptStrokeKind {
        match self {
            BiomePaintTool::Lower | BiomePaintTool::LowerPaint => SculptStrokeKind::Lower,
            BiomePaintTool::Flatten | BiomePaintTool::FlattenPaint => SculptStrokeKind::Flatten,
            _ => SculptStrokeKind::Raise,
        }
    }

    pub fn stroke_kind(self) -> (r: SculptStrokeKind)
        ensures
            r == self.stroke_rule(),
    {
        match self {
            BiomePaintTool::Lower | BiomePaintTool::LowerPaint => SculptStrokeKind::Lower,
            BiomePaintTool::Flatten | BiomePaintTool::FlattenPaint => SculptStrokeKind::Flatten,
            _ => SculptStrokeKind::Raise,
        }
    }

    /// The shape tool whose history a sculpting biome tool writes.
    pub open spec fn shape_rule(self) -> ShapeTool {
        match self.stroke_rule() {
            SculptStrokeKind::Lower => ShapeTool::Lower,
            SculptStrokeKind::Flatten => ShapeTool::Flatten,
            _ => ShapeTool::Raise,
        }
    }

    pub fn shape_tool(self) -> (r: ShapeTool)
        ensures
            r == self.shape_rule(),
    {
        match self.stroke_kind() {
            SculptStrokeKind::Lower => ShapeTool::Lower,
            SculptStrokeKind::Flatten => ShapeTool::Flatten,
            _ => ShapeTool::Raise,
        }
    }
}

/// The state of the stroke in progress.
#[derive(Debug, Clone, Copy, PartialEq, Eq, Structural)]
pub struct StrokeState {
    pub last_paint_point: Option<PaintPoint>,
    pub sculpt_stroke_active: bool,
    pub force_draft: bool,
    pub placement_tint_dirty: bool,
    pub preview_dirty: bool,
}

/// A shape dab at `point`.
pub open spec fn shape_dab(
    layer: LayerId,
    tool: ShapeTool,
    stroke_kind: SculptStrokeKind,
    point: PaintPoint,
) -> PaintAction {
    PaintAction::SculptStamp {
        layer,
        point,
        radius: StampRadius::Sculpt,
        strength: tool.strength_rule(),
        stroke_kind,
        target: tool.target_rule(),
    }
}

/// A biome dab at `point`.
pub open spec fn biome_dab(
    biome: LayerId,
    tool: BiomePaintTool,
    erase: bool,
    point: PaintPoint,
) -> PaintAction {
    PaintAction::BiomeStamp { biome, point, erase, mode: tool }
}

/// The sculpt dab that goes with a biome dab.
pub open spec fn biome_sculpt_dab(
    layer: LayerId,
    tool: BiomePaintTool,
    point: PaintPoint,
) -> PaintAction {
    PaintAction::SculptStamp {
        layer,
        point,
        radius: StampRadius::SculptFloored,
        strength: StampStrength::Sculpt,
        stroke_kind: tool.stroke_rule(),
        target: StampTarget::PointHeight,
    }
}

/// Every point of the way and then the sample itself.
pub open spec fn along(way: Seq<PaintPoint>, point: PaintPoint) -> Seq<PaintPoint> {
    way.push(point)
}

fn push_sculpt_dabs(
    actions: &mut Vec<PaintAction>,
    layer: LayerId,
    way: &[PaintPoint],
    point: PaintPoint,
    radius: StampRadius,
    strength: StampStrength,
    stroke_kind: SculptStrokeKind,
    target: StampTarget,
)
    ensures
        final(actions)@ == old(actions)@ + along(way@, point).map_values(
            |p: PaintPoint|
                PaintAction::SculptStamp { layer, point: p, radius, strength, stroke_kind, target },
        ),
{
    let ghost dab = |p: PaintPoint|
        PaintAction::SculptStamp { layer, point: p, radius, strength, stroke_kind, target };
    let mut i: usize = 0;
    while i < way.len()
        invariant
            i <= way@.len(),
            dab == (|p: PaintPoint|
                PaintAction::SculptStamp { layer, point: p, radius, strength, stroke_kind, target }),
            actions@ == old(actions)@ + way@.take(i as int).map_values(dab),
        decreases way@.len() - i,
    {
        actions.push(
            PaintAction::SculptStamp {
                layer,
                point: way[i],
                radius,
                strength,
                stroke_kind,
                target,
            },
        );
        i += 1;
        assert(actions@ =~= old(actions)@ + way@.take(i as int).map_values(dab));
    }
    assert(way@.take(i as int) =~= way@);
    actions.push(
        PaintAction::SculptStamp { layer, point, radius, strength, stroke_kind, target },
    );
    assert(actions@ =~= old(actions)@ + along(way@, point).map_values(dab));
}

fn push_biome_dabs(
    actions: &mut Vec<PaintAction>,
    biome: LayerId,
    way: &[PaintPoint],
    point: PaintPoint,
    erase: bool,
    tool: BiomePaintTool,
)
    ensures
        final(actions)@ == old(actions)@ + along(way@, point).map_values(
            |p: PaintPoint| biome_dab(biome, tool, erase, p),
        ),
{
    let ghost dab = |p: PaintPoint| biome_dab(biome, tool, erase, p);
    let mut i: usize = 0;
    while i < way.len()
        invariant
            i <= way@.len(),
            dab == (|p: PaintPoint| biome_dab(biome, tool, erase, p)),
            actions@ == old(actions)@ + way@.take(i as int).map_values(dab),
        decreases way@.len() - i,
    {
        actions.push(PaintAction::BiomeStamp { biome, point: way[i], erase, mode: tool });
        i += 1;
        assert(actions@ =~= old(actions)@ + way@.take(i as int).map_values(dab));
    }
    assert(way@.take(i as int) =~= way@);
    actions.push(PaintAction::BiomeStamp { biome, point, erase, mode: tool });
    assert(actions@ =~= old(actions)@ + along(way@, point).map_values(dab));
}

impl StrokeState {
    /// No stroke is going on and nothing was painted.
    pub open spec fn still() -> StrokeState {
        StrokeState {
            last_paint_point: None,
            sculpt_stroke_active: false,
            force_draft: false,
            placement_tint_dirty: false,
            preview_dirty: false,
        }
    }

    pub fn idle() -> (r: Self)
        ensures
            r == Self::still(),
    {
        StrokeState {
            last_paint_point: None,
            sculpt_stroke_active: false,
            force_draft: false,
            placement_tint_dirty: false,
            preview_dirty: false,
        }
    }

    /// A dab of a shape tool. A stamp is one-shot: dragging it adds nothing.
    pub fn paint_shape(
        &mut self,
        layer: LayerId,
        tool: ShapeTool,
        is_stamp: bool,
        stroke_kind: SculptStrokeKind,
        point: PaintPoint,
        way: &[PaintPoint],
    ) -> (r: Vec<PaintAction>)
        ensures
            is_stamp && old(self).last_paint_point is Some ==> {
                &&& r@ == Seq::<PaintAction>::empty()
                &&& *final(self) == (StrokeState { sculpt_stroke_active: true, ..*old(self) })
            },
            !(is_stamp && old(self).last_paint_point is Some) ==> {
                &&& r@ == along(
                    if is_stamp {
                        Seq::<PaintPoint>::empty()
                    } else {
                        way@
                    },
                    point,
                ).map_values(|p: PaintPoint| shape_dab(layer, tool, stroke_kind, p))
                &&& *final(self) == (StrokeState {
                    sculpt_stroke_active: true,
                    last_paint_point: Some(point),
                    force_draft: true,
                    ..*old(self)
                })
            },
    {
        self.sculpt_stroke_active = true;
        let mut actions: Vec<PaintAction> = Vec::new();
        if is_stamp && self.last_paint_point.is_some() {
            return actions;
        }
        let (strength, target) = tool.stamp_rules();
        let none: Vec<PaintPoint> = Vec::new();
        let between: &[PaintPoint] = if is_stamp {
            none.as_slice()
        } else {
            way
        };
        push_sculpt_dabs(
            &mut actions,
            layer,
            between,
            point,
            StampRadius::Sculpt,
            strength,
            stroke_kind,
            target,
        );
        assert(actions@ =~= along(between@, point).map_values(
            |p: PaintPoint| shape_dab(layer, tool, stroke_kind, p),
        ));
        self.last_paint_point = Some(point);
        self.force_draft = true;
        actions
    }

    /// A dab of a constraint brush.
    pub fn paint_field(
        &mut self,
        layer: LayerId,
        stroke_kind: SculptStrokeKind,
        point: PaintPoint,
    ) -> (r: PaintAction)
        ensures
            r == (PaintAction::SculptStamp {
                layer,
                point,
                radius: StampRadius::Sculpt,
                strength: StampStrength::SculptUnit,
                stroke_kind,
                target: StampTarget::Zero,
            }),
            *final(self) == (StrokeState {
                sculpt_stroke_active: true,
                last_paint_point: Some(point),
                force_draft: true,
                ..*old(self)
            }),
    {
        self.sculpt_stroke_active = true;
        self.last_paint_point = Some(point);
        self.force_draft = true;
        PaintAction::SculptStamp {
            layer,
            point,
            radius: StampRadius::Sculpt,
            strength: StampStrength::SculptUnit,
            stroke_kind,
            target: StampTarget::Zero,
        }
    }

    /// Whether a biome dab erases.
    pub open spec fn erases(tool: BiomePaintTool, alt: bool) -> bool {
        tool == BiomePaintTool::Erase || alt
    }

    /// A click of the flood fill, one per press.
    pub fn paint_biome_flood(
        &mut self,
        biome: LayerId,
        alt: bool,
        point: PaintPoint,
    ) -> (r: Vec<PaintAction>)
        ensures
            old(self).last_paint_point is Some ==> {
                &&& r@ == Seq::<PaintAction>::empty()
                &&& *final(self) == *old(self)
            },
            old(self).last_paint_point is None ==> {
                &&& r@ == seq![
                    PaintAction::BeginBiomePaintStroke { biome },
                    biome_dab(biome, BiomePaintTool::FloodFill, alt, point),
                    PaintAction::EndBiomePaintStroke,
                ]
                &&& *final(self) == (StrokeState {
                    last_paint_point: Some(point),
                    placement_tint_dirty: true,
                    ..*old(self)
                })
            },
    {
        let mut actions: Vec<PaintAction> = Vec::new();
        if self.last_paint_point.is_some() {
            return actions;
        }
        actions.push(PaintAction::BeginBiomePaintStroke { biome });
        actions.push(
            PaintAction::BiomeStamp { biome, point, erase: alt, mode: BiomePaintTool::FloodFill },
        );
        actions.push(PaintAction::EndBiomePaintStroke);
        self.last_paint_point = Some(point);
        self.placement_tint_dirty = true;
        actions
    }

    /// The actions of one biome dab.
    pub open spec fn biome_brush_actions(
        self,
        biome: LayerId,
        tool: BiomePaintTool,
        paints_mask: bool,
        sculpt_layer: Option<LayerId>,
        alt: bool,
        point: PaintPoint,
        way: Seq<PaintPoint>,
    ) -> Seq<PaintAction> {
        let begin = if self.last_paint_point is None {
            seq![PaintAction::BeginBiomePaintStroke { biome }]
        } else {
            seq![]
        };
        let mask = if paints_mask {
            along(way, point).map_values(
                |p: PaintPoint| biome_dab(biome, tool, Self::erases(tool, alt), p),
            )
        } else {
            seq![]
        };
        let sculpt = match sculpt_layer {
            Some(layer) => along(way, point).map_values(
                |p: PaintPoint| biome_sculpt_dab(layer, tool, p),
            ),
            None => seq![],
        };
        begin + mask + sculpt
    }

    /// A dab of a biome brush: the undo snapshot at the start of a drag, the
    /// mask dabs where the tool paints, and the sculpt dabs where it also
    /// sculpts. `sculpt_layer` is `None` for tools that do not sculpt.
    pub fn paint_biome_brush(
        &mut self,
        biome: LayerId,
        tool: BiomePaintTool,
        paints_mask: bool,
        sculpt_layer: Option<LayerId>,
        alt: bool,
        point: PaintPoint,
        way: &[PaintPoint],
    ) -> (r: Vec<PaintAction>)
        ensures
            r@ == old(self).biome_brush_actions(
                biome,
                tool,
                paints_mask,
                sculpt_layer,
                alt,
                point,
                way@,
            ),
            *final(self) == (StrokeState {
                sculpt_stroke_active: true,
                last_paint_point: Some(point),
                ..*old(self)
            }),
    {
        let erase = tool == BiomePaintTool::Erase || alt;
        let mut actions: Vec<PaintAction> = Vec::new();
        if self.last_paint_point.is_none() {
            actions.push(PaintAction::BeginBiomePaintStroke { biome });
        }
        if paints_mask {
            push_biome_dabs(&mut actions, biome, way, point, erase, tool);
        }
        if let Some(layer) = sculpt_layer {
            push_sculpt_dabs(
                &mut actions,
                layer,
                way,
                point,
                StampRadius::SculptFloored,
                StampStrength::Sculpt,
                tool.stroke_kind(),
                StampTarget::PointHeight,
            );
        }
        assert(actions@ =~= self.biome_brush_actions(
            biome,
            tool,
            paints_mask,
            sculpt_layer,
            alt,
            point,
            way@,
        )) by {
            if let Some(layer) = sculpt_layer {
                assert(along(way@, point).map_values(
                    |p: PaintPoint| biome_sculpt_dab(layer, tool, p),
                ) =~= along(way@, point).map_values(
                    |p: PaintPoint|
                        PaintAction::SculptStamp {
                            layer,
                            point: p,
                            radius: StampRadius::SculptFloored,
                            strength: StampStrength::Sculpt,
                            stroke_kind: tool.stroke_rule(),
                            target: StampTarget::PointHeight,
                        },
                ));
            }
        }
        self.sculpt_stroke_active = true;
        self.last_paint_point = Some(point);
        actions
    }

    /// A mask dab at `point`.
    pub open spec fn mask_dab(mask: MaskId, tool: MaskPaintTool, point: PaintPoint) -> PaintAction {
        PaintAction::MaskStamp { mask, point, tool }
    }

    /// A dab of the mask brush. Shift and the inverted brush swap painting and
    /// erasing.
    pub fn paint_mask(
        &mut self,
        mask: MaskId,
        tool: MaskPaintTool,
        invert: bool,
        point: PaintPoint,
        way: &[PaintPoint],
    ) -> (r: Vec<PaintAction>)
        ensures
            r@ == along(way@, point).map_values(
                |p: PaintPoint|
                    Self::mask_dab(
                        mask,
                        if invert {
                            tool.opposite()
                        } else {
                            tool
                        },
                        p,
                    ),
            ),
            *final(self) == (StrokeState { last_paint_point: Some(point), ..*old(self) }),
    {
        let used = if invert {
            tool.inverted()
        } else {
            tool
        };
        let ghost dab = |p: PaintPoint| Self::mask_dab(mask, used, p);
        let mut actions: Vec<PaintAction> = Vec::new();
        let mut i: usize = 0;
        while i < way.len()
            invariant
                i <= way@.len(),
                dab == (|p: PaintPoint| Self::mask_dab(mask, used, p)),
                actions@ == way@.take(i as int).map_values(dab),
            decreases way@.len() - i,
        {
            actions.push(PaintAction::MaskStamp { mask, point: way[i], tool: used });
            i += 1;
            assert(actions@ =~= way@.take(i as int).map_values(dab));
        }
        actions.push(PaintAction::MaskStamp { mask, point, tool: used });
        assert(actions@ =~= along(way@, point).map_values(
            |p: PaintPoint|
                Self::mask_dab(
                    mask,
                    if invert {
                        tool.opposite()
                    } else {
                        tool
                    },
                    p,
                ),
        ));
        self.last_paint_point = Some(point);
        actions
    }
}

/// A vertex of a biome polygon, by the bit patterns of its coordinates.
#[derive(Debug, Clone, Copy, PartialEq, Eq, Structural)]
pub struct PolygonVertex {
    pub u_bits: u32,
    pub v_bits: u32,
}

/// What a click of the polygon tool came to.
pub enum PolygonClick {
    /// Infinite projects have no bounded coordinates.
    Unavailable,
    /// A vertex was added; this many are placed.
    Added(usize),
    /// The polygon was closed over these vertices.
    Closed { vertices: Vec<PolygonVertex>, actions: Vec<PaintAction> },
}

/// The resolution at which a polygon is filled.
pub open spec fn fill_resolution(preview: u32) -> u32 {
    if preview < 64 {
        64
    } else if preview > 8192 {
        8192
    } else {
        preview
    }
}

fn polygon_resolution(preview: u32) -> (r: u32)
    ensures
        r == fill_resolution(preview),
{
    if preview < 64 {
        64
    } else if preview > 8192 {
        8192
    } else {
        preview
    }
}

/// The actions that fill a polygon closed by a click. The fill comes before the
/// stroke that carries it into the history.
pub open spec fn clicked_polygon_actions(biome: LayerId, preview: u32, erase: bool) -> Seq<
    PaintAction,
> {
    seq![
        PaintAction::FillBiomePolygon { biome, resolution: fill_resolution(preview), erase },
        PaintAction::BeginBiomePaintStroke { biome },
        PaintAction::EndBiomePaintStroke,
    ]
}

/// The actions that fill a polygon closed from the keyboard. There is a layer to
/// fill first, and the fill happens inside the stroke.
pub open spec fn committed_polygon_actions(biome: LayerId, preview: u32, erase: bool) -> Seq<
    PaintAction,
> {
    seq![
        PaintAction::EnsurePlacementLayer,
        PaintAction::BeginBiomePaintStroke { biome },
        PaintAction::FillBiomePolygon { biome, resolution: fill_resolution(preview), erase },
        PaintAction::EndBiomePaintStroke,
    ]
}

/// The polygon under construction.
#[derive(Debug)]
pub struct BiomePolygon {
    pub vertices: Vec<PolygonVertex>,
}

impl BiomePolygon {
    fn take(&mut self) -> (r: Vec<PolygonVertex>)
        ensures
            r@ == old(self).vertices@,
            final(self).vertices@ == Seq::<PolygonVertex>::empty(),
    {
        let mut taken: Vec<PolygonVertex> = Vec::new();
        std::mem::swap(&mut taken, &mut self.vertices);
        taken
    }

    /// A click at `vertex`. Clicking near the first of at least three vertices
    /// closes the polygon; where the project has no bounded resolution the
    /// vertices are lost all the same.
    pub fn click(
        &mut self,
        stroke: &mut StrokeState,
        biome: LayerId,
        vertex: Option<PolygonVertex>,
        near_first: bool,
        preview_resolution: Option<u32>,
        erase: bool,
        point: PaintPoint,
    ) -> (r: PolygonClick)
        requires
            old(self).vertices@.len() < usize::MAX,
        ensures
            vertex is None ==> {
                &&& r is Unavailable
                &&& final(self).vertices@ == old(self).vertices@
                &&& *final(stroke) == *old(stroke)
            },
            vertex is Some && near_first && old(self).vertices@.len() >= 3 ==> {
                &&& final(self).vertices@ == Seq::<PolygonVertex>::empty()
                &&& match preview_resolution {
                    None => r is Unavailable && *final(stroke) == *old(stroke),
                    Some(preview) => {
                        &&& r matches PolygonClick::Closed { vertices, actions }
                        &&& vertices@ == old(self).vertices@
                        &&& actions@ == clicked_polygon_actions(biome, preview, erase)
                        &&& *final(stroke) == (StrokeState {
                            placement_tint_dirty: true,
                            preview_dirty: true,
                            ..*old(stroke)
                        })
                    },
                }
            },
            vertex is Some && !(near_first && old(self).vertices@.len() >= 3) ==> {
                &&& final(self).vertices@ == old(self).vertices@.push(vertex->0)
                &&& r == PolygonClick::Added((old(self).vertices@.len() + 1) as usize)
                &&& *final(stroke) == (StrokeState {
                    last_paint_point: Some(point),
                    ..*old(stroke)
                })
            },
    {
        let vertex = match vertex {
            Some(vertex) => vertex,
            None => {
                return PolygonClick::Unavailable;
            },
        };
        if near_first && self.vertices.len() >= 3 {
            let vertices = self.take();
            let preview: u32 = match preview_resolution {
                Some(preview) => preview,
                None => {
                    return PolygonClick::Unavailable;
                },
            };
            let mut actions: Vec<PaintAction> = Vec::new();
            actions.push(
                PaintAction::FillBiomePolygon {
                    biome,
                    resolution: polygon_resolution(preview),
                    erase,
                },
            );
            actions.push(PaintAction::BeginBiomePaintStroke { biome });
            actions.push(PaintAction::EndBiomePaintStroke);
            stroke.placement_tint_dirty = true;
            stroke.preview_dirty = true;
            return PolygonClick::Closed { vertices, actions };
        }
        self.vertices.push(vertex);
        stroke.last_paint_point = Some(point);
        PolygonClick::Added(self.vertices.len())
    }

    /// Closes the polygon from the keyboard. Fewer than three vertices, or no
    /// active biome, leave it open.
    pub fn commit_biome_polygon_fill(
        &mut self,
        stroke: &mut StrokeState,
        active_biome: Option<LayerId>,
        preview_resolution: Option<u32>,
        erase: bool,
    ) -> (r: Option<PolygonClick>)
        ensures
            active_biome is None || old(self).vertices@.len() < 3 ==> {
                &&& r is None
                &&& final(self).vertices@ == old(self).vertices@
                &&& *final(stroke) == *old(stroke)
            },
            active_biome is Some && old(self).vertices@.len() >= 3 ==> {
                &&& final(self).vertices@ == Seq::<PolygonVertex>::empty()
                &&& match preview_resolution {
                    None => r == Some(PolygonClick::Unavailable) && *final(stroke) == *old(stroke),
                    Some(preview) => {
                        &&& r matches Some(PolygonClick::Closed { vertices, actions })
                        &&& vertices@ == old(self).vertices@
                        &&& actions@ == committed_polygon_actions(active_biome->0, preview, erase)
                        &&& *final(stroke) == (StrokeState {
                            placement_tint_dirty: true,
                            preview_dirty: true,
                            ..*old(stroke)
                        })
                    },
                }
            },
    {
        let biome = match active_biome {
            Some(biome) => biome,
            None => {
                return None;
            },
        };
        if self.vertices.len() < 3 {
            return None;
        }
        let vertices = self.take();
        let preview: u32 = match preview_resolution {
            Some(preview) => preview,
            None => {
                return Some(PolygonClick::Unavailable);
            },
        };
        let mut actions: Vec<PaintAction> = Vec::new();
        actions.push(PaintAction::EnsurePlacementLayer);
        actions.push(PaintAction::BeginBiomePaintStroke { biome });
        actions.push(
            PaintAction::FillBiomePolygon { biome, resolution: polygon_resolution(preview), erase },
        );
        actions.push(PaintAction::EndBiomePaintStroke);
        stroke.placement_tint_dirty = true;
        stroke.preview_dirty = true;
        Some(PolygonClick::Closed { vertices, actions })
    }
}

impl PolygonClick {
    /// What the status line says of the click.
    pub open spec fn text(self) -> Seq<char> {
        match self {
            PolygonClick::Unavailable => "Biome polygon fill is unavailable for Infinite projects."@,
            PolygonClick::Added(count) => "Polygon vertex "@ + crate::text::decimal(count as nat)
                + " â€” click near first point to close"@,
            PolygonClick::Closed { vertices, .. } => "Polygon fill ("@ + crate::text::decimal(
                vertices@.len(),
            ) + " pts)"@,
        }
    }

    pub fn status(&self) -> (r: String)
        ensures
            r@ == self.text(),
    {
        match self {
            PolygonClick::Unavailable => {
                "Biome polygon fill is unavailable for Infinite projects.".to_owned()
            },
            PolygonClick::Added(count) => {
                let mut text = "Polygon vertex ".to_owned();
                push_decimal(&mut text, *count as u64);
                text.append(" â€” click near first point to close");
                text
            },
            PolygonClick::Closed { vertices, actions: _ } => {
                let mut text = "Polygon fill (".to_owned();
                push_decimal(&mut text, vertices.len() as u64);
                text.append(" pts)");
                text
            },
        }
    }
}

/// What the terrain shows of the active mask.
#[derive(Debug, Clone, Copy, PartialEq, Eq, Structural)]
pub enum MaskOverlay {
    /// A transparent texel and no tint.
    Clear,
    /// The painted samples in the mask's colour.
    Painted,
    /// The evaluated field in the mask's colour.
    Baked,
}

/// Chooses what the terrain shows of the active mask: painted samples first,
/// then the evaluated field.
pub fn sync_mask_overlay_to_renderer(
    has_mask: bool,
    asset_exists: bool,
    has_painted_samples: bool,
    field_baked: bool,
) -> (r: MaskOverlay)
    ensures
        r == if !has_mask || !asset_exists {
            MaskOverlay::Clear
        } else if has_painted_samples {
            MaskOverlay::Painted
        } else if field_baked {
            MaskOverlay::Baked
        } else {
            MaskOverlay::Clear
        },
{
    if !has_mask || !asset_exists {
        return MaskOverlay::Clear;
    }
    if has_painted_samples {
        return MaskOverlay::Painted;
    }
    if field_baked {
        return MaskOverlay::Baked;
    }
    MaskOverlay::Clear
}

/// One colour at the given opacities.
pub open spec fn tinted_pixels(red: u8, green: u8, blue: u8, alphas: Seq<u8>) -> Seq<u8>
    decreases alphas.len(),
{
    if alphas.len() == 0 {
        Seq::empty()
    } else {
        tinted_pixels(red, green, blue, alphas.drop_last()) + seq![red, green, blue, alphas.last()]
    }
}

/// Expands opacities of one colour to RGBA.
pub fn tinted_rgba(red: u8, green: u8, blue: u8, alphas: &[u8]) -> (r: Vec<u8>)
    ensures
        r@ == tinted_pixels(red, green, blue, alphas@),
        r@.len() == 4 * alphas@.len(),
{
    let mut rgba: Vec<u8> = Vec::new();
    let mut i: usize = 0;
    while i < alphas.len()
        invariant
            i <= alphas@.len(),
            rgba@ == tinted_pixels(red, green, blue, alphas@.take(i as int)),
            rgba@.len() == 4 * i,
        decreases alphas@.len() - i,
    {
        let ghost before = rgba@;
        let alpha: u8 = alphas[i];
        rgba.push(red);
        rgba.push(green);
        rgba.push(blue);
        rgba.push(alpha);
        proof {
            assert(alphas@.take(i + 1).drop_last() =~= alphas@.take(i as int));
            assert(rgba@ =~= before + seq![red, green, blue, alpha]);
        }
        i += 1;
    }
    assert(alphas@.take(i as int) =~= alphas@);
    rgba
}

/// Painting and flying exclude each other, except that Alt always flies.
pub proof fn paint_and_camera_exclude_each_other(gates: PaintGates)
    requires
        !gates.modifiers_alt,
    ensures
        !(gates.paints() && gates.flies()),
{
}

/// A drag of a biome brush opens one undo step: only its first dab does.
pub proof fn a_drag_opens_one_undo_step(
    stroke: StrokeState,
    biome: LayerId,
    tool: BiomePaintTool,
    paints_mask: bool,
    sculpt_layer: Option<LayerId>,
    alt: bool,
    point: PaintPoint,
    way: Seq<PaintPoint>,
    k: int,
)
    requires
        0 <= k < stroke.biome_brush_actions(
            biome,
            tool,
            paints_mask,
            sculpt_layer,
            alt,
            point,
            way,
        ).len(),
    ensures
        stroke.biome_brush_actions(
            biome,
            tool,
            paints_mask,
            sculpt_layer,
            alt,
            point,
            way,
        )[k] is BeginBiomePaintStroke <==> stroke.last_paint_point is None && k == 0,
{
}

/// Inverting a mask brush twice is not inverting it.
pub proof fn inversion_is_an_involution(tool: MaskPaintTool)
    ensures
        tool.opposite().opposite() == tool,
{
}

/// A biome brush erases exactly where it is meant to: with the Erase tool or under
/// Alt, and never with another tool without Alt. It dabs every point of the way and
/// then the sample, in order, in the biome and with the tool that were chosen; a
/// sculpting tool shapes the same points.
pub proof fn biome_dabs_paint_or_erase(
    stroke: &mut StrokeState,
    biome: LayerId,
    tool: BiomePaintTool,
    paints_mask: bool,
    sculpt_layer: Option<LayerId>,
    alt: bool,
    point: PaintPoint,
    way: &[PaintPoint],
    actions: Vec<PaintAction>,
)
    requires
        call_ensures(
            StrokeState::paint_biome_brush,
            (stroke, biome, tool, paints_mask, sculpt_layer, alt, point, way),
            actions,
        ),
    ensures
        forall|i: int| #![trigger actions@[i]]
            0 <= i < actions@.len() ==> (actions@[i] matches PaintAction::BiomeStamp {
                erase,
                mode,
                biome: into,
                ..
            } ==> {
                &&& mode == tool
                &&& into == biome
                &&& alt ==> erase
                &&& tool is Erase ==> erase
                &&& !alt && !(tool is Erase) ==> !erase
            }),
        ({
            let first: int = if old(stroke).last_paint_point is None {
                1
            } else {
                0
            };
            let dabs: int = if paints_mask {
                way@.len() as int + 1
            } else {
                0
            };
            let sculpts: int = if sculpt_layer is Some {
                way@.len() as int + 1
            } else {
                0
            };
            &&& actions@.len() == first + dabs + sculpts
            &&& first == 1 ==> actions@[0] == (PaintAction::BeginBiomePaintStroke { biome })
            &&& forall|j: int| #![trigger actions@[j]]
                first <= j < first + dabs ==> (actions@[j] matches PaintAction::BiomeStamp {
                    point: at,
                    ..
                } && at == (if j - first < way@.len() {
                    way@[j - first]
                } else {
                    point
                }))
            &&& forall|j: int| #![trigger actions@[j]]
                first + dabs <= j < actions@.len() ==> (
                actions@[j] matches PaintAction::SculptStamp {
                    layer,
                    point: at,
                    radius,
                    strength,
                    target,
                    ..
                } && Some(layer) == sculpt_layer && at == (if j - first - dabs < way@.len() {
                    way@[j - first - dabs]
                } else {
                    point
                }) && radius is SculptFloored && strength is Sculpt && target is PointHeight)
        }),
        final(stroke).last_paint_point == Some(point),
        final(stroke).sculpt_stroke_active,
        final(stroke).force_draft == old(stroke).force_draft,
{
}

/// The sculpting biome tools lower, flatten or raise as they are called.
pub proof fn biome_tools_sculpt_as_named(tool: BiomePaintTool)
    ensures
        tool is Lower || tool is LowerPaint ==> tool.stroke_rule() is Lower && tool.shape_rule()
            is Lower,
        tool is Flatten || tool is FlattenPaint ==> tool.stroke_rule() is Flatten
            && tool.shape_rule() is Flatten,
        tool is Raise || tool is RaisePaint ==> tool.stroke_rule() is Raise && tool.shape_rule()
            is Raise,
{
}

/// A mask brush paints with its own tool, and inverted with the other one: Paint
/// turns into Erase and back, and smoothing and filling stay what they are. Every
/// point of the way and then the sample get a dab of the chosen mask.
pub proof fn mask_dabs_use_their_tool(
    stroke: &mut StrokeState,
    mask: MaskId,
    tool: MaskPaintTool,
    invert: bool,
    point: PaintPoint,
    way: &[PaintPoint],
    actions: Vec<PaintAction>,
)
    requires
        call_ensures(StrokeState::paint_mask, (stroke, mask, tool, invert, point, way), actions),
    ensures
        actions@.len() == way@.len() + 1,
        forall|i: int| #![trigger actions@[i]]
            0 <= i < actions@.len() ==> (actions@[i] matches PaintAction::MaskStamp {
                mask: on,
                point: at,
                tool: used,
            } && on == mask && at == (if i < way@.len() {
                way@[i]
            } else {
                point
            }) && (!invert ==> used == tool) && (invert && tool is Paint ==> used is Erase) && (
            invert && tool is Erase ==> used is Paint) && (invert && (tool is Smooth || tool
                is FloodFill) ==> used == tool)),
        final(stroke).last_paint_point == Some(point),
        final(stroke).sculpt_stroke_active == old(stroke).sculpt_stroke_active,
{
}

/// A shape brush dabs every point of the way and then the sample, with the layer and
/// the stroke that were chosen. A stamp leaves one dab per press: the drag behind it
/// adds nothing.
pub proof fn shape_dabs_follow_the_way(
    stroke: &mut StrokeState,
    layer: LayerId,
    tool: ShapeTool,
    is_stamp: bool,
    kind: SculptStrokeKind,
    point: PaintPoint,
    way: &[PaintPoint],
    actions: Vec<PaintAction>,
)
    requires
        call_ensures(
            StrokeState::paint_shape,
            (stroke, layer, tool, is_stamp, kind, point, way),
            actions,
        ),
    ensures
        is_stamp && old(stroke).last_paint_point is Some ==> actions@.len() == 0 && final(stroke).last_paint_point == old(stroke).last_paint_point,
        is_stamp && old(stroke).last_paint_point is None ==> actions@.len() == 1,
        !is_stamp ==> actions@.len() == way@.len() + 1,
        !is_stamp || old(stroke).last_paint_point is None ==> final(stroke).last_paint_point
            == Some(point) && final(stroke).force_draft,
        final(stroke).sculpt_stroke_active,
        forall|i: int| #![trigger actions@[i]]
            0 <= i < actions@.len() ==> (actions@[i] matches PaintAction::SculptStamp {
                layer: into,
                point: at,
                radius,
                strength,
                stroke_kind,
                target,
            } && into == layer && stroke_kind == kind && at == (if !is_stamp && i < way@.len() {
                way@[i]
            } else {
                point
            }) && radius is Sculpt && (tool is Smooth || tool is Pinch ==> strength is SculptTenth)
                && (tool is MountainStamp || tool is CraterStamp ==> strength is SculptForStamp)
                && (tool is Raise || tool is Lower || tool is Flatten || tool is HeightStamp || tool
                is PlateauStamp ==> strength is Sculpt) && (tool is HeightStamp || tool
                is PlateauStamp ==> target is PointHeight) && (!(tool is HeightStamp) && !(tool
                is PlateauStamp) ==> target is Zero)),
{
}

/// A constraint brush leaves one dab of its own kind at the point.
pub proof fn field_dabs_are_of_their_kind(
    stroke: &mut StrokeState,
    layer: LayerId,
    kind: SculptStrokeKind,
    point: PaintPoint,
    action: PaintAction,
)
    requires
        call_ensures(StrokeState::paint_field, (stroke, layer, kind, point), action),
    ensures
        action matches PaintAction::SculptStamp {
            layer: into,
            point: at,
            stroke_kind,
            strength,
            target,
            ..
        } && into == layer && at == point && stroke_kind == kind && strength is SculptUnit && target
            is Zero,
        final(stroke).last_paint_point == Some(point),
        final(stroke).sculpt_stroke_active,
        final(stroke).force_draft,
{
}

/// A press of the flood fill fills once, inside one undo step, and Alt erases.
pub proof fn a_press_floods_once(
    stroke: &mut StrokeState,
    biome: LayerId,
    alt: bool,
    point: PaintPoint,
    actions: Vec<PaintAction>,
)
    requires
        call_ensures(StrokeState::paint_biome_flood, (stroke, biome, alt, point), actions),
    ensures
        old(stroke).last_paint_point is Some ==> actions@.len() == 0 && *final(stroke) == *old(stroke),
        old(stroke).last_paint_point is None ==> actions@.len() == 3 && actions@[0]
            is BeginBiomePaintStroke && actions@[2] is EndBiomePaintStroke && (
        actions@[1] matches PaintAction::BiomeStamp { biome: into, point: at, erase, mode } && into
            == biome && at == point && erase == alt && mode is FloodFill) && final(stroke).last_paint_point == Some(point) && final(stroke).placement_tint_dirty,
{
}

/// A left drag paints with a sculpt brush that the selection takes, with the biome
/// brush over an active biome, and with the mask brush over a mask; nothing paints
/// outside the editor. Only a selected Foundation refuses a sculpt brush.
pub proof fn brushes_paint_what_they_can(gates: PaintGates)
    ensures
        gates.in_editor && gates.tool_is_sculpt && gates.foundation_supports != Some(false)
            ==> gates.paints(),
        gates.tool_is_sculpt && gates.has_sculpt_stroke && gates.foundation_supports == Some(false)
            ==> !gates.paints() && !gates.brush_available(),
        gates.in_editor && gates.tool_is_sculpt && !gates.has_sculpt_stroke ==> gates.paints(),
        gates.in_editor && !gates.tool_is_sculpt && gates.tool is PaintBiome ==> (gates.paints()
            <==> gates.has_active_biome),
        gates.in_editor && !gates.tool_is_sculpt && gates.tool is PaintMask ==> (gates.paints()
            <==> gates.has_paint_mask),
        !gates.tool_is_sculpt && !(gates.tool is PaintBiome) && !(gates.tool is PaintMask)
            ==> !gates.paints(),
        !gates.in_editor ==> !gates.paints() && !gates.flies(),
        gates.foundation_supports != Some(false) ==> gates.brush_available(),
{
}

/// Where nothing paints and no point is placed the camera flies, and Alt always
/// gives it the pointer.
pub proof fn the_camera_takes_what_no_brush_wants(gates: PaintGates)
    requires
        gates.in_editor,
    ensures
        gates.modifiers_alt ==> gates.flies(),
        !gates.modifiers_alt && gates.tool_is_place_point ==> !gates.flies(),
        !gates.modifiers_alt && !gates.tool_is_place_point && !gates.paints() ==> gates.flies(),
        !gates.modifiers_alt && gates.paints() ==> !gates.flies(),
{
}

/// The camera owns the pointer only over the viewport and past every widget.
pub proof fn widgets_keep_the_pointer(gates: PaintGates, owns: bool)
    requires
        call_ensures(PaintGates::viewport_camera_active, (&gates,), owns),
    ensures
        gates.gui_wants_pointer || !gates.cursor_in_viewport || !gates.in_editor ==> !owns,
        gates.in_editor && !gates.gui_wants_pointer && gates.cursor_in_viewport
            && gates.modifiers_alt ==> owns,
        owns && !gates.modifiers_alt ==> !gates.paints(),
{
}

/// The gizmo is hidden off the viewport, under widgets and under Alt, and shows
/// while a paint tool is armed: any sculpt or point tool, the biome brush, and the
/// mask brush over a mask.
pub proof fn armed_tools_show_their_gizmo(gates: PaintGates, infinite: bool, plan: GizmoPlan)
    requires
        call_ensures(update_brush_gizmo, (&gates, infinite), plan),
    ensures
        !gates.cursor_in_viewport || gates.gui_wants_pointer || gates.modifiers_alt ==> plan
            is Hide,
        gates.cursor_in_viewport && !gates.gui_wants_pointer && !gates.modifiers_alt ==> {
            let armed = gates.tool_is_sculpt || gates.tool_is_place_point || gates.tool
                is PaintBiome || (gates.tool is PaintMask && gates.has_paint_mask);
            &&& plan matches GizmoPlan::Pick { show, .. } && show == armed
            &&& plan matches GizmoPlan::Pick { radius, .. } && {
                &&& !armed ==> radius is Probe
                &&& armed && infinite && gates.tool_is_place_point ==> radius is InfinitePoint
                &&& armed && infinite && !gates.tool_is_place_point ==> radius is InfiniteBrush
                &&& armed && !infinite && gates.tool_is_place_point ==> radius is BoundedPoint
                &&& armed && !infinite && !gates.tool_is_place_point && gates.tool_is_sculpt
                    ==> radius is Sculpt
                &&& armed && !infinite && !gates.tool_is_place_point && !gates.tool_is_sculpt
                    ==> radius is SculptFloored
            }
        },
{
}

/// A surface is picked over the viewport only, by the GPU where it has a hit, and
/// else by a raycast, which an infinite project has nothing for. A stroke goes on
/// under widgets.
pub proof fn surfaces_are_picked_in_order(
    in_viewport: bool,
    gui: bool,
    stroking: bool,
    renderer: bool,
    gpu_hit: bool,
    infinite: bool,
    plan: PickPlan,
)
    requires
        call_ensures(
            pick_terrain_surface,
            (in_viewport, gui, stroking, renderer, gpu_hit, infinite),
            plan,
        ),
    ensures
        !in_viewport || !renderer || (gui && !stroking) ==> plan is NoHit,
        in_viewport && renderer && (!gui || stroking) && gpu_hit ==> plan is GpuHit,
        in_viewport && renderer && (!gui || stroking) && !gpu_hit && !infinite ==> plan
            is CpuRaycast,
        !gpu_hit && infinite ==> plan is NoHit,
{
}

/// Between two samples lie the inner divisions of the way: at most 31 of them, each
/// once and in order.
pub proof fn samples_are_joined_in_steps(wanted: u32, steps: Vec<u32>)
    requires
        call_ensures(interpolation_steps, (wanted,), steps),
    ensures
        wanted <= 1 ==> steps@.len() == 0,
        1 <= wanted <= 32 ==> steps@.len() == wanted - 1,
        wanted >= 32 ==> steps@.len() == 31,
        steps@.len() > 0 ==> steps@[0] == 1,
        forall|i: int| 0 <= i < steps@.len() - 1 ==> #[trigger] steps@[i + 1] == steps@[i] + 1,
{
}

/// A dab goes where its tool points: a shape tool to the shape, a constraint brush to
/// its field, the biome brush to the active biome, and any other tool to the mask at
/// hand. A refused brush and a missed terrain come to nothing.
pub proof fn dabs_go_where_their_tool_points(
    gates: PaintGates,
    tools: PaintTools,
    point: Option<PaintPoint>,
    plan: PaintPlan,
)
    requires
        call_ensures(paint_at_cursor, (&gates, tools, point), plan),
    ensures
        gates.tool_is_sculpt && gates.has_sculpt_stroke && gates.foundation_supports == Some(false)
            ==> plan is BrushRefused,
        gates.foundation_supports != Some(false) && point is None ==> plan is Missed,
        gates.foundation_supports != Some(false) ==> (point matches Some(at) ==> {
            &&& tools.shape_tool matches Some(shape) ==> plan == (PaintPlan::Shape {
                tool: shape,
                point: at,
            })
            &&& tools.shape_tool is None && gates.tool is Protect ==> plan == (PaintPlan::Field {
                stroke_kind: SculptStrokeKind::Protect,
                point: at,
            })
            &&& tools.shape_tool is None && gates.tool is Hardness ==> plan == (PaintPlan::Field {
                stroke_kind: SculptStrokeKind::Hardness,
                point: at,
            })
            &&& tools.shape_tool is None && gates.tool is Sediment ==> plan == (PaintPlan::Field {
                stroke_kind: SculptStrokeKind::Sediment,
                point: at,
            })
            &&& tools.shape_tool is None && gates.tool is PaintBiome && tools.active_biome is None
                ==> plan is NoBiome && !plan.writes_placement()
            &&& tools.shape_tool is None && gates.tool is PaintBiome ==> (
            tools.active_biome matches Some(biome) ==> {
                &&& plan.writes_placement()
                &&& tools.biome_tool is Normalize ==> plan is NormalizeBiomes
                &&& tools.biome_tool is FloodFill ==> plan == (PaintPlan::FloodBiome {
                    biome,
                    point: at,
                })
                &&& tools.biome_tool is PolygonFill ==> plan == (PaintPlan::PolygonBiome {
                    biome,
                    point: at,
                })
                &&& tools.biome_tool is Paint || tools.biome_tool is Erase || tools.biome_tool
                    is Raise || tools.biome_tool is Lower ==> (plan matches PaintPlan::BrushBiome {
                    biome: into,
                    sculpt,
                    point: there,
                } && into == biome && there == at && (sculpt is Some <==> tools.biome_tool_sculpts))
            })
            &&& tools.shape_tool is None && gates.tool is PaintMask ==> {
                &&& tools.paint_mask matches Some(mask) ==> plan == (PaintPlan::Mask {
                    mask,
                    point: at,
                })
                &&& tools.paint_mask is None ==> plan is Nothing
            }
        }),
        plan is BrushRefused || plan is Missed || plan is Nothing || plan is Mask || plan is Shape
            || plan is Field ==> !plan.writes_placement(),
{
}

/// What a dab that changes nothing complains of: a refused brush and a missing
/// biome, and nothing else.
pub proof fn only_refusals_complain(plan: PaintPlan)
    ensures
        plan.complaint() is Some <==> plan is BrushRefused || plan is NoBiome,
        plan is BrushRefused || plan is NoBiome ==> !plan.writes_placement(),
{
}

/// A polygon is filled at the document's resolution, between 64 and 8192.
pub proof fn polygons_are_filled_in_bounds(preview: u32)
    ensures
        64 <= fill_resolution(preview) <= 8192,
        64 <= preview <= 8192 ==> fill_resolution(preview) == preview,
        preview < 64 ==> fill_resolution(preview) == 64,
        preview > 8192 ==> fill_resolution(preview) == 8192,
{
}

/// Closing a polygon fills it once, erasing or not as was asked, with one undo step:
/// behind the fill for a click, and around it, on a layer that is there, from the
/// keyboard.
pub proof fn closed_polygons_are_filled_once(biome: LayerId, preview: u32, erase: bool)
    ensures
        ({
            let clicked = clicked_polygon_actions(biome, preview, erase);
            &&& clicked.len() == 3
            &&& clicked[0] matches PaintAction::FillBiomePolygon {
                biome: into,
                erase: erases,
                resolution,
            } && into == biome && erases == erase && 64 <= resolution <= 8192
            &&& clicked[1] == (PaintAction::BeginBiomePaintStroke { biome })
            &&& clicked[2] is EndBiomePaintStroke
        }),
        ({
            let committed = committed_polygon_actions(biome, preview, erase);
            &&& committed.len() == 4
            &&& committed[0] is EnsurePlacementLayer
            &&& committed[1] == (PaintAction::BeginBiomePaintStroke { biome })
            &&& committed[2] matches PaintAction::FillBiomePolygon {
                biome: into,
                erase: erases,
                resolution,
            } && into == biome && erases == erase && 64 <= resolution <= 8192
            &&& committed[3] is EndBiomePaintStroke
        }),
{
}

/// A click adds its vertex unless it closes a polygon of three or more near its
/// first one; then the vertices placed so far are what is filled, and none is left.
pub proof fn clicks_add_or_close(
    polygon: &mut BiomePolygon,
    stroke: &mut StrokeState,
    biome: LayerId,
    vertex: Option<PolygonVertex>,
    near_first: bool,
    preview: Option<u32>,
    erase: bool,
    point: PaintPoint,
    click: PolygonClick,
)
    requires
        old(polygon).vertices@.len() < usize::MAX,
        call_ensures(
            BiomePolygon::click,
            (polygon, stroke, biome, vertex, near_first, preview, erase, point),
            click,
        ),
    ensures
        vertex is None ==> click is Unavailable && final(polygon).vertices@ == old(polygon).vertices@,
        vertex matches Some(v) ==> {
            let closes = near_first && old(polygon).vertices@.len() >= 3;
            &&& !closes ==> final(polygon).vertices@.len() == old(polygon).vertices@.len() + 1
                && final(polygon).vertices@.last() == v && final(polygon).vertices@.drop_last() == old(polygon).vertices@ && (
            click matches PolygonClick::Added(count) && count == old(polygon).vertices@.len() + 1)
            &&& closes ==> final(polygon).vertices@.len() == 0
            &&& closes && preview is Some ==> (click matches PolygonClick::Closed {
                vertices,
                actions,
            } && vertices@ == old(polygon).vertices@ && actions@.len() == 3) && final(stroke).placement_tint_dirty && final(stroke).preview_dirty
            &&& closes && preview is None ==> click is Unavailable
        },
{
    if vertex is Some && !(near_first && old(polygon).vertices@.len() >= 3) {
        assert(old(polygon).vertices@.push(vertex->0).drop_last() =~= old(polygon).vertices@);
    }
}

/// From the keyboard a polygon closes over three vertices or more in an active
/// biome, and stays open otherwise.
pub proof fn the_keyboard_closes_polygons(
    polygon: &mut BiomePolygon,
    stroke: &mut StrokeState,
    biome: Option<LayerId>,
    preview: Option<u32>,
    erase: bool,
    click: Option<PolygonClick>,
)
    requires
        call_ensures(
            BiomePolygon::commit_biome_polygon_fill,
            (polygon, stroke, biome, preview, erase),
            click,
        ),
    ensures
        click is Some <==> biome is Some && old(polygon).vertices@.len() >= 3,
        click is None ==> final(polygon).vertices@ == old(polygon).vertices@ && *final(stroke)
            == *old(stroke),
        click is Some ==> final(polygon).vertices@.len() == 0,
        click is Some && preview is Some ==> (click matches Some(
            PolygonClick::Closed { vertices, actions },
        ) && vertices@ == old(polygon).vertices@ && actions@.len() == 4),
        click is Some && preview is None ==> click == Some(PolygonClick::Unavailable),
{
}

/// Painted samples of an existing mask come before its evaluated field, and either
/// before nothing.
pub proof fn painted_samples_come_first(
    has_mask: bool,
    exists_: bool,
    painted: bool,
    baked: bool,
    overlay: MaskOverlay,
)
    requires
        call_ensures(sync_mask_overlay_to_renderer, (has_mask, exists_, painted, baked), overlay),
    ensures
        !has_mask || !exists_ || (!painted && !baked) ==> overlay is Clear,
        has_mask && exists_ && painted ==> overlay is Painted,
        has_mask && exists_ && !painted && baked ==> overlay is Baked,
{
}

/// The active mask tints the terrain under the mask brush or in the mask view.
pub proof fn active_masks_tint_the_terrain(gates: PaintGates, shown: bool)
    requires
        call_ensures(PaintGates::should_show_mask_overlay, (&gates,), shown),
    ensures
        !gates.has_paint_mask && !gates.has_selected_mask ==> !shown,
        (gates.has_paint_mask || gates.has_selected_mask) && (gates.tool is PaintMask
            || gates.mask_view) ==> shown,
        !(gates.tool is PaintMask) && !gates.mask_view ==> !shown,
{
}

/// A tinted pixel is the colour at its own opacity.
pub proof fn tints_keep_their_opacity(red: u8, green: u8, blue: u8, alphas: Seq<u8>, i: int)
    requires
        0 <= i < alphas.len(),
    ensures
        tinted_pixels(red, green, blue, alphas).len() == 4 * alphas.len(),
        tinted_pixels(red, green, blue, alphas)[4 * i] == red,
        tinted_pixels(red, green, blue, alphas)[4 * i + 1] == green,
        tinted_pixels(red, green, blue, alphas)[4 * i + 2] == blue,
        tinted_pixels(red, green, blue, alphas)[4 * i + 3] == alphas[i],
    decreases alphas.len(),
{
    let front = alphas.drop_last();
    tint_length(red, green, blue, front);
    if i < front.len() {
        tints_keep_their_opacity(red, green, blue, front, i);
    }
}

proof fn tint_length(red: u8, green: u8, blue: u8, alphas: Seq<u8>)
    ensures
        tinted_pixels(red, green, blue, alphas).len() == 4 * alphas.len(),
    decreases alphas.len(),
{
    if alphas.len() > 0 {
        tint_length(red, green, blue, alphas.drop_last());
    }
}

/// A stroke state starts without a stroke.
pub proof fn strokes_start_still(state: StrokeState)
    requires
        call_ensures(StrokeState::idle, (), state),
    ensures
        state.last_paint_point is None,
        !state.sculpt_stroke_active,
        !state.force_draft,
        !state.placement_tint_dirty,
        !state.preview_dirty,
{
}

/// Whatever places biomes needs a layer to place them on, and nothing else does.
pub proof fn biomes_need_a_layer(plan: PaintPlan, needs: bool)
    requires
        call_ensures(PaintPlan::needs_placement_layer, (plan,), needs),
    ensures
        plan is NormalizeBiomes ==> needs,
        plan is FloodBiome ==> needs,
        plan is PolygonBiome ==> needs,
        plan is BrushBiome ==> needs,
        needs ==> plan is NormalizeBiomes || plan is FloodBiome || plan is PolygonBiome || plan
            is BrushBiome,
{
}

} // verus!
