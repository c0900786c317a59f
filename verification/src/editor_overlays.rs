//! Visuals that only the editor draws: the guides and the brush.
//!
//! The GPU side of both is the caller's; here is what they are bound to, what
//! they show, and in which order they are drawn.
use vstd::prelude::*;

use crate::presentation_pipelines::{
    OptionalResourceState, PipelineOwner, PresentationPipelineFeature,
};

verus! {

/// Which guides are on.
#[derive(Debug, Clone, Copy, PartialEq, Eq, Structural)]
pub struct GuideState {
    pub grid: bool,
    pub bounds: bool,
}

/// The overlays of the editor, apart from their pipelines.
#[derive(Debug, Clone, Copy, PartialEq, Eq, Structural)]
pub struct EditorOverlays {
    pub guides: OptionalResourceState,
    pub brush: OptionalResourceState,
    pub guide_state: GuideState,
    /// The revision of the height binding that the brush was bound to.
    pub bound_height_revision: u64,
}

/// A compiled bundle, by what it draws.
#[derive(Debug, Clone, Copy, PartialEq, Eq, Structural)]
pub enum BundleKind {
    Guides,
    Brush,
    Renderer,
}

/// What to do with a bundle before it is kept.
#[derive(Debug, Clone, Copy, PartialEq, Eq, Structural)]
pub enum InstallPlan {
    /// Give the guides their state.
    Guides(GuideState),
    /// Bind the brush to the height and the depth at hand.
    Brush,
}

/// Whether the presentation writes a depth that overlays can be tested against.
#[derive(Debug, Clone, Copy, PartialEq, Eq, Structural)]
pub enum PresentationBackend {
    RasterLit,
    Other(u16),
}

/// What one frame of the overlays does, in this order.
#[derive(Debug, Clone, Copy, PartialEq, Eq, Structural)]
pub struct OverlayFrame {
    /// Bind the brush to the new height first.
    pub rebind_brush: bool,
    pub upload_brush_view: bool,
    pub upload_guide_view: bool,
    pub sync_guide_geometry: bool,
    pub draw_guides: bool,
    /// Draw the brush; the flag says whether it is tested against the depth.
    pub draw_brush: Option<bool>,
    /// The brush pass has a depth attachment.
    pub brush_pass_has_depth: bool,
}

impl EditorOverlays {
    pub open spec fn is_ready(state: OptionalResourceState) -> bool {
        state == OptionalResourceState::Ready
    }

    /// Nothing is compiled yet, and the brush will be bound to the height at
    /// hand.
    pub fn new(height_revision: u64, guide_state: GuideState) -> (r: Self)
        ensures
            r == (EditorOverlays {
                guides: OptionalResourceState::Absent,
                brush: OptionalResourceState::Absent,
                guide_state,
                bound_height_revision: height_revision,
            }),
    {
        EditorOverlays {
            guides: OptionalResourceState::Absent,
            brush: OptionalResourceState::Absent,
            guide_state,
            bound_height_revision: height_revision,
        }
    }

    /// The state of a feature of the overlays.
    pub fn state(&self, feature: PresentationPipelineFeature) -> (r: OptionalResourceState)
        requires
            feature.owned_by() == PipelineOwner::Overlays,
        ensures
            r == if feature == PresentationPipelineFeature::Guides {
                self.guides
            } else {
                self.brush
            },
    {
        match feature {
            PresentationPipelineFeature::Guides => self.guides,
            _ => self.brush,
        }
    }

    /// Plans the installation of a bundle. A renderer's bundle has no place
    /// here.
    pub fn plan_install(&mut self, kind: BundleKind, height_revision: u64) -> (r: Result<
        InstallPlan,
        String,
    >)
        ensures
            match kind {
                BundleKind::Guides => {
                    &&& r == Ok::<InstallPlan, String>(InstallPlan::Guides(old(self).guide_state))
                    &&& *final(self) == *old(self)
                },
                BundleKind::Brush => {
                    &&& r == Ok::<InstallPlan, String>(InstallPlan::Brush)
                    &&& *final(self) == (EditorOverlays {
                        bound_height_revision: height_revision,
                        ..*old(self)
                    })
                },
                BundleKind::Renderer => {
                    &&& r matches Err(error)
                    &&& error@ == "renderer bundle cannot be installed in EditorOverlays"@
                    &&& *final(self) == *old(self)
                },
            },
    {
        match kind {
            BundleKind::Guides => Ok(InstallPlan::Guides(self.guide_state)),
            BundleKind::Brush => {
                self.bound_height_revision = height_revision;
                Ok(InstallPlan::Brush)
            },
            BundleKind::Renderer => Err(
                "renderer bundle cannot be installed in EditorOverlays".to_owned(),
            ),
        }
    }

    /// The error of a bundle that a newer request replaced.
    pub fn stale_bundle(plan: InstallPlan) -> (r: &'static str)
        ensures
            r@ == match plan {
                InstallPlan::Guides(_) => "stale guide pipeline bundle"@,
                InstallPlan::Brush => "stale brush pipeline bundle"@,
            },
    {
        match plan {
            InstallPlan::Guides(_) => "stale guide pipeline bundle",
            InstallPlan::Brush => "stale brush pipeline bundle",
        }
    }

    /// Switches the guides. The result is the state to hand to the guides, if
    /// they are there.
    pub fn set_guides(&mut self, grid: bool, bounds: bool) -> (r: Option<GuideState>)
        ensures
            *final(self) == (EditorOverlays {
                guide_state: GuideState { grid, bounds },
                ..*old(self)
            }),
            r == if Self::is_ready(old(self).guides) {
                Some(GuideState { grid, bounds })
            } else {
                None
            },
    {
        self.guide_state = GuideState { grid, bounds };
        if self.guides == OptionalResourceState::Ready {
            Some(self.guide_state)
        } else {
            None
        }
    }

    /// Follows the height binding. The result says whether the brush has to be
    /// bound again.
    pub fn sync_height(&mut self, revision: u64) -> (r: bool)
        ensures
            r == (revision != old(self).bound_height_revision && Self::is_ready(old(self).brush)),
            *final(self) == (EditorOverlays { bound_height_revision: revision, ..*old(self) }),
    {
        let moved = revision != self.bound_height_revision;
        self.bound_height_revision = revision;
        moved && self.brush == OptionalResourceState::Ready
    }

    /// Plans one frame: what is there is uploaded and drawn, guides before the
    /// brush. The brush is tested against the depth only where the backend
    /// writes one.
    pub fn render(&mut self, revision: u64, backend: PresentationBackend) -> (r: OverlayFrame)
        ensures
            ({
                let guides = Self::is_ready(old(self).guides);
                let brush = Self::is_ready(old(self).brush);
                let depth = backend == PresentationBackend::RasterLit;
                r == (OverlayFrame {
                    rebind_brush: revision != old(self).bound_height_revision && brush,
                    upload_brush_view: brush,
                    upload_guide_view: guides,
                    sync_guide_geometry: guides,
                    draw_guides: guides,
                    draw_brush: if brush {
                        Some(depth)
                    } else {
                        None
                    },
                    brush_pass_has_depth: depth,
                })
            }),
            *final(self) == (EditorOverlays { bound_height_revision: revision, ..*old(self) }),
    {
        let rebind_brush = self.sync_height(revision);
        let guides = self.guides == OptionalResourceState::Ready;
        let brush = self.brush == OptionalResourceState::Ready;
        let depth = backend == PresentationBackend::RasterLit;
        OverlayFrame {
            rebind_brush,
            upload_brush_view: brush,
            upload_guide_view: guides,
            sync_guide_geometry: guides,
            draw_guides: guides,
            draw_brush: if brush {
                Some(depth)
            } else {
                None
            },
            brush_pass_has_depth: depth,
        }
    }
}

/// What is ready is uploaded and drawn, and nothing else is; the brush is bound again
/// where the height moved, and tested against the depth where the backend writes one.
pub proof fn ready_overlays_are_drawn(
    overlays: &mut EditorOverlays,
    revision: u64,
    backend: PresentationBackend,
    frame: OverlayFrame,
)
    requires
        call_ensures(EditorOverlays::render, (overlays, revision, backend), frame),
    ensures
        old(overlays).guides is Ready <==> frame.draw_guides,
        old(overlays).guides is Ready <==> frame.upload_guide_view,
        old(overlays).guides is Ready <==> frame.sync_guide_geometry,
        old(overlays).brush is Ready <==> frame.draw_brush is Some,
        old(overlays).brush is Ready <==> frame.upload_brush_view,
        frame.draw_brush matches Some(tested) ==> (tested <==> backend is RasterLit),
        frame.brush_pass_has_depth <==> backend is RasterLit,
        frame.rebind_brush <==> old(overlays).brush is Ready && revision != old(overlays).bound_height_revision,
        final(overlays).bound_height_revision == revision,
        final(overlays).guide_state == old(overlays).guide_state,
{
}

/// A switched guide is remembered, and handed over where the guides are ready.
pub proof fn guides_remember_their_switches(
    overlays: &mut EditorOverlays,
    grid: bool,
    bounds: bool,
    handed: Option<GuideState>,
)
    requires
        call_ensures(EditorOverlays::set_guides, (overlays, grid, bounds), handed),
    ensures
        final(overlays).guide_state.grid == grid,
        final(overlays).guide_state.bounds == bounds,
        old(overlays).guides is Ready ==> handed == Some(final(overlays).guide_state),
        !(old(overlays).guides is Ready) ==> handed is None,
{
}

/// Guides are installed with their switches, the brush is bound to the height at
/// hand, and a renderer's bundle is refused.
pub proof fn bundles_are_installed_where_they_belong(
    overlays: &mut EditorOverlays,
    kind: BundleKind,
    revision: u64,
    plan: Result<InstallPlan, String>,
)
    requires
        call_ensures(EditorOverlays::plan_install, (overlays, kind, revision), plan),
    ensures
        kind is Guides ==> plan == Ok::<InstallPlan, String>(
            InstallPlan::Guides(old(overlays).guide_state),
        ),
        kind is Brush ==> plan == Ok::<InstallPlan, String>(InstallPlan::Brush) && final(overlays).bound_height_revision == revision,
        kind is Renderer ==> plan is Err,
        !(kind is Brush) ==> *final(overlays) == *old(overlays),
{
}

/// A feature's state is its own.
pub proof fn features_have_their_own_state(
    overlays: EditorOverlays,
    feature: PresentationPipelineFeature,
    state: OptionalResourceState,
)
    requires
        feature is Guides || feature is Brush,
        call_ensures(EditorOverlays::state, (&overlays, feature), state),
    ensures
        feature is Guides ==> state == overlays.guides,
        feature is Brush ==> state == overlays.brush,
{
}

} // verus!
