//! Resizing stored rasters.
use vstd::prelude::*;

use super::ApplyCtx;
use crate::dirty::LayerId;
use crate::paint::MaskId;

verus! {

#[derive(Debug, Clone, Copy, PartialEq, Eq, Structural)]
pub struct GridDimensions {
    pub width: u32,
    pub height: u32,
}

/// The raster to resize.
#[derive(Debug, Clone, Copy, PartialEq, Eq, Structural)]
pub enum OwnedRasterTarget {
    SculptBase(LayerId),
    PaintedMask(MaskId),
}

/// What a resize says on the status line.
pub struct ResizeReport {
    pub status: String,
    /// The mask overlay and the 2D preview have to be drawn again.
    pub mask_redraw: bool,
}

/// The resize adds samples and drops none.
pub open spec fn upsamples(source: Option<GridDimensions>, to: GridDimensions) -> bool {
    source matches Some(from) && to.width >= from.width && to.height >= from.height && to != from
}

/// The extent as text.
pub open spec fn extent_text(to: GridDimensions) -> Seq<char> {
    crate::text::decimal(to.width as nat) + " x "@ + crate::text::decimal(to.height as nat)
}

pub open spec fn resized_text(source: Option<GridDimensions>, to: GridDimensions) -> Seq<char> {
    if upsamples(source, to) {
        "Upsampled stored source to "@ + extent_text(to)
            + "; this does not add source detail"@
    } else {
        "Resized stored source to "@ + extent_text(to)
    }
}

fn push_extent(out: &mut String, to: GridDimensions)
    ensures
        final(out)@ == old(out)@ + extent_text(to),
{
    crate::text::push_decimal(out, to.width as u64);
    out.append(" x ");
    crate::text::push_decimal(out, to.height as u64);
    assert(out@ =~= old(out)@ + extent_text(to));
}

/// Takes the outcome of a resize in. `source` is the raster's extent before it.
/// A resized base dirties its layer, a resized mask every mask user; both wait
/// for the debounce. A failed resize only says so.
pub fn try_apply(
    target: OwnedRasterTarget,
    dimensions: GridDimensions,
    source: Option<GridDimensions>,
    outcome: Result<(), String>,
    ctx: &mut ApplyCtx,
) -> (r: ResizeReport)
    ensures
        match outcome {
            Ok(_) => {
                &&& r.status@ == resized_text(source, dimensions)
                &&& r.mask_redraw == (target is PaintedMask)
                &&& *final(ctx) == (ApplyCtx {
                    dirty_from: match target {
                        OwnedRasterTarget::SculptBase(id) => Some(id),
                        OwnedRasterTarget::PaintedMask(_) => old(ctx).dirty_from,
                    },
                    mask_assets_mutated: old(ctx).mask_assets_mutated || target is PaintedMask,
                    doc_mutated: true,
                    deferred_rebuild: true,
                    ..*old(ctx)
                })
            },
            Err(error) => {
                &&& r.status@ == "Source resize failed: "@ + error@
                &&& !r.mask_redraw
                &&& *final(ctx) == *old(ctx)
            },
        },
{
    if let Err(error) = outcome {
        let mut status = "Source resize failed: ".to_owned();
        status.append(error.as_str());
        return ResizeReport { status, mask_redraw: false };
    }
    let mut mask_redraw = false;
    match target {
        OwnedRasterTarget::SculptBase(id) => {
            ctx.dirty_from = Some(id);
        },
        OwnedRasterTarget::PaintedMask(_) => {
            ctx.mask_assets_mutated = true;
            mask_redraw = true;
        },
    }
    ctx.doc_mutated = true;
    ctx.deferred_rebuild = true;
    let up = match source {
        Some(from) => dimensions.width >= from.width && dimensions.height >= from.height
            && dimensions != from,
        None => false,
    };
    let mut status = String::new();
    if up {
        status.append("Upsampled stored source to ");
        push_extent(&mut status, dimensions);
        status.append("; this does not add source detail");
    } else {
        status.append("Resized stored source to ");
        push_extent(&mut status, dimensions);
    }
    assert(status@ =~= resized_text(source, dimensions));
    ResizeReport { status, mask_redraw }
}

/// A resize that failed changes nothing and says why. One that went well dirties what
/// it resized and waits for the debounce; it is called upsampling exactly where no side
/// shrank and one grew.
pub proof fn resizes_dirty_what_they_resized(
    target: OwnedRasterTarget,
    to: GridDimensions,
    source: Option<GridDimensions>,
    outcome: Result<(), String>,
    ctx: &mut ApplyCtx,
    report: ResizeReport,
)
    requires
        call_ensures(try_apply, (target, to, source, outcome, ctx), report),
    ensures
        outcome matches Err(error) ==> *final(ctx) == *old(ctx) && !report.mask_redraw
            && report.status@ == "Source resize failed: "@ + error@,
        outcome is Ok ==> final(ctx).doc_mutated && final(ctx).deferred_rebuild,
        outcome is Ok ==> (target matches OwnedRasterTarget::SculptBase(id) ==> final(ctx).dirty_from == Some(id) && final(ctx).mask_assets_mutated == old(ctx).mask_assets_mutated
            && !report.mask_redraw),
        outcome is Ok && target is PaintedMask ==> final(ctx).mask_assets_mutated && final(ctx).dirty_from == old(ctx).dirty_from && report.mask_redraw,
        final(ctx).sculpt_dirty_region_uv == old(ctx).sculpt_dirty_region_uv,
        final(ctx).continue_loop == old(ctx).continue_loop,
        outcome is Ok ==> (source matches Some(from) ==> {
            let extent = crate::text::decimal(to.width as nat) + " x "@ + crate::text::decimal(
                to.height as nat,
            );
            let grew = from.width <= to.width && from.height <= to.height && (from.width < to.width
                || from.height < to.height);
            &&& grew ==> report.status@ == "Upsampled stored source to "@ + extent
                + "; this does not add source detail"@
            &&& !grew ==> report.status@ == "Resized stored source to "@ + extent
        }),
{
}

} // verus!
