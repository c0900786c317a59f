//! Mask assets, their bindings to layers and groups, and strokes on them.
use vstd::prelude::*;

use super::ApplyCtx;
use crate::dirty::{LayerId, UvRect};
use crate::paint::MaskId;

verus! {

/// Extent of a paint buffer that is created by its first stroke.
pub const NEW_PAINT_EXTENT: u32 = 512;

/// A layer or a group that masks can be bound to.
#[derive(Debug, Clone, Copy, PartialEq, Eq, Structural)]
pub struct MaskHost {
    pub id: LayerId,
    pub is_group: bool,
}

/// One mask on one host. Strength is the bit pattern of a floating-point value,
/// the combine mode the number that the interface gives it.
#[derive(Debug, Clone, Copy, PartialEq, Eq, Structural)]
pub struct MaskBinding {
    pub host: LayerId,
    pub mask: MaskId,
    pub strength_bits: u32,
    pub invert: bool,
    pub combine: u8,
}

impl MaskBinding {
    pub open spec fn binds(self, host: LayerId, mask: MaskId) -> bool {
        self.host == host && self.mask == mask
    }
}

/// A display colour, by the bit patterns of its channels.
#[derive(Debug, Clone, Copy, PartialEq, Eq, Structural)]
pub struct MaskColor {
    pub red_bits: u32,
    pub green_bits: u32,
    pub blue_bits: u32,
}

/// Painted samples, by their bit patterns.
#[derive(Debug)]
pub struct PaintBuffer {
    pub width: u32,
    pub height: u32,
    pub samples: Vec<u32>,
}

#[derive(Debug)]
pub struct MaskAsset {
    pub id: MaskId,
    pub name: String,
    pub color: MaskColor,
    pub ops: usize,
    pub painted: bool,
    pub paint: Option<PaintBuffer>,
}

/// The bits of a single-precision value that hold its sign.
pub const FLOAT_SIGN: u32 = 0x8000_0000;

/// The magnitude of infinity. The bits above it, sign aside, are not a number.
pub const FLOAT_INFINITY: u32 = 0x7f80_0000;

/// The bit pattern without its sign.
pub open spec fn magnitude(bits: u32) -> int {
    if bits >= FLOAT_SIGN {
        bits - FLOAT_SIGN
    } else {
        bits as int
    }
}

/// Two single-precision values, given by their bits, are equal as numbers. Zero
/// equals zero of either sign; what is not a number equals nothing.
pub open spec fn float_eq(a: u32, b: u32) -> bool {
    &&& magnitude(a) <= FLOAT_INFINITY
    &&& magnitude(b) <= FLOAT_INFINITY
    &&& a == b || (magnitude(a) == 0 && magnitude(b) == 0)
}

fn same_float(a: u32, b: u32) -> (r: bool)
    ensures
        r == float_eq(a, b),
{
    let left: u32 = if a >= FLOAT_SIGN {
        a - FLOAT_SIGN
    } else {
        a
    };
    let right: u32 = if b >= FLOAT_SIGN {
        b - FLOAT_SIGN
    } else {
        b
    };
    left <= FLOAT_INFINITY && right <= FLOAT_INFINITY && (a == b || (left == 0 && right == 0))
}

impl MaskColor {
    /// The colours agree in every channel.
    pub open spec fn agrees(self, other: MaskColor) -> bool {
        &&& float_eq(self.red_bits, other.red_bits)
        &&& float_eq(self.green_bits, other.green_bits)
        &&& float_eq(self.blue_bits, other.blue_bits)
    }

    fn is_same(&self, other: &MaskColor) -> (r: bool)
        ensures
            r == self.agrees(*other),
    {
        same_float(self.red_bits, other.red_bits) && same_float(
            self.green_bits,
            other.green_bits,
        ) && same_float(self.blue_bits, other.blue_bits)
    }
}

/// As many samples, each equal to its counterpart.
pub open spec fn samples_agree(a: Seq<u32>, b: Seq<u32>) -> bool {
    &&& a.len() == b.len()
    &&& forall|i: int| #![trigger a[i]] 0 <= i < a.len() ==> float_eq(a[i], b[i])
}

/// Width, height and number of samples of a paint buffer.
pub open spec fn paint_shape(paint: Option<PaintBuffer>) -> Option<(u32, u32, nat)> {
    match paint {
        Some(p) => Some((p.width, p.height, p.samples@.len())),
        None => None,
    }
}

/// The replacement changes nothing but the display colour.
pub open spec fn color_only(existing: MaskAsset, asset: MaskAsset) -> bool {
    &&& !existing.color.agrees(asset.color)
    &&& existing.name@ == asset.name@
    &&& existing.ops == asset.ops
    &&& paint_shape(existing.paint) == paint_shape(asset.paint)
    &&& match (existing.paint, asset.paint) {
        (Some(a), Some(b)) => samples_agree(a.samples@, b.samples@),
        _ => true,
    }
}

fn same_samples(a: &Vec<u32>, b: &Vec<u32>) -> (r: bool)
    ensures
        r == samples_agree(a@, b@),
{
    if a.len() != b.len() {
        return false;
    }
    let mut i: usize = 0;
    while i < a.len()
        invariant
            i <= a@.len(),
            a@.len() == b@.len(),
            forall|j: int| #![trigger a@[j]] 0 <= j < i ==> float_eq(a@[j], b@[j]),
        decreases a@.len() - i,
    {
        if !same_float(a[i], b[i]) {
            assert(!float_eq(a@[i as int], b@[i as int]));
            return false;
        }
        i += 1;
    }
    true
}

fn copy_samples(samples: &Vec<u32>) -> (r: Vec<u32>)
    ensures
        r@ == samples@,
{
    let mut copy: Vec<u32> = Vec::new();
    let mut i: usize = 0;
    while i < samples.len()
        invariant
            i <= samples@.len(),
            copy@ == samples@.take(i as int),
        decreases samples@.len() - i,
    {
        copy.push(samples[i]);
        i += 1;
        assert(copy@ =~= samples@.take(i as int));
    }
    assert(samples@.take(i as int) =~= samples@);
    copy
}

fn is_color_only(existing: &MaskAsset, asset: &MaskAsset) -> (r: bool)
    ensures
        r == color_only(*existing, *asset),
{
    if existing.color.is_same(&asset.color) {
        return false;
    }
    if !crate::text::same_text(existing.name.as_str(), asset.name.as_str()) {
        return false;
    }
    if existing.ops != asset.ops {
        return false;
    }
    match (&existing.paint, &asset.paint) {
        (Some(a), Some(b)) => a.width == b.width && a.height == b.height && same_samples(
            &a.samples,
            &b.samples,
        ),
        (None, None) => true,
        _ => false,
    }
}

/// What the interface shows of masks.
#[derive(Debug, Clone, Copy, PartialEq, Eq, Structural)]
pub struct MaskUi {
    pub selected_mask: Option<MaskId>,
    pub paint_mask: Option<MaskId>,
    pub paint_tool_active: bool,
    pub preview_dirty: bool,
    pub overlay_dirty: bool,
}

/// The samples of a mask before the stroke in progress.
#[derive(Debug)]
pub struct MaskStrokeBefore {
    pub mask: MaskId,
    pub samples: Vec<u32>,
    pub width: u32,
    pub height: u32,
}

#[derive(Debug, Clone, Copy, PartialEq, Eq, Structural)]
pub enum MaskEdit {
    Clear,
    Fill,
    FlipX,
    FlipY,
    RotateLeft,
    RotateRight,
}

/// What the caller has to do after an action, in order.
#[derive(Debug, Clone, Copy, PartialEq, Eq, Structural)]
pub enum MaskEffect {
    /// Bring the mask panel up for a new or selected mask.
    FocusMask { painted: bool },
    SelectMoveTool,
    /// The whole stack changed: `EvalState::mark_all_layers_dirty` says what is to
    /// be done.
    AllLayersDirty,
    RequestRebuild,
    /// Dab the mask's buffer, creating one where it has none.
    StampPaint(MaskId),
    EditPaint { mask: MaskId, edit: MaskEdit },
    /// Append a node of the kind to the host's distribution.
    PushNode { host: LayerId, kind: u16 },
    /// Attach a node of the kind to the host's last node, or append it.
    AttachEffect { host: LayerId, kind: u16 },
    /// The group's placement is no longer driven by rules.
    CustomPlacement { group: LayerId },
    PushPaintUndo(MaskId),
    MarkDocumentDirty,
}

/// An action on masks. What only the terrain library knows comes with it: the
/// reason why an infinite project rejects a mask, the next combine mode, and the
/// number of a node's kind.
pub enum MaskAction {
    AddMask { asset: MaskAsset, rejection: Option<String> },
    SelectMask(MaskId),
    UpdateMaskAsset { asset: MaskAsset, rejection: Option<String> },
    BindMaskToLayer { binding: MaskBinding, rejection: Option<String> },
    UnbindMask { host: LayerId, mask: MaskId },
    UpdateMaskBinding { host: LayerId, mask: MaskId, strength_bits: u32, invert: bool },
    CycleMaskCombine { host: LayerId, mask: MaskId, next: u8 },
    PaintMaskStamp { mask: MaskId, bounded: bool },
    EditMask { mask: MaskId, edit: MaskEdit },
    AddDistNode { host: LayerId, kind: u16 },
    AddDistEffect { host: LayerId, kind: u16 },
}

/// The masks of a document and what actions change with them.
#[derive(Debug)]
pub struct MaskPanel {
    pub masks: Vec<MaskAsset>,
    pub hosts: Vec<MaskHost>,
    pub bindings: Vec<MaskBinding>,
    pub ui: MaskUi,
    pub ctx: ApplyCtx,
    pub stroke_before: Option<MaskStrokeBefore>,
}

/// What an action says and asks for.
pub struct MaskReply {
    pub effects: Vec<MaskEffect>,
    pub status: Option<String>,
}

pub open spec fn rejection_text(reason: Seq<char>) -> Seq<char> {
    "Mask is unavailable in Infinite projects: "@ + reason
}

/// `at` is the first asset `id`.
pub open spec fn first_asset(masks: Seq<MaskAsset>, id: MaskId, at: int) -> bool {
    &&& 0 <= at < masks.len()
    &&& masks[at].id == id
    &&& forall|j: int| #![trigger masks[j]] 0 <= j < at ==> masks[j].id != id
}

pub open spec fn no_asset(masks: Seq<MaskAsset>, id: MaskId) -> bool {
    forall|j: int| #![trigger masks[j]] 0 <= j < masks.len() ==> masks[j].id != id
}

pub open spec fn has_host(hosts: Seq<MaskHost>, id: LayerId, is_group: bool) -> bool {
    exists|i: int|
        #![trigger hosts[i]]
        0 <= i < hosts.len() && hosts[i] == (MaskHost { id, is_group })
}

/// `at` is the first binding of the mask to the host.
pub open spec fn first_binding(
    bindings: Seq<MaskBinding>,
    host: LayerId,
    mask: MaskId,
    at: int,
) -> bool {
    &&& 0 <= at < bindings.len()
    &&& bindings[at].binds(host, mask)
    &&& forall|j: int| #![trigger bindings[j]] 0 <= j < at ==> !bindings[j].binds(host, mask)
}

pub open spec fn is_bound(bindings: Seq<MaskBinding>, host: LayerId, mask: MaskId) -> bool {
    exists|i: int|
        #![trigger bindings[i]]
        0 <= i < bindings.len() && bindings[i].binds(host, mask)
}

impl MaskPanel {
    /// Nothing of the document's masks and bindings changed.
    pub open spec fn same_document(before: MaskPanel, after: MaskPanel) -> bool {
        &&& after.masks == before.masks
        &&& after.hosts == before.hosts
        &&& after.bindings == before.bindings
    }

    /// A rejected action changes nothing and ends the action's turn.
    pub open spec fn rejected(
        before: MaskPanel,
        after: MaskPanel,
        reason: Seq<char>,
        reply: MaskReply,
    ) -> bool {
        &&& Self::same_document(before, after)
        &&& after.ui == before.ui
        &&& after.stroke_before == before.stroke_before
        &&& after.ctx == (ApplyCtx { continue_loop: true, ..before.ctx })
        &&& reply.effects@ == Seq::<MaskEffect>::empty()
        &&& reply.status matches Some(status)
        &&& status@ == rejection_text(reason)
    }

    /// Nothing happened.
    pub open spec fn untouched(before: MaskPanel, after: MaskPanel, reply: MaskReply) -> bool {
        &&& after == before
        &&& reply.effects@ == Seq::<MaskEffect>::empty()
        &&& reply.status is None
    }

    fn nothing() -> (r: MaskReply)
        ensures
            r.effects@ == Seq::<MaskEffect>::empty(),
            r.status is None,
    {
        MaskReply { effects: Vec::new(), status: None }
    }

    fn reject(&mut self, reason: String) -> (r: MaskReply)
        ensures
            Self::rejected(*old(self), *final(self), reason@, r),
    {
        self.ctx = ApplyCtx { continue_loop: true, ..self.ctx };
        let mut status = "Mask is unavailable in Infinite projects: ".to_owned();
        status.append(reason.as_str());
        MaskReply { effects: Vec::new(), status: Some(status) }
    }

    fn find_asset(&self, id: MaskId) -> (r: Option<usize>)
        ensures
            match r {
                Some(at) => first_asset(self.masks@, id, at as int),
                None => no_asset(self.masks@, id),
            },
    {
        let mut i: usize = 0;
        while i < self.masks.len()
            invariant
                i <= self.masks@.len(),
                forall|j: int| #![trigger self.masks@[j]] 0 <= j < i ==> self.masks@[j].id != id,
            decreases self.masks@.len() - i,
        {
            if self.masks[i].id == id {
                return Some(i);
            }
            i += 1;
        }
        None
    }

    fn host_exists(&self, id: LayerId, is_group: bool) -> (r: bool)
        ensures
            r == has_host(self.hosts@, id, is_group),
    {
        let mut i: usize = 0;
        while i < self.hosts.len()
            invariant
                i <= self.hosts@.len(),
                forall|j: int|
                    #![trigger self.hosts@[j]]
                    0 <= j < i ==> self.hosts@[j] != (MaskHost { id, is_group }),
            decreases self.hosts@.len() - i,
        {
            if self.hosts[i].id == id && self.hosts[i].is_group == is_group {
                assert(self.hosts@[i as int] == (MaskHost { id, is_group }));
                return true;
            }
            i += 1;
        }
        false
    }

    fn find_binding(&self, host: LayerId, mask: MaskId) -> (r: Option<usize>)
        ensures
            match r {
                Some(at) => first_binding(self.bindings@, host, mask, at as int) && is_bound(
                    self.bindings@,
                    host,
                    mask,
                ),
                None => !is_bound(self.bindings@, host, mask),
            },
    {
        let mut i: usize = 0;
        while i < self.bindings.len()
            invariant
                i <= self.bindings@.len(),
                forall|j: int|
                    #![trigger self.bindings@[j]]
                    0 <= j < i ==> !self.bindings@[j].binds(host, mask),
            decreases self.bindings@.len() - i,
        {
            if self.bindings[i].host == host && self.bindings[i].mask == mask {
                assert(self.bindings@[i as int].binds(host, mask));
                return Some(i);
            }
            i += 1;
        }
        None
    }

    /// What adding a mask does.
    pub open spec fn mask_added(
        before: MaskPanel,
        after: MaskPanel,
        asset: MaskAsset,
        reply: MaskReply,
    ) -> bool {
        &&& after.masks@ == before.masks@.push(asset)
        &&& after.hosts == before.hosts
        &&& after.bindings == before.bindings
        &&& after.stroke_before == before.stroke_before
        &&& after.ui == (MaskUi {
            selected_mask: Some(asset.id),
            paint_mask: if asset.painted {
                Some(asset.id)
            } else {
                None
            },
            preview_dirty: true,
            overlay_dirty: true,
            ..before.ui
        })
        &&& after.ctx == (ApplyCtx { mask_assets_mutated: true, doc_mutated: true, ..before.ctx })
        &&& reply.effects@ == seq![MaskEffect::FocusMask { painted: asset.painted }]
        &&& reply.status is None
    }

    /// Adds a mask and selects it; a painted one becomes the paint target.
    pub fn add_mask(&mut self, asset: MaskAsset, rejection: Option<String>) -> (r: MaskReply)
        ensures
            match rejection {
                Some(reason) => Self::rejected(*old(self), *final(self), reason@, r),
                None => Self::mask_added(*old(self), *final(self), asset, r),
            },
    {
        if let Some(reason) = rejection {
            return self.reject(reason);
        }
        let id = asset.id;
        let painted = asset.painted;
        self.masks.push(asset);
        self.ui = MaskUi {
            selected_mask: Some(id),
            paint_mask: if painted {
                Some(id)
            } else {
                None
            },
            preview_dirty: true,
            overlay_dirty: true,
            ..self.ui
        };
        self.ctx = ApplyCtx { mask_assets_mutated: true, doc_mutated: true, ..self.ctx };
        let mut effects: Vec<MaskEffect> = Vec::new();
        effects.push(MaskEffect::FocusMask { painted });
        MaskReply { effects, status: None }
    }

    /// The mask is known and painted.
    pub open spec fn is_painted(self, id: MaskId) -> bool {
        exists|at: int| #![trigger self.masks@[at]] first_asset(self.masks@, id, at)
            && self.masks@[at].painted
    }

    /// What selecting a mask does.
    pub open spec fn mask_selected(
        before: MaskPanel,
        after: MaskPanel,
        id: MaskId,
        reply: MaskReply,
    ) -> bool {
        &&& Self::same_document(before, after)
        &&& after.stroke_before == before.stroke_before
        &&& after.ctx == before.ctx
        &&& after.ui == (MaskUi {
            selected_mask: Some(id),
            paint_mask: if before.is_painted(id) {
                Some(id)
            } else {
                None
            },
            preview_dirty: true,
            overlay_dirty: true,
            ..before.ui
        })
        &&& reply.status is None
        &&& reply.effects@ == if before.is_painted(id) {
            seq![MaskEffect::FocusMask { painted: true }]
        } else if before.ui.paint_tool_active {
            seq![MaskEffect::SelectMoveTool]
        } else {
            seq![]
        }
    }

    /// Selects a mask. A painted one becomes the paint target; any other takes
    /// the paint tool out of the hand.
    pub fn select_mask(&mut self, id: MaskId) -> (r: MaskReply)
        ensures
            Self::mask_selected(*old(self), *final(self), id, r),
    {
        let painted = match self.find_asset(id) {
            Some(at) => {
                let painted = self.masks[at].painted;
                assert(painted ==> self.is_painted(id)) by {
                    assert(first_asset(self.masks@, id, at as int));
                }
                assert(self.is_painted(id) ==> painted) by {
                    if self.is_painted(id) {
                        let other = choose|other: int|
                            #![trigger self.masks@[other]]
                            first_asset(self.masks@, id, other) && self.masks@[other].painted;
                        assert(other == at);
                    }
                }
                painted
            },
            None => {
                assert(!self.is_painted(id));
                false
            },
        };
        let mut effects: Vec<MaskEffect> = Vec::new();
        if painted {
            effects.push(MaskEffect::FocusMask { painted: true });
        } else if self.ui.paint_tool_active {
            effects.push(MaskEffect::SelectMoveTool);
        }
        self.ui = MaskUi {
            selected_mask: Some(id),
            paint_mask: if painted {
                Some(id)
            } else {
                None
            },
            preview_dirty: true,
            overlay_dirty: true,
            ..self.ui
        };
        MaskReply { effects, status: None }
    }

    /// What replacing the asset at `at` does. A change of colour alone only
    /// redraws the overlay.
    pub open spec fn mask_updated(
        before: MaskPanel,
        after: MaskPanel,
        asset: MaskAsset,
        at: int,
        reply: MaskReply,
    ) -> bool {
        let visual = color_only(before.masks@[at], asset);
        &&& after.masks@ == before.masks@.update(at, asset)
        &&& after.hosts == before.hosts
        &&& after.bindings == before.bindings
        &&& after.stroke_before == before.stroke_before
        &&& after.ui == (MaskUi {
            overlay_dirty: true,
            preview_dirty: before.ui.preview_dirty || !visual,
            ..before.ui
        })
        &&& after.ctx == (ApplyCtx {
            doc_mutated: true,
            mask_assets_mutated: before.ctx.mask_assets_mutated || !visual,
            ..before.ctx
        })
        &&& reply.effects@ == Seq::<MaskEffect>::empty()
        &&& reply.status is None
    }

    /// Replaces the asset of the same identity, if there is one.
    pub fn update_mask_asset(&mut self, asset: MaskAsset, rejection: Option<String>) -> (r:
        MaskReply)
        ensures
            match rejection {
                Some(reason) => Self::rejected(*old(self), *final(self), reason@, r),
                None => {
                    &&& no_asset(old(self).masks@, asset.id) ==> Self::untouched(
                        *old(self),
                        *final(self),
                        r,
                    )
                    &&& forall|at: int|
                        #![trigger old(self).masks@[at]]
                        first_asset(old(self).masks@, asset.id, at) ==> Self::mask_updated(
                            *old(self),
                            *final(self),
                            asset,
                            at,
                            r,
                        )
                },
            },
    {
        if let Some(reason) = rejection {
            return self.reject(reason);
        }
        match self.find_asset(asset.id) {
            None => Self::nothing(),
            Some(at) => {
                assert(self.masks@[at as int].id == asset.id);
                let visual = is_color_only(&self.masks[at], &asset);
                self.masks.set(at, asset);
                self.ui = MaskUi {
                    overlay_dirty: true,
                    preview_dirty: self.ui.preview_dirty || !visual,
                    ..self.ui
                };
                self.ctx = ApplyCtx {
                    doc_mutated: true,
                    mask_assets_mutated: self.ctx.mask_assets_mutated || !visual,
                    ..self.ctx
                };
                Self::nothing()
            },
        }
    }

    /// The effects of a change on a group: every layer is dirty.
    pub open spec fn group_effects() -> Seq<MaskEffect> {
        seq![MaskEffect::AllLayersDirty, MaskEffect::RequestRebuild]
    }

    fn group_reply() -> (r: MaskReply)
        ensures
            r.effects@ == Self::group_effects(),
            r.status is None,
    {
        let mut effects: Vec<MaskEffect> = Vec::new();
        effects.push(MaskEffect::AllLayersDirty);
        effects.push(MaskEffect::RequestRebuild);
        MaskReply { effects, status: None }
    }

    /// The bindings changed on a layer: its suffix is dirty.
    pub open spec fn layer_rebound(
        before: MaskPanel,
        after: MaskPanel,
        host: LayerId,
        bindings: Seq<MaskBinding>,
        reply: MaskReply,
    ) -> bool {
        &&& after.bindings@ == bindings
        &&& after.masks == before.masks
        &&& after.hosts == before.hosts
        &&& after.ui == before.ui
        &&& after.stroke_before == before.stroke_before
        &&& after.ctx == (ApplyCtx { dirty_from: Some(host), ..before.ctx })
        &&& reply.effects@ == Seq::<MaskEffect>::empty()
        &&& reply.status is None
    }

    /// The bindings changed on a group: every layer is dirty.
    pub open spec fn group_rebound(
        before: MaskPanel,
        after: MaskPanel,
        bindings: Seq<MaskBinding>,
        reply: MaskReply,
    ) -> bool {
        &&& after.bindings@ == bindings
        &&& after.masks == before.masks
        &&& after.hosts == before.hosts
        &&& after.ui == before.ui
        &&& after.stroke_before == before.stroke_before
        &&& after.ctx == (ApplyCtx { doc_mutated: true, ..before.ctx })
        &&& reply.effects@ == Self::group_effects()
        &&& reply.status is None
    }

    /// What binding a mask does: a mask is bound to a host at most once.
    pub open spec fn mask_bound(
        before: MaskPanel,
        after: MaskPanel,
        binding: MaskBinding,
        reply: MaskReply,
    ) -> bool {
        let layer = has_host(before.hosts@, binding.host, false);
        let group = has_host(before.hosts@, binding.host, true);
        if is_bound(before.bindings@, binding.host, binding.mask) || (!layer && !group) {
            Self::untouched(before, after, reply)
        } else if layer {
            Self::layer_rebound(
                before,
                after,
                binding.host,
                before.bindings@.push(binding),
                reply,
            )
        } else {
            Self::group_rebound(before, after, before.bindings@.push(binding), reply)
        }
    }

    /// Binds a mask to a layer or a group.
    pub fn bind_mask_to_layer(&mut self, binding: MaskBinding, rejection: Option<String>) -> (r:
        MaskReply)
        ensures
            match rejection {
                Some(reason) => Self::rejected(*old(self), *final(self), reason@, r),
                None => Self::mask_bound(*old(self), *final(self), binding, r),
            },
    {
        if let Some(reason) = rejection {
            return self.reject(reason);
        }
        if self.find_binding(binding.host, binding.mask).is_some() {
            return Self::nothing();
        }
        if self.host_exists(binding.host, false) {
            self.bindings.push(binding);
            self.ctx = ApplyCtx { dirty_from: Some(binding.host), ..self.ctx };
            return Self::nothing();
        }
        if self.host_exists(binding.host, true) {
            self.bindings.push(binding);
            self.ctx = ApplyCtx { doc_mutated: true, ..self.ctx };
            return Self::group_reply();
        }
        Self::nothing()
    }

    /// The bindings without those of the mask to the host.
    pub open spec fn without(
        bindings: Seq<MaskBinding>,
        host: LayerId,
        mask: MaskId,
    ) -> Seq<MaskBinding> {
        bindings.filter(|b: MaskBinding| !b.binds(host, mask))
    }

    fn remove_bindings(&mut self, host: LayerId, mask: MaskId)
        ensures
            final(self).bindings@ == Self::without(old(self).bindings@, host, mask),
            *final(self) == (MaskPanel { bindings: final(self).bindings, ..*old(self) }),
    {
        let ghost kept_rule = |b: MaskBinding| !b.binds(host, mask);
        let mut kept: Vec<MaskBinding> = Vec::new();
        let mut i: usize = 0;
        while i < self.bindings.len()
            invariant
                i <= self.bindings@.len(),
                *self == *old(self),
                kept_rule == (|b: MaskBinding| !b.binds(host, mask)),
                kept@ == self.bindings@.take(i as int).filter(kept_rule),
            decreases self.bindings@.len() - i,
        {
            let binding = self.bindings[i];
            proof {
                let front = self.bindings@.take(i as int);
                assert(self.bindings@.take(i + 1) =~= front.push(binding));
                assert(front.push(binding).drop_last() =~= front);
                reveal(Seq::filter);
            }
            if !(binding.host == host && binding.mask == mask) {
                kept.push(binding);
            }
            i += 1;
        }
        assert(self.bindings@.take(i as int) =~= self.bindings@);
        self.bindings = kept;
    }

    /// What unbinding a mask does. An existing host is dirty even where nothing
    /// was bound.
    pub open spec fn mask_unbound(
        before: MaskPanel,
        after: MaskPanel,
        host: LayerId,
        mask: MaskId,
        reply: MaskReply,
    ) -> bool {
        if has_host(before.hosts@, host, false) {
            Self::layer_rebound(
                before,
                after,
                host,
                Self::without(before.bindings@, host, mask),
                reply,
            )
        } else if has_host(before.hosts@, host, true) {
            Self::group_rebound(
                before,
                after,
                Self::without(before.bindings@, host, mask),
                reply,
            )
        } else {
            Self::untouched(before, after, reply)
        }
    }

    /// Unbinds a mask from a layer or a group.
    pub fn unbind_mask(&mut self, host: LayerId, mask: MaskId) -> (r: MaskReply)
        ensures
            Self::mask_unbound(*old(self), *final(self), host, mask, r),
    {
        if self.host_exists(host, false) {
            self.remove_bindings(host, mask);
            self.ctx = ApplyCtx { dirty_from: Some(host), ..self.ctx };
            return Self::nothing();
        }
        if self.host_exists(host, true) {
            self.remove_bindings(host, mask);
            self.ctx = ApplyCtx { doc_mutated: true, ..self.ctx };
            return Self::group_reply();
        }
        Self::nothing()
    }

    /// What changing the binding at `at` to `binding` does.
    pub open spec fn binding_updated(
        before: MaskPanel,
        after: MaskPanel,
        at: int,
        binding: MaskBinding,
        reply: MaskReply,
    ) -> bool {
        if has_host(before.hosts@, binding.host, false) {
            Self::layer_rebound(
                before,
                after,
                binding.host,
                before.bindings@.update(at, binding),
                reply,
            )
        } else if has_host(before.hosts@, binding.host, true) {
            Self::group_rebound(before, after, before.bindings@.update(at, binding), reply)
        } else {
            Self::untouched(before, after, reply)
        }
    }

    /// Changes strength and inversion of a binding, if there is one.
    pub fn update_mask_binding(
        &mut self,
        host: LayerId,
        mask: MaskId,
        strength_bits: u32,
        invert: bool,
    ) -> (r: MaskReply)
        ensures
            !is_bound(old(self).bindings@, host, mask) ==> Self::untouched(
                *old(self),
                *final(self),
                r,
            ),
            forall|at: int|
                #![trigger old(self).bindings@[at]]
                first_binding(old(self).bindings@, host, mask, at) ==> Self::binding_updated(
                    *old(self),
                    *final(self),
                    at,
                    MaskBinding { strength_bits, invert, ..old(self).bindings@[at] },
                    r,
                ),
    {
        let at: usize = match self.find_binding(host, mask) {
            Some(at) => at,
            None => {
                return Self::nothing();
            },
        };
        assert(self.bindings@[at as int].binds(host, mask));
        let updated = MaskBinding { strength_bits, invert, ..self.bindings[at] };
        if self.host_exists(host, false) {
            self.bindings.set(at, updated);
            self.ctx = ApplyCtx { dirty_from: Some(host), ..self.ctx };
            return Self::nothing();
        }
        if self.host_exists(host, true) {
            self.bindings.set(at, updated);
            self.ctx = ApplyCtx { doc_mutated: true, ..self.ctx };
            return Self::group_reply();
        }
        Self::nothing()
    }

    /// What giving the binding at `at` the combine mode `next` does. On a group
    /// the rebuild is left to the batch where a layer is dirty already.
    pub open spec fn combine_cycled(
        before: MaskPanel,
        after: MaskPanel,
        at: int,
        next: u8,
        reply: MaskReply,
    ) -> bool {
        let host = before.bindings@[at].host;
        let bindings = before.bindings@.update(
            at,
            MaskBinding { combine: next, ..before.bindings@[at] },
        );
        if has_host(before.hosts@, host, false) {
            Self::layer_rebound(before, after, host, bindings, reply)
        } else if has_host(before.hosts@, host, true) {
            if before.ctx.dirty_from is None {
                Self::group_rebound(before, after, bindings, reply)
            } else {
                &&& after.bindings@ == bindings
                &&& after.masks == before.masks
                &&& after.hosts == before.hosts
                &&& after.ui == before.ui
                &&& after.ctx == before.ctx
                &&& after.stroke_before == before.stroke_before
                &&& reply.effects@ == Seq::<MaskEffect>::empty()
                &&& reply.status is None
            }
        } else {
            Self::untouched(before, after, reply)
        }
    }

    /// Gives a binding its next combine mode, if there is a binding.
    pub fn cycle_mask_combine(&mut self, host: LayerId, mask: MaskId, next: u8) -> (r: MaskReply)
        ensures
            !is_bound(old(self).bindings@, host, mask) ==> Self::untouched(
                *old(self),
                *final(self),
                r,
            ),
            forall|at: int|
                #![trigger old(self).bindings@[at]]
                first_binding(old(self).bindings@, host, mask, at) ==> Self::combine_cycled(
                    *old(self),
                    *final(self),
                    at,
                    next,
                    r,
                ),
    {
        let at: usize = match self.find_binding(host, mask) {
            Some(at) => at,
            None => {
                return Self::nothing();
            },
        };
        assert(self.bindings@[at as int].binds(host, mask));
        let updated = MaskBinding { combine: next, ..self.bindings[at] };
        if self.host_exists(host, false) {
            self.bindings.set(at, updated);
            self.ctx = ApplyCtx { dirty_from: Some(host), ..self.ctx };
            return Self::nothing();
        }
        if self.host_exists(host, true) {
            self.bindings.set(at, updated);
            if self.ctx.dirty_from.is_none() {
                self.ctx = ApplyCtx { doc_mutated: true, ..self.ctx };
                return Self::group_reply();
            }
            return Self::nothing();
        }
        Self::nothing()
    }

    /// The snapshot that the first dab of a stroke takes of an asset.
    pub open spec fn snapshot_of(asset: MaskAsset, snapshot: MaskStrokeBefore) -> bool {
        &&& snapshot.mask == asset.id
        &&& match asset.paint {
            Some(paint) => {
                &&& snapshot.samples@ == paint.samples@
                &&& snapshot.width == paint.width
                &&& snapshot.height == paint.height
            },
            None => {
                &&& snapshot.samples@ == Seq::<u32>::empty()
                &&& snapshot.width == NEW_PAINT_EXTENT
                &&& snapshot.height == NEW_PAINT_EXTENT
            },
        }
    }

    /// What a dab on the asset at `at` does: the samples are kept once per
    /// stroke, and only the overlay is drawn again.
    pub open spec fn mask_dabbed(
        before: MaskPanel,
        after: MaskPanel,
        at: int,
        reply: MaskReply,
    ) -> bool {
        &&& Self::same_document(before, after)
        &&& after.ctx == before.ctx
        &&& after.ui == (MaskUi { overlay_dirty: true, ..before.ui })
        &&& before.stroke_before is Some ==> after.stroke_before == before.stroke_before
        &&& before.stroke_before is None ==> {
            &&& after.stroke_before matches Some(snapshot)
            &&& Self::snapshot_of(before.masks@[at], snapshot)
        }
        &&& reply.effects@ == seq![MaskEffect::StampPaint(before.masks@[at].id)]
        &&& reply.status is None
    }

    /// A dab on a mask. Only bounded projects store painted masks.
    pub fn paint_mask_stamp(&mut self, mask: MaskId, bounded: bool) -> (r: MaskReply)
        ensures
            !bounded ==> {
                &&& *final(self) == *old(self)
                &&& r.effects@ == Seq::<MaskEffect>::empty()
                &&& r.status matches Some(status)
                &&& status@ == "Sparse mask storage is not available until issue #209."@
            },
            bounded && no_asset(old(self).masks@, mask) ==> Self::untouched(
                *old(self),
                *final(self),
                r,
            ),
            bounded ==> forall|at: int|
                #![trigger old(self).masks@[at]]
                first_asset(old(self).masks@, mask, at) ==> Self::mask_dabbed(
                    *old(self),
                    *final(self),
                    at,
                    r,
                ),
    {
        if !bounded {
            return MaskReply {
                effects: Vec::new(),
                status: Some("Sparse mask storage is not available until issue #209.".to_owned()),
            };
        }
        let at: usize = match self.find_asset(mask) {
            Some(at) => at,
            None => {
                return Self::nothing();
            },
        };
        assert(self.masks@[at as int].id == mask);
        if self.stroke_before.is_none() {
            let snapshot = match &self.masks[at].paint {
                Some(paint) => MaskStrokeBefore {
                    mask,
                    samples: copy_samples(&paint.samples),
                    width: paint.width,
                    height: paint.height,
                },
                None => MaskStrokeBefore {
                    mask,
                    samples: Vec::new(),
                    width: NEW_PAINT_EXTENT,
                    height: NEW_PAINT_EXTENT,
                },
            };
            self.stroke_before = Some(snapshot);
        }
        self.ui = MaskUi { overlay_dirty: true, ..self.ui };
        let mut effects: Vec<MaskEffect> = Vec::new();
        effects.push(MaskEffect::StampPaint(mask));
        MaskReply { effects, status: None }
    }

    /// What the end of a stroke does: one undo step and one rebuild.
    pub fn commit_mask_paint_stroke(&mut self) -> (r: (Option<MaskStrokeBefore>, Vec<MaskEffect>))
        ensures
            r.0 == old(self).stroke_before,
            final(self).stroke_before is None,
            Self::same_document(*old(self), *final(self)),
            final(self).ctx == old(self).ctx,
            match old(self).stroke_before {
                None => {
                    &&& final(self).ui == old(self).ui
                    &&& r.1@ == Seq::<MaskEffect>::empty()
                },
                Some(before) => {
                    &&& final(self).ui == (MaskUi {
                        preview_dirty: true,
                        overlay_dirty: true,
                        ..old(self).ui
                    })
                    &&& r.1@ == seq![
                        MaskEffect::PushPaintUndo(before.mask),
                        MaskEffect::AllLayersDirty,
                        MaskEffect::RequestRebuild,
                        MaskEffect::MarkDocumentDirty,
                    ]
                },
            },
    {
        let before = self.stroke_before.take();
        let mut effects: Vec<MaskEffect> = Vec::new();
        if let Some(stroke) = &before {
            effects.push(MaskEffect::PushPaintUndo(stroke.mask));
            effects.push(MaskEffect::AllLayersDirty);
            effects.push(MaskEffect::RequestRebuild);
            effects.push(MaskEffect::MarkDocumentDirty);
            self.ui = MaskUi { preview_dirty: true, overlay_dirty: true, ..self.ui };
        }
        (before, effects)
    }

    /// What a whole-buffer edit of a known mask does.
    pub open spec fn mask_edited(
        before: MaskPanel,
        after: MaskPanel,
        mask: MaskId,
        edit: MaskEdit,
        reply: MaskReply,
    ) -> bool {
        &&& Self::same_document(before, after)
        &&& after.stroke_before == before.stroke_before
        &&& after.ui == (MaskUi { preview_dirty: true, overlay_dirty: true, ..before.ui })
        &&& after.ctx == (ApplyCtx { mask_assets_mutated: true, doc_mutated: true, ..before.ctx })
        &&& reply.effects@ == seq![MaskEffect::EditPaint { mask, edit }]
        &&& reply.status is None
    }

    /// Edits a mask's whole buffer, if the mask exists.
    pub fn edit_mask(&mut self, mask: MaskId, edit: MaskEdit) -> (r: MaskReply)
        ensures
            no_asset(old(self).masks@, mask) ==> Self::untouched(*old(self), *final(self), r),
            !no_asset(old(self).masks@, mask) ==> Self::mask_edited(
                *old(self),
                *final(self),
                mask,
                edit,
                r,
            ),
    {
        match self.find_asset(mask) {
            None => Self::nothing(),
            Some(at) => {
                assert(self.masks@[at as int].id == mask);
                self.ui = MaskUi { preview_dirty: true, overlay_dirty: true, ..self.ui };
                self.ctx = ApplyCtx { mask_assets_mutated: true, doc_mutated: true, ..self.ctx };
                let mut effects: Vec<MaskEffect> = Vec::new();
                effects.push(MaskEffect::EditPaint { mask, edit });
                MaskReply { effects, status: None }
            },
        }
    }

    /// What growing a host's distribution does: a group first loses its
    /// rule-driven placement and dirties everything, a layer its suffix.
    pub open spec fn distribution_grown(
        before: MaskPanel,
        after: MaskPanel,
        host: LayerId,
        growth: MaskEffect,
        reply: MaskReply,
    ) -> bool {
        let group = has_host(before.hosts@, host, true);
        let layer = has_host(before.hosts@, host, false);
        &&& Self::same_document(before, after)
        &&& after.ui == before.ui
        &&& after.stroke_before == before.stroke_before
        &&& reply.status is None
        &&& after.ctx == (ApplyCtx {
            doc_mutated: before.ctx.doc_mutated || group || layer,
            dirty_from: if !group && layer {
                Some(host)
            } else {
                before.ctx.dirty_from
            },
            ..before.ctx
        })
        &&& reply.effects@ == if group {
            seq![
                growth,
                MaskEffect::CustomPlacement { group: host },
                MaskEffect::AllLayersDirty,
                MaskEffect::RequestRebuild,
            ]
        } else if layer {
            seq![growth]
        } else {
            seq![]
        }
    }

    fn grow_distribution(&mut self, host: LayerId, growth: MaskEffect) -> (r: MaskReply)
        ensures
            Self::distribution_grown(*old(self), *final(self), host, growth, r),
    {
        let mut effects: Vec<MaskEffect> = Vec::new();
        if self.host_exists(host, true) {
            effects.push(growth);
            effects.push(MaskEffect::CustomPlacement { group: host });
            effects.push(MaskEffect::AllLayersDirty);
            effects.push(MaskEffect::RequestRebuild);
            assert(effects@ =~= seq![
                growth,
                MaskEffect::CustomPlacement { group: host },
                MaskEffect::AllLayersDirty,
                MaskEffect::RequestRebuild,
            ]);
            self.ctx = ApplyCtx { doc_mutated: true, ..self.ctx };
        } else if self.host_exists(host, false) {
            effects.push(growth);
            assert(effects@ =~= seq![growth]);
            self.ctx = ApplyCtx { doc_mutated: true, dirty_from: Some(host), ..self.ctx };
        }
        MaskReply { effects, status: None }
    }

    /// What an action does to the panel.
    pub open spec fn applied(
        before: MaskPanel,
        after: MaskPanel,
        action: MaskAction,
        reply: MaskReply,
    ) -> bool {
        match action {
            MaskAction::AddMask { asset, rejection } => match rejection {
                Some(reason) => Self::rejected(before, after, reason@, reply),
                None => Self::mask_added(before, after, asset, reply),
            },
            MaskAction::SelectMask(id) => Self::mask_selected(before, after, id, reply),
            MaskAction::UpdateMaskAsset { asset, rejection } => match rejection {
                Some(reason) => Self::rejected(before, after, reason@, reply),
                None => {
                    &&& no_asset(before.masks@, asset.id) ==> Self::untouched(before, after, reply)
                    &&& forall|at: int|
                        #![trigger before.masks@[at]]
                        first_asset(before.masks@, asset.id, at) ==> Self::mask_updated(
                            before,
                            after,
                            asset,
                            at,
                            reply,
                        )
                },
            },
            MaskAction::BindMaskToLayer { binding, rejection } => match rejection {
                Some(reason) => Self::rejected(before, after, reason@, reply),
                None => Self::mask_bound(before, after, binding, reply),
            },
            MaskAction::UnbindMask { host, mask } => Self::mask_unbound(
                before,
                after,
                host,
                mask,
                reply,
            ),
            MaskAction::UpdateMaskBinding { host, mask, strength_bits, invert } => {
                &&& !is_bound(before.bindings@, host, mask) ==> Self::untouched(
                    before,
                    after,
                    reply,
                )
                &&& forall|at: int|
                    #![trigger before.bindings@[at]]
                    first_binding(before.bindings@, host, mask, at) ==> Self::binding_updated(
                        before,
                        after,
                        at,
                        MaskBinding { strength_bits, invert, ..before.bindings@[at] },
                        reply,
                    )
            },
            MaskAction::CycleMaskCombine { host, mask, next } => {
                &&& !is_bound(before.bindings@, host, mask) ==> Self::untouched(
                    before,
                    after,
                    reply,
                )
                &&& forall|at: int|
                    #![trigger before.bindings@[at]]
                    first_binding(before.bindings@, host, mask, at) ==> Self::combine_cycled(
                        before,
                        after,
                        at,
                        next,
                        reply,
                    )
            },
            MaskAction::PaintMaskStamp { mask, bounded } => {
                &&& !bounded ==> {
                    &&& after == before
                    &&& reply.effects@ == Seq::<MaskEffect>::empty()
                    &&& reply.status matches Some(status)
                    &&& status@ == "Sparse mask storage is not available until issue #209."@
                }
                &&& bounded && no_asset(before.masks@, mask) ==> Self::untouched(
                    before,
                    after,
                    reply,
                )
                &&& bounded ==> forall|at: int|
                    #![trigger before.masks@[at]]
                    first_asset(before.masks@, mask, at) ==> Self::mask_dabbed(
                        before,
                        after,
                        at,
                        reply,
                    )
            },
            MaskAction::EditMask { mask, edit } => {
                &&& no_asset(before.masks@, mask) ==> Self::untouched(before, after, reply)
                &&& !no_asset(before.masks@, mask) ==> Self::mask_edited(
                    before,
                    after,
                    mask,
                    edit,
                    reply,
                )
            },
            MaskAction::AddDistNode { host, kind } => Self::distribution_grown(
                before,
                after,
                host,
                MaskEffect::PushNode { host, kind },
                reply,
            ),
            MaskAction::AddDistEffect { host, kind } => Self::distribution_grown(
                before,
                after,
                host,
                MaskEffect::AttachEffect { host, kind },
                reply,
            ),
        }
    }

    /// Applies one action on masks.
    pub fn try_apply(&mut self, action: MaskAction) -> (r: MaskReply)
        ensures
            Self::applied(*old(self), *final(self), action, r),
    {
        match action {
            MaskAction::AddMask { asset, rejection } => self.add_mask(asset, rejection),
            MaskAction::SelectMask(id) => self.select_mask(id),
            MaskAction::UpdateMaskAsset { asset, rejection } => self.update_mask_asset(
                asset,
                rejection,
            ),
            MaskAction::BindMaskToLayer { binding, rejection } => self.bind_mask_to_layer(
                binding,
                rejection,
            ),
            MaskAction::UnbindMask { host, mask } => self.unbind_mask(host, mask),
            MaskAction::UpdateMaskBinding { host, mask, strength_bits, invert } => {
                self.update_mask_binding(host, mask, strength_bits, invert)
            },
            MaskAction::CycleMaskCombine { host, mask, next } => self.cycle_mask_combine(
                host,
                mask,
                next,
            ),
            MaskAction::PaintMaskStamp { mask, bounded } => self.paint_mask_stamp(mask, bounded),
            MaskAction::EditMask { mask, edit } => self.edit_mask(mask, edit),
            MaskAction::AddDistNode { host, kind } => self.grow_distribution(
                host,
                MaskEffect::PushNode { host, kind },
            ),
            MaskAction::AddDistEffect { host, kind } => self.grow_distribution(
                host,
                MaskEffect::AttachEffect { host, kind },
            ),
        }
    }
}

/// The layer that a sculpt dab aims at.
pub struct SculptTarget {
    pub supports_stroke: bool,
    pub is_foundation: bool,
    pub is_shape_history: bool,
    pub name: String,
}

/// What came of a sculpt dab.
pub struct SculptReply {
    /// Apply the dab and select the layer.
    pub apply: bool,
    /// The layer becomes that of the shape session.
    pub shape_session: bool,
    /// The index of authored features is out of step with the strokes and has
    /// to be built again from them.
    pub rebuild_index: bool,
    pub status: Option<String>,
}

/// Why a brush does nothing on a layer.
pub open spec fn unsupported_text(stroke: Seq<char>, target: SculptTarget) -> Seq<char> {
    if target.is_foundation {
        stroke + " isn't supported on the Foundation layer — use a Shape Layer"@
    } else {
        stroke + " isn't supported on layer \""@ + target.name@ + "\""@
    }
}

fn unsupported_status(stroke: &str, target: &SculptTarget) -> (r: String)
    ensures
        r@ == unsupported_text(stroke@, *target),
{
    let mut status = stroke.to_owned();
    if target.is_foundation {
        status.append(" isn't supported on the Foundation layer — use a Shape Layer");
    } else {
        status.append(" isn't supported on layer \"");
        status.append(target.name.as_str());
        status.append("\"");
    }
    status
}

/// The footprint of a dab: its own box, with that of the previous sample of the
/// same drag.
pub open spec fn dab_footprint(stamp: UvRect, previous: Option<UvRect>) -> UvRect {
    match previous {
        Some(rect) => stamp.hull(rect),
        None => stamp,
    }
}

/// A sculpt dab in a bounded project. A brush that the layer does not support
/// is refused with a reason and dirties nothing; a supported one dirties the
/// layer inside the dab's footprint.
pub fn paint_bounded_sculpt_stamp(
    ctx: &mut ApplyCtx,
    layer: LayerId,
    bounded_project: bool,
    target: Option<SculptTarget>,
    stroke: &str,
    stamp: UvRect,
    previous: Option<UvRect>,
) -> (r: SculptReply)
    ensures
        !r.rebuild_index,
        !bounded_project ==> {
            &&& *final(ctx) == *old(ctx)
            &&& !r.apply && !r.shape_session
            &&& r.status matches Some(status)
            &&& status@ == "Bounded sculpt stamp used in an Infinite project"@
        },
        bounded_project ==> {
            let applied = target matches Some(t) && t.supports_stroke;
            let dirty_from = if applied {
                Some(layer)
            } else {
                old(ctx).dirty_from
            };
            &&& r.apply == applied
            &&& r.shape_session == (applied && target->0.is_shape_history)
            &&& match target {
                Some(t) if !t.supports_stroke => r.status matches Some(status) && status@
                    == unsupported_text(stroke@, t),
                _ => r.status is None,
            }
            &&& *final(ctx) == (ApplyCtx {
                dirty_from,
                sculpt_dirty_region_uv: if dirty_from == Some(layer) {
                    Some(
                        super::joined(
                            old(ctx).sculpt_dirty_region_uv,
                            dab_footprint(stamp, previous),
                        ),
                    )
                } else {
                    old(ctx).sculpt_dirty_region_uv
                },
                ..*old(ctx)
            })
        },
{
    if !bounded_project {
        return SculptReply {
            apply: false,
            shape_session: false,
            rebuild_index: false,
            status: Some("Bounded sculpt stamp used in an Infinite project".to_owned()),
        };
    }
    let mut reply = SculptReply {
        apply: false,
        shape_session: false,
        rebuild_index: false,
        status: None,
    };
    if let Some(t) = &target {
        if t.supports_stroke {
            reply.apply = true;
            reply.shape_session = t.is_shape_history;
            ctx.dirty_from = Some(layer);
        } else {
            reply.status = Some(unsupported_status(stroke, t));
        }
    }
    let dirties = match ctx.dirty_from {
        Some(id) => id == layer,
        None => false,
    };
    if dirties {
        let footprint = match previous {
            Some(rect) => stamp.union(rect),
            None => stamp,
        };
        ctx.accumulate_sculpt_footprint(footprint);
    }
    reply
}

/// What the world history answered to a dab.
pub enum WorldStrokeOutcome {
    /// The layer holds no world-space history.
    NoWorldHistory,
    InvalidStroke(String),
    /// The stroke was stored but could not be indexed.
    IndexFailed(String),
    Indexed,
}

/// A sculpt dab in an infinite project: it dirties the layer only once the
/// stroke is stored and indexed. A stroke that could not be indexed has the
/// index built again.
pub fn paint_world_sculpt_stamp(
    ctx: &mut ApplyCtx,
    layer: LayerId,
    infinite_project: bool,
    outcome: WorldStrokeOutcome,
) -> (r: SculptReply)
    ensures
        ({
            let done = infinite_project && outcome is Indexed;
            &&& r.apply == done
            &&& r.shape_session == done
            &&& r.rebuild_index == (infinite_project && outcome is IndexFailed)
            &&& *final(ctx) == if done {
                ApplyCtx { dirty_from: Some(layer), doc_mutated: true, ..*old(ctx) }
            } else {
                *old(ctx)
            }
            &&& if !infinite_project {
                r.status matches Some(status) && status@
                    == "World sculpt stamp used in a bounded project"@
            } else {
                match outcome {
                    WorldStrokeOutcome::NoWorldHistory => r.status matches Some(status) && status@
                        == "Infinite sculpting requires a world-space Shape Layer"@,
                    WorldStrokeOutcome::InvalidStroke(error) => r.status matches Some(status)
                        && status@ == "Invalid world sculpt stroke: "@ + error@,
                    WorldStrokeOutcome::IndexFailed(error) => r.status matches Some(status)
                        && status@ == "Could not index world sculpt stroke: "@ + error@,
                    WorldStrokeOutcome::Indexed => r.status is None,
                }
            }
        }),
{
    if !infinite_project {
        return SculptReply {
            apply: false,
            shape_session: false,
            rebuild_index: false,
            status: Some("World sculpt stamp used in a bounded project".to_owned()),
        };
    }
    match outcome {
        WorldStrokeOutcome::NoWorldHistory => SculptReply {
            apply: false,
            shape_session: false,
            rebuild_index: false,
            status: Some("Infinite sculpting requires a world-space Shape Layer".to_owned()),
        },
        WorldStrokeOutcome::InvalidStroke(error) => {
            let mut status = "Invalid world sculpt stroke: ".to_owned();
            status.append(error.as_str());
            SculptReply {
                apply: false,
                shape_session: false,
                rebuild_index: false,
                status: Some(status),
            }
        },
        WorldStrokeOutcome::IndexFailed(error) => {
            let mut status = "Could not index world sculpt stroke: ".to_owned();
            status.append(error.as_str());
            SculptReply {
                apply: false,
                shape_session: false,
                rebuild_index: true,
                status: Some(status),
            }
        },
        WorldStrokeOutcome::Indexed => {
            ctx.dirty_from = Some(layer);
            ctx.doc_mutated = true;
            SculptReply { apply: true, shape_session: true, rebuild_index: false, status: None }
        },
    }
}

/// A stroke is undone as a whole: however many dabs follow, what is kept is the
/// mask as it was before the first of them.
pub proof fn a_stroke_keeps_its_first_snapshot(
    start: MaskPanel,
    first: MaskPanel,
    second: MaskPanel,
    at: int,
    next: int,
    reply: MaskReply,
    next_reply: MaskReply,
)
    requires
        start.stroke_before is None,
        MaskPanel::mask_dabbed(start, first, at, reply),
        MaskPanel::mask_dabbed(first, second, next, next_reply),
    ensures
        second.stroke_before is Some,
        MaskPanel::snapshot_of(start.masks@[at], second.stroke_before->0),
{
}

/// Unbinding undoes binding: bound once and unbound again, a host has the
/// bindings that it had.
pub proof fn unbinding_undoes_binding(bindings: Seq<MaskBinding>, binding: MaskBinding)
    requires
        !is_bound(bindings, binding.host, binding.mask),
    ensures
        MaskPanel::without(bindings.push(binding), binding.host, binding.mask) == bindings,
    decreases bindings.len(),
{
    let rule = |b: MaskBinding| !b.binds(binding.host, binding.mask);
    keeps_all_unbound(bindings, binding.host, binding.mask);
    assert(bindings.push(binding).drop_last() =~= bindings);
    reveal(Seq::filter);
    assert(bindings.push(binding).filter(rule) =~= bindings.filter(rule));
}

/// Nothing is lost where nothing is bound.
proof fn keeps_all_unbound(bindings: Seq<MaskBinding>, host: LayerId, mask: MaskId)
    requires
        !is_bound(bindings, host, mask),
    ensures
        MaskPanel::without(bindings, host, mask) == bindings,
    decreases bindings.len(),
{
    reveal(Seq::filter);
    if bindings.len() > 0 {
        let front = bindings.drop_last();
        assert(!is_bound(front, host, mask)) by {
            if is_bound(front, host, mask) {
                let i = choose|i: int|
                    #![trigger front[i]]
                    0 <= i < front.len() && front[i].binds(host, mask);
                assert(bindings[i].binds(host, mask));
            }
        }
        keeps_all_unbound(front, host, mask);
        assert(!bindings[bindings.len() - 1].binds(host, mask));
        assert(front.push(bindings.last()) =~= bindings);
    }
}

/// Numbers are equal where their bits are, zeroes whatever their sign, and nothing
/// equals what is not a number.
pub proof fn numbers_are_equal_as_numbers(a: u32, b: u32)
    ensures
        a <= FLOAT_INFINITY ==> float_eq(a, a),
        float_eq(a, b) <==> float_eq(b, a),
        float_eq(0, FLOAT_SIGN),
        a > FLOAT_INFINITY && a < FLOAT_SIGN ==> !float_eq(a, b),
        a > FLOAT_SIGN + FLOAT_INFINITY ==> !float_eq(a, b),
        float_eq(a, b) && a != 0 && a != FLOAT_SIGN ==> a == b,
        FLOAT_SIGN == 0x8000_0000,
        FLOAT_INFINITY == 0x7f80_0000,
{
}

/// A rejected action changes nothing of the masks, says why, and ends its turn.
pub proof fn rejected_masks_change_nothing(
    panel: &mut MaskPanel,
    action: MaskAction,
    reply: MaskReply,
    reason: String,
)
    requires
        call_ensures(MaskPanel::try_apply, (panel, action), reply),
        (action matches MaskAction::AddMask { rejection, .. } && rejection == Some(reason)) || (
        action matches MaskAction::UpdateMaskAsset { rejection, .. } && rejection == Some(reason))
            || (action matches MaskAction::BindMaskToLayer { rejection, .. } && rejection == Some(
            reason,
        )),
    ensures
        final(panel).masks == old(panel).masks,
        final(panel).bindings == old(panel).bindings,
        final(panel).hosts == old(panel).hosts,
        final(panel).ui == old(panel).ui,
        final(panel).ctx.continue_loop,
        final(panel).ctx.doc_mutated == old(panel).ctx.doc_mutated,
        final(panel).ctx.dirty_from == old(panel).ctx.dirty_from,
        final(panel).ctx.mask_assets_mutated == old(panel).ctx.mask_assets_mutated,
        reply.effects@.len() == 0,
        reply.status matches Some(text) && text@ == "Mask is unavailable in Infinite projects: "@
            + reason@,
{
}

/// A new mask comes last, is selected, and is painted on exactly where it is a painted
/// one.
pub proof fn new_masks_are_selected(panel: &mut MaskPanel, asset: MaskAsset, reply: MaskReply)
    requires
        call_ensures(MaskPanel::add_mask, (panel, asset, None), reply),
    ensures
        final(panel).masks@.len() == old(panel).masks@.len() + 1,
        final(panel).masks@.drop_last() == old(panel).masks@,
        final(panel).masks@.last() == asset,
        final(panel).bindings == old(panel).bindings,
        final(panel).ui.selected_mask == Some(asset.id),
        asset.painted ==> final(panel).ui.paint_mask == Some(asset.id),
        !asset.painted ==> final(panel).ui.paint_mask is None,
        final(panel).ui.preview_dirty,
        final(panel).ui.overlay_dirty,
        final(panel).ui.paint_tool_active == old(panel).ui.paint_tool_active,
        final(panel).ctx.mask_assets_mutated,
        final(panel).ctx.doc_mutated,
        final(panel).ctx.continue_loop == old(panel).ctx.continue_loop,
        reply.effects@ == seq![MaskEffect::FocusMask { painted: asset.painted }],
{
    assert(final(panel).masks@.drop_last() =~= old(panel).masks@);
}

/// A selected mask is painted on where it is a painted one; where it is not, the brush
/// is put down. Selecting changes nothing of the document.
pub proof fn selected_masks_are_painted_on(
    panel: &mut MaskPanel,
    id: MaskId,
    reply: MaskReply,
    at: int,
)
    requires
        call_ensures(MaskPanel::select_mask, (panel, id), reply),
        first_asset(old(panel).masks@, id, at),
    ensures
        final(panel).ui.selected_mask == Some(id),
        old(panel).masks@[at].painted ==> final(panel).ui.paint_mask == Some(id) && reply.effects@
            == seq![MaskEffect::FocusMask { painted: true }],
        !old(panel).masks@[at].painted ==> final(panel).ui.paint_mask is None && (
        old(panel).ui.paint_tool_active ==> reply.effects@ == seq![MaskEffect::SelectMoveTool]) && (
        !old(panel).ui.paint_tool_active ==> reply.effects@.len() == 0),
        final(panel).ui.preview_dirty,
        final(panel).ui.overlay_dirty,
        final(panel).masks == old(panel).masks,
        final(panel).bindings == old(panel).bindings,
        final(panel).ctx == old(panel).ctx,
{
    let masks = old(panel).masks@;
    if old(panel).is_painted(id) {
        let other = choose|other: int|
            #![trigger masks[other]]
            first_asset(masks, id, other) && masks[other].painted;
        assert(masks[other].id == id);
        assert(masks[at].id == id);
        assert(other == at);
    }
    assert(masks[at].painted ==> old(panel).is_painted(id));
}

/// A mask that is not known is not painted on.
pub proof fn unknown_masks_are_not_painted_on(panel: &mut MaskPanel, id: MaskId, reply: MaskReply)
    requires
        call_ensures(MaskPanel::select_mask, (panel, id), reply),
        no_asset(old(panel).masks@, id),
    ensures
        final(panel).ui.selected_mask == Some(id),
        final(panel).ui.paint_mask is None,
        final(panel).masks == old(panel).masks,
{
    assert(!old(panel).is_painted(id)) by {
        if old(panel).is_painted(id) {
            let other = choose|other: int|
                #![trigger old(panel).masks@[other]]
                first_asset(old(panel).masks@, id, other) && old(panel).masks@[other].painted;
            assert(old(panel).masks@[other].id == id);
        }
    }
}

/// A replaced mask keeps its place and leaves every other; only where nothing but the
/// colour changed is the terrain left alone.
pub proof fn recoloured_masks_leave_the_terrain(
    panel: &mut MaskPanel,
    asset: MaskAsset,
    reply: MaskReply,
    at: int,
)
    requires
        call_ensures(MaskPanel::update_mask_asset, (panel, asset, None), reply),
        first_asset(old(panel).masks@, asset.id, at),
    ensures
        final(panel).masks@.len() == old(panel).masks@.len(),
        final(panel).masks@[at] == asset,
        forall|i: int|
            #![trigger final(panel).masks@[i]]
            0 <= i < final(panel).masks@.len() && i != at ==> final(panel).masks@[i] == old(panel).masks@[i],
        final(panel).ui.overlay_dirty,
        final(panel).ctx.doc_mutated,
        old(panel).masks@[at].name@ != asset.name@ || old(panel).masks@[at].ops != asset.ops
            || old(panel).masks@[at].color.agrees(asset.color) || paint_shape(
            old(panel).masks@[at].paint,
        ) != paint_shape(asset.paint) ==> final(panel).ctx.mask_assets_mutated && final(panel).ui.preview_dirty,
        old(panel).masks@[at].name@ == asset.name@ && old(panel).masks@[at].ops == asset.ops
            && !old(panel).masks@[at].color.agrees(asset.color) && old(panel).masks@[at].paint
            is None && asset.paint is None ==> final(panel).ctx.mask_assets_mutated == old(panel).ctx.mask_assets_mutated && final(panel).ui.preview_dirty == old(panel).ui.preview_dirty,
        old(panel).masks@[at].paint matches Some(before) ==> (asset.paint matches Some(after)
            ==> forall|i: int|
            #![trigger before.samples@[i]]
            0 <= i < before.samples@.len() && i < after.samples@.len() && !float_eq(
                before.samples@[i],
                after.samples@[i],
            ) ==> final(panel).ctx.mask_assets_mutated),
        reply.effects@.len() == 0,
{
    assert(old(panel).masks@[at].id == asset.id);
}

/// A mask is bound to a host once, and only to a host that exists: a layer is dirty
/// from itself on, a group dirties everything.
pub proof fn masks_are_bound_once(
    panel: &mut MaskPanel,
    binding: MaskBinding,
    reply: MaskReply,
)
    requires
        call_ensures(MaskPanel::bind_mask_to_layer, (panel, binding, None), reply),
    ensures
        is_bound(old(panel).bindings@, binding.host, binding.mask) ==> *final(panel) == *old(panel)
            && reply.effects@.len() == 0,
        !has_host(old(panel).hosts@, binding.host, false) && !has_host(
            old(panel).hosts@,
            binding.host,
            true,
        ) ==> *final(panel) == *old(panel) && reply.effects@.len() == 0,
        !is_bound(old(panel).bindings@, binding.host, binding.mask) && has_host(
            old(panel).hosts@,
            binding.host,
            false,
        ) ==> final(panel).bindings@ == old(panel).bindings@.push(binding) && final(panel).ctx.dirty_from == Some(binding.host) && final(panel).ctx.doc_mutated == old(panel).ctx.doc_mutated && reply.effects@.len() == 0,
        !is_bound(old(panel).bindings@, binding.host, binding.mask) && !has_host(
            old(panel).hosts@,
            binding.host,
            false,
        ) && has_host(old(panel).hosts@, binding.host, true) ==> final(panel).bindings@ == old(panel).bindings@.push(binding) && final(panel).ctx.dirty_from == old(panel).ctx.dirty_from
            && final(panel).ctx.doc_mutated && reply.effects@ == seq![
            MaskEffect::AllLayersDirty,
            MaskEffect::RequestRebuild,
        ],
        final(panel).masks == old(panel).masks,
        final(panel).ui == old(panel).ui,
{
}

/// An unbound mask is bound to its host no more, and every other binding stays.
pub proof fn unbound_masks_are_gone(
    panel: &mut MaskPanel,
    host: LayerId,
    mask: MaskId,
    reply: MaskReply,
    other: MaskBinding,
)
    requires
        call_ensures(MaskPanel::unbind_mask, (panel, host, mask), reply),
        has_host(old(panel).hosts@, host, false) || has_host(old(panel).hosts@, host, true),
    ensures
        !is_bound(final(panel).bindings@, host, mask),
        !other.binds(host, mask) ==> (final(panel).bindings@.contains(other) <==> old(panel).bindings@.contains(other)),
        has_host(old(panel).hosts@, host, false) ==> final(panel).ctx.dirty_from == Some(host)
            && reply.effects@.len() == 0,
        !has_host(old(panel).hosts@, host, false) ==> final(panel).ctx.doc_mutated && reply.effects@
            == seq![MaskEffect::AllLayersDirty, MaskEffect::RequestRebuild],
        final(panel).masks == old(panel).masks,
        final(panel).hosts == old(panel).hosts,
{
    let before = old(panel).bindings@;
    let after = final(panel).bindings@;
    let rule = |b: MaskBinding| !b.binds(host, mask);
    assert(after == before.filter(rule));
    if is_bound(after, host, mask) {
        let i = choose|i: int| #![trigger after[i]] 0 <= i < after.len() && after[i].binds(host, mask);
        before.lemma_filter_pred(rule, i);
        assert(false);
    }
    if after.contains(other) {
        before.lemma_filter_contains_rev(rule, other);
    }
    if before.contains(other) && !other.binds(host, mask) {
        let i = choose|i: int| 0 <= i < before.len() && before[i] == other;
        before.lemma_filter_contains(rule, i);
    }
}

/// A host that does not exist has nothing unbound.
pub proof fn unknown_hosts_are_left_alone(
    panel: &mut MaskPanel,
    host: LayerId,
    mask: MaskId,
    reply: MaskReply,
)
    requires
        call_ensures(MaskPanel::unbind_mask, (panel, host, mask), reply),
        !has_host(old(panel).hosts@, host, false),
        !has_host(old(panel).hosts@, host, true),
    ensures
        *final(panel) == *old(panel),
        reply.effects@.len() == 0,
{
}

/// A changed binding changes in strength and inversion, at its own place, and keeps
/// the rest; its host is dirty as for any change of bindings.
pub proof fn bindings_change_in_place(
    panel: &mut MaskPanel,
    host: LayerId,
    mask: MaskId,
    strength_bits: u32,
    invert: bool,
    reply: MaskReply,
    at: int,
)
    requires
        call_ensures(
            MaskPanel::update_mask_binding,
            (panel, host, mask, strength_bits, invert),
            reply,
        ),
        first_binding(old(panel).bindings@, host, mask, at),
        has_host(old(panel).hosts@, host, false) || has_host(old(panel).hosts@, host, true),
    ensures
        final(panel).bindings@.len() == old(panel).bindings@.len(),
        final(panel).bindings@[at].host == host,
        final(panel).bindings@[at].mask == mask,
        final(panel).bindings@[at].strength_bits == strength_bits,
        final(panel).bindings@[at].invert == invert,
        final(panel).bindings@[at].combine == old(panel).bindings@[at].combine,
        forall|i: int|
            #![trigger final(panel).bindings@[i]]
            0 <= i < final(panel).bindings@.len() && i != at ==> final(panel).bindings@[i] == old(panel).bindings@[i],
        has_host(old(panel).hosts@, host, false) ==> final(panel).ctx.dirty_from == Some(host)
            && reply.effects@.len() == 0,
        !has_host(old(panel).hosts@, host, false) ==> final(panel).ctx.doc_mutated && final(panel).ctx.dirty_from == old(panel).ctx.dirty_from && reply.effects@ == seq![
            MaskEffect::AllLayersDirty,
            MaskEffect::RequestRebuild,
        ],
{
    assert(old(panel).bindings@[at].binds(host, mask));
}

/// A binding gets its next combine mode and keeps the rest. On a group a rebuild is
/// asked for unless a layer is dirty already.
pub proof fn combine_modes_change_in_place(
    panel: &mut MaskPanel,
    host: LayerId,
    mask: MaskId,
    next: u8,
    reply: MaskReply,
    at: int,
)
    requires
        call_ensures(MaskPanel::cycle_mask_combine, (panel, host, mask, next), reply),
        first_binding(old(panel).bindings@, host, mask, at),
        has_host(old(panel).hosts@, host, false) || has_host(old(panel).hosts@, host, true),
    ensures
        final(panel).bindings@[at].combine == next,
        final(panel).bindings@[at].strength_bits == old(panel).bindings@[at].strength_bits,
        final(panel).bindings@[at].invert == old(panel).bindings@[at].invert,
        final(panel).bindings@[at].binds(host, mask),
        forall|i: int|
            #![trigger final(panel).bindings@[i]]
            0 <= i < final(panel).bindings@.len() && i != at ==> final(panel).bindings@[i] == old(panel).bindings@[i],
        has_host(old(panel).hosts@, host, false) ==> final(panel).ctx.dirty_from == Some(host)
            && reply.effects@.len() == 0,
        !has_host(old(panel).hosts@, host, false) && old(panel).ctx.dirty_from is None ==> final(panel).ctx.doc_mutated && reply.effects@ == seq![
            MaskEffect::AllLayersDirty,
            MaskEffect::RequestRebuild,
        ],
        !has_host(old(panel).hosts@, host, false) && old(panel).ctx.dirty_from is Some ==> final(panel).ctx == old(panel).ctx && reply.effects@.len() == 0,
{
    assert(old(panel).bindings@[at].binds(host, mask));
}

/// What is not bound is not changed.
pub proof fn unbound_masks_are_not_changed(
    panel: &mut MaskPanel,
    action: MaskAction,
    host: LayerId,
    mask: MaskId,
    reply: MaskReply,
)
    requires
        call_ensures(MaskPanel::try_apply, (panel, action), reply),
        (action matches MaskAction::UpdateMaskBinding { host: h, mask: m, .. } && h == host && m
            == mask) || (action matches MaskAction::CycleMaskCombine { host: h, mask: m, .. } && h
            == host && m == mask),
        !is_bound(old(panel).bindings@, host, mask),
    ensures
        *final(panel) == *old(panel),
        reply.effects@.len() == 0,
        reply.status is None,
{
}

/// A dab asks for one stamp on its mask and only redraws the overlay. The first of a
/// stroke keeps the samples as they stood; later ones leave what was kept.
pub proof fn dabs_stamp_their_mask(
    panel: &mut MaskPanel,
    mask: MaskId,
    reply: MaskReply,
    at: int,
)
    requires
        call_ensures(MaskPanel::paint_mask_stamp, (panel, mask, true), reply),
        first_asset(old(panel).masks@, mask, at),
    ensures
        reply.effects@ == seq![MaskEffect::StampPaint(mask)],
        reply.status is None,
        final(panel).ui.overlay_dirty,
        final(panel).ui.preview_dirty == old(panel).ui.preview_dirty,
        final(panel).ctx == old(panel).ctx,
        final(panel).masks == old(panel).masks,
        old(panel).stroke_before is Some ==> final(panel).stroke_before == old(panel).stroke_before,
        old(panel).stroke_before is None ==> (final(panel).stroke_before matches Some(kept)
            && kept.mask == mask),
        old(panel).stroke_before is None ==> (old(panel).masks@[at].paint matches Some(paint) ==> (
        final(panel).stroke_before matches Some(kept) && kept.samples@ == paint.samples@
            && kept.width == paint.width && kept.height == paint.height)),
        old(panel).stroke_before is None && old(panel).masks@[at].paint is None ==> (final(panel).stroke_before matches Some(kept) && kept.samples@.len() == 0 && kept.width == 512
            && kept.height == 512),
{
    assert(old(panel).masks@[at].id == mask);
}

/// Only bounded projects are painted in, and only masks that exist.
pub proof fn sparse_masks_are_refused(
    panel: &mut MaskPanel,
    mask: MaskId,
    bounded: bool,
    reply: MaskReply,
)
    requires
        call_ensures(MaskPanel::paint_mask_stamp, (panel, mask, bounded), reply),
        !bounded || no_asset(old(panel).masks@, mask),
    ensures
        *final(panel) == *old(panel),
        reply.effects@.len() == 0,
        reply.status is Some <==> !bounded,
{
}

/// The end of a stroke hands over what was kept, once: an undo step for its mask comes
/// first, then everything is dirty, rebuilt and saved. Without a stroke nothing is
/// done.
pub proof fn strokes_end_in_one_undo_step(
    panel: &mut MaskPanel,
    ended: (Option<MaskStrokeBefore>, Vec<MaskEffect>),
)
    requires
        call_ensures(MaskPanel::commit_mask_paint_stroke, (panel,), ended),
    ensures
        ended.0 == old(panel).stroke_before,
        final(panel).stroke_before is None,
        old(panel).stroke_before is None ==> ended.1@.len() == 0 && final(panel).ui == old(panel).ui,
        old(panel).stroke_before matches Some(kept) ==> {
            &&& ended.1@.len() == 4
            &&& ended.1@[0] == MaskEffect::PushPaintUndo(kept.mask)
            &&& ended.1@[1] == MaskEffect::AllLayersDirty
            &&& ended.1@[2] == MaskEffect::RequestRebuild
            &&& ended.1@[3] == MaskEffect::MarkDocumentDirty
            &&& final(panel).ui.preview_dirty
            &&& final(panel).ui.overlay_dirty
        },
        final(panel).masks == old(panel).masks,
        final(panel).ctx == old(panel).ctx,
{
}

/// An edit of a whole mask is asked for exactly where the mask exists, and dirties
/// what shows it.
pub proof fn only_known_masks_are_edited(
    panel: &mut MaskPanel,
    mask: MaskId,
    edit: MaskEdit,
    reply: MaskReply,
)
    requires
        call_ensures(MaskPanel::edit_mask, (panel, mask, edit), reply),
    ensures
        no_asset(old(panel).masks@, mask) ==> *final(panel) == *old(panel) && reply.effects@.len()
            == 0,
        !no_asset(old(panel).masks@, mask) ==> reply.effects@ == seq![
            MaskEffect::EditPaint { mask, edit },
        ] && final(panel).ui.preview_dirty && final(panel).ui.overlay_dirty && final(panel).ctx.mask_assets_mutated && final(panel).ctx.doc_mutated,
        final(panel).masks == old(panel).masks,
        final(panel).stroke_before == old(panel).stroke_before,
{
}

/// A node grows the distribution of its own host: a group is then placed by hand and
/// everything is dirty, a layer is dirty from itself on, and without a host nothing
/// grows.
pub proof fn distributions_grow_on_their_host(
    panel: &mut MaskPanel,
    action: MaskAction,
    host: LayerId,
    kind: u16,
    reply: MaskReply,
)
    requires
        call_ensures(MaskPanel::try_apply, (panel, action), reply),
        action == (MaskAction::AddDistNode { host, kind }) || action == (MaskAction::AddDistEffect {
            host,
            kind,
        }),
    ensures
        reply.effects@.len() > 0 <==> has_host(old(panel).hosts@, host, true) || has_host(
            old(panel).hosts@,
            host,
            false,
        ),
        reply.effects@.len() > 0 && action is AddDistNode ==> reply.effects@[0] == (
        MaskEffect::PushNode { host, kind }),
        reply.effects@.len() > 0 && action is AddDistEffect ==> reply.effects@[0] == (
        MaskEffect::AttachEffect { host, kind }),
        has_host(old(panel).hosts@, host, true) ==> reply.effects@.skip(1) == seq![
            MaskEffect::CustomPlacement { group: host },
            MaskEffect::AllLayersDirty,
            MaskEffect::RequestRebuild,
        ] && final(panel).ctx.dirty_from == old(panel).ctx.dirty_from && final(panel).ctx.doc_mutated,
        !has_host(old(panel).hosts@, host, true) && has_host(old(panel).hosts@, host, false)
            ==> reply.effects@.len() == 1 && final(panel).ctx.dirty_from == Some(host) && final(panel).ctx.doc_mutated,
        !has_host(old(panel).hosts@, host, true) && !has_host(old(panel).hosts@, host, false)
            ==> final(panel).ctx == old(panel).ctx,
        final(panel).masks == old(panel).masks,
        final(panel).bindings == old(panel).bindings,
{
    if has_host(old(panel).hosts@, host, true) {
        assert(reply.effects@.skip(1) =~= seq![
            MaskEffect::CustomPlacement { group: host },
            MaskEffect::AllLayersDirty,
            MaskEffect::RequestRebuild,
        ]);
    }
}

/// A dab is applied exactly where the project is bounded and the layer takes the
/// brush; then the layer is dirty, inside a footprint that holds the dab and the one
/// before it. A brush that the layer does not take is told why.
pub proof fn supported_dabs_dirty_their_footprint(
    ctx: &mut ApplyCtx,
    layer: LayerId,
    bounded: bool,
    target: Option<SculptTarget>,
    stroke: &str,
    stamp: UvRect,
    previous: Option<UvRect>,
    reply: SculptReply,
)
    requires
        call_ensures(
            paint_bounded_sculpt_stamp,
            (ctx, layer, bounded, target, stroke, stamp, previous),
            reply,
        ),
    ensures
        reply.apply <==> bounded && (target matches Some(aimed) && aimed.supports_stroke),
        reply.shape_session <==> reply.apply && (target matches Some(aimed)
            && aimed.is_shape_history),
        !reply.rebuild_index,
        !bounded ==> *final(ctx) == *old(ctx) && reply.status is Some,
        reply.apply ==> final(ctx).dirty_from == Some(layer) && reply.status is None,
        bounded && !reply.apply ==> final(ctx).dirty_from == old(ctx).dirty_from,
        reply.apply && previous is None && old(ctx).sculpt_dirty_region_uv is None ==> final(ctx).sculpt_dirty_region_uv == Some(stamp),
        reply.apply ==> (previous matches Some(rect) ==> (old(ctx).sculpt_dirty_region_uv is None
            ==> final(ctx).sculpt_dirty_region_uv == Some(stamp.hull(rect)))),
        reply.apply && previous is None ==> (old(ctx).sculpt_dirty_region_uv matches Some(before)
            ==> final(ctx).sculpt_dirty_region_uv == Some(before.hull(stamp))),
        !reply.apply && old(ctx).dirty_from != Some(layer) ==> *final(ctx) == *old(ctx),
        bounded ==> (target matches Some(aimed) ==> (!aimed.supports_stroke ==> (
        reply.status matches Some(text) && {
            &&& aimed.is_foundation ==> text@ == stroke@
                + " isn't supported on the Foundation layer — use a Shape Layer"@
            &&& !aimed.is_foundation ==> text@ == stroke@ + " isn't supported on layer \""@
                + aimed.name@ + "\""@
        }))),
        bounded && target is None ==> reply.status is None,
        final(ctx).doc_mutated == old(ctx).doc_mutated,
{
}

/// A dab in an infinite project counts once it is stored and indexed; one that could
/// not be indexed has the index built again, and every other outcome is told.
pub proof fn world_dabs_count_once_indexed(
    ctx: &mut ApplyCtx,
    layer: LayerId,
    infinite: bool,
    outcome: WorldStrokeOutcome,
    reply: SculptReply,
)
    requires
        call_ensures(paint_world_sculpt_stamp, (ctx, layer, infinite, outcome), reply),
    ensures
        reply.apply <==> infinite && outcome is Indexed,
        reply.shape_session <==> reply.apply,
        reply.rebuild_index <==> infinite && outcome is IndexFailed,
        reply.apply ==> final(ctx).dirty_from == Some(layer) && final(ctx).doc_mutated
            && reply.status is None,
        !reply.apply ==> *final(ctx) == *old(ctx) && reply.status is Some,
        infinite ==> (outcome matches WorldStrokeOutcome::InvalidStroke(error) ==> (
        reply.status matches Some(text) && text@ == "Invalid world sculpt stroke: "@ + error@)),
        infinite ==> (outcome matches WorldStrokeOutcome::IndexFailed(error) ==> (
        reply.status matches Some(text) && text@ == "Could not index world sculpt stroke: "@
            + error@)),
        infinite && outcome is NoWorldHistory ==> (reply.status matches Some(text) && text@
            == "Infinite sculpting requires a world-space Shape Layer"@),
        !infinite ==> (reply.status matches Some(text) && text@
            == "World sculpt stamp used in a bounded project"@),
        final(ctx).sculpt_dirty_region_uv == old(ctx).sculpt_dirty_region_uv,
{
}

/// The panel's actions do what the operations they stand for do.
pub proof fn actions_are_the_operations(
    panel: &mut MaskPanel,
    action: MaskAction,
    reply: MaskReply,
)
    requires
        call_ensures(MaskPanel::try_apply, (panel, action), reply),
    ensures
        action matches MaskAction::AddMask { asset, rejection } ==> (rejection is None ==> final(panel).masks@ == old(panel).masks@.push(asset)),
        action matches MaskAction::SelectMask(id) ==> final(panel).ui.selected_mask == Some(id)
            && final(panel).masks == old(panel).masks,
        action matches MaskAction::UnbindMask { host, mask } ==> final(panel).masks == old(panel).masks && (has_host(old(panel).hosts@, host, false) ==> final(panel).ctx.dirty_from
            == Some(host)),
        action matches MaskAction::EditMask { mask, edit } ==> (!no_asset(old(panel).masks@, mask)
            ==> reply.effects@ == seq![MaskEffect::EditPaint { mask, edit }]),
        action matches MaskAction::BindMaskToLayer { binding, rejection } ==> (rejection is None
            && has_host(old(panel).hosts@, binding.host, false) && !is_bound(
            old(panel).bindings@,
            binding.host,
            binding.mask,
        ) ==> final(panel).bindings@ == old(panel).bindings@.push(binding)),
        final(panel).hosts == old(panel).hosts,
{
    match action {
        MaskAction::UpdateMaskAsset { asset, rejection } => {
            if rejection is None && !no_asset(old(panel).masks@, asset.id) {
                first_asset_is_there(old(panel).masks@, asset.id);
            }
        },
        MaskAction::PaintMaskStamp { mask, bounded } => {
            if bounded && !no_asset(old(panel).masks@, mask) {
                first_asset_is_there(old(panel).masks@, mask);
            }
        },
        MaskAction::UpdateMaskBinding { host, mask, .. } => {
            if is_bound(old(panel).bindings@, host, mask) {
                first_binding_is_there(old(panel).bindings@, host, mask);
            }
        },
        MaskAction::CycleMaskCombine { host, mask, .. } => {
            if is_bound(old(panel).bindings@, host, mask) {
                first_binding_is_there(old(panel).bindings@, host, mask);
            }
        },
        _ => {},
    }
}

/// Where a mask is listed, one place is its first.
pub proof fn first_asset_is_there(masks: Seq<MaskAsset>, id: MaskId)
    requires
        !no_asset(masks, id),
    ensures
        exists|at: int| #![trigger masks[at]] first_asset(masks, id, at),
    decreases masks.len(),
{
    let i = choose|i: int| #![trigger masks[i]] 0 <= i < masks.len() && masks[i].id == id;
    if !first_asset(masks, id, i) {
        let front = masks.take(i);
        let j = choose|j: int| #![trigger masks[j]] 0 <= j < i && masks[j].id == id;
        assert(front[j].id == id);
        first_asset_is_there(front, id);
        let at = choose|at: int| #![trigger front[at]] first_asset(front, id, at);
        assert(masks[at] == front[at]);
        assert forall|k: int| #![trigger masks[k]] 0 <= k < at implies masks[k].id != id by {
            assert(masks[k] == front[k]);
        }
        assert(first_asset(masks, id, at));
    }
}

/// Where a mask is bound to a host, one binding is its first.
pub proof fn first_binding_is_there(bindings: Seq<MaskBinding>, host: LayerId, mask: MaskId)
    requires
        is_bound(bindings, host, mask),
    ensures
        exists|at: int| #![trigger bindings[at]] first_binding(bindings, host, mask, at),
    decreases bindings.len(),
{
    let i = choose|i: int|
        #![trigger bindings[i]]
        0 <= i < bindings.len() && bindings[i].binds(host, mask);
    if !first_binding(bindings, host, mask, i) {
        let front = bindings.take(i);
        let j = choose|j: int|
            #![trigger bindings[j]]
            0 <= j < i && bindings[j].binds(host, mask);
        assert(front[j].binds(host, mask));
        first_binding_is_there(front, host, mask);
        let at = choose|at: int| #![trigger front[at]] first_binding(front, host, mask, at);
        assert(bindings[at] == front[at]);
        assert forall|k: int| #![trigger bindings[k]] 0 <= k < at implies !bindings[k].binds(
            host,
            mask,
        ) by {
            assert(bindings[k] == front[k]);
        }
        assert(first_binding(bindings, host, mask, at));
    }
}

/// A host is there exactly where the list holds it as what it is.
pub proof fn hosts_are_those_of_the_list(hosts: Seq<MaskHost>, id: LayerId, is_group: bool)
    ensures
        has_host(hosts, id, is_group) <==> hosts.contains(MaskHost { id, is_group }),
{
}

/// A painted mask whose samples are the same as numbers changed in nothing but its
/// colour; one sample more or less is another mask.
pub proof fn repainted_masks_are_told_by_their_samples(
    before: MaskAsset,
    after: MaskAsset,
    old_paint: PaintBuffer,
    new_paint: PaintBuffer,
)
    requires
        before.paint == Some(old_paint),
        after.paint == Some(new_paint),
        before.name@ == after.name@,
        before.ops == after.ops,
        !before.color.agrees(after.color),
        old_paint.width == new_paint.width,
        old_paint.height == new_paint.height,
    ensures
        old_paint.samples@.len() != new_paint.samples@.len() ==> !color_only(before, after),
        old_paint.samples@.len() == new_paint.samples@.len() && (forall|i: int|
            #![trigger old_paint.samples@[i]]
            0 <= i < old_paint.samples@.len() ==> float_eq(
                old_paint.samples@[i],
                new_paint.samples@[i],
            )) ==> color_only(before, after),
{
}

} // verus!
