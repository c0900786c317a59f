//! The light of the viewport, and how a document keeps it.
//!
//! Angles, strengths and colours are kept by their bit patterns: they are
//! carried between the interface and the document and never computed with.
use vstd::prelude::*;

use crate::text::same_text;

verus! {

/// A colour of the sky, channel by channel.
#[derive(Debug, Clone, Copy, PartialEq, Eq, Structural)]
pub struct SkyColor {
    pub red_bits: u32,
    pub green_bits: u32,
    pub blue_bits: u32,
}

/// What the viewport is lit with.
#[derive(Debug, Clone, Copy, PartialEq, Eq, Structural)]
pub struct LightingValues {
    pub sun_azimuth_deg_bits: u32,
    pub sun_elevation_deg_bits: u32,
    pub sun_intensity_bits: u32,
    pub exposure_bits: u32,
    pub sky_color: SkyColor,
    pub ambient_strength_bits: u32,
    pub shadow_strength_bits: u32,
    pub fog_strength_bits: u32,
}

/// The light that a document is saved with.
#[derive(Debug)]
pub struct ViewportLighting {
    pub values: LightingValues,
    /// The label of the preset; empty where the light was customised.
    pub preset: String,
}

/// The light at hand. Presets are known by their place among the labels.
#[derive(Debug, Clone, Copy, PartialEq, Eq, Structural)]
pub struct LightingState {
    pub values: LightingValues,
    pub preset: usize,
    pub customized: bool,
    /// What the last frame saw. A difference makes the next frame seed the
    /// values from the preset.
    pub last_preset: usize,
    pub last_customized: bool,
}

/// The lighting preset that a document was saved with, if it names one.
pub fn lighting_preset(labels: &Vec<String>, saved: &str) -> (r: Option<usize>)
    ensures
        match r {
            Some(at) => {
                &&& at < labels@.len()
                &&& labels@[at as int]@ == saved@
                &&& forall|j: int| #![trigger labels@[j]] 0 <= j < at ==> labels@[j]@ != saved@
            },
            None => forall|j: int|
                #![trigger labels@[j]]
                0 <= j < labels@.len() ==> labels@[j]@ != saved@,
        },
{
    let mut i: usize = 0;
    while i < labels.len()
        invariant
            i <= labels@.len(),
            forall|j: int| #![trigger labels@[j]] 0 <= j < i ==> labels@[j]@ != saved@,
        decreases labels@.len() - i,
    {
        if same_text(labels[i].as_str(), saved) {
            return Some(i);
        }
        i += 1;
    }
    None
}

/// The preset that a document is saved with: none where the lighting was
/// customised.
pub fn saved_lighting_preset(customized: bool, label: &str) -> (r: String)
    ensures
        r@ == if customized {
            ""@
        } else {
            label@
        },
{
    if customized {
        "".to_owned()
    } else {
        label.to_owned()
    }
}

impl LightingState {
    /// `saved` is what a document keeps of this light.
    pub open spec fn kept_as(self, labels: Seq<String>, saved: ViewportLighting) -> bool {
        &&& saved.values == self.values
        &&& saved.preset@ == if self.customized {
            ""@
        } else {
            labels[self.preset as int]@
        }
    }

    /// `after` is the light once the document's has been taken over: its
    /// values; the first preset of its name, or the preset at hand with values
    /// of the document's own. The next frame sees no change of preset.
    pub open spec fn restored(
        before: LightingState,
        labels: Seq<String>,
        saved: ViewportLighting,
        after: LightingState,
    ) -> bool {
        &&& after.values == saved.values
        &&& after.last_preset == after.preset
        &&& after.last_customized == after.customized
        &&& if after.customized {
            &&& after.preset == before.preset
            &&& forall|j: int|
                #![trigger labels[j]]
                0 <= j < labels.len() ==> labels[j]@ != saved.preset@
        } else {
            &&& after.preset < labels.len()
            &&& labels[after.preset as int]@ == saved.preset@
            &&& forall|j: int|
                #![trigger labels[j]]
                0 <= j < after.preset ==> labels[j]@ != saved.preset@
        }
    }

    /// The light as a document keeps it.
    pub fn sync_lighting_to_document(&self, labels: &Vec<String>) -> (r: ViewportLighting)
        requires
            self.preset < labels@.len(),
        ensures
            self.kept_as(labels@, r),
    {
        ViewportLighting {
            values: self.values,
            preset: saved_lighting_preset(self.customized, labels[self.preset].as_str()),
        }
    }

    /// Takes over the light of a document that was opened or created.
    pub fn apply_document_lighting(&mut self, labels: &Vec<String>, saved: &ViewportLighting)
        ensures
            Self::restored(*old(self), labels@, *saved, *final(self)),
    {
        self.values = saved.values;
        match lighting_preset(labels, saved.preset.as_str()) {
            Some(at) => {
                self.preset = at;
                self.customized = false;
            },
            None => {
                self.customized = true;
            },
        }
        self.last_preset = self.preset;
        self.last_customized = self.customized;
    }
}

/// Light survives a document: whatever was changed in between, what was saved
/// is what comes back, the preset where there was one included, and the next
/// frame does not seed the values again.
pub proof fn saved_light_comes_back(
    labels: Seq<String>,
    at_save: LightingState,
    saved: ViewportLighting,
    before: LightingState,
    after: LightingState,
)
    requires
        forall|i: int, j: int|
            #![trigger labels[i], labels[j]]
            0 <= i < j < labels.len() ==> labels[i]@ != labels[j]@,
        forall|i: int| #![trigger labels[i]] 0 <= i < labels.len() ==> labels[i]@.len() > 0,
        at_save.preset < labels.len(),
        at_save.kept_as(labels, saved),
        LightingState::restored(before, labels, saved, after),
    ensures
        after.values == at_save.values,
        after.customized == at_save.customized,
        !at_save.customized ==> after.preset == at_save.preset,
        after.last_preset == after.preset,
        after.last_customized == after.customized,
{
    reveal_strlit("");
    assert(labels[at_save.preset as int]@.len() > 0);
    if at_save.customized {
        if !after.customized {
            assert(labels[after.preset as int]@.len() > 0);
        }
    }
}

/// A document keeps the light at hand, and the label of its preset unless it was
/// customised.
pub proof fn documents_keep_the_light(
    state: LightingState,
    labels: &Vec<String>,
    saved: ViewportLighting,
)
    requires
        state.preset < labels@.len(),
        call_ensures(LightingState::sync_lighting_to_document, (&state, labels), saved),
    ensures
        saved.values == state.values,
        state.customized ==> saved.preset@ == ""@,
        !state.customized ==> saved.preset@ == labels@[state.preset as int]@,
{
}

} // verus!
