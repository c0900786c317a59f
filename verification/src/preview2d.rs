//! The 2D preview: which field it shows and when it has to be drawn again.
use vstd::prelude::*;

use crate::eval::{EvalCore, EvalState};

verus! {

#[derive(Debug, Clone, Copy, PartialEq, Eq, Structural)]
pub enum Preview2dMode {
    Lit,
    Unlit,
    Height,
    Slope,
    Flow,
    Mask,
    Masks,
    Material,
    Biome,
    VegetationDensity,
    Water,
    Sediment,
    Hardness,
    Erosion,
    Deposition,
    StreamOrder,
    SpeIncision,
    Temperature,
    Rainfall,
    Snow,
    SoilMoisture,
    Overhang,
    Curvature,
    Convexity,
    Concavity,
    Normals,
    Wireframe,
    AmbientOcclusion,
}

/// `keys` names the field `key`.
pub open spec fn names_field(keys: Seq<String>, key: Seq<char>) -> bool {
    exists|i: int| #![trigger keys[i]] 0 <= i < keys.len() && keys[i]@ == key
}

/// Whether the auxiliary fields hold `key`.
pub fn has_field(keys: &Vec<String>, key: &str) -> (r: bool)
    ensures
        r == names_field(keys@, key@),
{
    let mut i: usize = 0;
    while i < keys.len()
        invariant
            i <= keys@.len(),
            forall|j: int| #![trigger keys@[j]] 0 <= j < i ==> keys@[j]@ != key@,
        decreases keys@.len() - i,
    {
        if crate::text::same_text(keys[i].as_str(), key) {
            assert(keys@[i as int]@ == key@);
            return true;
        }
        i += 1;
    }
    false
}

impl Preview2dMode {
    /// The climate field that the mode shows.
    pub open spec fn climate_field(self) -> Option<Seq<char>> {
        match self {
            Preview2dMode::Temperature => Some("temperature"@),
            Preview2dMode::Rainfall => Some("rainfall"@),
            Preview2dMode::Snow => Some("snow"@),
            Preview2dMode::SoilMoisture => Some("soil_moisture"@),
            Preview2dMode::Biome => Some("biomes"@),
            _ => None,
        }
    }

    pub fn climate_key(self) -> (r: Option<&'static str>)
        ensures
            match r {
                Some(key) => self.climate_field() == Some(key@),
                None => self.climate_field() is None,
            },
    {
        match self {
            Preview2dMode::Temperature => Some("temperature"),
            Preview2dMode::Rainfall => Some("rainfall"),
            Preview2dMode::Snow => Some("snow"),
            Preview2dMode::SoilMoisture => Some("soil_moisture"),
            Preview2dMode::Biome => Some("biomes"),
            _ => None,
        }
    }

    /// The auxiliary field that the mode draws, and whether it is scaled by its
    /// maximum first.
    pub open spec fn drawn_field(self) -> Option<(Seq<char>, bool)> {
        match self {
            Preview2dMode::Material => Some(("materials"@, false)),
            Preview2dMode::Biome => Some(("biomes"@, false)),
            Preview2dMode::VegetationDensity => Some(("vegetation"@, false)),
            Preview2dMode::Water => Some(("wetness"@, true)),
            Preview2dMode::Sediment => Some(("sediment"@, true)),
            Preview2dMode::Hardness => Some(("hardness"@, true)),
            Preview2dMode::Erosion => Some(("erosion"@, true)),
            Preview2dMode::Deposition => Some(("deposition"@, true)),
            Preview2dMode::StreamOrder => Some(("stream_order"@, true)),
            Preview2dMode::SpeIncision => Some(("spe_incision"@, true)),
            Preview2dMode::Temperature => Some(("temperature"@, true)),
            Preview2dMode::Rainfall => Some(("rainfall"@, true)),
            Preview2dMode::Snow => Some(("snow"@, true)),
            Preview2dMode::SoilMoisture => Some(("soil_moisture"@, true)),
            Preview2dMode::Overhang => Some(("overhang_mask"@, true)),
            _ => None,
        }
    }

    pub fn field_key(self) -> (r: Option<(&'static str, bool)>)
        ensures
            match r {
                Some((key, scaled)) => self.drawn_field() == Some((key@, scaled)),
                None => self.drawn_field() is None,
            },
    {
        match self {
            Preview2dMode::Material => Some(("materials", false)),
            Preview2dMode::Biome => Some(("biomes", false)),
            Preview2dMode::VegetationDensity => Some(("vegetation", false)),
            Preview2dMode::Water => Some(("wetness", true)),
            Preview2dMode::Sediment => Some(("sediment", true)),
            Preview2dMode::Hardness => Some(("hardness", true)),
            Preview2dMode::Erosion => Some(("erosion", true)),
            Preview2dMode::Deposition => Some(("deposition", true)),
            Preview2dMode::StreamOrder => Some(("stream_order", true)),
            Preview2dMode::SpeIncision => Some(("spe_incision", true)),
            Preview2dMode::Temperature => Some(("temperature", true)),
            Preview2dMode::Rainfall => Some(("rainfall", true)),
            Preview2dMode::Snow => Some(("snow", true)),
            Preview2dMode::SoilMoisture => Some(("soil_moisture", true)),
            Preview2dMode::Overhang => Some(("overhang_mask", true)),
            _ => None,
        }
    }
}

/// The climate fields that one bake writes.
pub open spec fn baked_climate_fields() -> Seq<Seq<char>> {
    seq![
        "temperature"@,
        "rainfall"@,
        "humidity"@,
        "aridity"@,
        "snow"@,
        "soil_moisture"@,
        "wind_exposure"@,
        "biomes"@,
    ]
}

/// A climate field that is asked for is missing. The lit view asks for snow,
/// temperature and rainfall together; an overlay asks for its own field.
pub open spec fn climate_missing(mode: Preview2dMode, for_lit: bool, keys: Seq<String>) -> bool {
    if for_lit {
        !(names_field(keys, "snow"@) && names_field(keys, "temperature"@) && names_field(
            keys,
            "rainfall"@,
        ))
    } else {
        mode.climate_field() matches Some(key) && !names_field(keys, key)
    }
}

/// Whether climate has to be baked: a field is missing, there is a height to
/// bake from, and a Biomes layer that uses climate.
pub fn ensure_climate_aux(
    mode: Preview2dMode,
    for_lit: bool,
    keys: &Vec<String>,
    has_height: bool,
    has_climate_layer: bool,
) -> (r: bool)
    ensures
        r == (climate_missing(mode, for_lit, keys@) && has_height && has_climate_layer),
{
    let missing = if for_lit {
        !(has_field(keys, "snow") && has_field(keys, "temperature") && has_field(
            keys,
            "rainfall",
        ))
    } else {
        match mode.climate_key() {
            Some(key) => !has_field(keys, key),
            None => false,
        }
    };
    missing && has_height && has_climate_layer
}

/// A layer as the climate bake sees it.
#[derive(Debug, Clone, Copy, PartialEq, Eq, Structural)]
pub struct ClimateCandidate {
    pub is_biomes: bool,
    pub enabled: bool,
    pub use_climate: bool,
}

impl ClimateCandidate {
    pub open spec fn provides_climate(self) -> bool {
        self.is_biomes && self.enabled && self.use_climate
    }
}

/// The first layer whose parameters drive the climate bake.
pub fn climate_layer(layers: &[ClimateCandidate]) -> (r: Option<usize>)
    ensures
        match r {
            Some(at) => {
                &&& at < layers@.len()
                &&& layers@[at as int].provides_climate()
                &&& forall|j: int| #![trigger layers@[j]] 0 <= j < at ==> !layers@[j].provides_climate()
            },
            None => forall|j: int|
                #![trigger layers@[j]]
                0 <= j < layers@.len() ==> !layers@[j].provides_climate(),
        },
{
    let mut i: usize = 0;
    while i < layers.len()
        invariant
            i <= layers@.len(),
            forall|j: int| #![trigger layers@[j]] 0 <= j < i ==> !layers@[j].provides_climate(),
        decreases layers@.len() - i,
    {
        let layer = layers[i];
        if layer.is_biomes && layer.enabled && layer.use_climate {
            return Some(i);
        }
        i += 1;
    }
    None
}

/// What the preview draws from.
#[derive(Debug, Clone, Copy, PartialEq, Eq, Structural)]
pub enum PreviewSource {
    /// The image is up to date.
    Keep,
    /// There is no height: show no image.
    Nothing,
    /// There is no flow field yet: show no image and try again.
    AwaitFlow,
    /// A geomorphology debug field.
    GeomorphDebug,
    /// The coloured placement of biomes.
    BiomeColors,
    /// The height between its extremes.
    Height,
    Slope,
    /// Flow accumulation on a logarithmic scale.
    Flow,
    SelectedMask,
    /// Any of the baked masks.
    AnyMask,
    MaterialsField,
    /// The auxiliary field of the mode.
    ModeField { scaled: bool },
    /// Nothing is known of the field: draw it black.
    Zeros,
}

/// What the caller sees when the preview is refreshed.
#[derive(Debug)]
pub struct PreviewObservation {
    pub has_height: bool,
    pub geomorph_debug: bool,
    /// The selected placement layer has channels.
    pub has_placement_channels: bool,
    pub selected_mask_baked: bool,
    pub any_mask_baked: bool,
    pub keys: Vec<String>,
}

/// What of the preview's state decides about it.
#[derive(Debug, Clone, Copy, PartialEq, Eq, Structural)]
pub struct PreviewState {
    pub mode: Preview2dMode,
    pub last_mode: Preview2dMode,
    pub force_refresh: bool,
    pub dirty: bool,
}

/// The source that `mode` draws from.
pub open spec fn mode_source(mode: Preview2dMode, seen: PreviewObservation) -> PreviewSource {
    match mode {
        Preview2dMode::Slope => PreviewSource::Slope,
        Preview2dMode::Flow => if names_field(seen.keys@, "flow_accumulation"@) {
            PreviewSource::Flow
        } else {
            PreviewSource::AwaitFlow
        },
        Preview2dMode::Mask | Preview2dMode::Masks => if seen.selected_mask_baked {
            PreviewSource::SelectedMask
        } else if seen.any_mask_baked {
            PreviewSource::AnyMask
        } else if names_field(seen.keys@, "materials"@) {
            PreviewSource::MaterialsField
        } else {
            PreviewSource::Zeros
        },
        _ => match mode.drawn_field() {
            Some((key, scaled)) => if names_field(seen.keys@, key) {
                PreviewSource::ModeField { scaled }
            } else {
                PreviewSource::Zeros
            },
            None => PreviewSource::Height,
        },
    }
}

/// What a refresh draws from.
pub open spec fn refresh_source(dirty: bool, mode: Preview2dMode, seen: PreviewObservation) -> PreviewSource {
    if !dirty {
        PreviewSource::Keep
    } else if !seen.has_height {
        PreviewSource::Nothing
    } else if seen.geomorph_debug {
        PreviewSource::GeomorphDebug
    } else if mode == Preview2dMode::Biome && seen.has_placement_channels {
        PreviewSource::BiomeColors
    } else {
        mode_source(mode, seen)
    }
}

impl PreviewState {
    /// Notices a changed mode and a forced refresh.
    pub fn note_preview_request(&mut self)
        ensures
            *final(self) == (PreviewState {
                last_mode: old(self).mode,
                force_refresh: false,
                dirty: old(self).dirty || old(self).mode != old(self).last_mode || old(
                    self,
                ).force_refresh,
                ..*old(self)
            }),
    {
        if self.mode != self.last_mode {
            self.last_mode = self.mode;
            self.dirty = true;
        }
        if self.force_refresh {
            self.force_refresh = false;
            self.dirty = true;
        }
    }

    fn source_of_mode(mode: Preview2dMode, seen: &PreviewObservation) -> (r: PreviewSource)
        ensures
            r == mode_source(mode, *seen),
    {
        match mode {
            Preview2dMode::Slope => PreviewSource::Slope,
            Preview2dMode::Flow => if has_field(&seen.keys, "flow_accumulation") {
                PreviewSource::Flow
            } else {
                PreviewSource::AwaitFlow
            },
            Preview2dMode::Mask | Preview2dMode::Masks => if seen.selected_mask_baked {
                PreviewSource::SelectedMask
            } else if seen.any_mask_baked {
                PreviewSource::AnyMask
            } else if has_field(&seen.keys, "materials") {
                PreviewSource::MaterialsField
            } else {
                PreviewSource::Zeros
            },
            _ => match mode.field_key() {
                Some((key, scaled)) => if has_field(&seen.keys, key) {
                    PreviewSource::ModeField { scaled }
                } else {
                    PreviewSource::Zeros
                },
                None => PreviewSource::Height,
            },
        }
    }

    /// Chooses what to draw. The preview is clean afterwards unless it waits
    /// for flow.
    pub fn refresh_2d_preview(&mut self, seen: &PreviewObservation) -> (r: PreviewSource)
        ensures
            r == refresh_source(old(self).dirty, old(self).mode, *seen),
            *final(self) == (PreviewState { dirty: r is AwaitFlow, ..*old(self) }),
    {
        if !self.dirty {
            return PreviewSource::Keep;
        }
        let source = if !seen.has_height {
            PreviewSource::Nothing
        } else if seen.geomorph_debug {
            PreviewSource::GeomorphDebug
        } else if self.mode == Preview2dMode::Biome && seen.has_placement_channels {
            PreviewSource::BiomeColors
        } else {
            Self::source_of_mode(self.mode, seen)
        };
        self.dirty = match source {
            PreviewSource::AwaitFlow => true,
            _ => false,
        };
        source
    }

    /// Takes in a climate bake: the preview is drawn anew. An overlay is shown
    /// through the height upload and asks for one; the lit view uploads with the
    /// next height and asks for none, or it would upload and bake in turn.
    pub fn take_climate_bake(&mut self, eval: &mut EvalState, for_lit: bool)
        ensures
            *final(self) == (PreviewState { dirty: true, ..*old(self) }),
            EvalState::only_core_changed(*old(eval), *final(eval)),
            final(eval).core == (EvalCore {
                preview_dirty: true,
                needs_height_upload: old(eval).core.needs_height_upload || !for_lit,
                ..old(eval).core
            }),
    {
        self.dirty = true;
        let upload = eval.core.needs_height_upload || !for_lit;
        eval.core = EvalCore { preview_dirty: true, needs_height_upload: upload, ..eval.core };
    }
}

/// The biome that a placement preview isolates.
pub fn isolated_biome(isolate_active: bool, active: Option<u128>) -> (r: Option<u128>)
    ensures
        r == if isolate_active {
            active
        } else {
            None
        },
{
    if isolate_active {
        active
    } else {
        None
    }
}

/// An opaque grey pixel.
pub open spec fn grey_pixel(value: u8) -> Seq<u8> {
    seq![value, value, value, 255u8]
}

/// Grey values as opaque RGBA pixels.
pub open spec fn grey_pixels(values: Seq<u8>) -> Seq<u8>
    decreases values.len(),
{
    if values.len() == 0 {
        Seq::empty()
    } else {
        grey_pixels(values.drop_last()) + grey_pixel(values.last())
    }
}

/// Expands quantized grey values to RGBA.
pub fn grey_rgba(values: &[u8]) -> (r: Vec<u8>)
    ensures
        r@ == grey_pixels(values@),
        r@.len() == 4 * values@.len(),
{
    let mut rgba: Vec<u8> = Vec::new();
    let mut i: usize = 0;
    while i < values.len()
        invariant
            i <= values@.len(),
            rgba@ == grey_pixels(values@.take(i as int)),
            rgba@.len() == 4 * i,
        decreases values@.len() - i,
    {
        let value: u8 = values[i];
        let ghost before = rgba@;
        rgba.push(value);
        rgba.push(value);
        rgba.push(value);
        rgba.push(255);
        proof {
            assert(values@.take(i + 1).drop_last() =~= values@.take(i as int));
            assert(rgba@ =~= before + grey_pixel(value));
        }
        i += 1;
    }
    assert(values@.take(i as int) =~= values@);
    rgba
}

/// Refreshing twice draws once: a drawn preview stays until something asks for
/// it again.
pub proof fn a_drawn_preview_is_kept(
    dirty: bool,
    mode: Preview2dMode,
    seen: PreviewObservation,
    again: PreviewObservation,
)
    requires
        !(refresh_source(dirty, mode, seen) is AwaitFlow),
    ensures
        refresh_source(refresh_source(dirty, mode, seen) is AwaitFlow, mode, again) is Keep,
{
}

/// What a bake made is drawn by the next refresh.
pub proof fn a_bake_is_drawn(before: PreviewState, baked: PreviewState, seen: PreviewObservation)
    requires
        baked == (PreviewState { dirty: true, ..before }),
    ensures
        !(refresh_source(baked.dirty, baked.mode, seen) is Keep),
{
}

/// One bake settles climate: the baked fields hold every field that an overlay
/// or the lit view asks for.
pub proof fn a_bake_leaves_no_climate_missing(
    mode: Preview2dMode,
    for_lit: bool,
    keys: Seq<String>,
)
    requires
        forall|i: int|
            #![trigger baked_climate_fields()[i]]
            0 <= i < baked_climate_fields().len() ==> names_field(keys, baked_climate_fields()[i]),
    ensures
        !climate_missing(mode, for_lit, keys),
{
    let baked = baked_climate_fields();
    assert(baked[0] == "temperature"@);
    assert(baked[1] == "rainfall"@);
    assert(baked[4] == "snow"@);
    assert(baked[5] == "soil_moisture"@);
    assert(baked[7] == "biomes"@);
}

/// A mode draws the field that it is named after.
pub proof fn modes_draw_their_field(mode: Preview2dMode)
    ensures
        mode is Material ==> mode.drawn_field() == Some(("materials"@, false)),
        mode is Biome ==> mode.drawn_field() == Some(("biomes"@, false)),
        mode is VegetationDensity ==> mode.drawn_field() == Some(("vegetation"@, false)),
        mode is Water ==> mode.drawn_field() == Some(("wetness"@, true)),
        mode is Sediment ==> mode.drawn_field() == Some(("sediment"@, true)),
        mode is Hardness ==> mode.drawn_field() == Some(("hardness"@, true)),
        mode is Erosion ==> mode.drawn_field() == Some(("erosion"@, true)),
        mode is Deposition ==> mode.drawn_field() == Some(("deposition"@, true)),
        mode is StreamOrder ==> mode.drawn_field() == Some(("stream_order"@, true)),
        mode is SpeIncision ==> mode.drawn_field() == Some(("spe_incision"@, true)),
        mode is Temperature ==> mode.drawn_field() == Some(("temperature"@, true)),
        mode is Rainfall ==> mode.drawn_field() == Some(("rainfall"@, true)),
        mode is Snow ==> mode.drawn_field() == Some(("snow"@, true)),
        mode is SoilMoisture ==> mode.drawn_field() == Some(("soil_moisture"@, true)),
        mode is Overhang ==> mode.drawn_field() == Some(("overhang_mask"@, true)),
        mode is Lit || mode is Unlit || mode is Height || mode is Slope || mode is Flow || mode
            is Mask || mode is Masks ==> mode.drawn_field() is None,
        mode.climate_field() matches Some(key) ==> (mode.drawn_field() matches Some((drawn, _))
            && drawn == key),
        mode is Temperature || mode is Rainfall || mode is Snow || mode is SoilMoisture || mode
            is Biome <==> mode.climate_field() is Some,
{
}

/// Climate is baked where a field that is asked for is missing and there is a height
/// and a layer to bake it from. The lit view asks for snow, temperature and rainfall
/// together, an overlay for its own field, and any other mode for none.
pub proof fn missing_climate_is_baked(
    mode: Preview2dMode,
    for_lit: bool,
    keys: &Vec<String>,
    height: bool,
    layer: bool,
    bakes: bool,
)
    requires
        call_ensures(ensure_climate_aux, (mode, for_lit, keys, height, layer), bakes),
    ensures
        !height || !layer ==> !bakes,
        for_lit && height && layer && (!names_field(keys@, "snow"@) || !names_field(
            keys@,
            "temperature"@,
        ) || !names_field(keys@, "rainfall"@)) ==> bakes,
        for_lit && names_field(keys@, "snow"@) && names_field(keys@, "temperature"@) && names_field(
            keys@,
            "rainfall"@,
        ) ==> !bakes,
        !for_lit && height && layer && mode is Snow ==> (bakes <==> !names_field(keys@, "snow"@)),
        !for_lit && height && layer && mode is Temperature ==> (bakes <==> !names_field(
            keys@,
            "temperature"@,
        )),
        !for_lit && height && layer && mode is Rainfall ==> (bakes <==> !names_field(
            keys@,
            "rainfall"@,
        )),
        !for_lit && height && layer && mode is SoilMoisture ==> (bakes <==> !names_field(
            keys@,
            "soil_moisture"@,
        )),
        !for_lit && height && layer && mode is Biome ==> (bakes <==> !names_field(
            keys@,
            "biomes"@,
        )),
        !for_lit && (mode is Lit || mode is Height || mode is Slope || mode is Water) ==> !bakes,
{
}

/// A clean preview is kept; without a height there is nothing to draw; a debug field
/// comes before everything, and the colours of placed biomes before their field. Each
/// other mode draws its own source, or black where that is not known, and flow is
/// waited for.
pub proof fn previews_draw_their_source(
    state: &mut PreviewState,
    seen: &PreviewObservation,
    source: PreviewSource,
)
    requires
        call_ensures(PreviewState::refresh_2d_preview, (state, seen), source),
    ensures
        !old(state).dirty ==> source is Keep && *final(state) == *old(state),
        old(state).dirty && !seen.has_height ==> source is Nothing,
        old(state).dirty && seen.has_height && seen.geomorph_debug ==> source is GeomorphDebug,
        old(state).dirty && seen.has_height && !seen.geomorph_debug ==> {
            let mode = old(state).mode;
            &&& mode is Biome && seen.has_placement_channels ==> source is BiomeColors
            &&& mode is Slope ==> source is Slope
            &&& mode is Flow && names_field(seen.keys@, "flow_accumulation"@) ==> source is Flow
            &&& mode is Flow && !names_field(seen.keys@, "flow_accumulation"@) ==> source
                is AwaitFlow
            &&& mode is Mask || mode is Masks ==> {
                &&& seen.selected_mask_baked ==> source is SelectedMask
                &&& !seen.selected_mask_baked && seen.any_mask_baked ==> source is AnyMask
                &&& !seen.selected_mask_baked && !seen.any_mask_baked && names_field(
                    seen.keys@,
                    "materials"@,
                ) ==> source is MaterialsField
                &&& !seen.selected_mask_baked && !seen.any_mask_baked && !names_field(
                    seen.keys@,
                    "materials"@,
                ) ==> source is Zeros
            }
            &&& mode is Height || mode is Lit || mode is Unlit || mode is Curvature || mode
                is Normals ==> source is Height
            &&& mode is Water && names_field(seen.keys@, "wetness"@) ==> source
                == (PreviewSource::ModeField { scaled: true })
            &&& mode is Material && names_field(seen.keys@, "materials"@) ==> source
                == (PreviewSource::ModeField { scaled: false })
            &&& mode is Snow && !names_field(seen.keys@, "snow"@) ==> source is Zeros
            &&& mode is Biome && !seen.has_placement_channels && names_field(
                seen.keys@,
                "biomes"@,
            ) ==> source == (PreviewSource::ModeField { scaled: false })
        },
        final(state).dirty <==> source is AwaitFlow,
        final(state).mode == old(state).mode,
{
}

/// A changed mode and a forced refresh make the preview dirty, each once; nothing
/// makes it clean here.
pub proof fn changed_modes_are_drawn(state: &mut PreviewState)
    requires
        call_ensures(PreviewState::note_preview_request, (state,), ()),
    ensures
        old(state).mode != old(state).last_mode || old(state).force_refresh || old(state).dirty ==> final(state).dirty,
        old(state).mode == old(state).last_mode && !old(state).force_refresh ==> final(state).dirty
            == old(state).dirty,
        final(state).last_mode == old(state).mode,
        !final(state).force_refresh,
        final(state).mode == old(state).mode,
{
}

/// A climate bake is drawn; an overlay asks for an upload and the lit view does not.
pub proof fn overlays_upload_their_bake(
    state: &mut PreviewState,
    eval: &mut EvalState,
    for_lit: bool,
)
    requires
        call_ensures(PreviewState::take_climate_bake, (state, eval, for_lit), ()),
    ensures
        final(state).dirty,
        final(eval).core.preview_dirty,
        !for_lit ==> final(eval).core.needs_height_upload,
        for_lit ==> final(eval).core.needs_height_upload == old(eval).core.needs_height_upload,
{
}

/// Only an enabled biomes layer that uses climate provides it.
pub proof fn climate_needs_an_enabled_layer(layer: ClimateCandidate)
    ensures
        layer.is_biomes && layer.enabled && layer.use_climate ==> layer.provides_climate(),
        !layer.is_biomes || !layer.enabled || !layer.use_climate ==> !layer.provides_climate(),
{
}

/// A grey value is an opaque pixel of its own, at its own place.
pub proof fn grey_values_are_opaque_pixels(values: Seq<u8>, i: int)
    requires
        0 <= i < values.len(),
    ensures
        grey_pixels(values).len() == 4 * values.len(),
        grey_pixels(values)[4 * i] == values[i],
        grey_pixels(values)[4 * i + 1] == values[i],
        grey_pixels(values)[4 * i + 2] == values[i],
        grey_pixels(values)[4 * i + 3] == 255,
    decreases values.len(),
{
    let front = values.drop_last();
    grey_length(front);
    if i < front.len() {
        grey_values_are_opaque_pixels(front, i);
    }
}

proof fn grey_length(values: Seq<u8>)
    ensures
        grey_pixels(values).len() == 4 * values.len(),
    decreases values.len(),
{
    if values.len() > 0 {
        grey_length(values.drop_last());
    }
}

/// The active biome is isolated where that was asked for.
pub proof fn isolation_is_asked_for(isolate: bool, active: Option<u128>, isolated: Option<u128>)
    requires
        call_ensures(isolated_biome, (isolate, active), isolated),
    ensures
        isolate ==> isolated == active,
        !isolate ==> isolated is None,
{
}

} // verus!
