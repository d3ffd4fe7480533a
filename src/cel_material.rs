//! The shader parameter block, how a property document fills it, and the cel
//! material with its variant key.

use vstd::prelude::*;
use crate::properties::{Color, MColors, MFloats, MaterialPropertiesRoot};

verus! {

/// Bit pattern of the 32-bit float `1.0`.
pub const F32_ONE: u32 = 0x3F80_0000;

/// Bit pattern of the 32-bit float `-1.0`.
pub const F32_MINUS_ONE: u32 = 0xBF80_0000;

/// Bit pattern of the 32-bit float `0.01`: the default shadow transition range.
pub const DEFAULT_TRANSITION_RANGE: u32 = 0x3C23_D70A;

/// Bit pattern of the 32-bit float `0.5`: the default shadow transition softness.
pub const DEFAULT_TRANSITION_SOFTNESS: u32 = 0x3F00_0000;

/// Bit pattern of `0.9`: red of the default shadow tint.
pub const DEFAULT_TINT_RED: u32 = 0x3F66_6666;

/// Bit pattern of `0.7`: green of the default shadow tint.
pub const DEFAULT_TINT_GREEN: u32 = 0x3F33_3333;

/// Bit pattern of `0.75`: blue of the default shadow tint.
pub const DEFAULT_TINT_BLUE: u32 = 0x3F40_0000;

/// A 3-vector whose components are bit patterns of 32-bit floats.
#[derive(Clone, Copy, Debug, PartialEq, Eq, Structural)]
pub struct Vector3 {
    pub x: u32,
    pub y: u32,
    pub z: u32,
}

/// A colour as the shading stage receives it: linear, with components that are
/// bit patterns of 32-bit floats. No gamma conversion happens on the way in.
#[derive(Clone, Copy, Debug, PartialEq, Eq, Structural)]
pub struct Rgba {
    pub r: u32,
    pub g: u32,
    pub b: u32,
    pub a: u32,
}

/// The colour that a property document's colour becomes: the same four components.
pub open spec fn rgba_of(c: Color) -> Rgba {
    Rgba { r: c.r, g: c.g, b: c.b, a: c.a }
}

/// Opaque white, the value of a colour slot that no document filled.
pub open spec fn white() -> Rgba {
    Rgba { r: F32_ONE, g: F32_ONE, b: F32_ONE, a: F32_ONE }
}

/// The tint that every shadow-ramp slot holds by default: `(0.9, 0.7, 0.75, 1.0)`.
pub open spec fn default_tint() -> Rgba {
    Rgba { r: DEFAULT_TINT_RED, g: DEFAULT_TINT_GREEN, b: DEFAULT_TINT_BLUE, a: F32_ONE }
}

impl Rgba {
    /// Opaque white.
    pub fn white() -> (r: Rgba)
        ensures
            r == white(),
    {
        Rgba { r: F32_ONE, g: F32_ONE, b: F32_ONE, a: F32_ONE }
    }

    /// The default shadow tint.
    pub fn default_tint() -> (r: Rgba)
        ensures
            r == default_tint(),
    {
        Rgba { r: DEFAULT_TINT_RED, g: DEFAULT_TINT_GREEN, b: DEFAULT_TINT_BLUE, a: F32_ONE }
    }
}

impl From<Color> for Rgba {
    fn from(c: Color) -> (r: Rgba)
        ensures
            r == rgba_of(c),
    {
        Rgba { r: c.r, g: c.g, b: c.b, a: c.a }
    }
}

impl vstd::std_specs::convert::FromSpecImpl<Color> for Rgba {
    open spec fn obeys_from_spec() -> bool {
        true
    }

    open spec fn from_spec(c: Color) -> Rgba {
        rgba_of(c)
    }
}

/// The facing of the character: where forward and right point. It comes from
/// the live orientation of the character, never from a property document.
#[derive(Clone, Copy, Debug, PartialEq, Eq, Structural)]
pub struct Direction {
    pub forward: Vector3,
    pub right: Vector3,
}

/// The facing before any orientation is known: forward `(0, 0, 1)`, right `(-1, 0, 0)`.
pub open spec fn default_direction() -> Direction {
    Direction {
        forward: Vector3 { x: 0, y: 0, z: F32_ONE },
        right: Vector3 { x: F32_MINUS_ONE, y: 0, z: 0 },
    }
}

impl Direction {
    pub fn new(forward: Vector3, right: Vector3) -> (r: Direction)
        ensures
            r.forward == forward,
            r.right == right,
    {
        Direction { forward, right }
    }
}

impl Default for Direction {
    fn default() -> (r: Direction)
        ensures
            r == default_direction(),
    {
        Direction {
            forward: Vector3 { x: 0, y: 0, z: F32_ONE },
            right: Vector3 { x: F32_MINUS_ONE, y: 0, z: 0 },
        }
    }
}

/// The five shadow-ramp slots. Slot `n` of the property document (the base
/// key for `n = 1`, the key with suffix `n` otherwise) sits at index `n - 1`.
#[derive(Clone, Copy, Debug)]
pub struct ShadowRamp {
    pub width: u32,
    pub day_mult_colors: [Rgba; 5],
    pub night_mult_colors: [Rgba; 5],
    pub transition_ranges: [u32; 5],
    pub transition_softness: [u32; 5],
}

/// The ramp that no document filled: width `1.0`, the default tint by day and
/// by night, transition range `0.01` and softness `0.5` in every slot.
pub open spec fn default_shadow_ramp(r: ShadowRamp) -> bool {
    &&& r.width == F32_ONE
    &&& forall|i: int| 0 <= i < 5 ==> r.day_mult_colors@[i] == default_tint()
    &&& forall|i: int| 0 <= i < 5 ==> r.night_mult_colors@[i] == default_tint()
    &&& forall|i: int| 0 <= i < 5 ==> r.transition_ranges@[i] == DEFAULT_TRANSITION_RANGE
    &&& forall|i: int| 0 <= i < 5 ==> r.transition_softness@[i] == DEFAULT_TRANSITION_SOFTNESS
}

impl Default for ShadowRamp {
    fn default() -> (r: ShadowRamp)
        ensures
            default_shadow_ramp(r),
    {
        let tint = Rgba::default_tint();
        ShadowRamp {
            width: F32_ONE,
            day_mult_colors: [tint, tint, tint, tint, tint],
            night_mult_colors: [tint, tint, tint, tint, tint],
            transition_ranges: [
                DEFAULT_TRANSITION_RANGE,
                DEFAULT_TRANSITION_RANGE,
                DEFAULT_TRANSITION_RANGE,
                DEFAULT_TRANSITION_RANGE,
                DEFAULT_TRANSITION_RANGE,
            ],
            transition_softness: [
                DEFAULT_TRANSITION_SOFTNESS,
                DEFAULT_TRANSITION_SOFTNESS,
                DEFAULT_TRANSITION_SOFTNESS,
                DEFAULT_TRANSITION_SOFTNESS,
                DEFAULT_TRANSITION_SOFTNESS,
            ],
        }
    }
}

/// Shininess and specular multiplier of the five secondary materials; index
/// `n - 1` holds slot `n` of the property document.
#[derive(Clone, Copy, Debug)]
pub struct MaterialGlobalSpecular {
    pub shininess: [u32; 5],
    pub specular_multi: [u32; 5],
}

impl Default for MaterialGlobalSpecular {
    fn default() -> (r: MaterialGlobalSpecular)
        ensures
            forall|i: int| 0 <= i < 5 ==> r.shininess@[i] == 0 && r.specular_multi@[i] == 0,
    {
        MaterialGlobalSpecular { shininess: [0, 0, 0, 0, 0], specular_multi: [0, 0, 0, 0, 0] }
    }
}

/// The shader parameter block of one material: every scalar is the bit pattern
/// of a 32-bit float. Only `head_direction` and `day_night_cycle` change after
/// construction; neither is read from a property document.
#[derive(Clone, Copy, Debug)]
pub struct CelMaterialProperties {
    pub head_direction: Direction,
    pub shadow_ramp_values: ShadowRamp,
    pub global_specular: MaterialGlobalSpecular,
    pub use_materials: [u32; 4],
    pub metal_map_light_color: Rgba,
    pub metal_map_dark_color: Rgba,
    pub metal_map_shadow_multi_color: Rgba,
    pub metal_map_sharp_layer_color: Rgba,
    pub metal_map_specular_color: Rgba,
    pub specular_color: Rgba,
    pub hit_color: Rgba,
    pub day_night_cycle: u32,
    pub use_shadow_ramp_texture: u32,
    pub light_area: u32,
    pub flip_light_map: u32,
    pub face_map_softness: u32,
    pub use_ligth_map_color_ao: u32,
    pub use_vertex_color_ao: u32,
    pub normal_map_scale: u32,
    pub use_normal_map: u32,
    pub use_back_space_uv: u32,
    pub use_metal_map: u32,
    pub metal_map_tile_scale: u32,
    pub metal_map_brightness: u32,
    pub metal_map_shininess: u32,
    pub metal_map_sharp_layer_offset: u32,
    pub metal_map_specular_atten_in_shadow: u32,
    pub metal_map_specular_scale: u32,
    pub use_fresnel: u32,
    pub hit_color_fresnel_power: u32,
    pub hit_color_scaler: u32,
    pub rim_light_type: u32,
    pub rim_light_intensity: u32,
    pub rim_light_thickness: u32,
}

/// The block of a material that no document describes: default facing and
/// ramp, zero specular slots, white colours, every other scalar zero.
pub open spec fn default_properties(p: CelMaterialProperties) -> bool {
    &&& p.head_direction == default_direction()
    &&& default_shadow_ramp(p.shadow_ramp_values)
    &&& forall|i: int|
        0 <= i < 5 ==> p.global_specular.shininess@[i] == 0
            && p.global_specular.specular_multi@[i] == 0
    &&& forall|i: int| 0 <= i < 4 ==> p.use_materials@[i] == 0
    &&& p.metal_map_light_color == white()
    &&& p.metal_map_dark_color == white()
    &&& p.metal_map_shadow_multi_color == white()
    &&& p.metal_map_sharp_layer_color == white()
    &&& p.metal_map_specular_color == white()
    &&& p.specular_color == white()
    &&& p.hit_color == white()
    &&& p.day_night_cycle == 0
    &&& p.use_shadow_ramp_texture == 0
    &&& p.light_area == 0
    &&& p.flip_light_map == 0
    &&& p.face_map_softness == 0
    &&& p.use_ligth_map_color_ao == 0
    &&& p.use_vertex_color_ao == 0
    &&& p.normal_map_scale == 0
    &&& p.use_normal_map == 0
    &&& p.use_back_space_uv == 0
    &&& p.use_metal_map == 0
    &&& p.metal_map_tile_scale == 0
    &&& p.metal_map_brightness == 0
    &&& p.metal_map_shininess == 0
    &&& p.metal_map_sharp_layer_offset == 0
    &&& p.metal_map_specular_atten_in_shadow == 0
    &&& p.metal_map_specular_scale == 0
    &&& p.use_fresnel == 0
    &&& p.hit_color_fresnel_power == 0
    &&& p.hit_color_scaler == 0
    &&& p.rim_light_type == 0
    &&& p.rim_light_intensity == 0
    &&& p.rim_light_thickness == 0
}

impl Default for CelMaterialProperties {
    fn default() -> (r: CelMaterialProperties)
        ensures
            default_properties(r),
    {
        let white = Rgba::white();
        CelMaterialProperties {
            head_direction: Direction::default(),
            shadow_ramp_values: ShadowRamp::default(),
            global_specular: MaterialGlobalSpecular::default(),
            use_materials: [0, 0, 0, 0],
            metal_map_light_color: white,
            metal_map_dark_color: white,
            metal_map_shadow_multi_color: white,
            metal_map_sharp_layer_color: white,
            metal_map_specular_color: white,
            specular_color: white,
            hit_color: white,
            day_night_cycle: 0,
            use_shadow_ramp_texture: 0,
            light_area: 0,
            flip_light_map: 0,
            face_map_softness: 0,
            use_ligth_map_color_ao: 0,
            use_vertex_color_ao: 0,
            normal_map_scale: 0,
            use_normal_map: 0,
            use_back_space_uv: 0,
            use_metal_map: 0,
            metal_map_tile_scale: 0,
            metal_map_brightness: 0,
            metal_map_shininess: 0,
            metal_map_sharp_layer_offset: 0,
            metal_map_specular_atten_in_shadow: 0,
            metal_map_specular_scale: 0,
            use_fresnel: 0,
            hit_color_fresnel_power: 0,
            hit_color_scaler: 0,
            rim_light_type: 0,
            rim_light_intensity: 0,
            rim_light_thickness: 0,
        }
    }
}

/// Slot `n` (1 to 5) of `shadow_transition_range` in the property document.
pub open spec fn range_slot(f: MFloats, n: int) -> u32 {
    if n == 1 {
        f.shadow_transition_range
    } else if n == 2 {
        f.shadow_transition_range2
    } else if n == 3 {
        f.shadow_transition_range3
    } else if n == 4 {
        f.shadow_transition_range4
    } else {
        f.shadow_transition_range5
    }
}

/// Slot `n` (1 to 5) of `shadow_transition_softness` in the property document.
pub open spec fn softness_slot(f: MFloats, n: int) -> u32 {
    if n == 1 {
        f.shadow_transition_softness
    } else if n == 2 {
        f.shadow_transition_softness2
    } else if n == 3 {
        f.shadow_transition_softness3
    } else if n == 4 {
        f.shadow_transition_softness4
    } else {
        f.shadow_transition_softness5
    }
}

/// Slot `n` (1 to 5) of `shininess` in the property document.
pub open spec fn shininess_slot(f: MFloats, n: int) -> u32 {
    if n == 1 {
        f.shininess
    } else if n == 2 {
        f.shininess2
    } else if n == 3 {
        f.shininess3
    } else if n == 4 {
        f.shininess4
    } else {
        f.shininess5
    }
}

/// Slot `n` (1 to 5) of `spec_multi` in the property document.
pub open spec fn specular_multi_slot(f: MFloats, n: int) -> u32 {
    if n == 1 {
        f.spec_multi
    } else if n == 2 {
        f.spec_multi2
    } else if n == 3 {
        f.spec_multi3
    } else if n == 4 {
        f.spec_multi4
    } else {
        f.spec_multi5
    }
}

/// Slot `n` (1 to 5) of `first_shadow_mult_color` in the property document.
pub open spec fn day_tint_slot(c: MColors, n: int) -> Rgba {
    if n == 1 {
        rgba_of(c.first_shadow_mult_color)
    } else if n == 2 {
        rgba_of(c.first_shadow_mult_color2)
    } else if n == 3 {
        rgba_of(c.first_shadow_mult_color3)
    } else if n == 4 {
        rgba_of(c.first_shadow_mult_color4)
    } else {
        rgba_of(c.first_shadow_mult_color5)
    }
}

/// Slot `n` (1 to 5) of `cool_shadow_mult_color` in the property document.
pub open spec fn night_tint_slot(c: MColors, n: int) -> Rgba {
    if n == 1 {
        rgba_of(c.cool_shadow_mult_color)
    } else if n == 2 {
        rgba_of(c.cool_shadow_mult_color2)
    } else if n == 3 {
        rgba_of(c.cool_shadow_mult_color3)
    } else if n == 4 {
        rgba_of(c.cool_shadow_mult_color4)
    } else {
        rgba_of(c.cool_shadow_mult_color5)
    }
}

/// The block that `translate` makes of a document with scalars `f` and colours
/// `c`: each slot `n` of a ramp or specular family sits at index `n - 1`,
/// colours pass through unchanged, the four secondary-material toggles are
/// packed in the order 2, 3, 4, 5, facing and day/night cycle keep their
/// defaults, `flip_light_map` is zero, and the fresnel and rim-light toggles
/// are `1.0` whatever the document says.
pub open spec fn translation_of(p: CelMaterialProperties, f: MFloats, c: MColors) -> bool {
    &&& p.head_direction == default_direction()
    &&& p.day_night_cycle == 0
    &&& p.shadow_ramp_values.width == f.shadow_ramp_width
    &&& forall|i: int|
        0 <= i < 5 ==> {
            &&& p.shadow_ramp_values.day_mult_colors@[i] == day_tint_slot(c, i + 1)
            &&& p.shadow_ramp_values.night_mult_colors@[i] == night_tint_slot(c, i + 1)
            &&& p.shadow_ramp_values.transition_ranges@[i] == range_slot(f, i + 1)
            &&& p.shadow_ramp_values.transition_softness@[i] == softness_slot(f, i + 1)
            &&& p.global_specular.shininess@[i] == shininess_slot(f, i + 1)
            &&& p.global_specular.specular_multi@[i] == specular_multi_slot(f, i + 1)
        }
    &&& p.use_materials@ == seq![f.use_material2, f.use_material3, f.use_material4, f.use_material5]
    &&& p.metal_map_light_color == rgba_of(c.mtmap_light_color)
    &&& p.metal_map_dark_color == rgba_of(c.mtmap_dark_color)
    &&& p.metal_map_shadow_multi_color == rgba_of(c.mtshadow_multi_color)
    &&& p.metal_map_sharp_layer_color == rgba_of(c.mtsharp_layer_color)
    &&& p.metal_map_specular_color == rgba_of(c.mtspecular_color)
    &&& p.specular_color == rgba_of(c.specular_color)
    &&& p.hit_color == rgba_of(c.hit_color)
    &&& p.use_shadow_ramp_texture == f.use_shadow_ramp
    &&& p.light_area == f.light_area
    &&& p.flip_light_map == 0
    &&& p.face_map_softness == f.face_map_softness
    &&& p.use_ligth_map_color_ao == f.use_light_map_color_ao
    &&& p.use_vertex_color_ao == f.use_vertex_color_ao
    &&& p.normal_map_scale == f.bump_scale
    &&& p.use_normal_map == f.use_bump_map
    &&& p.use_back_space_uv == f.use_back_face_uv2
    &&& p.use_metal_map == f.metal_material
    &&& p.metal_map_tile_scale == f.mtmap_tile_scale
    &&& p.metal_map_brightness == f.mtmap_brightness
    &&& p.metal_map_shininess == f.mtshininess
    &&& p.metal_map_sharp_layer_offset == f.mtsharp_layer_offset
    &&& p.metal_map_specular_atten_in_shadow == f.mtspecular_atten_in_shadow
    &&& p.metal_map_specular_scale == f.mtspecular_scale
    &&& p.hit_color_fresnel_power == f.hit_color_fresnel_power
    &&& p.hit_color_scaler == f.hit_color_scaler
    &&& p.use_fresnel == F32_ONE
    &&& p.rim_light_type == F32_ONE
    &&& p.rim_light_intensity == F32_ONE
    &&& p.rim_light_thickness == F32_ONE
}

/// Translates a parsed property document into the shader parameter block.
/// Total: a key missing from the document has already become its zero default.
pub fn translate(root: &MaterialPropertiesRoot) -> (p: CelMaterialProperties)
    ensures
        translation_of(p, root.m_saved_properties.m_floats, root.m_saved_properties.m_colors),
{
    let f = root.m_saved_properties.m_floats;
    let c = root.m_saved_properties.m_colors;
    CelMaterialProperties {
        head_direction: Direction::default(),
        day_night_cycle: 0,
        use_shadow_ramp_texture: f.use_shadow_ramp,
        use_normal_map: f.use_bump_map,
        use_back_space_uv: f.use_back_face_uv2,
        use_ligth_map_color_ao: f.use_light_map_color_ao,
        use_vertex_color_ao: f.use_vertex_color_ao,
        use_materials: [f.use_material2, f.use_material3, f.use_material4, f.use_material5],
        flip_light_map: 0,
        light_area: f.light_area,
        face_map_softness: f.face_map_softness,
        normal_map_scale: f.bump_scale,
        shadow_ramp_values: ShadowRamp {
            width: f.shadow_ramp_width,
            day_mult_colors: [
                Rgba::from(c.first_shadow_mult_color),
                Rgba::from(c.first_shadow_mult_color2),
                Rgba::from(c.first_shadow_mult_color3),
                Rgba::from(c.first_shadow_mult_color4),
                Rgba::from(c.first_shadow_mult_color5),
            ],
            night_mult_colors: [
                Rgba::from(c.cool_shadow_mult_color),
                Rgba::from(c.cool_shadow_mult_color2),
                Rgba::from(c.cool_shadow_mult_color3),
                Rgba::from(c.cool_shadow_mult_color4),
                Rgba::from(c.cool_shadow_mult_color5),
            ],
            transition_ranges: [
                f.shadow_transition_range,
                f.shadow_transition_range2,
                f.shadow_transition_range3,
                f.shadow_transition_range4,
                f.shadow_transition_range5,
            ],
            transition_softness: [
                f.shadow_transition_softness,
                f.shadow_transition_softness2,
                f.shadow_transition_softness3,
                f.shadow_transition_softness4,
                f.shadow_transition_softness5,
            ],
        },
        use_metal_map: f.metal_material,
        metal_map_tile_scale: f.mtmap_tile_scale,
        metal_map_brightness: f.mtmap_brightness,
        metal_map_light_color: Rgba::from(c.mtmap_light_color),
        metal_map_dark_color: Rgba::from(c.mtmap_dark_color),
        metal_map_shadow_multi_color: Rgba::from(c.mtshadow_multi_color),
        metal_map_shininess: f.mtshininess,
        metal_map_sharp_layer_offset: f.mtsharp_layer_offset,
        metal_map_sharp_layer_color: Rgba::from(c.mtsharp_layer_color),
        metal_map_specular_color: Rgba::from(c.mtspecular_color),
        metal_map_specular_atten_in_shadow: f.mtspecular_atten_in_shadow,
        metal_map_specular_scale: f.mtspecular_scale,
        global_specular: MaterialGlobalSpecular {
            shininess: [f.shininess, f.shininess2, f.shininess3, f.shininess4, f.shininess5],
            specular_multi: [
                f.spec_multi,
                f.spec_multi2,
                f.spec_multi3,
                f.spec_multi4,
                f.spec_multi5,
            ],
        },
        specular_color: Rgba::from(c.specular_color),
        hit_color: Rgba::from(c.hit_color),
        use_fresnel: F32_ONE,
        hit_color_fresnel_power: f.hit_color_fresnel_power,
        hit_color_scaler: f.hit_color_scaler,
        rim_light_type: F32_ONE,
        rim_light_intensity: F32_ONE,
        rim_light_thickness: F32_ONE,
    }
}

/// Every slot of every five-slot family of the block is filled from the
/// document, whichever keys it left out: index `n - 1` of the shadow tints, the
/// transition ranges and softnesses, the shininesses and the specular
/// multipliers holds slot `n`, which is zero (or transparent black) for an
/// absent key.
pub proof fn lemma_translation_fills_all_slots(p: CelMaterialProperties, f: MFloats, c: MColors)
    requires
        translation_of(p, f, c),
    ensures
        p.shadow_ramp_values.day_mult_colors@.len() == 5,
        p.shadow_ramp_values.night_mult_colors@.len() == 5,
        p.shadow_ramp_values.transition_ranges@.len() == 5,
        p.shadow_ramp_values.transition_softness@.len() == 5,
        p.global_specular.shininess@.len() == 5,
        p.global_specular.specular_multi@.len() == 5,
        forall|n: int|
            1 <= n <= 5 ==> {
                &&& p.shadow_ramp_values.day_mult_colors@[n - 1] == day_tint_slot(c, n)
                &&& p.shadow_ramp_values.night_mult_colors@[n - 1] == night_tint_slot(c, n)
                &&& p.shadow_ramp_values.transition_ranges@[n - 1] == range_slot(f, n)
                &&& p.shadow_ramp_values.transition_softness@[n - 1] == softness_slot(f, n)
                &&& p.global_specular.shininess@[n - 1] == shininess_slot(f, n)
                &&& p.global_specular.specular_multi@[n - 1] == specular_multi_slot(f, n)
            },
{
    assert forall|n: int| 1 <= n <= 5 implies {
        &&& p.shadow_ramp_values.day_mult_colors@[n - 1] == day_tint_slot(c, n)
        &&& p.shadow_ramp_values.night_mult_colors@[n - 1] == night_tint_slot(c, n)
        &&& p.shadow_ramp_values.transition_ranges@[n - 1] == range_slot(f, n)
        &&& p.shadow_ramp_values.transition_softness@[n - 1] == softness_slot(f, n)
        &&& p.global_specular.shininess@[n - 1] == shininess_slot(f, n)
        &&& p.global_specular.specular_multi@[n - 1] == specular_multi_slot(f, n)
    } by {
        let i = n - 1;
        assert(0 <= i < 5);
        assert(i + 1 == n);
    }
}

/// The transition range and softness of key `_ShadowTransitionRange{n}` and
/// `_ShadowTransitionSoftness{n}` (no suffix for `n = 1`) land at index `n - 1`
/// of the ramp, for each `n` from 1 to 5.
pub proof fn lemma_ramp_positional_mapping(p: CelMaterialProperties, f: MFloats, c: MColors, n: int)
    requires
        translation_of(p, f, c),
        1 <= n <= 5,
    ensures
        p.shadow_ramp_values.transition_ranges@[n - 1] == range_slot(f, n),
        p.shadow_ramp_values.transition_softness@[n - 1] == softness_slot(f, n),
{
    let i = n - 1;
    assert(0 <= i < 5);
    assert(i + 1 == n);
}

/// The fresnel toggle and the three rim-light parameters do not depend on the
/// document: any two translations agree on them, and each is `1.0`.
pub proof fn lemma_overrides_ignore_document(
    p1: CelMaterialProperties,
    f1: MFloats,
    c1: MColors,
    p2: CelMaterialProperties,
    f2: MFloats,
    c2: MColors,
)
    requires
        translation_of(p1, f1, c1),
        translation_of(p2, f2, c2),
    ensures
        p1.use_fresnel == p2.use_fresnel == F32_ONE,
        p1.rim_light_type == p2.rim_light_type == F32_ONE,
        p1.rim_light_intensity == p2.rim_light_intensity == F32_ONE,
        p1.rim_light_thickness == p2.rim_light_thickness == F32_ONE,
{
}

/// A material of the cel shader: up to six textures (each a handle of type
/// `T`), the face flag, which the constructor sets and nothing changes later, the diffuse-only toggle and
/// the shader parameter block.
pub struct CelMaterial<T> {
    pub is_face: bool,
    pub diffuse_only: bool,
    pub diffuse: Option<T>,
    pub face_light_map: Option<T>,
    pub light_map: Option<T>,
    pub shadow_ramp: Option<T>,
    pub normal_map: Option<T>,
    pub metal_map: Option<T>,
    pub properties: CelMaterialProperties,
}

impl<T> CelMaterial<T> {
    /// A body material: diffuse, light map, shadow ramp and metal map are
    /// required; the normal map is optional; there is no face light map.
    pub fn new(
        diffuse: T,
        light_map: T,
        shadow_ramp: T,
        metal_map: T,
        normal_map: Option<T>,
        properties: CelMaterialProperties,
    ) -> (r: Self)
        ensures
            !r.is_face,
            !r.diffuse_only,
            r.diffuse == Some(diffuse),
            r.light_map == Some(light_map),
            r.shadow_ramp == Some(shadow_ramp),
            r.metal_map == Some(metal_map),
            r.normal_map == normal_map,
            r.face_light_map.is_none(),
            r.properties == properties,
    {
        CelMaterial {
            is_face: false,
            diffuse_only: false,
            diffuse: Some(diffuse),
            light_map: Some(light_map),
            metal_map: Some(metal_map),
            shadow_ramp: Some(shadow_ramp),
            face_light_map: None,
            normal_map,
            properties,
        }
    }

    /// A face material: diffuse, face light map, light map and metal map are
    /// required; the shadow ramp is optional; there is no normal map.
    pub fn new_face(
        diffuse: T,
        face_light_map: T,
        light_map: T,
        metal_map: T,
        shadow_ramp: Option<T>,
        properties: CelMaterialProperties,
    ) -> (r: Self)
        ensures
            r.is_face,
            !r.diffuse_only,
            r.diffuse == Some(diffuse),
            r.face_light_map == Some(face_light_map),
            r.light_map == Some(light_map),
            r.metal_map == Some(metal_map),
            r.shadow_ramp == shadow_ramp,
            r.normal_map.is_none(),
            r.properties == properties,
    {
        CelMaterial {
            is_face: true,
            diffuse_only: false,
            diffuse: Some(diffuse),
            face_light_map: Some(face_light_map),
            metal_map: Some(metal_map),
            light_map: Some(light_map),
            shadow_ramp,
            normal_map: None,
            properties,
        }
    }

    /// The material that stands in when nothing better could be built: a face
    /// material with no texture bound and the default parameter block.
    pub fn face_default() -> (r: Self)
        ensures
            r.is_face,
            !r.diffuse_only,
            r.diffuse.is_none(),
            r.face_light_map.is_none(),
            r.light_map.is_none(),
            r.shadow_ramp.is_none(),
            r.normal_map.is_none(),
            r.metal_map.is_none(),
            default_properties(r.properties),
    {
        CelMaterial {
            is_face: true,
            diffuse_only: false,
            diffuse: None,
            face_light_map: None,
            light_map: None,
            shadow_ramp: None,
            normal_map: None,
            metal_map: None,
            properties: CelMaterialProperties::default(),
        }
    }

    /// Points the material at a new facing; nothing else changes.
    pub fn update_head_direction(&mut self, head_direction: Direction)
        ensures
            final(self).properties.head_direction == head_direction,
            final(self).is_face == old(self).is_face,
            final(self).diffuse_only == old(self).diffuse_only,
            final(self).diffuse == old(self).diffuse,
            final(self).face_light_map == old(self).face_light_map,
            final(self).light_map == old(self).light_map,
            final(self).shadow_ramp == old(self).shadow_ramp,
            final(self).normal_map == old(self).normal_map,
            final(self).metal_map == old(self).metal_map,
            final(self).properties == (CelMaterialProperties {
                head_direction,
                ..old(self).properties
            }),
    {
        self.properties.head_direction = head_direction;
    }

    /// Switches between the diffuse-only pass and the full shading; nothing
    /// else changes, the bound textures included.
    pub fn set_diffuse_only(&mut self, diffuse_only: bool)
        ensures
            final(self).diffuse_only == diffuse_only,
            final(self).is_face == old(self).is_face,
            final(self).diffuse == old(self).diffuse,
            final(self).face_light_map == old(self).face_light_map,
            final(self).light_map == old(self).light_map,
            final(self).shadow_ramp == old(self).shadow_ramp,
            final(self).normal_map == old(self).normal_map,
            final(self).metal_map == old(self).metal_map,
            final(self).properties == old(self).properties,
    {
        self.diffuse_only = diffuse_only;
    }

    /// The variant key of the material.
    pub fn key(&self) -> (k: CelMaterialKey)
        ensures
            k == (CelMaterialKey { is_face: self.is_face, diffuse_only: self.diffuse_only }),
    {
        CelMaterialKey { is_face: self.is_face, diffuse_only: self.diffuse_only }
    }
}

/// The flags of a material that choose a shading variant and vertex layout.
#[derive(Clone, Copy, Debug, PartialEq, Eq, Hash, Structural)]
pub struct CelMaterialKey {
    pub is_face: bool,
    pub diffuse_only: bool,
}

impl<'a, T> From<&'a CelMaterial<T>> for CelMaterialKey {
    fn from(material: &'a CelMaterial<T>) -> (k: CelMaterialKey)
        ensures
            k == (CelMaterialKey { is_face: material.is_face, diffuse_only: material.diffuse_only }),
    {
        material.key()
    }
}

impl<'a, T> vstd::std_specs::convert::FromSpecImpl<&'a CelMaterial<T>> for CelMaterialKey {
    open spec fn obeys_from_spec() -> bool {
        true
    }

    open spec fn from_spec(material: &'a CelMaterial<T>) -> CelMaterialKey {
        CelMaterialKey { is_face: material.is_face, diffuse_only: material.diffuse_only }
    }
}

} // verus!
