//! The material-property document of the external authoring tool: scalars
//! and colours by name.

use vstd::prelude::*;

verus! {

/// The whole material-property document of one material.
#[derive(Clone, Debug, Default, PartialEq, Eq)]
pub struct MaterialPropertiesRoot {
    /// `m_Shader`
    pub m_shader: MShader,
    /// `m_SavedProperties`
    pub m_saved_properties: MSavedProperties,
    /// `m_StringTagMap`
    pub m_string_tag_map: MStringTagMap,
    /// `m_Name`
    pub m_name: String,
}

/// Reference to the shader asset that the document was authored for.
#[derive(Clone, Copy, Debug, Default, PartialEq, Eq, Structural)]
pub struct MShader {
    /// `m_FileID`
    pub m_file_id: i64,
    /// `m_PathID`
    pub m_path_id: i64,
    /// `IsNull`
    pub is_null: bool,
}

/// The saved numeric properties: scalars and colours, keyed by name.
#[derive(Clone, Copy, Debug, Default, PartialEq, Eq, Structural)]
pub struct MSavedProperties {
    /// `m_Floats`
    pub m_floats: MFloats,
    /// `m_Colors`
    pub m_colors: MColors,
}

/// The texture slots of the document; none of them feeds the parameter block.
#[derive(Clone, Copy, Debug, Default, PartialEq, Eq, Structural)]
pub struct MTexEnvs {
    /// `_AnimTextureQ`
    pub anim_texture_q: Texture,
    /// `_AnimTextureT`
    pub anim_texture_t: Texture,
    /// `_ClipAlphaTex`
    pub clip_alpha_tex: Texture,
    /// `_FaceMapTex`
    pub face_map_tex: Texture,
    /// `_LightMapTex`
    pub light_map_tex: Texture,
    /// `_MTMap`
    pub mtmap: Texture,
    /// `_MTSpecularRamp`
    pub mtspecular_ramp: Texture,
    /// `_MainTex`
    pub main_tex: Texture,
    /// `_MaterialMasksTex`
    pub material_masks_tex: Texture,
    /// `_PackedShadowRampTex`
    pub packed_shadow_ramp_tex: Texture,
}

/// One texture slot: the file it refers to and its tiling.
#[derive(Clone, Copy, Debug, Default, PartialEq, Eq, Structural)]
pub struct Texture {
    /// `m_Texture`
    pub m_texture: TextureFile,
    /// `m_Scale`
    pub m_scale: Vec2,
    /// `m_Offset`
    pub m_offset: Vec2,
}

/// Reference to a texture file of the authoring tool.
#[derive(Clone, Copy, Debug, Default, PartialEq, Eq, Structural)]
pub struct TextureFile {
    /// `m_FileID`
    pub m_file_id: i64,
    /// `m_PathID`
    pub m_path_id: i64,
    /// `IsNull`
    pub is_null: bool,
}

/// A pair of scalars, each held as the bit pattern of a 32-bit float.
#[derive(Clone, Copy, Debug, Default, PartialEq, Eq, Structural)]
pub struct Vec2 {
    /// `X`
    pub x: u32,
    /// `Y`
    pub y: u32,
}

/// The named scalar properties, each held as the bit pattern of a 32-bit float.
/// A key absent from the document leaves its field at zero, the bit pattern of `0.0`.
#[derive(Clone, Copy, Debug, Default, PartialEq, Eq, Structural)]
pub struct MFloats {
    /// `_AnimBoneOffset`
    pub anim_bone_offset: u32,
    /// `_AnimFPS`
    pub anim_fps: u32,
    /// `_BumpScale`
    pub bump_scale: u32,
    /// `_CharacterAmbientSensorColorOn`
    pub character_ambient_sensor_color_on: u32,
    /// `_CharacterAmbientSensorForceShadowOn`
    pub character_ambient_sensor_force_shadow_on: u32,
    /// `_CharacterAmbientSensorShadowOn`
    pub character_ambient_sensor_shadow_on: u32,
    /// `_ClipAlphaHighLightScale`
    pub clip_alpha_high_light_scale: u32,
    /// `_ClipAlphaThreshold`
    pub clip_alpha_threshold: u32,
    /// `_ClipAlphaUVSet`
    pub clip_alpha_uvset: u32,
    /// `_ClipBoxHighLightScale`
    pub clip_box_high_light_scale: u32,
    /// `_ClipDissolveDirection`
    pub clip_dissolve_direction: u32,
    /// `_ClipDissolveHightlightScale`
    pub clip_dissolve_hightlight_scale: u32,
    /// `_ClipDissolveValue`
    pub clip_dissolve_value: u32,
    /// `_ClipMethod`
    pub clip_method: u32,
    /// `_ClipPlaneWorld`
    pub clip_plane_world: u32,
    /// `_CullMode`
    pub cull_mode: u32,
    /// `_DitherAlpha`
    pub dither_alpha: u32,
    /// `_DrawBackFace`
    pub draw_back_face: u32,
    /// `_ElementViewEleID`
    pub element_view_ele_id: u32,
    /// `_EmissionScaler`
    pub emission_scaler: u32,
    /// `_EmissionScaler1`
    pub emission_scaler1: u32,
    /// `_EmissionScaler2`
    pub emission_scaler2: u32,
    /// `_EmissionScaler3`
    pub emission_scaler3: u32,
    /// `_EmissionScaler4`
    pub emission_scaler4: u32,
    /// `_EmissionScaler5`
    pub emission_scaler5: u32,
    /// `_EmissionStrengthLerp`
    pub emission_strength_lerp: u32,
    /// `_FaceBlushStrength`
    pub face_blush_strength: u32,
    /// `_FaceMapRotateOffset`
    pub face_map_rotate_offset: u32,
    /// `_FaceMapSoftness`
    pub face_map_softness: u32,
    /// `_HitColorFresnelPower`
    pub hit_color_fresnel_power: u32,
    /// `_HitColorScaler`
    pub hit_color_scaler: u32,
    /// `_InstanceData`
    pub instance_data: u32,
    /// `_LightArea`
    pub light_area: u32,
    /// `_MTMapBrightness`
    pub mtmap_brightness: u32,
    /// `_MTMapTileScale`
    pub mtmap_tile_scale: u32,
    /// `_MTSharpLayerOffset`
    pub mtsharp_layer_offset: u32,
    /// `_MTShininess`
    pub mtshininess: u32,
    /// `_MTSpecularAttenInShadow`
    pub mtspecular_atten_in_shadow: u32,
    /// `_MTSpecularScale`
    pub mtspecular_scale: u32,
    /// `_MTUseSpecularRamp`
    pub mtuse_specular_ramp: u32,
    /// `_MainTexAlphaCutoff`
    pub main_tex_alpha_cutoff: u32,
    /// `_MainTexAlphaUse`
    pub main_tex_alpha_use: u32,
    /// `_MainTexColoring`
    pub main_tex_coloring: u32,
    /// `_MaxOutlineZOffset`
    pub max_outline_zoffset: u32,
    /// `_MetalMaterial`
    pub metal_material: u32,
    /// `_OutlinePolygonOffsetFactor`
    pub outline_polygon_offset_factor: u32,
    /// `_OutlinePolygonOffsetUnit`
    pub outline_polygon_offset_unit: u32,
    /// `_OutlineType`
    pub outline_type: u32,
    /// `_OutlineWidth`
    pub outline_width: u32,
    /// `_PolygonOffsetFactor`
    pub polygon_offset_factor: u32,
    /// `_PolygonOffsetUnit`
    pub polygon_offset_unit: u32,
    /// `_Scale`
    pub scale: u32,
    /// `_ShadowRampWidth`
    pub shadow_ramp_width: u32,
    /// `_ShadowTransitionRange`
    pub shadow_transition_range: u32,
    /// `_ShadowTransitionRange2`
    pub shadow_transition_range2: u32,
    /// `_ShadowTransitionRange3`
    pub shadow_transition_range3: u32,
    /// `_ShadowTransitionRange4`
    pub shadow_transition_range4: u32,
    /// `_ShadowTransitionRange5`
    pub shadow_transition_range5: u32,
    /// `_ShadowTransitionSoftness`
    pub shadow_transition_softness: u32,
    /// `_ShadowTransitionSoftness2`
    pub shadow_transition_softness2: u32,
    /// `_ShadowTransitionSoftness3`
    pub shadow_transition_softness3: u32,
    /// `_ShadowTransitionSoftness4`
    pub shadow_transition_softness4: u32,
    /// `_ShadowTransitionSoftness5`
    pub shadow_transition_softness5: u32,
    /// `_Shininess`
    pub shininess: u32,
    /// `_Shininess2`
    pub shininess2: u32,
    /// `_Shininess3`
    pub shininess3: u32,
    /// `_Shininess4`
    pub shininess4: u32,
    /// `_Shininess5`
    pub shininess5: u32,
    /// `_SpecMulti`
    pub spec_multi: u32,
    /// `_SpecMulti2`
    pub spec_multi2: u32,
    /// `_SpecMulti3`
    pub spec_multi3: u32,
    /// `_SpecMulti4`
    pub spec_multi4: u32,
    /// `_SpecMulti5`
    pub spec_multi5: u32,
    /// `_TessEdgeLength`
    pub tess_edge_length: u32,
    /// `_TessOutlineZOffset`
    pub tess_outline_zoffset: u32,
    /// `_TessPidStart`
    pub tess_pid_start: u32,
    /// `_TessStrength`
    pub tess_strength: u32,
    /// `_TessType`
    pub tess_type: u32,
    /// `_TessellationCheckInflectionOn`
    pub tessellation_check_inflection_on: u32,
    /// `_TessellationOn`
    pub tessellation_on: u32,
    /// `_TextureBiasWhenDithering`
    pub texture_bias_when_dithering: u32,
    /// `_TextureLineSmoothness`
    pub texture_line_smoothness: u32,
    /// `_TextureLineThickness`
    pub texture_line_thickness: u32,
    /// `_UseBackFaceUV2`
    pub use_back_face_uv2: u32,
    /// `_UseBumpMap`
    pub use_bump_map: u32,
    /// `_UseClipPlane`
    pub use_clip_plane: u32,
    /// `_UseClipping`
    pub use_clipping: u32,
    /// `_UseCoolShadowColorOrTex`
    pub use_cool_shadow_color_or_tex: u32,
    /// `_UseFaceMapNew`
    pub use_face_map_new: u32,
    /// `_UseLightMapColorAO`
    pub use_light_map_color_ao: u32,
    /// `_UseMaterial2`
    pub use_material2: u32,
    /// `_UseMaterial3`
    pub use_material3: u32,
    /// `_UseMaterial4`
    pub use_material4: u32,
    /// `_UseMaterial5`
    pub use_material5: u32,
    /// `_UseMaterialMasksTex`
    pub use_material_masks_tex: u32,
    /// `_UseShadowRamp`
    pub use_shadow_ramp: u32,
    /// `_UseShadowTransition`
    pub use_shadow_transition: u32,
    /// `_UseToonLightMap`
    pub use_toon_light_map: u32,
    /// `_UseToonSpecular`
    pub use_toon_specular: u32,
    /// `_UseVertexColorAO`
    pub use_vertex_color_ao: u32,
    /// `_UseVertexRampWidth`
    pub use_vertex_ramp_width: u32,
    /// `_UsingDitherAlpha`
    pub using_dither_alpha: u32,
    /// `_UtilityDisplay1`
    pub utility_display1: u32,
    /// `_UtilityDisplay2`
    pub utility_display2: u32,
}

/// The named colour properties. A key absent from the document leaves its
/// field transparent black.
#[derive(Clone, Copy, Debug, Default, PartialEq, Eq, Structural)]
pub struct MColors {
    /// `_ClipBoxPositionOffset`
    pub clip_box_position_offset: Color,
    /// `_ClipBoxScale`
    pub clip_box_scale: Color,
    /// `_ClipHighLightColor`
    pub clip_high_light_color: Color,
    /// `_ClipPlane`
    pub clip_plane: Color,
    /// `_Color`
    pub color: Color,
    /// `_Color2`
    pub color2: Color,
    /// `_Color3`
    pub color3: Color,
    /// `_Color4`
    pub color4: Color,
    /// `_Color5`
    pub color5: Color,
    /// `_CoolShadowMultColor`
    pub cool_shadow_mult_color: Color,
    /// `_CoolShadowMultColor2`
    pub cool_shadow_mult_color2: Color,
    /// `_CoolShadowMultColor3`
    pub cool_shadow_mult_color3: Color,
    /// `_CoolShadowMultColor4`
    pub cool_shadow_mult_color4: Color,
    /// `_CoolShadowMultColor5`
    pub cool_shadow_mult_color5: Color,
    /// `_ElementRimColor`
    pub element_rim_color: Color,
    /// `_EmissionColor_MHY`
    pub emission_color_mhy: Color,
    /// `_FaceBlushColor`
    pub face_blush_color: Color,
    /// `_FirstShadowMultColor`
    pub first_shadow_mult_color: Color,
    /// `_FirstShadowMultColor2`
    pub first_shadow_mult_color2: Color,
    /// `_FirstShadowMultColor3`
    pub first_shadow_mult_color3: Color,
    /// `_FirstShadowMultColor4`
    pub first_shadow_mult_color4: Color,
    /// `_FirstShadowMultColor5`
    pub first_shadow_mult_color5: Color,
    /// `_HitColor`
    pub hit_color: Color,
    /// `_MTMapDarkColor`
    pub mtmap_dark_color: Color,
    /// `_MTMapLightColor`
    pub mtmap_light_color: Color,
    /// `_MTShadowMultiColor`
    pub mtshadow_multi_color: Color,
    /// `_MTSharpLayerColor`
    pub mtsharp_layer_color: Color,
    /// `_MTSpecularColor`
    pub mtspecular_color: Color,
    /// `_MainTexTintColor`
    pub main_tex_tint_color: Color,
    /// `_OutlineColor`
    pub outline_color: Color,
    /// `_OutlineColor2`
    pub outline_color2: Color,
    /// `_OutlineColor3`
    pub outline_color3: Color,
    /// `_OutlineColor4`
    pub outline_color4: Color,
    /// `_OutlineColor5`
    pub outline_color5: Color,
    /// `_OutlineWidthAdjustScales`
    pub outline_width_adjust_scales: Color,
    /// `_OutlineWidthAdjustZs`
    pub outline_width_adjust_zs: Color,
    /// `_SingleColorOutputColor`
    pub single_color_output_color: Color,
    /// `_SpecularColor`
    pub specular_color: Color,
    /// `_TextureLineDistanceControl`
    pub texture_line_distance_control: Color,
    /// `_TextureLineMultiplier`
    pub texture_line_multiplier: Color,
}

/// A colour with components in `[0, 1]`, each held as the bit pattern of a
/// 32-bit float.
#[derive(Clone, Copy, Debug, Default, PartialEq, Eq, Structural)]
pub struct Color {
    /// `r`
    pub r: u32,
    /// `g`
    pub g: u32,
    /// `b`
    pub b: u32,
    /// `a`
    pub a: u32,
}

/// The string tags of the document; this system reads none.
#[derive(Clone, Copy, Debug, Default, PartialEq, Eq, Structural)]
pub struct MStringTagMap {}

} // verus!
