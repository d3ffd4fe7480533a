use dataset_generator::cel_material::{
    translate, CelMaterial, CelMaterialKey, CelMaterialProperties, Direction, Rgba, ShadowRamp, Vector3,
    DEFAULT_TINT_BLUE, DEFAULT_TINT_GREEN, DEFAULT_TINT_RED, DEFAULT_TRANSITION_RANGE,
    DEFAULT_TRANSITION_SOFTNESS, F32_MINUS_ONE, F32_ONE,
};
use dataset_generator::properties::{Color, MaterialPropertiesRoot};

fn bits(x: f32) -> u32 {
    x.to_bits()
}

fn color(r: f32, g: f32, b: f32, a: f32) -> Color {
    Color { r: bits(r), g: bits(g), b: bits(b), a: bits(a) }
}

#[test]
fn float_constants_match_their_values() {
    assert_eq!(f32::from_bits(F32_ONE), 1.0);
    assert_eq!(f32::from_bits(F32_MINUS_ONE), -1.0);
    assert_eq!(f32::from_bits(DEFAULT_TRANSITION_RANGE), 0.01);
    assert_eq!(f32::from_bits(DEFAULT_TRANSITION_SOFTNESS), 0.5);
    assert_eq!(f32::from_bits(DEFAULT_TINT_RED), 0.9);
    assert_eq!(f32::from_bits(DEFAULT_TINT_GREEN), 0.7);
    assert_eq!(f32::from_bits(DEFAULT_TINT_BLUE), 0.75);
}

#[test]
fn empty_document_fills_every_slot_with_defaults() {
    let p = translate(&MaterialPropertiesRoot::default());
    let ramp = p.shadow_ramp_values;
    let transparent = Rgba { r: 0, g: 0, b: 0, a: 0 };
    for i in 0..5 {
        assert_eq!(ramp.transition_ranges[i], 0);
        assert_eq!(ramp.transition_softness[i], 0);
        assert_eq!(ramp.day_mult_colors[i], transparent);
        assert_eq!(ramp.night_mult_colors[i], transparent);
        assert_eq!(p.global_specular.shininess[i], 0);
        assert_eq!(p.global_specular.specular_multi[i], 0);
    }
    assert_eq!(ramp.width, 0);
    assert_eq!(p.use_fresnel, F32_ONE);
    assert_eq!(p.rim_light_type, F32_ONE);
    assert_eq!(p.rim_light_intensity, F32_ONE);
    assert_eq!(p.rim_light_thickness, F32_ONE);
    assert_eq!(p.day_night_cycle, 0);
    assert_eq!(p.flip_light_map, 0);
    assert_eq!(p.head_direction, Direction::default());
}

#[test]
fn partial_document_keeps_given_keys_and_zeroes_the_rest() {
    let mut doc = MaterialPropertiesRoot::default();
    doc.m_saved_properties.m_floats.shadow_transition_range3 = bits(0.25);
    doc.m_saved_properties.m_floats.shininess5 = bits(12.0);
    doc.m_saved_properties.m_colors.cool_shadow_mult_color2 = color(0.1, 0.2, 0.3, 1.0);
    let p = translate(&doc);
    assert_eq!(p.shadow_ramp_values.transition_ranges, [0, 0, bits(0.25), 0, 0]);
    assert_eq!(p.global_specular.shininess, [0, 0, 0, 0, bits(12.0)]);
    assert_eq!(
        p.shadow_ramp_values.night_mult_colors[1],
        Rgba { r: bits(0.1), g: bits(0.2), b: bits(0.3), a: bits(1.0) }
    );
    assert_eq!(p.shadow_ramp_values.night_mult_colors[0], Rgba { r: 0, g: 0, b: 0, a: 0 });
}

#[test]
fn ramp_slots_land_at_their_positions() {
    let mut doc = MaterialPropertiesRoot::default();
    let f = &mut doc.m_saved_properties.m_floats;
    f.shadow_transition_range = bits(0.11);
    f.shadow_transition_range2 = bits(0.22);
    f.shadow_transition_range3 = bits(0.33);
    f.shadow_transition_range4 = bits(0.44);
    f.shadow_transition_range5 = bits(0.55);
    f.shadow_transition_softness = bits(1.1);
    f.shadow_transition_softness2 = bits(2.2);
    f.shadow_transition_softness3 = bits(3.3);
    f.shadow_transition_softness4 = bits(4.4);
    f.shadow_transition_softness5 = bits(5.5);
    let p = translate(&doc);
    assert_eq!(
        p.shadow_ramp_values.transition_ranges,
        [bits(0.11), bits(0.22), bits(0.33), bits(0.44), bits(0.55)]
    );
    assert_eq!(
        p.shadow_ramp_values.transition_softness,
        [bits(1.1), bits(2.2), bits(3.3), bits(4.4), bits(5.5)]
    );
}

#[test]
fn tint_and_specular_slots_land_at_their_positions() {
    let mut doc = MaterialPropertiesRoot::default();
    let c = &mut doc.m_saved_properties.m_colors;
    c.first_shadow_mult_color = color(0.1, 0.0, 0.0, 1.0);
    c.first_shadow_mult_color5 = color(0.5, 0.0, 0.0, 1.0);
    c.cool_shadow_mult_color4 = color(0.0, 0.4, 0.0, 1.0);
    let f = &mut doc.m_saved_properties.m_floats;
    f.spec_multi = bits(1.0);
    f.spec_multi2 = bits(2.0);
    f.shininess3 = bits(3.0);
    f.shadow_ramp_width = bits(0.8);
    let p = translate(&doc);
    assert_eq!(p.shadow_ramp_values.day_mult_colors[0].r, bits(0.1));
    assert_eq!(p.shadow_ramp_values.day_mult_colors[4].r, bits(0.5));
    assert_eq!(p.shadow_ramp_values.night_mult_colors[3].g, bits(0.4));
    assert_eq!(p.global_specular.specular_multi, [bits(1.0), bits(2.0), 0, 0, 0]);
    assert_eq!(p.global_specular.shininess, [0, 0, bits(3.0), 0, 0]);
    assert_eq!(p.shadow_ramp_values.width, bits(0.8));
}

#[test]
fn fresnel_and_rim_toggles_ignore_the_document() {
    let a = MaterialPropertiesRoot::default();
    let mut b = MaterialPropertiesRoot::default();
    b.m_saved_properties.m_floats.hit_color_fresnel_power = bits(7.0);
    b.m_saved_properties.m_floats.use_shadow_ramp = bits(1.0);
    b.m_saved_properties.m_colors.element_rim_color = color(0.3, 0.3, 0.3, 0.3);
    let pa = translate(&a);
    let pb = translate(&b);
    assert_eq!(pa.use_fresnel, pb.use_fresnel);
    assert_eq!(pa.rim_light_type, pb.rim_light_type);
    assert_eq!(pa.rim_light_intensity, pb.rim_light_intensity);
    assert_eq!(pa.rim_light_thickness, pb.rim_light_thickness);
    assert_eq!(pb.use_fresnel, bits(1.0));
    assert_eq!(pb.rim_light_thickness, bits(1.0));
    assert_eq!(pb.hit_color_fresnel_power, bits(7.0));
}

#[test]
fn colours_and_toggles_map_one_to_one() {
    let mut doc = MaterialPropertiesRoot::default();
    let f = &mut doc.m_saved_properties.m_floats;
    f.use_material2 = bits(2.0);
    f.use_material3 = bits(3.0);
    f.use_material4 = bits(4.0);
    f.use_material5 = bits(5.0);
    f.bump_scale = bits(0.6);
    f.use_bump_map = bits(1.0);
    f.metal_material = bits(1.0);
    f.mtshininess = bits(90.0);
    f.use_face_map_new = bits(1.0);
    let c = &mut doc.m_saved_properties.m_colors;
    c.specular_color = color(0.2, 0.4, 0.6, 0.8);
    c.mtmap_dark_color = color(0.05, 0.1, 0.15, 1.0);
    let p = translate(&doc);
    assert_eq!(p.use_materials, [bits(2.0), bits(3.0), bits(4.0), bits(5.0)]);
    assert_eq!(p.normal_map_scale, bits(0.6));
    assert_eq!(p.use_normal_map, bits(1.0));
    assert_eq!(p.use_metal_map, bits(1.0));
    assert_eq!(p.metal_map_shininess, bits(90.0));
    assert_eq!(p.flip_light_map, 0);
    assert_eq!(p.specular_color, Rgba { r: bits(0.2), g: bits(0.4), b: bits(0.6), a: bits(0.8) });
    assert_eq!(
        p.metal_map_dark_color,
        Rgba { r: bits(0.05), g: bits(0.1), b: bits(0.15), a: bits(1.0) }
    );
}

#[test]
fn colour_conversion_keeps_components() {
    let c = color(0.25, 0.5, 0.75, 1.0);
    let r = Rgba::from(c);
    assert_eq!(r, Rgba { r: bits(0.25), g: bits(0.5), b: bits(0.75), a: bits(1.0) });
}

#[test]
fn default_block_and_ramp_hold_the_documented_values() {
    let ramp = ShadowRamp::default();
    let tint = Rgba { r: bits(0.9), g: bits(0.7), b: bits(0.75), a: bits(1.0) };
    assert_eq!(ramp.width, bits(1.0));
    assert_eq!(ramp.day_mult_colors, [tint; 5]);
    assert_eq!(ramp.night_mult_colors, [tint; 5]);
    assert_eq!(ramp.transition_ranges, [bits(0.01); 5]);
    assert_eq!(ramp.transition_softness, [bits(0.5); 5]);
    let p = CelMaterialProperties::default();
    let white = Rgba { r: bits(1.0), g: bits(1.0), b: bits(1.0), a: bits(1.0) };
    assert_eq!(p.hit_color, white);
    assert_eq!(p.use_fresnel, 0);
    let d = Direction::default();
    assert_eq!(d.forward, Vector3 { x: 0, y: 0, z: bits(1.0) });
    assert_eq!(d.right, Vector3 { x: bits(-1.0), y: 0, z: 0 });
}

#[test]
fn head_direction_update_changes_only_the_direction() {
    let doc = MaterialPropertiesRoot::default();
    let mut m: CelMaterial<u32> = CelMaterial::new(1, 2, 3, 4, None, translate(&doc));
    let d = Direction::new(
        Vector3 { x: bits(1.0), y: 0, z: 0 },
        Vector3 { x: 0, y: 0, z: bits(1.0) },
    );
    m.update_head_direction(d);
    assert_eq!(m.properties.head_direction, d);
    assert_eq!(m.properties.use_fresnel, bits(1.0));
    assert_eq!(m.diffuse, Some(1));
    assert!(!m.is_face);
    m.set_diffuse_only(true);
    assert!(m.diffuse_only);
    assert_eq!(m.metal_map, Some(4));
    let k = m.key();
    assert!(k.diffuse_only && !k.is_face);
    assert_eq!(CelMaterialKey::from(&m), k);
    let face: CelMaterial<u32> = CelMaterial::new_face(1, 2, 3, 4, None, translate(&doc));
    assert_eq!(CelMaterialKey::from(&face), CelMaterialKey { is_face: true, diffuse_only: false });
}
