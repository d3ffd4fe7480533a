use dataset_generator::cel_material::{CelMaterial, F32_ONE};
use dataset_generator::material_loader::{
    find_file, find_texture, is_face_texture, load_cel_material, load_cel_material_fallback,
    load_material_or_fallback, properties_path, resolve_texture, submap_name, submap_naming,
    ResolvedSubmaps, Submap, TextureSource,
};
use dataset_generator::naming::{base_name, contains_str, ends_with_str, same_str, token_prefix_of};
use dataset_generator::properties::MaterialPropertiesRoot;

const BODY: &str = "Avatar_Girl_Bow_Fischl_Tex_Hair_Diffuse";
const FACE: &str = "Avatar_Girl_Tex_Face_Diffuse";

fn names(list: &[&str]) -> Vec<String> {
    list.iter().map(|s| s.to_string()).collect()
}

fn maps(
    face_light_map: Option<u32>,
    light_map: Option<u32>,
    shadow_ramp: Option<u32>,
    metal_map: Option<u32>,
    normal_map: Option<u32>,
) -> ResolvedSubmaps<u32> {
    ResolvedSubmaps { face_light_map, light_map, shadow_ramp, metal_map, normal_map }
}

#[test]
fn string_helpers() {
    assert!(contains_str("Avatar_Tex_Face_Diffuse", "Tex_Face"));
    assert!(!contains_str("Tex_Fac", "Tex_Face"));
    assert!(contains_str("abc", ""));
    assert!(ends_with_str("dir/a.png", "a.png"));
    assert!(!ends_with_str("a.pn", "a.png"));
    assert!(same_str("abc", "abc"));
    assert!(!same_str("abc", "abcd"));
}

#[test]
fn face_marker_classifies_materials() {
    assert!(is_face_texture(FACE));
    assert!(!is_face_texture(BODY));
}

#[test]
fn token_prefix_keeps_leading_tokens() {
    assert_eq!(token_prefix_of("a_b_c", 0), Some(String::new()));
    assert_eq!(token_prefix_of("a_b_c", 1), Some("a".to_string()));
    assert_eq!(token_prefix_of("a_b_c", 2), Some("a_b".to_string()));
    assert_eq!(token_prefix_of("a_b_c", 3), Some("a_b_c".to_string()));
    assert_eq!(token_prefix_of("a_b_c", 4), None);
    assert_eq!(token_prefix_of("a__b", 2), Some("a_".to_string()));
}

#[test]
fn submap_names_follow_the_rules() {
    let (suffix, n) = submap_naming(false, Submap::LightMap).unwrap();
    assert_eq!(submap_name(BODY, n, suffix), Some("Avatar_Girl_Bow_Fischl_Tex_Hair_Lightmap".to_string()));
    let (suffix, n) = submap_naming(false, Submap::MetalMap).unwrap();
    assert_eq!(submap_name(BODY, n, suffix), Some("Avatar_Tex_MetalMap".to_string()));
    let (suffix, n) = submap_naming(true, Submap::FaceLightMap).unwrap();
    assert_eq!(submap_name(FACE, n, suffix), Some("Avatar_Girl_Tex_FaceLightmap".to_string()));
    let (suffix, n) = submap_naming(true, Submap::ShadowRamp).unwrap();
    assert_eq!(n, 5);
    assert_eq!(submap_name(FACE, n, suffix), Some("Avatar_Girl_Tex_Face_Diffuse_Body_Shadow_Ramp".to_string()));
    assert_eq!(submap_naming(true, Submap::NormalMap), None);
    assert_eq!(submap_naming(false, Submap::FaceLightMap), None);
    assert_eq!(submap_name("Short_Name", 6, "Lightmap"), None);
    assert_eq!(submap_name("Short_Name", 0, "Lightmap"), Some("_Lightmap".to_string()));
}

#[test]
fn embedded_lookup_is_by_substring_and_first_match() {
    let list = names(&["Other", "x_Avatar_Tex_MetalMap.png", "Avatar_Tex_MetalMap"]);
    assert_eq!(find_texture(&list, "Avatar_Tex_MetalMap"), Some(1));
    assert_eq!(find_texture(&list, "Missing"), None);
    let files = names(&["Avatar_Tex_MetalMap.png.bak", "Avatar_Tex_MetalMap.png"]);
    assert_eq!(find_file(&files, "Avatar_Tex_MetalMap.png"), Some(1));
}

#[test]
fn resolution_prefers_embedded_then_sibling() {
    let embedded = names(&["Avatar_Tex_MetalMap (embedded)"]);
    let siblings = names(&["Avatar_Tex_MetalMap.png", "Avatar_Girl_Bow_Fischl_Tex_Hair_Lightmap.png"]);
    assert_eq!(resolve_texture(&embedded, &siblings, BODY, 1, "Tex_MetalMap"), TextureSource::Embedded(0));
    assert_eq!(resolve_texture(&embedded, &siblings, BODY, 6, "Lightmap"), TextureSource::Sibling(1));
    assert_eq!(resolve_texture(&embedded, &siblings, BODY, 6, "Shadow_Ramp"), TextureSource::NotFound);
    assert_eq!(resolve_texture(&embedded, &siblings, "Few_Tokens", 6, "Lightmap"), TextureSource::NotFound);
}

#[test]
fn properties_path_uses_the_base_name() {
    assert_eq!(base_name("Avatar_Girl_Mat_Hair.001"), "Avatar_Girl_Mat_Hair".to_string());
    assert_eq!(base_name("NoDot"), "NoDot".to_string());
    assert_eq!(properties_path("Avatar_Girl_Mat_Hair.001", true), "Materials/Avatar_Girl_Mat_Hair.json".to_string());
    assert_eq!(properties_path("Hair", false), "../Materials/Hair.json".to_string());
}

#[test]
fn body_material_needs_its_required_maps() {
    let doc = Some(MaterialPropertiesRoot::default());
    let m = load_cel_material(Some(10), false, maps(None, Some(1), Some(2), Some(3), None), doc.clone()).unwrap();
    assert!(!m.is_face);
    assert_eq!((m.diffuse, m.light_map, m.shadow_ramp, m.metal_map, m.normal_map), (Some(10), Some(1), Some(2), Some(3), None));
    assert_eq!(m.properties.use_fresnel, F32_ONE);
    let m = load_cel_material(Some(10), false, maps(Some(9), Some(1), Some(2), Some(3), Some(4)), doc.clone()).unwrap();
    assert_eq!(m.normal_map, Some(4));
    assert_eq!(m.face_light_map, None);
    assert!(load_cel_material(Some(10), false, maps(None, Some(1), None, Some(3), Some(4)), doc.clone()).is_none());
    assert!(load_cel_material(None, false, maps(None, Some(1), Some(2), Some(3), None), doc.clone()).is_none());
    assert!(load_cel_material(Some(10), false, maps(None, Some(1), Some(2), Some(3), None), None).is_none());
}

#[test]
fn face_material_needs_its_required_maps() {
    let doc = Some(MaterialPropertiesRoot::default());
    let m = load_cel_material(Some(10), true, maps(Some(5), Some(1), Some(2), Some(3), Some(4)), doc.clone()).unwrap();
    assert!(m.is_face);
    assert_eq!((m.face_light_map, m.light_map, m.shadow_ramp, m.metal_map, m.normal_map), (Some(5), Some(1), Some(2), Some(3), None));
    assert!(load_cel_material(Some(10), true, maps(None, Some(1), Some(2), Some(3), None), doc.clone()).is_none());
    assert!(load_cel_material(Some(10), true, maps(Some(5), Some(1), None, Some(3), None), doc).is_none());
}

#[test]
fn fallback_is_a_blank_face_material() {
    let m: CelMaterial<u32> = load_cel_material_fallback();
    assert!(m.is_face && !m.diffuse_only);
    assert_eq!((m.diffuse, m.face_light_map, m.light_map, m.shadow_ramp, m.normal_map, m.metal_map), (None, None, None, None, None, None));
    assert_eq!(m.properties.use_fresnel, 0);
    assert_eq!(m.properties.shadow_ramp_values.width, F32_ONE);
}

#[test]
fn every_material_gets_something_renderable() {
    let m = load_material_or_fallback(None, false, maps(None, Some(1), Some(2), Some(3), None), Some(MaterialPropertiesRoot::default()));
    assert!(m.is_face && m.diffuse.is_none() && m.light_map.is_none());
    let m = load_material_or_fallback(Some(7), false, maps(None, Some(1), Some(2), None, None), Some(MaterialPropertiesRoot::default()));
    assert!(m.is_face && m.diffuse.is_none());
    let m = load_material_or_fallback(Some(7), false, maps(None, Some(1), Some(2), Some(3), None), Some(MaterialPropertiesRoot::default()));
    assert!(!m.is_face && m.diffuse == Some(7) && m.metal_map == Some(3));
}
