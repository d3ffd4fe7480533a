//! Submap naming and lookup, and the construction of a material from what
//! was found, with the fallback that always succeeds.

use vstd::prelude::*;
use vstd::string::*;
use crate::cel_material::{default_properties, translate, translation_of, CelMaterial};
use crate::naming::{
    base_name, before_first_dot, contains_str, is_substring, same_str, token_prefix,
    token_prefix_of, underscores,
};
use crate::properties::MaterialPropertiesRoot;

verus! {

/// The secondary textures of a material, each found from the diffuse texture's
/// name by a naming rule.
#[derive(Clone, Copy, Debug, PartialEq, Eq, Structural)]
pub enum Submap {
    FaceLightMap,
    LightMap,
    ShadowRamp,
    MetalMap,
    NormalMap,
}

/// The suffix that names `map` for a face or a body material, and the number
/// of leading tokens of the diffuse name it follows; `None` where that kind of
/// material has no such map.
pub open spec fn submap_rule(is_face: bool, map: Submap) -> Option<(Seq<char>, nat)> {
    if is_face {
        match map {
            Submap::FaceLightMap => Some(("Tex_FaceLightmap"@, 2)),
            Submap::LightMap => Some(("Tex_Face_Shadow"@, 1)),
            Submap::MetalMap => Some(("Tex_MetalMap"@, 1)),
            Submap::ShadowRamp => Some(("Body_Shadow_Ramp"@, 5)),
            Submap::NormalMap => None,
        }
    } else {
        match map {
            Submap::LightMap => Some(("Lightmap"@, 6)),
            Submap::ShadowRamp => Some(("Shadow_Ramp"@, 6)),
            Submap::MetalMap => Some(("Tex_MetalMap"@, 1)),
            Submap::NormalMap => Some(("Normalmap"@, 6)),
            Submap::FaceLightMap => None,
        }
    }
}

/// The naming rule of `map` for a face or a body material.
pub fn submap_naming(is_face: bool, map: Submap) -> (r: Option<(&'static str, usize)>)
    ensures
        r matches Some(p) ==> submap_rule(is_face, map) == Some((p.0@, p.1 as nat)),
        r is None <==> submap_rule(is_face, map) is None,
{
    if is_face {
        match map {
            Submap::FaceLightMap => Some(("Tex_FaceLightmap", 2)),
            Submap::LightMap => Some(("Tex_Face_Shadow", 1)),
            Submap::MetalMap => Some(("Tex_MetalMap", 1)),
            Submap::ShadowRamp => Some(("Body_Shadow_Ramp", 5)),
            Submap::NormalMap => None,
        }
    } else {
        match map {
            Submap::LightMap => Some(("Lightmap", 6)),
            Submap::ShadowRamp => Some(("Shadow_Ramp", 6)),
            Submap::MetalMap => Some(("Tex_MetalMap", 1)),
            Submap::NormalMap => Some(("Normalmap", 6)),
            Submap::FaceLightMap => None,
        }
    }
}

/// Whether a diffuse texture of this name belongs to a face material.
pub fn is_face_texture(diffuse_name: &str) -> (r: bool)
    ensures
        r == is_substring("Tex_Face"@, diffuse_name@),
{
    contains_str(diffuse_name, "Tex_Face")
}

/// The canonical name of a submap: the first `truncate` tokens of the diffuse
/// name, an underscore, then the suffix.
pub open spec fn canonical_name(diffuse_name: Seq<char>, truncate: nat, suffix: Seq<char>) -> Seq<
    char,
> {
    token_prefix(diffuse_name, truncate) + seq!['_'] + suffix
}

/// The canonical name of a submap; `None` where the diffuse name has fewer
/// than `truncate` tokens.
pub fn submap_name(diffuse_name: &str, truncate: usize, suffix: &str) -> (r: Option<String>)
    ensures
        r is None <==> truncate > underscores(diffuse_name@) + 1,
        r matches Some(n) ==> n@ == canonical_name(diffuse_name@, truncate as nat, suffix@),
{
    match token_prefix_of(diffuse_name, truncate) {
        None => None,
        Some(prefix) => {
            let mut name = prefix;
            proof {
                reveal_strlit("_");
            }
            name.append("_");
            name.append(suffix);
            Some(name)
        },
    }
}

/// `i` is the first of `names` that contains `needle`.
pub open spec fn first_containing(names: Seq<String>, needle: Seq<char>, i: int) -> bool {
    &&& 0 <= i < names.len()
    &&& is_substring(needle, names[i]@)
    &&& forall|j: int| 0 <= j < i ==> !is_substring(needle, #[trigger] names[j]@)
}

/// None of `names` contains `needle`.
pub open spec fn none_containing(names: Seq<String>, needle: Seq<char>) -> bool {
    forall|j: int| 0 <= j < names.len() ==> !is_substring(needle, #[trigger] names[j]@)
}

/// `i` is the first of `names` that equals `name`.
pub open spec fn first_equal(names: Seq<String>, name: Seq<char>, i: int) -> bool {
    &&& 0 <= i < names.len()
    &&& names[i]@ == name
    &&& forall|j: int| 0 <= j < i ==> #[trigger] names[j]@ != name
}

/// None of `names` equals `name`.
pub open spec fn none_equal(names: Seq<String>, name: Seq<char>) -> bool {
    forall|j: int| 0 <= j < names.len() ==> #[trigger] names[j]@ != name
}

/// The first of the embedded texture names that contains `name`.
pub fn find_texture(names: &Vec<String>, name: &str) -> (r: Option<usize>)
    ensures
        r matches Some(i) ==> first_containing(names@, name@, i as int),
        r is None ==> none_containing(names@, name@),
{
    let mut i: usize = 0;
    while i < names.len()
        invariant
            i <= names@.len(),
            forall|j: int| 0 <= j < i ==> !is_substring(name@, #[trigger] names@[j]@),
        decreases names@.len() - i,
    {
        if contains_str(names[i].as_str(), name) {
            return Some(i);
        }
        i = i + 1;
    }
    None
}

/// The first of the file names that equals `name`.
pub fn find_file(files: &Vec<String>, name: &str) -> (r: Option<usize>)
    ensures
        r matches Some(i) ==> first_equal(files@, name@, i as int),
        r is None ==> none_equal(files@, name@),
{
    let mut i: usize = 0;
    while i < files.len()
        invariant
            i <= files@.len(),
            forall|j: int| 0 <= j < i ==> #[trigger] files@[j]@ != name@,
        decreases files@.len() - i,
    {
        if same_str(files[i].as_str(), name) {
            return Some(i);
        }
        i = i + 1;
    }
    None
}

/// Where a submap texture was found.
#[derive(Clone, Copy, Debug, PartialEq, Eq, Structural)]
pub enum TextureSource {
    /// Among the textures embedded in the scene, at this index.
    Embedded(usize),
    /// Among the files beside the scene, at this index.
    Sibling(usize),
    NotFound,
}

/// The outcome of looking up the texture named `canonical`: the first embedded
/// texture whose name contains it; else the first sibling file named
/// `canonical` followed by `.png`; else not found.
pub open spec fn resolution(
    r: TextureSource,
    embedded: Seq<String>,
    siblings: Seq<String>,
    canonical: Seq<char>,
) -> bool {
    match r {
        TextureSource::Embedded(i) => first_containing(embedded, canonical, i as int),
        TextureSource::Sibling(j) => none_containing(embedded, canonical) && first_equal(
            siblings,
            canonical + ".png"@,
            j as int,
        ),
        TextureSource::NotFound => none_containing(embedded, canonical) && none_equal(
            siblings,
            canonical + ".png"@,
        ),
    }
}

/// Looks up the submap with suffix `suffix` that follows the first `truncate`
/// tokens of `diffuse_name`, first among the embedded texture names, then
/// among the sibling file names. A diffuse name with fewer than `truncate`
/// tokens names no submap.
pub fn resolve_texture(
    embedded: &Vec<String>,
    siblings: &Vec<String>,
    diffuse_name: &str,
    truncate: usize,
    suffix: &str,
) -> (r: TextureSource)
    ensures
        truncate > underscores(diffuse_name@) + 1 ==> r is NotFound,
        truncate <= underscores(diffuse_name@) + 1 ==> resolution(
            r,
            embedded@,
            siblings@,
            canonical_name(diffuse_name@, truncate as nat, suffix@),
        ),
{
    let name = match submap_name(diffuse_name, truncate, suffix) {
        None => {
            return TextureSource::NotFound;
        },
        Some(n) => n,
    };
    if let Some(i) = find_texture(embedded, name.as_str()) {
        return TextureSource::Embedded(i);
    }
    let mut file = name.clone();
    proof {
        reveal_strlit(".png");
    }
    file.append(".png");
    match find_file(siblings, file.as_str()) {
        Some(j) => TextureSource::Sibling(j),
        None => TextureSource::NotFound,
    }
}

/// The path of the property document of the material named `material_name`,
/// relative to the directory of the scene file.
pub open spec fn properties_path_of(material_name: Seq<char>, single_model: bool) -> Seq<char> {
    if single_model {
        "Materials/"@ + before_first_dot(material_name) + ".json"@
    } else {
        "../Materials/"@ + before_first_dot(material_name) + ".json"@
    }
}

/// The path of a material's property document: `Materials/{base}.json` beside
/// the scene of a single model, `../Materials/{base}.json` otherwise, where
/// `base` is the material's name up to its first `.`.
pub fn properties_path(material_name: &str, single_model: bool) -> (r: String)
    ensures
        r@ == properties_path_of(material_name@, single_model),
{
    let base = base_name(material_name);
    let mut path = if single_model {
        String::from_str("Materials/")
    } else {
        String::from_str("../Materials/")
    };
    path.append(base.as_str());
    path.append(".json");
    path
}

/// The submaps a material was given, each `None` where it could not be found.
pub struct ResolvedSubmaps<T> {
    pub face_light_map: Option<T>,
    pub light_map: Option<T>,
    pub shadow_ramp: Option<T>,
    pub metal_map: Option<T>,
    pub normal_map: Option<T>,
}

/// Whether a material can be built from these submaps: a face material needs
/// its face light map, light map, metal map and shadow ramp; a body material
/// needs its light map, shadow ramp and metal map. The normal map is optional.
pub open spec fn has_required_maps<T>(is_face: bool, maps: ResolvedSubmaps<T>) -> bool {
    if is_face {
        maps.face_light_map is Some && maps.light_map is Some && maps.metal_map is Some
            && maps.shadow_ramp is Some
    } else {
        maps.light_map is Some && maps.shadow_ramp is Some && maps.metal_map is Some
    }
}

/// `m` is the material built from a diffuse texture, its submaps and the
/// document `doc`: the face or body material with those textures and the
/// block that `translate` makes of the document.
pub open spec fn assembled<T>(
    m: CelMaterial<T>,
    diffuse: T,
    is_face: bool,
    maps: ResolvedSubmaps<T>,
    doc: MaterialPropertiesRoot,
) -> bool {
    &&& m.is_face == is_face
    &&& !m.diffuse_only
    &&& m.diffuse == Some(diffuse)
    &&& m.light_map == maps.light_map
    &&& m.shadow_ramp == maps.shadow_ramp
    &&& m.metal_map == maps.metal_map
    &&& (if is_face {
        m.face_light_map == maps.face_light_map && m.normal_map is None
    } else {
        m.face_light_map is None && m.normal_map == maps.normal_map
    })
    &&& translation_of(
        m.properties,
        doc.m_saved_properties.m_floats,
        doc.m_saved_properties.m_colors,
    )
}

/// Builds the cel material of a scene material: `None`, so that the next
/// loader is tried, where the diffuse texture is missing, the property
/// document could not be read, or a required submap was not found.
pub fn load_cel_material<T>(
    diffuse: Option<T>,
    is_face: bool,
    maps: ResolvedSubmaps<T>,
    doc: Option<MaterialPropertiesRoot>,
) -> (r: Option<CelMaterial<T>>)
    ensures
        r is Some <==> (diffuse is Some && doc is Some && has_required_maps(is_face, maps)),
        r matches Some(m) ==> assembled(m, diffuse->0, is_face, maps, doc->0),
{
    let diffuse = match diffuse {
        Some(d) => d,
        None => {
            return None;
        },
    };
    let doc = match doc {
        Some(d) => d,
        None => {
            return None;
        },
    };
    let ResolvedSubmaps { face_light_map, light_map, shadow_ramp, metal_map, normal_map } = maps;
    let light_map = match light_map {
        Some(t) => t,
        None => {
            return None;
        },
    };
    let metal_map = match metal_map {
        Some(t) => t,
        None => {
            return None;
        },
    };
    let properties = translate(&doc);
    if is_face {
        let face_light_map = match face_light_map {
            Some(t) => t,
            None => {
                return None;
            },
        };
        if shadow_ramp.is_none() {
            return None;
        }
        Some(
            CelMaterial::new_face(
                diffuse,
                face_light_map,
                light_map,
                metal_map,
                shadow_ramp,
                properties,
            ),
        )
    } else {
        let shadow_ramp = match shadow_ramp {
            Some(t) => t,
            None => {
                return None;
            },
        };
        Some(CelMaterial::new(diffuse, light_map, shadow_ramp, metal_map, normal_map, properties))
    }
}

/// The loader of last resort: a face material with no texture bound and the
/// default block.
pub fn load_cel_material_fallback<T>() -> (r: CelMaterial<T>)
    ensures
        is_fallback_material(r),
{
    CelMaterial::face_default()
}

/// `m` is the stand-in material: face-classified, no texture, default block.
pub open spec fn is_fallback_material<T>(m: CelMaterial<T>) -> bool {
    &&& m.is_face
    &&& !m.diffuse_only
    &&& m.diffuse is None
    &&& m.face_light_map is None
    &&& m.light_map is None
    &&& m.shadow_ramp is None
    &&& m.normal_map is None
    &&& m.metal_map is None
    &&& default_properties(m.properties)
}

/// Whether the renderer can draw `m`: a complete face or body material, or the
/// stand-in.
pub open spec fn renderable<T>(m: CelMaterial<T>) -> bool {
    ||| (m.is_face && m.diffuse is Some && m.face_light_map is Some && m.light_map is Some
        && m.metal_map is Some && m.shadow_ramp is Some)
    ||| (!m.is_face && m.diffuse is Some && m.light_map is Some && m.shadow_ramp is Some
        && m.metal_map is Some)
    ||| is_fallback_material(m)
}

/// Runs the loaders in order, the full one and then the fallback: every scene
/// material ends up with a material the renderer can draw, the full one where
/// it could be built and the stand-in otherwise.
pub fn load_material_or_fallback<T>(
    diffuse: Option<T>,
    is_face: bool,
    maps: ResolvedSubmaps<T>,
    doc: Option<MaterialPropertiesRoot>,
) -> (r: CelMaterial<T>)
    ensures
        renderable(r),
        (diffuse is Some && doc is Some && has_required_maps(is_face, maps)) ==> assembled(
            r,
            diffuse->0,
            is_face,
            maps,
            doc->0,
        ),
        !(diffuse is Some && doc is Some && has_required_maps(is_face, maps))
            ==> is_fallback_material(r),
{
    match load_cel_material(diffuse, is_face, maps, doc) {
        Some(m) => m,
        None => load_cel_material_fallback(),
    }
}

} // verus!
