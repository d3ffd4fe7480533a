//! Vertex layout and shading variants for a mesh and a material key.

use vstd::prelude::*;
use crate::cel_material::CelMaterialKey;

verus! {

/// A per-vertex attribute that a mesh may carry.
#[derive(Clone, Copy, Debug, PartialEq, Eq, Hash, Structural)]
pub enum VertexAttribute {
    Position,
    Normal,
    Tangent,
    Uv0,
    Color,
    /// The secondary UV channel that tiles the normal map.
    NormalMapUv,
}

/// A shading variant that the specializer switches on.
#[derive(Clone, Copy, Debug, PartialEq, Eq, Hash, Structural)]
pub enum ShaderDef {
    /// The diffuse-only shading path.
    Simple,
    /// The face shading path.
    Face,
    /// The normal map is sampled with the secondary UV channel.
    VertexNormalMapUv,
}

/// The preprocessor name the fragment stage gets in the pass-through.
pub const EMPTY_DEFINE: &'static str = "EMPTY";

impl ShaderDef {
    /// The preprocessor name of the variant in the shader source.
    pub open spec fn define_spec(self) -> Seq<char> {
        match self {
            ShaderDef::Simple => "SIMPLE"@,
            ShaderDef::Face => "FACE"@,
            ShaderDef::VertexNormalMapUv => "VERTEX_NORMAL_MAP_UV"@,
        }
    }

    /// The preprocessor name of the variant in the shader source.
    pub fn define(&self) -> (r: &'static str)
        ensures
            r@ == self.define_spec(),
    {
        match self {
            ShaderDef::Simple => "SIMPLE",
            ShaderDef::Face => "FACE",
            ShaderDef::VertexNormalMapUv => "VERTEX_NORMAL_MAP_UV",
        }
    }
}

/// What a pipeline is specialized to.
#[derive(Clone, Debug)]
pub enum PipelineVariant {
    /// The degenerate pass-through: the fragment stage only learns that it has
    /// nothing to shade, and the vertex layout stays as the mesh gives it.
    Empty,
    /// The full cel shading: the attribute at index `i` of `vertex_attributes`
    /// is bound at shader location `i`, and both stages get `shader_defs`.
    Full { vertex_attributes: Vec<VertexAttribute>, shader_defs: Vec<ShaderDef> },
}

impl View for PipelineVariant {
    type V = Option<(Seq<VertexAttribute>, Seq<ShaderDef>)>;

    open spec fn view(&self) -> Self::V {
        match self {
            PipelineVariant::Empty => None,
            PipelineVariant::Full { vertex_attributes, shader_defs } => Some(
                (vertex_attributes@, shader_defs@),
            ),
        }
    }
}

/// Whether the secondary UV channel is bound: only for a body material whose
/// mesh carries it.
pub open spec fn uses_normal_map_uv(present: Set<VertexAttribute>, key: CelMaterialKey) -> bool {
    !key.is_face && present.contains(VertexAttribute::NormalMapUv)
}

/// The variant for a mesh with attribute set `present` and a material with key
/// `key`: `None` for the pass-through, which a mesh without tangents or without
/// vertex colours gets whatever the key; else the vertex layout (position,
/// normal, tangent, first UV set, vertex colour, then the normal-map UV channel
/// where it is used) and the shader definitions (`Simple` for a diffuse-only
/// material, then `Face` for a face material or `VertexNormalMapUv` where that
/// channel is used).
pub open spec fn variant_spec(present: Set<VertexAttribute>, key: CelMaterialKey) -> Option<
    (Seq<VertexAttribute>, Seq<ShaderDef>),
> {
    if !present.contains(VertexAttribute::Tangent) || !present.contains(VertexAttribute::Color) {
        None
    } else {
        let base = seq![
            VertexAttribute::Position,
            VertexAttribute::Normal,
            VertexAttribute::Tangent,
            VertexAttribute::Uv0,
            VertexAttribute::Color,
        ];
        let simple = if key.diffuse_only {
            seq![ShaderDef::Simple]
        } else {
            Seq::<ShaderDef>::empty()
        };
        if key.is_face {
            Some((base, simple.push(ShaderDef::Face)))
        } else if uses_normal_map_uv(present, key) {
            Some(
                (base.push(VertexAttribute::NormalMapUv), simple.push(ShaderDef::VertexNormalMapUv)),
            )
        } else {
            Some((base, simple))
        }
    }
}

fn has_attribute(present: &Vec<VertexAttribute>, a: VertexAttribute) -> (r: bool)
    ensures
        r == present@.contains(a),
{
    let mut i: usize = 0;
    while i < present.len()
        invariant
            0 <= i <= present@.len(),
            forall|j: int| 0 <= j < i ==> present@[j] != a,
        decreases present@.len() - i,
    {
        if present[i] == a {
            return true;
        }
        i = i + 1;
    }
    false
}

/// Chooses the vertex layout and shading variants for a mesh whose attributes
/// are listed in `present` (in any order, repeats allowed) and a material with
/// key `key`.
pub fn specialize(present: &Vec<VertexAttribute>, key: CelMaterialKey) -> (r: PipelineVariant)
    ensures
        r@ == variant_spec(present@.to_set(), key),
{
    let tangent = has_attribute(present, VertexAttribute::Tangent);
    let color = has_attribute(present, VertexAttribute::Color);
    if !tangent || !color {
        return PipelineVariant::Empty;
    }
    let mut vertex_attributes = vec![
        VertexAttribute::Position,
        VertexAttribute::Normal,
        VertexAttribute::Tangent,
        VertexAttribute::Uv0,
        VertexAttribute::Color,
    ];
    let mut shader_defs: Vec<ShaderDef> = Vec::new();
    if key.diffuse_only {
        shader_defs.push(ShaderDef::Simple);
    }
    if key.is_face {
        shader_defs.push(ShaderDef::Face);
    } else if has_attribute(present, VertexAttribute::NormalMapUv) {
        vertex_attributes.push(VertexAttribute::NormalMapUv);
        shader_defs.push(ShaderDef::VertexNormalMapUv);
    }
    PipelineVariant::Full { vertex_attributes, shader_defs }
}

/// Specialization is a function of the attribute set and the key alone: two
/// meshes that carry the same attributes, listed in any order, get the same
/// layout and the same definitions for the same key, on every call.
pub proof fn lemma_specialize_depends_on_set_and_key(
    present1: Seq<VertexAttribute>,
    present2: Seq<VertexAttribute>,
    key: CelMaterialKey,
)
    requires
        present1.to_set() == present2.to_set(),
    ensures
        variant_spec(present1.to_set(), key) == variant_spec(present2.to_set(), key),
{
}

} // verus!
