//! The attribute reader: given one primitive's attribute data, produce the
//! four decoded sequences the pipeline works on. Only one canonical encoding
//! per attribute is accepted; an absent attribute, or one in any other
//! encoding, silently yields an empty sequence.

use vstd::prelude::*;

use crate::command::{Triangle, Vec2Bits, Vec3Bits};

verus! {

/// Texture-coordinate data for one channel, tagged by its encoding.
/// Only the `F32` variant is consumed; the normalized integer encodings are
/// carried so the reader can recognise and skip them.
#[derive(Clone, Debug, PartialEq, Eq)]
pub enum TexCoords {
    /// Normalized 8-bit pairs.
    U8(Vec<[u8; 2]>),
    /// Normalized 16-bit pairs.
    U16(Vec<[u16; 2]>),
    /// 32-bit float pairs, held as bit patterns.
    F32(Vec<Vec2Bits>),
}

/// Raw index data, tagged by its width. Only the `U16` variant is consumed.
#[derive(Clone, Debug, PartialEq, Eq)]
pub enum IndexData {
    /// 8-bit indices.
    U8(Vec<u8>),
    /// 16-bit indices.
    U16(Vec<u16>),
    /// 32-bit indices.
    U32(Vec<u32>),
}

/// One drawable primitive's attribute data, as handed over by the importer.
/// Positions and normals only ever arrive as 3-component 32-bit floats, so
/// they carry no encoding tag; texture coordinates and indices do.
#[derive(Clone, Debug, PartialEq, Eq)]
pub struct Primitive {
    /// Per-vertex positions, if the primitive has a position attribute.
    pub positions: Option<Vec<Vec3Bits>>,
    /// Per-vertex normals, if the primitive has a normal attribute.
    pub normals: Option<Vec<Vec3Bits>>,
    /// Texture-coordinate channel 0, if present, in its source encoding.
    pub tex_coords0: Option<TexCoords>,
    /// Triangle indices, if the draw is indexed, in their source width.
    pub indices: Option<IndexData>,
}

/// The four decoded attribute sequences of one primitive.
#[derive(Clone, Debug, PartialEq, Eq)]
pub struct Attributes {
    /// One position per vertex; the index is the vertex id.
    pub positions: Vec<Vec3Bits>,
    /// One normal per vertex, or empty if the primitive has no normal data.
    pub normals: Vec<Vec3Bits>,
    /// One UV pair per vertex, or empty if channel 0 is absent or not float.
    pub uvs: Vec<Vec2Bits>,
    /// Triangle faces; the index is the face id.
    pub triangles: Vec<Triangle>,
}

/// The position sequence a primitive decodes to: its position data, or empty.
pub open spec fn spec_positions(p: Primitive) -> Seq<Vec3Bits> {
    match p.positions {
        Some(v) => v@,
        None => Seq::empty(),
    }
}

/// The normal sequence a primitive decodes to: its normal data, or empty.
pub open spec fn spec_normals(p: Primitive) -> Seq<Vec3Bits> {
    match p.normals {
        Some(v) => v@,
        None => Seq::empty(),
    }
}

/// The UV sequence a primitive decodes to: channel 0's float pairs, or empty
/// when channel 0 is absent or in a normalized integer encoding.
pub open spec fn spec_uvs(p: Primitive) -> Seq<Vec2Bits> {
    match p.tex_coords0 {
        Some(TexCoords::F32(v)) => v@,
        _ => Seq::empty(),
    }
}

/// The raw index stream a primitive decodes from: its 16-bit index data, or
/// empty when the draw is non-indexed or uses another index width.
pub open spec fn spec_raw_indices(p: Primitive) -> Seq<u16> {
    match p.indices {
        Some(IndexData::U16(v)) => v@,
        _ => Seq::empty(),
    }
}

/// Groups a raw index stream in threes: triple `i` takes the values at
/// `3 * i`, `3 * i + 1` and `3 * i + 2`, widened to `u32`; a trailing group of
/// one or two values is dropped.
pub open spec fn triangles_of(raw: Seq<u16>) -> Seq<Triangle> {
    Seq::new(
        raw.len() / 3,
        |i: int|
            Triangle {
                a: raw[3 * i] as u32,
                b: raw[3 * i + 1] as u32,
                c: raw[3 * i + 2] as u32,
            },
    )
}

/// The triangle sequence a primitive decodes to.
pub open spec fn spec_triangles(p: Primitive) -> Seq<Triangle> {
    triangles_of(spec_raw_indices(p))
}

/// Consumes a raw index stream three values at a time, in stream order,
/// widening each 16-bit value to the unsigned type used downstream; a trailing
/// partial group is silently dropped. Widening from 16 to 32 bits always
/// succeeds, so this step can never fail.
pub fn group_triangles(raw: &Vec<u16>) -> (r: Vec<Triangle>)
    ensures
        r@ == triangles_of(raw@),
{
    let mut r: Vec<Triangle> = Vec::new();
    let mut i: usize = 0;
    while raw.len() - i >= 3
        invariant
            i == 3 * r@.len(),
            i <= raw@.len(),
            r@.len() <= raw@.len() / 3,
            forall|j: int| 0 <= j < r@.len() ==> r@[j] == triangles_of(raw@)[j],
        decreases raw@.len() - i,
    {
        let t = Triangle { a: raw[i] as u32, b: raw[i + 1] as u32, c: raw[i + 2] as u32 };
        r.push(t);
        proof {
            assert((i + 3) as int == 3 * r@.len());
            assert(3 * r@.len() <= raw@.len());
            assert(r@.len() <= raw@.len() / 3) by (nonlinear_arith)
                requires
                    3 * r@.len() <= raw@.len(),
            ;
        }
        i = i + 3;
    }
    proof {
        assert(raw@.len() < 3 * (r@.len() + 1));
        assert(raw@.len() / 3 <= r@.len()) by (nonlinear_arith)
            requires
                raw@.len() < 3 * (r@.len() + 1),
        ;
        assert(r@ =~= triangles_of(raw@));
    }
    r
}

/// Decodes one primitive into its four attribute sequences: positions and
/// normals pass through when present; UV coordinates are taken only from a
/// float-encoded channel 0; triangles are grouped from 16-bit indices. Every
/// absent or unsupported attribute yields an empty sequence, never an error.
pub fn read_attributes(p: &Primitive) -> (r: Attributes)
    ensures
        r.positions@ == spec_positions(*p),
        r.normals@ == spec_normals(*p),
        r.uvs@ == spec_uvs(*p),
        r.triangles@ == spec_triangles(*p),
{
    let positions: Vec<Vec3Bits> = match &p.positions {
        Some(v) => clone_vec3s(v),
        None => Vec::new(),
    };
    let normals: Vec<Vec3Bits> = match &p.normals {
        Some(v) => clone_vec3s(v),
        None => Vec::new(),
    };
    let uvs: Vec<Vec2Bits> = match &p.tex_coords0 {
        Some(TexCoords::F32(v)) => clone_vec2s(v),
        _ => Vec::new(),
    };
    let triangles: Vec<Triangle> = match &p.indices {
        Some(IndexData::U16(v)) => group_triangles(v),
        _ => Vec::new(),
    };
    proof {
        assert(triangles@ =~= spec_triangles(*p));
    }
    Attributes { positions, normals, uvs, triangles }
}

/// Copies a position or normal sequence out of the primitive it belongs to.
fn clone_vec3s(v: &Vec<Vec3Bits>) -> (r: Vec<Vec3Bits>)
    ensures
        r@ == v@,
{
    let mut r: Vec<Vec3Bits> = Vec::new();
    let mut i: usize = 0;
    while i < v.len()
        invariant
            i <= v@.len(),
            r@ == v@.subrange(0, i as int),
        decreases v@.len() - i,
    {
        r.push(v[i]);
        proof {
            assert(r@ =~= v@.subrange(0, i + 1));
        }
        i = i + 1;
    }
    proof {
        assert(r@ =~= v@);
    }
    r
}

/// Copies a UV sequence out of the primitive it belongs to.
fn clone_vec2s(v: &Vec<Vec2Bits>) -> (r: Vec<Vec2Bits>)
    ensures
        r@ == v@,
{
    let mut r: Vec<Vec2Bits> = Vec::new();
    let mut i: usize = 0;
    while i < v.len()
        invariant
            i <= v@.len(),
            r@ == v@.subrange(0, i as int),
        decreases v@.len() - i,
    {
        r.push(v[i]);
        proof {
            assert(r@ =~= v@.subrange(0, i + 1));
        }
        i = i + 1;
    }
    proof {
        assert(r@ =~= v@);
    }
    r
}

} // verus!
