//! Command records: one record per mutation of a mesh object, made of an
//! ordered list of typed arguments (interned symbols, unsigned integers, and
//! 32-bit float arguments carried by their bit patterns).

use vstd::prelude::*;

verus! {

/// A 3-component float vector, each component held as an `f32` bit pattern.
#[derive(Clone, Copy, Debug, PartialEq, Eq, Structural)]
pub struct Vec3Bits {
    pub x: u32,
    pub y: u32,
    pub z: u32,
}

/// A 2-component float vector, each component held as an `f32` bit pattern.
#[derive(Clone, Copy, Debug, PartialEq, Eq, Structural)]
pub struct Vec2Bits {
    pub u: u32,
    pub v: u32,
}

/// One triangle face: the three vertex ids of its corners.
#[derive(Clone, Copy, Debug, PartialEq, Eq, Structural)]
pub struct Triangle {
    pub a: u32,
    pub b: u32,
    pub c: u32,
}

/// One argument of a command.
#[derive(Clone, Debug, PartialEq, Eq)]
pub enum Arg {
    /// An interned symbol, identified by its text.
    Symbol(String),
    /// An unsigned integer literal.
    UInt(u32),
    /// A 32-bit float literal, carried by its bit pattern.
    FloatBits(u32),
}

/// The mathematical value of an [`Arg`]: symbols become character sequences.
pub enum ArgModel {
    Symbol(Seq<char>),
    UInt(u32),
    FloatBits(u32),
}

impl View for Arg {
    type V = ArgModel;

    open spec fn view(&self) -> ArgModel {
        match self {
            Arg::Symbol(s) => ArgModel::Symbol(s@),
            Arg::UInt(n) => ArgModel::UInt(*n),
            Arg::FloatBits(b) => ArgModel::FloatBits(*b),
        }
    }
}

/// One command record: an ordered sequence of arguments, the first naming the
/// target (or the allocation verb for a creation command), followed by the
/// verb symbols and the positional arguments.
#[derive(Clone, Debug, PartialEq, Eq)]
pub struct Command {
    pub args: Vec<Arg>,
}

impl View for Command {
    type V = Seq<ArgModel>;

    open spec fn view(&self) -> Seq<ArgModel> {
        self.args@.map_values(|a: Arg| a@)
    }
}

/// The models of a sequence of commands.
pub open spec fn views_of(cmds: Seq<Command>) -> Seq<Seq<ArgModel>> {
    cmds.map_values(|c: Command| c@)
}

/// Appending a command appends its model.
pub proof fn lemma_views_of_push(s: Seq<Command>, c: Command)
    ensures
        views_of(s.push(c)) == views_of(s).push(c@),
{
    assert(views_of(s.push(c)) =~= views_of(s).push(c@));
}

/// The models of a concatenation are the concatenated models.
pub proof fn lemma_views_of_concat(a: Seq<Command>, b: Seq<Command>)
    ensures
        views_of(a + b) == views_of(a) + views_of(b),
{
    assert forall|j: int| 0 <= j < (a + b).len() implies views_of(a + b)[j] == (views_of(a)
        + views_of(b))[j] by {
        if j < a.len() {
            assert((a + b)[j] == a[j]);
            assert(views_of(a)[j] == a[j]@);
        } else {
            assert((a + b)[j] == b[j - a.len()]);
            assert(views_of(b)[j - a.len()] == b[j - a.len()]@);
        }
    }
    assert(views_of(a + b) =~= views_of(a) + views_of(b));
}

/// Model of the creation command: `new Mesh <name>`.
pub open spec fn spec_cmd_new_mesh(name: Seq<char>) -> Seq<ArgModel> {
    seq![
        ArgModel::Symbol("new"@),
        ArgModel::Symbol("Mesh"@),
        ArgModel::Symbol(name),
    ]
}

/// Model of the vertex-count command: `<name> set num_verts <verts>`.
pub open spec fn spec_cmd_set_num_verts(name: Seq<char>, verts: u32) -> Seq<ArgModel> {
    seq![
        ArgModel::Symbol(name),
        ArgModel::Symbol("set"@),
        ArgModel::Symbol("num_verts"@),
        ArgModel::UInt(verts),
    ]
}

/// Model of the face-count command: `<name> set num_faces <faces>`.
pub open spec fn spec_cmd_set_num_faces(name: Seq<char>, faces: u32) -> Seq<ArgModel> {
    seq![
        ArgModel::Symbol(name),
        ArgModel::Symbol("set"@),
        ArgModel::Symbol("num_faces"@),
        ArgModel::UInt(faces),
    ]
}

/// Model of a position command: `<name> set_vert_pos <index> <x> <y> <z>`.
pub open spec fn spec_cmd_set_vert_pos(name: Seq<char>, index: u32, pos: Vec3Bits) -> Seq<
    ArgModel,
> {
    seq![
        ArgModel::Symbol(name),
        ArgModel::Symbol("set_vert_pos"@),
        ArgModel::UInt(index),
        ArgModel::FloatBits(pos.x),
        ArgModel::FloatBits(pos.y),
        ArgModel::FloatBits(pos.z),
    ]
}

/// Model of a normal command: `<name> set_vert_norm <index> <x> <y> <z>`.
pub open spec fn spec_cmd_set_vert_norm(name: Seq<char>, index: u32, norm: Vec3Bits) -> Seq<
    ArgModel,
> {
    seq![
        ArgModel::Symbol(name),
        ArgModel::Symbol("set_vert_norm"@),
        ArgModel::UInt(index),
        ArgModel::FloatBits(norm.x),
        ArgModel::FloatBits(norm.y),
        ArgModel::FloatBits(norm.z),
    ]
}

/// Model of a UV command: `<name> set_vert_uv <index> <u> <v>`.
pub open spec fn spec_cmd_set_vert_uv(name: Seq<char>, index: u32, uv: Vec2Bits) -> Seq<
    ArgModel,
> {
    seq![
        ArgModel::Symbol(name),
        ArgModel::Symbol("set_vert_uv"@),
        ArgModel::UInt(index),
        ArgModel::FloatBits(uv.u),
        ArgModel::FloatBits(uv.v),
    ]
}

/// Model of a face command: `<name> set_face <index> <a> <b> <c>`.
pub open spec fn spec_cmd_set_face(name: Seq<char>, index: u32, tri: Triangle) -> Seq<ArgModel> {
    seq![
        ArgModel::Symbol(name),
        ArgModel::Symbol("set_face"@),
        ArgModel::UInt(index),
        ArgModel::UInt(tri.a),
        ArgModel::UInt(tri.b),
        ArgModel::UInt(tri.c),
    ]
}

/// Builds the command that creates a mesh object under `name`.
pub fn cmd_new_mesh(name: &str) -> (c: Command)
    ensures
        c@ == spec_cmd_new_mesh(name@),
{
    let mut args: Vec<Arg> = Vec::new();
    args.push(Arg::Symbol("new".to_owned()));
    args.push(Arg::Symbol("Mesh".to_owned()));
    args.push(Arg::Symbol(name.to_owned()));
    let c = Command { args };
    proof {
        assert(c@ =~= spec_cmd_new_mesh(name@));
    }
    c
}

/// Builds the command that declares the vertex count of `name`.
pub fn cmd_set_num_verts(name: &str, verts: u32) -> (c: Command)
    ensures
        c@ == spec_cmd_set_num_verts(name@, verts),
{
    let mut args: Vec<Arg> = Vec::new();
    args.push(Arg::Symbol(name.to_owned()));
    args.push(Arg::Symbol("set".to_owned()));
    args.push(Arg::Symbol("num_verts".to_owned()));
    args.push(Arg::UInt(verts));
    let c = Command { args };
    proof {
        assert(c@ =~= spec_cmd_set_num_verts(name@, verts));
    }
    c
}

/// Builds the command that declares the face count of `name`.
pub fn cmd_set_num_faces(name: &str, faces: u32) -> (c: Command)
    ensures
        c@ == spec_cmd_set_num_faces(name@, faces),
{
    let mut args: Vec<Arg> = Vec::new();
    args.push(Arg::Symbol(name.to_owned()));
    args.push(Arg::Symbol("set".to_owned()));
    args.push(Arg::Symbol("num_faces".to_owned()));
    args.push(Arg::UInt(faces));
    let c = Command { args };
    proof {
        assert(c@ =~= spec_cmd_set_num_faces(name@, faces));
    }
    c
}

/// Builds the command that sets the position of vertex `index` of `name`.
pub fn cmd_set_vert_pos(name: &str, index: u32, pos: Vec3Bits) -> (c: Command)
    ensures
        c@ == spec_cmd_set_vert_pos(name@, index, pos),
{
    let mut args: Vec<Arg> = Vec::new();
    args.push(Arg::Symbol(name.to_owned()));
    args.push(Arg::Symbol("set_vert_pos".to_owned()));
    args.push(Arg::UInt(index));
    args.push(Arg::FloatBits(pos.x));
    args.push(Arg::FloatBits(pos.y));
    args.push(Arg::FloatBits(pos.z));
    let c = Command { args };
    proof {
        assert(c@ =~= spec_cmd_set_vert_pos(name@, index, pos));
    }
    c
}

/// Builds the command that sets the normal of vertex `index` of `name`.
pub fn cmd_set_vert_norm(name: &str, index: u32, norm: Vec3Bits) -> (c: Command)
    ensures
        c@ == spec_cmd_set_vert_norm(name@, index, norm),
{
    let mut args: Vec<Arg> = Vec::new();
    args.push(Arg::Symbol(name.to_owned()));
    args.push(Arg::Symbol("set_vert_norm".to_owned()));
    args.push(Arg::UInt(index));
    args.push(Arg::FloatBits(norm.x));
    args.push(Arg::FloatBits(norm.y));
    args.push(Arg::FloatBits(norm.z));
    let c = Command { args };
    proof {
        assert(c@ =~= spec_cmd_set_vert_norm(name@, index, norm));
    }
    c
}

/// Builds the command that sets the UV coordinates of vertex `index` of `name`.
pub fn cmd_set_vert_uv(name: &str, index: u32, uv: Vec2Bits) -> (c: Command)
    ensures
        c@ == spec_cmd_set_vert_uv(name@, index, uv),
{
    let mut args: Vec<Arg> = Vec::new();
    args.push(Arg::Symbol(name.to_owned()));
    args.push(Arg::Symbol("set_vert_uv".to_owned()));
    args.push(Arg::UInt(index));
    args.push(Arg::FloatBits(uv.u));
    args.push(Arg::FloatBits(uv.v));
    let c = Command { args };
    proof {
        assert(c@ =~= spec_cmd_set_vert_uv(name@, index, uv));
    }
    c
}

/// Builds the command that sets the corner indices of face `index` of `name`.
pub fn cmd_set_face(name: &str, index: u32, tri: Triangle) -> (c: Command)
    ensures
        c@ == spec_cmd_set_face(name@, index, tri),
{
    let mut args: Vec<Arg> = Vec::new();
    args.push(Arg::Symbol(name.to_owned()));
    args.push(Arg::Symbol("set_face".to_owned()));
    args.push(Arg::UInt(index));
    args.push(Arg::UInt(tri.a));
    args.push(Arg::UInt(tri.b));
    args.push(Arg::UInt(tri.c));
    let c = Command { args };
    proof {
        assert(c@ =~= spec_cmd_set_face(name@, index, tri));
    }
    c
}

} // verus!
