//! The scene walker: traverses a document in order (scenes, then nodes, then
//! each node's mesh's primitives), reads each primitive's attributes and
//! produces its command sequence, in a fixed order.

use vstd::prelude::*;
use vstd::string::StringExecFns;

use crate::attribute::{
    read_attributes, spec_normals, spec_positions, spec_triangles, spec_uvs, Primitive,
};
use crate::command::{
    cmd_new_mesh, cmd_set_num_faces, cmd_set_num_verts, cmd_set_vert_norm, cmd_set_vert_pos,
    cmd_set_vert_uv, spec_cmd_new_mesh, spec_cmd_set_num_faces, spec_cmd_set_num_verts,
    spec_cmd_set_vert_norm, spec_cmd_set_vert_pos, spec_cmd_set_vert_uv, views_of, ArgModel,
    Command, Vec2Bits, Vec3Bits,
};

verus! {

/// A fatal condition that aborts a whole run.
#[derive(Clone, Copy, Debug, PartialEq, Eq, Structural)]
pub enum WalkError {
    /// A mesh has no name, so its objects cannot be addressed.
    MissingMeshName,
}

/// A mesh: a required name and its primitives, in document order.
#[derive(Clone, Debug, PartialEq, Eq)]
pub struct Mesh {
    /// The mesh's name; a mesh without one is a fatal input error.
    pub name: Option<String>,
    /// The mesh's primitives, in document order.
    pub primitives: Vec<Primitive>,
}

/// A scene-graph node, which optionally references one mesh.
#[derive(Clone, Debug, PartialEq, Eq)]
pub struct SceneNode {
    /// The node's mesh, if it has one; a node without one contributes nothing.
    pub mesh: Option<Mesh>,
}

/// A scene: its nodes, in document order.
#[derive(Clone, Debug, PartialEq, Eq)]
pub struct Scene {
    /// The scene's nodes, in document order.
    pub nodes: Vec<SceneNode>,
}

/// A document: the root container of scenes, in document order.
#[derive(Clone, Debug, PartialEq, Eq)]
pub struct Document {
    /// The document's scenes, in document order.
    pub scenes: Vec<Scene>,
}

/// Whether a name already carries the `.mesh` suffix.
pub open spec fn has_mesh_suffix(s: Seq<char>) -> bool {
    s.len() >= 5 && s.subrange(s.len() - 5, s.len() as int) == ".mesh"@
}

/// The target object name derived from a mesh name: the name itself when it
/// already ends in `.mesh`, otherwise the name with `.mesh` appended.
pub open spec fn spec_target_name(s: Seq<char>) -> Seq<char> {
    if has_mesh_suffix(s) {
        s
    } else {
        s + ".mesh"@
    }
}

/// Derives the target object name for a mesh: appends the `.mesh` suffix
/// unless the name already ends with it, so the suffix is never duplicated.
pub fn target_name(name: &str) -> (r: String)
    ensures
        r@ == spec_target_name(name@),
{
    let mut cv: Vec<char> = Vec::new();
    for c in it: name.chars()
        invariant
            it.seq() == name@,
            cv@ == it.history(),
    {
        cv.push(c);
    }
    proof {
        assert(cv@ =~= name@);
    }
    let n = cv.len();
    let has: bool = n >= 5 && cv[n - 5] == '.' && cv[n - 4] == 'm' && cv[n - 3] == 'e' && cv[n
        - 2] == 's' && cv[n - 1] == 'h';
    proof {
        reveal_strlit(".mesh");
        if has {
            assert(name@.subrange(n - 5, n as int) =~= ".mesh"@);
        }
        if has_mesh_suffix(name@) {
            assert(n >= 5);
            assert(name@.subrange(n - 5, n as int) == ".mesh"@);
            assert(cv@[n - 5] == name@.subrange(n - 5, n as int)[0]);
            assert(cv@[n - 4] == name@.subrange(n - 5, n as int)[1]);
            assert(cv@[n - 3] == name@.subrange(n - 5, n as int)[2]);
            assert(cv@[n - 2] == name@.subrange(n - 5, n as int)[3]);
            assert(cv@[n - 1] == name@.subrange(n - 5, n as int)[4]);
        }
        assert(has == has_mesh_suffix(name@));
    }
    if has {
        name.to_owned()
    } else {
        name.to_owned().concat(".mesh")
    }
}

/// The position commands of one primitive: one per decoded position, the
/// command for vertex `i` carrying index `i`.
pub open spec fn spec_position_commands(name: Seq<char>, ps: Seq<Vec3Bits>) -> Seq<
    Seq<ArgModel>,
> {
    Seq::new(ps.len(), |i: int| spec_cmd_set_vert_pos(name, i as u32, ps[i]))
}

/// The normal commands of one primitive: one per decoded normal.
pub open spec fn spec_normal_commands(name: Seq<char>, ns: Seq<Vec3Bits>) -> Seq<Seq<ArgModel>> {
    Seq::new(ns.len(), |i: int| spec_cmd_set_vert_norm(name, i as u32, ns[i]))
}

/// The UV commands of one primitive: one per decoded UV pair.
pub open spec fn spec_uv_commands(name: Seq<char>, uvs: Seq<Vec2Bits>) -> Seq<Seq<ArgModel>> {
    Seq::new(uvs.len(), |i: int| spec_cmd_set_vert_uv(name, i as u32, uvs[i]))
}

/// The counts a primitive's emission declares must fit the unsigned type
/// commands carry; the machine cannot emit a wider count.
pub open spec fn spec_prim_counts_fit(p: Primitive) -> bool {
    &&& spec_positions(p).len() <= u32::MAX
    &&& spec_normals(p).len() <= u32::MAX
    &&& spec_uvs(p).len() <= u32::MAX
    &&& spec_triangles(p).len() <= u32::MAX
}

/// The full command sequence of one primitive, in emission order: the create
/// command, the vertex count, the face count, then one position command per
/// vertex, one normal command per decoded normal, and one UV command per
/// decoded UV pair. Per-face commands are not part of the pipeline: only the
/// declared face count is set.
pub open spec fn spec_primitive_commands(name: Seq<char>, p: Primitive) -> Seq<Seq<ArgModel>> {
    seq![
        spec_cmd_new_mesh(name),
        spec_cmd_set_num_verts(name, spec_positions(p).len() as u32),
        spec_cmd_set_num_faces(name, spec_triangles(p).len() as u32),
    ] + spec_position_commands(name, spec_positions(p)) + spec_normal_commands(
        name,
        spec_normals(p),
    ) + spec_uv_commands(name, spec_uvs(p))
}

/// Emits the position commands of one primitive, vertex ids ascending from 0.
fn position_commands(name: &str, ps: &Vec<Vec3Bits>) -> (cmds: Vec<Command>)
    requires
        ps@.len() <= u32::MAX,
    ensures
        views_of(cmds@) == spec_position_commands(name@, ps@),
{
    let mut cmds: Vec<Command> = Vec::new();
    let mut i: usize = 0;
    while i < ps.len()
        invariant
            i <= ps@.len(),
            ps@.len() <= u32::MAX,
            views_of(cmds@) == spec_position_commands(name@, ps@).subrange(0, i as int),
        decreases ps@.len() - i,
    {
        let c = cmd_set_vert_pos(name, i as u32, ps[i]);
        proof {
            crate::command::lemma_views_of_push(cmds@, c);
        }
        cmds.push(c);
        proof {
            assert(views_of(cmds@) =~= spec_position_commands(name@, ps@).subrange(
                0,
                i + 1,
            ));
        }
        i = i + 1;
    }
    proof {
        assert(spec_position_commands(name@, ps@).subrange(0, i as int) =~= spec_position_commands(
            name@,
            ps@,
        ));
    }
    cmds
}

/// Emits the normal commands of one primitive, vertex ids ascending from 0.
fn normal_commands(name: &str, ns: &Vec<Vec3Bits>) -> (cmds: Vec<Command>)
    requires
        ns@.len() <= u32::MAX,
    ensures
        views_of(cmds@) == spec_normal_commands(name@, ns@),
{
    let mut cmds: Vec<Command> = Vec::new();
    let mut i: usize = 0;
    while i < ns.len()
        invariant
            i <= ns@.len(),
            ns@.len() <= u32::MAX,
            views_of(cmds@) == spec_normal_commands(name@, ns@).subrange(0, i as int),
        decreases ns@.len() - i,
    {
        let c = cmd_set_vert_norm(name, i as u32, ns[i]);
        proof {
            crate::command::lemma_views_of_push(cmds@, c);
        }
        cmds.push(c);
        proof {
            assert(views_of(cmds@) =~= spec_normal_commands(name@, ns@).subrange(0, i + 1));
        }
        i = i + 1;
    }
    proof {
        assert(spec_normal_commands(name@, ns@).subrange(0, i as int) =~= spec_normal_commands(
            name@,
            ns@,
        ));
    }
    cmds
}

/// Emits the UV commands of one primitive, vertex ids ascending from 0.
fn uv_commands(name: &str, uvs: &Vec<Vec2Bits>) -> (cmds: Vec<Command>)
    requires
        uvs@.len() <= u32::MAX,
    ensures
        views_of(cmds@) == spec_uv_commands(name@, uvs@),
{
    let mut cmds: Vec<Command> = Vec::new();
    let mut i: usize = 0;
    while i < uvs.len()
        invariant
            i <= uvs@.len(),
            uvs@.len() <= u32::MAX,
            views_of(cmds@) == spec_uv_commands(name@, uvs@).subrange(0, i as int),
        decreases uvs@.len() - i,
    {
        let c = cmd_set_vert_uv(name, i as u32, uvs[i]);
        proof {
            crate::command::lemma_views_of_push(cmds@, c);
        }
        cmds.push(c);
        proof {
            assert(views_of(cmds@) =~= spec_uv_commands(name@, uvs@).subrange(0, i + 1));
        }
        i = i + 1;
    }
    proof {
        assert(spec_uv_commands(name@, uvs@).subrange(0, i as int) =~= spec_uv_commands(
            name@,
            uvs@,
        ));
    }
    cmds
}

/// Reads one primitive's attributes and emits its full command sequence, in
/// emission order, addressed to the already-derived target `name`.
pub fn primitive_commands(name: &str, p: &Primitive) -> (cmds: Vec<Command>)
    requires
        spec_prim_counts_fit(*p),
    ensures
        views_of(cmds@) == spec_primitive_commands(name@, *p),
{
    let attrs = read_attributes(p);
    let mut cmds: Vec<Command> = Vec::new();
    let c0 = cmd_new_mesh(name);
    proof {
        crate::command::lemma_views_of_push(cmds@, c0);
    }
    cmds.push(c0);
    let c1 = cmd_set_num_verts(name, attrs.positions.len() as u32);
    proof {
        crate::command::lemma_views_of_push(cmds@, c1);
    }
    cmds.push(c1);
    let c2 = cmd_set_num_faces(name, attrs.triangles.len() as u32);
    proof {
        crate::command::lemma_views_of_push(cmds@, c2);
    }
    cmds.push(c2);
    let mut pos = position_commands(name, &attrs.positions);
    proof {
        crate::command::lemma_views_of_concat(cmds@, pos@);
    }
    cmds.append(&mut pos);
    let mut nrm = normal_commands(name, &attrs.normals);
    proof {
        crate::command::lemma_views_of_concat(cmds@, nrm@);
    }
    cmds.append(&mut nrm);
    let mut uv = uv_commands(name, &attrs.uvs);
    proof {
        crate::command::lemma_views_of_concat(cmds@, uv@);
    }
    cmds.append(&mut uv);
    proof {
        assert(views_of(cmds@) =~= spec_primitive_commands(name@, *p));
    }
    cmds
}

/// The name a mesh's commands are addressed under, before suffixing; empty
/// only stands in for a missing name, which is rejected before use.
pub open spec fn spec_mesh_name(m: Mesh) -> Seq<char> {
    match m.name {
        Some(n) => n@,
        None => Seq::empty(),
    }
}

/// Whether a mesh carries the name the output requires.
pub open spec fn spec_mesh_named(m: Mesh) -> bool {
    m.name is Some
}

/// Whether a node's mesh, if any, is named.
pub open spec fn spec_node_named(n: SceneNode) -> bool {
    match n.mesh {
        Some(m) => spec_mesh_named(m),
        None => true,
    }
}

/// Whether every mesh referenced from a scene is named.
pub open spec fn spec_scene_named(s: Scene) -> bool {
    forall|j: int| 0 <= j < s.nodes@.len() ==> spec_node_named(#[trigger] s.nodes@[j])
}

/// Whether every mesh referenced from a document is named.
pub open spec fn spec_doc_named(d: Document) -> bool {
    forall|i: int| 0 <= i < d.scenes@.len() ==> spec_scene_named(#[trigger] d.scenes@[i])
}

/// Whether every primitive of a mesh has counts the commands can carry.
pub open spec fn spec_mesh_counts_fit(m: Mesh) -> bool {
    forall|k: int|
        0 <= k < m.primitives@.len() ==> spec_prim_counts_fit(#[trigger] m.primitives@[k])
}

/// Whether every primitive below a node has counts the commands can carry.
pub open spec fn spec_node_counts_fit(n: SceneNode) -> bool {
    match n.mesh {
        Some(m) => spec_mesh_counts_fit(m),
        None => true,
    }
}

/// Whether every primitive below a scene has counts the commands can carry.
pub open spec fn spec_scene_counts_fit(s: Scene) -> bool {
    forall|j: int| 0 <= j < s.nodes@.len() ==> spec_node_counts_fit(#[trigger] s.nodes@[j])
}

/// Whether every primitive in a document has counts the commands can carry.
pub open spec fn spec_doc_counts_fit(d: Document) -> bool {
    forall|i: int| 0 <= i < d.scenes@.len() ==> spec_scene_counts_fit(#[trigger] d.scenes@[i])
}

/// The commands of a mesh's primitives, each primitive's block in order.
pub open spec fn spec_prims_commands(name: Seq<char>, prims: Seq<Primitive>) -> Seq<
    Seq<ArgModel>,
>
    decreases prims.len(),
{
    if prims.len() == 0 {
        Seq::empty()
    } else {
        spec_prims_commands(name, prims.drop_last()) + spec_primitive_commands(
            name,
            prims.last(),
        )
    }
}

/// The commands of one mesh: its primitives' blocks, all addressed to the
/// target name derived from the mesh's name.
pub open spec fn spec_mesh_commands(m: Mesh) -> Seq<Seq<ArgModel>> {
    spec_prims_commands(spec_target_name(spec_mesh_name(m)), m.primitives@)
}

/// The commands of one node: its mesh's commands, or nothing.
pub open spec fn spec_node_commands(n: SceneNode) -> Seq<Seq<ArgModel>> {
    match n.mesh {
        Some(m) => spec_mesh_commands(m),
        None => Seq::empty(),
    }
}

/// The commands of a sequence of nodes, in document order.
pub open spec fn spec_nodes_commands(nodes: Seq<SceneNode>) -> Seq<Seq<ArgModel>>
    decreases nodes.len(),
{
    if nodes.len() == 0 {
        Seq::empty()
    } else {
        spec_nodes_commands(nodes.drop_last()) + spec_node_commands(nodes.last())
    }
}

/// The commands of one scene: its nodes' commands, in document order.
pub open spec fn spec_scene_commands(s: Scene) -> Seq<Seq<ArgModel>> {
    spec_nodes_commands(s.nodes@)
}

/// The commands of a sequence of scenes, in document order.
pub open spec fn spec_scenes_commands(scenes: Seq<Scene>) -> Seq<Seq<ArgModel>>
    decreases scenes.len(),
{
    if scenes.len() == 0 {
        Seq::empty()
    } else {
        spec_scenes_commands(scenes.drop_last()) + spec_scene_commands(scenes.last())
    }
}

/// The full command stream of a document: every scene's commands, in document
/// order. This is a function of the document alone, so equal documents always
/// produce equal streams.
pub open spec fn spec_document_commands(d: Document) -> Seq<Seq<ArgModel>> {
    spec_scenes_commands(d.scenes@)
}

/// Emits the commands of one mesh: every primitive's block, in order, all
/// addressed to the target name derived from the mesh's name. Fails exactly
/// when the mesh has no name.
pub fn mesh_commands(m: &Mesh) -> (r: Result<Vec<Command>, WalkError>)
    requires
        spec_mesh_counts_fit(*m),
    ensures
        r is Ok <==> spec_mesh_named(*m),
        r matches Ok(cmds) ==> views_of(cmds@) == spec_mesh_commands(*m),
{
    let name: &String = match &m.name {
        Some(n) => n,
        None => {
            return Err(WalkError::MissingMeshName);
        },
    };
    let target = target_name(name.as_str());
    let mut cmds: Vec<Command> = Vec::new();
    let mut k: usize = 0;
    while k < m.primitives.len()
        invariant
            k <= m.primitives@.len(),
            spec_mesh_counts_fit(*m),
            target@ == spec_target_name(spec_mesh_name(*m)),
            views_of(cmds@) == spec_prims_commands(target@, m.primitives@.take(k as int)),
        decreases m.primitives@.len() - k,
    {
        let mut pc = primitive_commands(target.as_str(), &m.primitives[k]);
        proof {
            crate::command::lemma_views_of_concat(cmds@, pc@);
            assert(m.primitives@.take(k + 1).drop_last() =~= m.primitives@.take(k as int));
            assert(m.primitives@.take(k + 1).last() == m.primitives@[k as int]);
        }
        cmds.append(&mut pc);
        k = k + 1;
    }
    proof {
        assert(m.primitives@.take(m.primitives@.len() as int) =~= m.primitives@);
    }
    Ok(cmds)
}

/// Emits the commands of one scene: for each node in document order, its
/// mesh's commands if it has a mesh. Fails exactly when some referenced mesh
/// has no name.
pub fn scene_commands(s: &Scene) -> (r: Result<Vec<Command>, WalkError>)
    requires
        spec_scene_counts_fit(*s),
    ensures
        r is Ok <==> spec_scene_named(*s),
        r matches Ok(cmds) ==> views_of(cmds@) == spec_scene_commands(*s),
{
    let mut cmds: Vec<Command> = Vec::new();
    let mut j: usize = 0;
    while j < s.nodes.len()
        invariant
            j <= s.nodes@.len(),
            spec_scene_counts_fit(*s),
            forall|t: int| 0 <= t < j ==> spec_node_named(#[trigger] s.nodes@[t]),
            views_of(cmds@) == spec_nodes_commands(s.nodes@.take(j as int)),
        decreases s.nodes@.len() - j,
    {
        match &s.nodes[j].mesh {
            Some(m) => {
                match mesh_commands(m) {
                    Ok(mut mc) => {
                        proof {
                            crate::command::lemma_views_of_concat(cmds@, mc@);
                            assert(s.nodes@.take(j + 1).drop_last() =~= s.nodes@.take(
                                j as int,
                            ));
                            assert(s.nodes@.take(j + 1).last() == s.nodes@[j as int]);
                        }
                        cmds.append(&mut mc);
                    },
                    Err(e) => {
                        proof {
                            assert(!spec_node_named(s.nodes@[j as int]));
                        }
                        return Err(e);
                    },
                }
            },
            None => {
                proof {
                    assert(s.nodes@.take(j + 1).drop_last() =~= s.nodes@.take(j as int));
                    assert(s.nodes@.take(j + 1).last() == s.nodes@[j as int]);
                    assert(views_of(cmds@) =~= views_of(cmds@) + Seq::<Seq<ArgModel>>::empty());
                }
            },
        }
        j = j + 1;
    }
    proof {
        assert(s.nodes@.take(s.nodes@.len() as int) =~= s.nodes@);
    }
    Ok(cmds)
}

/// Emits the full command stream of a document: every scene's commands, in
/// document order. Fails exactly when some mesh referenced from the document
/// has no name; the stream itself is a function of the document alone.
pub fn document_commands(d: &Document) -> (r: Result<Vec<Command>, WalkError>)
    requires
        spec_doc_counts_fit(*d),
    ensures
        r is Ok <==> spec_doc_named(*d),
        r matches Ok(cmds) ==> views_of(cmds@) == spec_document_commands(*d),
{
    let mut cmds: Vec<Command> = Vec::new();
    let mut i: usize = 0;
    while i < d.scenes.len()
        invariant
            i <= d.scenes@.len(),
            spec_doc_counts_fit(*d),
            forall|t: int| 0 <= t < i ==> spec_scene_named(#[trigger] d.scenes@[t]),
            views_of(cmds@) == spec_scenes_commands(d.scenes@.take(i as int)),
        decreases d.scenes@.len() - i,
    {
        match scene_commands(&d.scenes[i]) {
            Ok(mut sc) => {
                proof {
                    crate::command::lemma_views_of_concat(cmds@, sc@);
                    assert(d.scenes@.take(i + 1).drop_last() =~= d.scenes@.take(i as int));
                    assert(d.scenes@.take(i + 1).last() == d.scenes@[i as int]);
                }
                cmds.append(&mut sc);
            },
            Err(e) => {
                proof {
                    assert(!spec_scene_named(d.scenes@[i as int]));
                }
                return Err(e);
            },
        }
        i = i + 1;
    }
    proof {
        assert(d.scenes@.take(d.scenes@.len() as int) =~= d.scenes@);
    }
    Ok(cmds)
}

} // verus!
