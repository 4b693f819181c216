//! Laws of the emitted command streams: how many commands of each verb one
//! primitive's block holds, where they stand, and that the pipeline is a
//! deterministic function of its input.

use vstd::prelude::*;

use crate::attribute::{
    spec_normals, spec_positions, spec_triangles, spec_uvs, triangles_of, Primitive,
};
use crate::command::{
    spec_cmd_set_num_faces, spec_cmd_set_num_verts, spec_cmd_set_vert_pos, ArgModel, Triangle,
};
use crate::walker::{
    spec_document_commands, spec_normal_commands, spec_position_commands, spec_prim_counts_fit,
    spec_primitive_commands, spec_uv_commands, Document,
};

verus! {

/// Whether a command's verb position holds the given symbol. Every command of
/// the vocabulary carries its distinguishing symbol second: the mutation verb
/// for mutation commands, the class symbol for the creation command.
pub open spec fn has_verb(c: Seq<ArgModel>, verb: Seq<char>) -> bool {
    c.len() >= 2 && c[1] == ArgModel::Symbol(verb)
}

/// How many commands of a stream carry the given verb.
pub open spec fn count_verb(cmds: Seq<Seq<ArgModel>>, verb: Seq<char>) -> nat
    decreases cmds.len(),
{
    if cmds.len() == 0 {
        0
    } else {
        count_verb(cmds.drop_last(), verb) + (if has_verb(cmds.last(), verb) {
            1nat
        } else {
            0nat
        })
    }
}

/// Verb counting distributes over concatenation.
pub proof fn lemma_count_verb_concat(a: Seq<Seq<ArgModel>>, b: Seq<Seq<ArgModel>>, verb: Seq<char>)
    ensures
        count_verb(a + b, verb) == count_verb(a, verb) + count_verb(b, verb),
    decreases b.len(),
{
    if b.len() == 0 {
        assert(a + b =~= a);
    } else {
        assert((a + b).drop_last() =~= a + b.drop_last());
        assert((a + b).last() == b.last());
        lemma_count_verb_concat(a, b.drop_last(), verb);
    }
}

/// A stream whose commands all carry the verb counts its whole length.
pub proof fn lemma_count_verb_all(cmds: Seq<Seq<ArgModel>>, verb: Seq<char>)
    requires
        forall|i: int| 0 <= i < cmds.len() ==> has_verb(#[trigger] cmds[i], verb),
    ensures
        count_verb(cmds, verb) == cmds.len(),
    decreases cmds.len(),
{
    if cmds.len() > 0 {
        lemma_count_verb_all(cmds.drop_last(), verb);
    }
}

/// A stream none of whose commands carries the verb counts zero.
pub proof fn lemma_count_verb_none(cmds: Seq<Seq<ArgModel>>, verb: Seq<char>)
    requires
        forall|i: int| 0 <= i < cmds.len() ==> !has_verb(#[trigger] cmds[i], verb),
    ensures
        count_verb(cmds, verb) == 0,
    decreases cmds.len(),
{
    if cmds.len() > 0 {
        lemma_count_verb_none(cmds.drop_last(), verb);
    }
}

/// The distinguishing symbols of the command vocabulary are pairwise
/// distinct, so a command carries exactly one of them.
proof fn lemma_verbs_distinct()
    ensures
        "Mesh"@ != "set_vert_pos"@,
        "Mesh"@ != "set_vert_norm"@,
        "Mesh"@ != "set_vert_uv"@,
        "Mesh"@ != "set_face"@,
        "set"@ != "set_vert_pos"@,
        "set"@ != "set_vert_norm"@,
        "set"@ != "set_vert_uv"@,
        "set"@ != "set_face"@,
        "set_vert_pos"@ != "set_vert_norm"@,
        "set_vert_pos"@ != "set_vert_uv"@,
        "set_vert_pos"@ != "set_face"@,
        "set_vert_norm"@ != "set_vert_uv"@,
        "set_vert_norm"@ != "set_face"@,
        "set_vert_uv"@ != "set_face"@,
{
    reveal_strlit("Mesh");
    reveal_strlit("set");
    reveal_strlit("set_vert_pos");
    reveal_strlit("set_vert_norm");
    reveal_strlit("set_vert_uv");
    reveal_strlit("set_face");
    assert("Mesh"@.len() == 4);
    assert("set"@.len() == 3);
    assert("set_vert_pos"@.len() == 12);
    assert("set_vert_norm"@.len() == 13);
    assert("set_vert_uv"@.len() == 11);
    assert("set_face"@.len() == 8);
}

/// How often each verb occurs in one primitive's block, and where: the three
/// header commands carry none of the attribute verbs, each attribute segment
/// carries exactly its own verb, and no face command is ever emitted.
proof fn lemma_segment_counts(name: Seq<char>, p: Primitive)
    ensures
        count_verb(spec_primitive_commands(name, p), "set_vert_pos"@) == spec_positions(p).len(),
        count_verb(spec_primitive_commands(name, p), "set_vert_norm"@) == spec_normals(p).len(),
        count_verb(spec_primitive_commands(name, p), "set_vert_uv"@) == spec_uvs(p).len(),
        count_verb(spec_primitive_commands(name, p), "set_face"@) == 0,
{
    lemma_verbs_distinct();
    let head = seq![
        crate::command::spec_cmd_new_mesh(name),
        spec_cmd_set_num_verts(name, spec_positions(p).len() as u32),
        spec_cmd_set_num_faces(name, spec_triangles(p).len() as u32),
    ];
    let pos = spec_position_commands(name, spec_positions(p));
    let nrm = spec_normal_commands(name, spec_normals(p));
    let uv = spec_uv_commands(name, spec_uvs(p));
    let verbs = seq!["set_vert_pos"@, "set_vert_norm"@, "set_vert_uv"@, "set_face"@];
    assert forall|v: int| 0 <= v < 4 implies {
        &&& count_verb(head, verbs[v]) == 0
        &&& count_verb(pos, verbs[v]) == (if v == 0 {
            pos.len()
        } else {
            0nat
        })
        &&& count_verb(nrm, verbs[v]) == (if v == 1 {
            nrm.len()
        } else {
            0nat
        })
        &&& count_verb(uv, verbs[v]) == (if v == 2 {
            uv.len()
        } else {
            0nat
        })
    } by {
        let verb = verbs[v];
        assert(head[0][1] == ArgModel::Symbol("Mesh"@));
        assert(head[1][1] == ArgModel::Symbol("set"@));
        assert(head[2][1] == ArgModel::Symbol("set"@));
        assert(forall|i: int| 0 <= i < head.len() ==> !has_verb(#[trigger] head[i], verb));
        lemma_count_verb_none(head, verb);
        assert(forall|i: int|
            0 <= i < pos.len() ==> (#[trigger] pos[i])[1] == ArgModel::Symbol(
                "set_vert_pos"@,
            ) && pos[i].len() == 6);
        assert(forall|i: int|
            0 <= i < nrm.len() ==> (#[trigger] nrm[i])[1] == ArgModel::Symbol(
                "set_vert_norm"@,
            ) && nrm[i].len() == 6);
        assert(forall|i: int|
            0 <= i < uv.len() ==> (#[trigger] uv[i])[1] == ArgModel::Symbol("set_vert_uv"@)
                && uv[i].len() == 5);
        if v == 0 {
            lemma_count_verb_all(pos, verb);
        } else {
            lemma_count_verb_none(pos, verb);
        }
        if v == 1 {
            lemma_count_verb_all(nrm, verb);
        } else {
            lemma_count_verb_none(nrm, verb);
        }
        if v == 2 {
            lemma_count_verb_all(uv, verb);
        } else {
            lemma_count_verb_none(uv, verb);
        }
    }
    assert forall|v: int| 0 <= v < 4 implies count_verb(
        spec_primitive_commands(name, p),
        verbs[v],
    ) == count_verb(head, verbs[v]) + count_verb(pos, verbs[v]) + count_verb(nrm, verbs[v])
        + count_verb(uv, verbs[v]) by {
        let verb = verbs[v];
        lemma_count_verb_concat(head, pos, verb);
        lemma_count_verb_concat(head + pos, nrm, verb);
        lemma_count_verb_concat(head + pos + nrm, uv, verb);
        assert(spec_primitive_commands(name, p) == head + pos + nrm + uv);
    }
    assert(count_verb(spec_primitive_commands(name, p), verbs[0]) == pos.len());
    assert(count_verb(spec_primitive_commands(name, p), verbs[1]) == nrm.len());
    assert(count_verb(spec_primitive_commands(name, p), verbs[2]) == uv.len());
    assert(count_verb(spec_primitive_commands(name, p), verbs[3]) == 0);
}

/// Law: a primitive with N decoded positions emits exactly N position
/// commands; they stand consecutively after the three header commands, the
/// i-th carrying vertex index i, so the indices cover 0..N once each, in
/// ascending order, and no position command stands anywhere else.
pub proof fn lemma_position_commands_exact(name: Seq<char>, p: Primitive)
    requires
        spec_prim_counts_fit(p),
    ensures
        ({
            let cmds = spec_primitive_commands(name, p);
            let n = spec_positions(p).len();
            &&& cmds.len() == 3 + n + spec_normals(p).len() + spec_uvs(p).len()
            &&& count_verb(cmds, "set_vert_pos"@) == n
            &&& forall|i: int|
                0 <= i < n ==> cmds[3 + i] == spec_cmd_set_vert_pos(
                    name,
                    i as u32,
                    spec_positions(p)[i],
                )
            &&& forall|k: int|
                0 <= k < cmds.len() && has_verb(#[trigger] cmds[k], "set_vert_pos"@) ==> 3 <= k
                    < 3 + n
        }),
{
    lemma_verbs_distinct();
    lemma_segment_counts(name, p);
    let cmds = spec_primitive_commands(name, p);
    let n = spec_positions(p).len();
    assert forall|k: int|
        0 <= k < cmds.len() && has_verb(#[trigger] cmds[k], "set_vert_pos"@) implies 3 <= k < 3
        + n by {
        if k < 3 {
            assert(cmds[k][1] != ArgModel::Symbol("set_vert_pos"@));
        } else if k >= 3 + n {
            assert(cmds[k][1] != ArgModel::Symbol("set_vert_pos"@));
        }
    }
}

/// Law: the declared vertex count equals the number of position commands the
/// block holds, and the declared face count equals the number of decoded
/// triangle triples, even though no per-face command is emitted.
pub proof fn lemma_declared_counts(name: Seq<char>, p: Primitive)
    requires
        spec_prim_counts_fit(p),
    ensures
        ({
            let cmds = spec_primitive_commands(name, p);
            &&& cmds[1] == spec_cmd_set_num_verts(
                name,
                count_verb(cmds, "set_vert_pos"@) as u32,
            )
            &&& cmds[2] == spec_cmd_set_num_faces(name, spec_triangles(p).len() as u32)
            &&& count_verb(cmds, "set_face"@) == 0
        }),
{
    lemma_segment_counts(name, p);
}

/// Law: a primitive with no normal data emits no normal command, and one with
/// no UV data emits no UV command; more exactly, the block holds one normal
/// command per decoded normal and one UV command per decoded UV pair.
pub proof fn lemma_absent_attribute_commands(name: Seq<char>, p: Primitive)
    ensures
        count_verb(spec_primitive_commands(name, p), "set_vert_norm"@) == spec_normals(p).len(),
        count_verb(spec_primitive_commands(name, p), "set_vert_uv"@) == spec_uvs(p).len(),
        spec_normals(p).len() == 0 ==> count_verb(
            spec_primitive_commands(name, p),
            "set_vert_norm"@,
        ) == 0,
        spec_uvs(p).len() == 0 ==> count_verb(spec_primitive_commands(name, p), "set_vert_uv"@)
            == 0,
{
    lemma_segment_counts(name, p);
}

/// Law: triangle decoding consumes raw index values strictly in threes, in
/// stream order: there are exactly `len / 3` triples, triple i takes the
/// values at offsets 3i, 3i+1 and 3i+2, and a trailing group of one or two
/// values yields no triple.
pub proof fn lemma_triangle_grouping(raw: Seq<u16>)
    ensures
        triangles_of(raw).len() == raw.len() / 3,
        3 * triangles_of(raw).len() <= raw.len(),
        raw.len() - 3 * triangles_of(raw).len() < 3,
        forall|i: int|
            0 <= i < triangles_of(raw).len() ==> triangles_of(raw)[i] == (Triangle {
                a: raw[3 * i] as u32,
                b: raw[3 * i + 1] as u32,
                c: raw[3 * i + 2] as u32,
            }),
{
    assert(3 * (raw.len() / 3) <= raw.len() && raw.len() - 3 * (raw.len() / 3) < 3)
        by (nonlinear_arith);
}

/// Law: the pipeline is deterministic: the command stream is a function of
/// the document alone, so two runs on the same input yield the same stream.
pub proof fn lemma_deterministic(d1: Document, d2: Document)
    requires
        d1 == d2,
    ensures
        spec_document_commands(d1) == spec_document_commands(d2),
{
}

} // verus!
