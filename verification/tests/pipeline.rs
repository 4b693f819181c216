use meshcmd::attribute::{group_triangles, read_attributes, IndexData, Primitive, TexCoords};
use meshcmd::command::{Arg, Command, Triangle, Vec2Bits, Vec3Bits};
use meshcmd::walker::{
    document_commands, mesh_commands, target_name, Document, Mesh, Scene, SceneNode, WalkError,
};

fn v3(x: f32, y: f32, z: f32) -> Vec3Bits {
    Vec3Bits {
        x: x.to_bits(),
        y: y.to_bits(),
        z: z.to_bits(),
    }
}

fn empty_primitive() -> Primitive {
    Primitive {
        positions: None,
        normals: None,
        tex_coords0: None,
        indices: None,
    }
}

/// A mesh named `Cube`: 8 vertices with positions and normals, 12 triangles,
/// no texture-coordinate channel.
fn cube_mesh() -> Mesh {
    let mut positions = Vec::new();
    let mut normals = Vec::new();
    for i in 0..8 {
        let s = i as f32;
        positions.push(v3(s, s + 0.5, -s));
        normals.push(v3(0.0, 1.0, 0.0));
    }
    let mut indices: Vec<u16> = Vec::new();
    for i in 0..12u16 {
        indices.push(i % 8);
        indices.push((i + 1) % 8);
        indices.push((i + 2) % 8);
    }
    Mesh {
        name: Some(String::from("Cube")),
        primitives: vec![Primitive {
            positions: Some(positions),
            normals: Some(normals),
            tex_coords0: None,
            indices: Some(IndexData::U16(indices)),
        }],
    }
}

fn verb_of(c: &Command) -> Option<&str> {
    match c.args.get(1) {
        Some(Arg::Symbol(s)) => Some(s.as_str()),
        _ => None,
    }
}

#[test]
fn target_name_appends_suffix() {
    assert_eq!(target_name("Cube"), "Cube.mesh");
}

#[test]
fn target_name_keeps_existing_suffix() {
    assert_eq!(target_name("Gizmo.mesh"), "Gizmo.mesh");
}

#[test]
fn target_name_edge_cases() {
    assert_eq!(target_name(""), ".mesh");
    assert_eq!(target_name(".mesh"), ".mesh");
    assert_eq!(target_name("mesh"), "mesh.mesh");
    assert_eq!(target_name("a.mesh.mesh"), "a.mesh.mesh");
}

#[test]
fn ten_indices_make_three_triangles() {
    let raw: Vec<u16> = vec![0, 1, 2, 3, 4, 5, 6, 7, 8, 9];
    let tris = group_triangles(&raw);
    assert_eq!(
        tris,
        vec![
            Triangle { a: 0, b: 1, c: 2 },
            Triangle { a: 3, b: 4, c: 5 },
            Triangle { a: 6, b: 7, c: 8 },
        ]
    );
}

#[test]
fn trailing_one_or_two_indices_dropped() {
    assert_eq!(group_triangles(&vec![7]), vec![]);
    assert_eq!(group_triangles(&vec![7, 8]), vec![]);
    assert_eq!(
        group_triangles(&vec![7, 8, 9, 1, 2]),
        vec![Triangle { a: 7, b: 8, c: 9 }]
    );
    assert_eq!(group_triangles(&vec![]), vec![]);
}

#[test]
fn unsupported_uv_encoding_reads_empty() {
    let mut p = empty_primitive();
    p.tex_coords0 = Some(TexCoords::U8(vec![[0, 1], [2, 3]]));
    let attrs = read_attributes(&p);
    assert!(attrs.uvs.is_empty());
    p.tex_coords0 = Some(TexCoords::U16(vec![[0, 1]]));
    let attrs = read_attributes(&p);
    assert!(attrs.uvs.is_empty());
}

#[test]
fn float_uv_channel_is_read() {
    let mut p = empty_primitive();
    let uv = Vec2Bits {
        u: 0.25f32.to_bits(),
        v: 0.5f32.to_bits(),
    };
    p.tex_coords0 = Some(TexCoords::F32(vec![uv]));
    let attrs = read_attributes(&p);
    assert_eq!(attrs.uvs, vec![uv]);
}

#[test]
fn unsupported_index_widths_read_empty() {
    let mut p = empty_primitive();
    p.indices = Some(IndexData::U8(vec![0, 1, 2]));
    assert!(read_attributes(&p).triangles.is_empty());
    p.indices = Some(IndexData::U32(vec![0, 1, 2]));
    assert!(read_attributes(&p).triangles.is_empty());
    p.indices = None;
    assert!(read_attributes(&p).triangles.is_empty());
}

#[test]
fn absent_attributes_read_empty() {
    let attrs = read_attributes(&empty_primitive());
    assert!(attrs.positions.is_empty());
    assert!(attrs.normals.is_empty());
    assert!(attrs.uvs.is_empty());
    assert!(attrs.triangles.is_empty());
}

#[test]
fn cube_command_stream() {
    let cmds = mesh_commands(&cube_mesh()).unwrap();
    // create, num_verts, num_faces, 8 positions, 8 normals, no UV commands
    assert_eq!(cmds.len(), 3 + 8 + 8);
    let sym = |s: &str| Arg::Symbol(String::from(s));
    assert_eq!(
        cmds[0].args,
        vec![sym("new"), sym("Mesh"), sym("Cube.mesh")]
    );
    assert_eq!(
        cmds[1].args,
        vec![sym("Cube.mesh"), sym("set"), sym("num_verts"), Arg::UInt(8)]
    );
    assert_eq!(
        cmds[2].args,
        vec![sym("Cube.mesh"), sym("set"), sym("num_faces"), Arg::UInt(12)]
    );
    for i in 0..8 {
        assert_eq!(verb_of(&cmds[3 + i]), Some("set_vert_pos"));
        assert_eq!(cmds[3 + i].args[2], Arg::UInt(i as u32));
        assert_eq!(verb_of(&cmds[11 + i]), Some("set_vert_norm"));
        assert_eq!(cmds[11 + i].args[2], Arg::UInt(i as u32));
    }
    assert!(cmds.iter().all(|c| verb_of(c) != Some("set_vert_uv")));
    assert!(cmds.iter().all(|c| verb_of(c) != Some("set_face")));
}

#[test]
fn position_count_matches_declared_count() {
    let cmds = mesh_commands(&cube_mesh()).unwrap();
    let pos_cmds: Vec<&Command> = cmds
        .iter()
        .filter(|c| verb_of(c) == Some("set_vert_pos"))
        .collect();
    assert_eq!(cmds[1].args[3], Arg::UInt(pos_cmds.len() as u32));
    for (i, c) in pos_cmds.iter().enumerate() {
        assert_eq!(c.args[2], Arg::UInt(i as u32));
    }
}

#[test]
fn missing_mesh_name_is_fatal() {
    let mesh = Mesh {
        name: None,
        primitives: vec![empty_primitive()],
    };
    assert_eq!(mesh_commands(&mesh), Err(WalkError::MissingMeshName));
    let doc = Document {
        scenes: vec![Scene {
            nodes: vec![SceneNode { mesh: Some(mesh) }],
        }],
    };
    assert_eq!(document_commands(&doc), Err(WalkError::MissingMeshName));
}

#[test]
fn node_without_mesh_contributes_nothing() {
    let doc = Document {
        scenes: vec![Scene {
            nodes: vec![SceneNode { mesh: None }, SceneNode { mesh: None }],
        }],
    };
    assert_eq!(document_commands(&doc).unwrap(), vec![]);
}

#[test]
fn empty_document_yields_empty_stream() {
    let doc = Document { scenes: vec![] };
    assert_eq!(document_commands(&doc).unwrap(), vec![]);
}

#[test]
fn empty_primitive_still_emits_header() {
    let doc = Document {
        scenes: vec![Scene {
            nodes: vec![SceneNode {
                mesh: Some(Mesh {
                    name: Some(String::from("Empty")),
                    primitives: vec![empty_primitive()],
                }),
            }],
        }],
    };
    let cmds = document_commands(&doc).unwrap();
    let sym = |s: &str| Arg::Symbol(String::from(s));
    assert_eq!(cmds.len(), 3);
    assert_eq!(
        cmds[0].args,
        vec![sym("new"), sym("Mesh"), sym("Empty.mesh")]
    );
    assert_eq!(
        cmds[1].args,
        vec![sym("Empty.mesh"), sym("set"), sym("num_verts"), Arg::UInt(0)]
    );
    assert_eq!(
        cmds[2].args,
        vec![sym("Empty.mesh"), sym("set"), sym("num_faces"), Arg::UInt(0)]
    );
}

fn two_scene_document() -> Document {
    Document {
        scenes: vec![
            Scene {
                nodes: vec![
                    SceneNode {
                        mesh: Some(cube_mesh()),
                    },
                    SceneNode { mesh: None },
                ],
            },
            Scene {
                nodes: vec![SceneNode {
                    mesh: Some(Mesh {
                        name: Some(String::from("Gizmo.mesh")),
                        primitives: vec![empty_primitive()],
                    }),
                }],
            },
        ],
    }
}

#[test]
fn running_twice_gives_identical_output() {
    let first = document_commands(&two_scene_document()).unwrap();
    let second = document_commands(&two_scene_document()).unwrap();
    assert_eq!(first, second);
}

#[test]
fn document_order_is_preserved() {
    let cmds = document_commands(&two_scene_document()).unwrap();
    // the cube's block comes first, then the second scene's mesh block
    assert_eq!(cmds.len(), 19 + 3);
    let sym = |s: &str| Arg::Symbol(String::from(s));
    assert_eq!(
        cmds[0].args,
        vec![sym("new"), sym("Mesh"), sym("Cube.mesh")]
    );
    // the mesh already named `Gizmo.mesh` keeps its name unduplicated
    assert_eq!(
        cmds[19].args,
        vec![sym("new"), sym("Mesh"), sym("Gizmo.mesh")]
    );
}
