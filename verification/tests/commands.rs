use meshcmd::command::{
    cmd_new_mesh, cmd_set_face, cmd_set_num_faces, cmd_set_num_verts, cmd_set_vert_norm,
    cmd_set_vert_pos, cmd_set_vert_uv, Arg, Triangle, Vec2Bits, Vec3Bits,
};

fn sym(s: &str) -> Arg {
    Arg::Symbol(String::from(s))
}

#[test]
fn new_mesh_command_shape() {
    let c = cmd_new_mesh("Cube.mesh");
    assert_eq!(c.args, vec![sym("new"), sym("Mesh"), sym("Cube.mesh")]);
}

#[test]
fn num_verts_command_shape() {
    let c = cmd_set_num_verts("Cube.mesh", 8);
    assert_eq!(
        c.args,
        vec![sym("Cube.mesh"), sym("set"), sym("num_verts"), Arg::UInt(8)]
    );
}

#[test]
fn num_faces_command_shape() {
    let c = cmd_set_num_faces("Cube.mesh", 12);
    assert_eq!(
        c.args,
        vec![sym("Cube.mesh"), sym("set"), sym("num_faces"), Arg::UInt(12)]
    );
}

#[test]
fn vert_pos_command_shape() {
    let p = Vec3Bits {
        x: 1.5f32.to_bits(),
        y: (-2.0f32).to_bits(),
        z: 0.25f32.to_bits(),
    };
    let c = cmd_set_vert_pos("Cube.mesh", 3, p);
    assert_eq!(
        c.args,
        vec![
            sym("Cube.mesh"),
            sym("set_vert_pos"),
            Arg::UInt(3),
            Arg::FloatBits(1.5f32.to_bits()),
            Arg::FloatBits((-2.0f32).to_bits()),
            Arg::FloatBits(0.25f32.to_bits()),
        ]
    );
}

#[test]
fn vert_norm_command_shape() {
    let n = Vec3Bits {
        x: 0.0f32.to_bits(),
        y: 1.0f32.to_bits(),
        z: 0.0f32.to_bits(),
    };
    let c = cmd_set_vert_norm("Cube.mesh", 7, n);
    assert_eq!(
        c.args,
        vec![
            sym("Cube.mesh"),
            sym("set_vert_norm"),
            Arg::UInt(7),
            Arg::FloatBits(0.0f32.to_bits()),
            Arg::FloatBits(1.0f32.to_bits()),
            Arg::FloatBits(0.0f32.to_bits()),
        ]
    );
}

#[test]
fn vert_uv_command_shape() {
    let uv = Vec2Bits {
        u: 0.5f32.to_bits(),
        v: 0.75f32.to_bits(),
    };
    let c = cmd_set_vert_uv("Cube.mesh", 2, uv);
    assert_eq!(
        c.args,
        vec![
            sym("Cube.mesh"),
            sym("set_vert_uv"),
            Arg::UInt(2),
            Arg::FloatBits(0.5f32.to_bits()),
            Arg::FloatBits(0.75f32.to_bits()),
        ]
    );
}

#[test]
fn face_command_shape() {
    let t = Triangle { a: 0, b: 1, c: 2 };
    let c = cmd_set_face("Cube.mesh", 5, t);
    assert_eq!(
        c.args,
        vec![
            sym("Cube.mesh"),
            sym("set_face"),
            Arg::UInt(5),
            Arg::UInt(0),
            Arg::UInt(1),
            Arg::UInt(2),
        ]
    );
}
