use cgmath::{Deg, InnerSpace, Matrix4, Quaternion, Rotation3, Vector3};
use render_core::instances::{build_instances, Instance, Rotation};

#[test]
fn grid_has_cubed_count() {
    assert_eq!(build_instances(10).len(), 1000);
    assert_eq!(build_instances(3).len(), 27);
    assert_eq!(build_instances(0).len(), 0);
}

#[test]
fn grid_centre_is_identity() {
    let v = build_instances(10);
    // cell (x, y, z) = (5, 5, 5) sits at index (z * 10 + x) * 10 + y.
    let centre = &v[(5 * 10 + 5) * 10 + 5];
    assert_eq!(centre.x2, 0);
    assert_eq!(centre.y2, 0);
    assert_eq!(centre.z2, 0);
    assert_eq!(centre.rotation, Rotation::Identity);
    let identities = v.iter().filter(|i| i.rotation == Rotation::Identity).count();
    assert_eq!(identities, 1);
}

#[test]
fn grid_corner_position() {
    let v = build_instances(10);
    // cell (0, 0, 0): world position 3 * (0 - 10 / 2) = -15 per axis,
    // stored doubled as -30.
    assert_eq!(
        v[0],
        Instance { x2: -30, y2: -30, z2: -30, rotation: Rotation::AboutPosition }
    );
}

#[test]
fn grid_order_matches_cell_index() {
    let v = build_instances(10);
    // cell (x, y, z) = (1, 2, 3): index 311, doubled coordinates
    // 3 * (2c - 10) per axis.
    let inst = &v[(3 * 10 + 1) * 10 + 2];
    assert_eq!(inst.x2, -24);
    assert_eq!(inst.y2, -18);
    assert_eq!(inst.z2, -12);
    assert_eq!(inst.rotation, Rotation::AboutPosition);
}

#[test]
fn grid_odd_side_has_no_identity() {
    let v = build_instances(3);
    assert!(v.iter().all(|i| i.rotation == Rotation::AboutPosition));
}

fn raw_transform(inst: &Instance) -> [[f32; 4]; 4] {
    let pos = Vector3::new(
        inst.x2 as f32 / 2.0,
        inst.y2 as f32 / 2.0,
        inst.z2 as f32 / 2.0,
    );
    let rot = match inst.rotation {
        Rotation::Identity => Quaternion::from_axis_angle(Vector3::unit_z(), Deg(0.0)),
        Rotation::AboutPosition => Quaternion::from_axis_angle(pos.normalize(), Deg(45.0)),
    };
    (Matrix4::from_translation(pos) * Matrix4::from(rot)).into()
}

#[test]
fn raw_transform_deterministic() {
    for inst in build_instances(10) {
        let a = raw_transform(&inst);
        let b = raw_transform(&inst);
        for row in 0..4 {
            for col in 0..4 {
                assert_eq!(a[row][col].to_bits(), b[row][col].to_bits());
            }
        }
    }
}
