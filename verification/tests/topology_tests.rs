//! Mesh topology: exact vertex and triangle counts for the primitives and
//! index validity everywhere.

use gdml_studio::parser::parse_gdml_from_bytes;
use gdml_studio::topology::{
    box_topology, cone_topology, sphere_topology, tessellation_names, tube_topology,
    TriangleTopology,
};

fn check_valid(t: &TriangleTopology) {
    assert_eq!(t.indices.len() % 3, 0);
    for &ix in &t.indices {
        assert!(ix < t.vertex_count, "index {} out of range {}", ix, t.vertex_count);
    }
}

#[test]
fn box_has_24_vertices_and_12_triangles() {
    let t = box_topology();
    assert_eq!(t.vertex_count, 24);
    assert_eq!(t.indices.len(), 36);
    check_valid(&t);
    // the first face: two triangles over vertices 0..4
    assert_eq!(&t.indices[0..6], &[0, 1, 2, 0, 2, 3]);
    // the last face: two triangles over vertices 20..24
    assert_eq!(&t.indices[30..36], &[20, 21, 22, 20, 22, 23]);
}

#[test]
fn full_solid_tube_counts() {
    // rmin = 0, full phi, 8 segments: side strip, top fan, bottom fan
    let t = tube_topology(false, true, 8);
    // 16 side + 8 top + 8 bottom triangles
    assert_eq!(t.indices.len(), 3 * 32);
    // side ring pairs (18), a fan centre and rim per cap (10 each)
    assert_eq!(t.vertex_count, 18 + 10 + 10);
    check_valid(&t);
    // the first side quad
    assert_eq!(&t.indices[0..6], &[0, 2, 3, 0, 3, 1]);
}

#[test]
fn hollow_partial_tube_counts() {
    // rmin > 0, half sweep, 8 segments: both strips, two annular caps,
    // two wedge faces
    let t = tube_topology(true, false, 8);
    assert_eq!(t.indices.len(), 3 * (16 + 16 + 16 + 16 + 4));
    assert_eq!(t.vertex_count, 18 * 4 + 8);
    check_valid(&t);
}

#[test]
fn tube_segment_clamp() {
    // segment counts below 3 are clamped to 3
    let t = tube_topology(false, true, 1);
    assert_eq!(t.indices.len(), 3 * (6 + 3 + 3));
    assert_eq!(t.vertex_count, 8 + 5 + 5);
    check_valid(&t);
}

#[test]
fn cone_topologies() {
    // hollow full cone: like the hollow tube
    let t = cone_topology(true, true, true, true, 8);
    assert_eq!(t.indices.len(), 3 * (16 + 16 + 16 + 16));
    assert_eq!(t.vertex_count, 18 * 4);
    check_valid(&t);
    // solid partial cone with both disks
    let t = cone_topology(false, false, true, true, 8);
    assert_eq!(t.indices.len(), 3 * (16 + 8 + 8 + 4));
    assert_eq!(t.vertex_count, 18 + 10 + 10 + 8);
    check_valid(&t);
    // a cone tapering to a point has no top disk
    let t = cone_topology(false, true, false, true, 8);
    assert_eq!(t.indices.len(), 3 * (16 + 8));
    assert_eq!(t.vertex_count, 18 + 10);
    check_valid(&t);
}

#[test]
fn sphere_topologies() {
    // full solid sphere, 8 segments: an 8 x 4 quad grid
    let t = sphere_topology(false, true, false, false, 8);
    assert_eq!(t.vertex_count, 5 * 9);
    assert_eq!(t.indices.len(), 3 * 64);
    check_valid(&t);
    // hollow partial sphere with both polar cuts
    let t = sphere_topology(true, false, true, true, 8);
    assert_eq!(t.vertex_count, 45 + 45 + 4 * 5 + 18 + 18);
    assert_eq!(t.indices.len(), 3 * (64 + 64 + 16 + 16 + 16));
    check_valid(&t);
    // solid wedge with caps: fans at the cuts
    let t = sphere_topology(false, false, true, true, 8);
    assert_eq!(t.vertex_count, 45 + 20 + 10 + 10);
    assert_eq!(t.indices.len(), 3 * (64 + 16 + 8 + 8));
    check_valid(&t);
}

#[test]
fn sphere_segment_clamp() {
    let t = sphere_topology(false, true, false, false, 1);
    // clamped to 4 phi segments and 2 theta segments
    assert_eq!(t.vertex_count, 3 * 5);
    assert_eq!(t.indices.len(), 3 * 16);
    check_valid(&t);
}

#[test]
fn one_mesh_planned_per_solid() {
    let doc = parse_gdml_from_bytes(
        br#"<gdml><solids>
            <box name="b" x="1" y="1" z="1"/>
            <tube name="t" rmax="5" z="10"/>
            <cone name="c" rmax1="1" rmax2="2" z="3"/>
            <sphere name="s" rmax="4"/>
        </solids></gdml>"#,
        String::from("t.gdml"),
    )
    .unwrap();
    let names = tessellation_names(&doc.solids);
    assert_eq!(names.len(), doc.solids.solids.len());
    assert_eq!(
        names,
        vec![String::from("b"), String::from("t"), String::from("c"), String::from("s")]
    );
}
