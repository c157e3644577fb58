use orbits::planet::build_planet_views;
use orbits::scalar::Scalar;
use orbits::vector::Vec3;
use orbits::MeshError;

fn sc(text: &str) -> Scalar {
    Scalar::from_text(text)
}

fn val(s: &Scalar) -> f64 {
    s.as_text().parse::<f64>().unwrap()
}

fn live_faces(mesh: &orbits::MeshBuffers) -> usize {
    mesh.indices.len() / 3 - mesh.unused_indices.slots.len()
}

#[test]
fn planet_has_twenty_root_chunks() {
    let bundles = build_planet_views(&sc("1000"));
    assert_eq!(bundles.len(), 20);
    for b in &bundles {
        assert!(b.chunk.is_root);
        assert_eq!(b.chunk.lod, 1);
        assert_eq!(b.chunk.faces.len(), 16);
        assert_eq!(live_faces(&b.mesh), 16);
        assert_eq!(b.mesh.vertices.len(), 15);
        // the chunk sits on the sphere of the planet radius
        let p = &b.chunk.position;
        let norm = (val(&p.x).powi(2) + val(&p.y).powi(2) + val(&p.z).powi(2)).sqrt();
        assert!((norm - 1000.0).abs() < 1e-6, "chunk centroid norm {}", norm);
    }
}

#[test]
fn corner_positions_scale_with_the_radius() {
    let bundles = build_planet_views(&sc("1000"));
    let mesh = &bundles[0].mesh;
    let corner = mesh.get_vertex(bundles[0].chunk.first_level_vertices[0]);
    let phi = 1.618033988749894848204586834365638118f64;
    assert!((val(&corner.x) - phi * 1000.0).abs() < 1e-9);
    assert!((val(&corner.y) - 1000.0).abs() < 1e-9);
    assert_eq!(val(&corner.z), 0.0);
}

#[test]
fn subdivide_and_undivide_conserve_the_face_count() {
    let mut bundles = build_planet_views(&sc("1000"));
    let b = &mut bundles[0];
    assert_eq!(live_faces(&b.mesh), 16);

    b.chunk.subdivide(&mut b.mesh).unwrap();
    assert_eq!(b.chunk.children.len(), 4);
    assert_eq!(live_faces(&b.mesh), 64);

    b.chunk.undivide(&mut b.mesh).unwrap();
    assert_eq!(b.chunk.children.len(), 0);
    assert_eq!(b.chunk.faces.len(), 16);
    assert_eq!(live_faces(&b.mesh), 16);
}

#[test]
fn repeated_subdivision_reaches_a_fixed_point() {
    let mut bundles = build_planet_views(&sc("1000"));
    let b = &mut bundles[0];

    b.chunk.subdivide(&mut b.mesh).unwrap();
    b.chunk.undivide(&mut b.mesh).unwrap();
    let vertices_len = b.mesh.vertices.len();
    let indices_len = b.mesh.indices.len();
    let free_vertices = b.mesh.unused_vertices.slots.len();
    let free_faces = b.mesh.unused_indices.slots.len();

    for _ in 0..3 {
        b.chunk.subdivide(&mut b.mesh).unwrap();
        b.chunk.undivide(&mut b.mesh).unwrap();
        assert_eq!(b.mesh.vertices.len(), vertices_len, "vertex buffer must not grow");
        assert_eq!(b.mesh.indices.len(), indices_len, "index buffer must not grow");
        assert_eq!(b.mesh.unused_vertices.slots.len(), free_vertices);
        assert_eq!(b.mesh.unused_indices.slots.len(), free_faces);
        assert_eq!(live_faces(&b.mesh), 16);
    }
}

#[test]
fn non_root_undivide_restores_the_parent_faces() {
    let mut bundles = build_planet_views(&sc("1000"));
    let b = &mut bundles[0];
    b.chunk.subdivide(&mut b.mesh).unwrap();
    let child = &mut b.chunk.children[0];
    child.subdivide(&mut b.mesh).unwrap();
    assert_eq!(child.children.len(), 4);
    let before = live_faces(&b.mesh);

    child.undivide(&mut b.mesh).unwrap();
    assert_eq!(child.children.len(), 0);
    assert_eq!(child.faces.len(), 16);
    assert_eq!(live_faces(&b.mesh), before - 48);
}

#[test]
fn undivide_over_divided_grandchildren_fails_loudly() {
    let mut bundles = build_planet_views(&sc("1000"));
    let b = &mut bundles[0];
    b.chunk.subdivide(&mut b.mesh).unwrap();
    let child = &mut b.chunk.children[0];
    child.subdivide(&mut b.mesh).unwrap();
    child.children[0].subdivide(&mut b.mesh).unwrap();

    let r = child.undivide(&mut b.mesh);
    assert_eq!(r.err().unwrap(), MeshError::ChildrenNotLeaves);
}

#[test]
fn clearing_a_tampered_chunk_fails_loudly() {
    let mut bundles = build_planet_views(&sc("1000"));
    let b = &mut bundles[0];
    // forge one of the chunk's faces onto the free list behind its back
    let face = b.chunk.faces[0];
    b.mesh.unused_indices.slots.push(face);
    let r = b.chunk.subdivide(&mut b.mesh);
    assert_eq!(r.err().unwrap(), MeshError::InvalidFace);
}

#[test]
fn camera_distance_drives_division_and_hysteresis() {
    let mut bundles = build_planet_views(&sc("1000"));
    let b = &mut bundles[0];

    // far away: a leaf stays a leaf
    let far = Vec3::new(sc("1e6"), sc("1e6"), sc("1e6"));
    b.chunk.divide_or_undivide(&mut b.mesh, &far).unwrap();
    assert_eq!(b.chunk.children.len(), 0);

    // eight thousand meters out from the chunk centroid: inside the root's
    // subdivide threshold but outside its children's, so exactly one level
    // divides
    let near = b.chunk.position.scale(&sc("9"));
    b.chunk.divide_or_undivide(&mut b.mesh, &near).unwrap();
    assert_eq!(b.chunk.children.len(), 4);
    for child in &b.chunk.children {
        assert_eq!(child.children.len(), 0);
    }

    // far again: the whole tree collapses back to the root's own faces
    b.chunk.divide_or_undivide(&mut b.mesh, &far).unwrap();
    assert_eq!(b.chunk.children.len(), 0);
    assert_eq!(live_faces(&b.mesh), 16);
}
