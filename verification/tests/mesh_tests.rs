use orbits::scalar::Scalar;
use orbits::vector::Vec3;
use orbits::{MeshBuffers, MeshError};

fn sc(text: &str) -> Scalar {
    Scalar::from_text(text)
}

fn point(x: &str, y: &str, z: &str) -> Vec3 {
    Vec3::new(sc(x), sc(y), sc(z))
}

fn val(s: &Scalar) -> f64 {
    s.as_text().parse::<f64>().unwrap()
}

fn live_faces(mesh: &MeshBuffers) -> usize {
    mesh.indices.len() / 3 - mesh.unused_indices.slots.len()
}

#[test]
fn add_vertex_reuses_free_slots() {
    let mut mesh = MeshBuffers::new();
    let a = mesh.add_vertex(point("1", "0", "0"));
    let b = mesh.add_vertex(point("0", "1", "0"));
    assert_eq!((a, b), (0, 1));
    mesh.remove_vertex(a);
    assert!(!mesh.is_vertex_live(a));
    let c = mesh.add_vertex(point("5", "5", "5"));
    assert_eq!(c, a, "freed slot is reused");
    assert!(mesh.is_vertex_live(c));
    assert_eq!(mesh.vertices.len(), 2);
    assert_eq!(val(&mesh.get_vertex(c).x), 5.0);
}

#[test]
fn face_reference_counting_and_free_lists() {
    let mut mesh = MeshBuffers::new();
    let a = mesh.add_vertex(point("0", "0", "0"));
    let b = mesh.add_vertex(point("1", "0", "0"));
    let c = mesh.add_vertex(point("0", "1", "0"));
    let f = mesh.add_face(a, b, c);
    assert!(mesh.is_face_live(f));
    assert_eq!(mesh.rc_value(a), 1);
    assert_eq!(mesh.rc_value(b), 1);
    assert_eq!(mesh.rc_value(c), 1);
    assert_eq!(live_faces(&mesh), 1);

    mesh.remove_face_and_vertices(f).unwrap();
    assert!(!mesh.is_face_live(f));
    assert_eq!(live_faces(&mesh), 0);
    // every corner's count reached zero, so every corner was freed
    for v in [a, b, c] {
        assert_eq!(mesh.rc_value(v), 0);
        assert!(!mesh.is_vertex_live(v));
        assert!(mesh.unused_vertices.slots.contains(&v));
    }
}

#[test]
fn refcount_zero_iff_on_free_list() {
    let mut mesh = MeshBuffers::new();
    let a = mesh.add_vertex(point("0", "0", "0"));
    let b = mesh.add_vertex(point("1", "0", "0"));
    let c = mesh.add_vertex(point("0", "1", "0"));
    let d = mesh.add_vertex(point("1", "1", "0"));
    let f1 = mesh.add_face(a, b, c);
    let f2 = mesh.add_face(b, c, d);
    assert_eq!(mesh.rc_value(b), 2);
    mesh.remove_face_and_vertices(f1).unwrap();
    // a reached zero and is free; b and c are still held by the other face
    for v in 0..mesh.vertices.len() as u32 {
        let on_free_list = mesh.unused_vertices.slots.contains(&v);
        assert_eq!(on_free_list, mesh.rc_value(v) == 0, "vertex {}", v);
    }
    assert!(!mesh.is_vertex_live(a));
    assert!(mesh.is_vertex_live(b));
    mesh.remove_face_and_vertices(f2).unwrap();
    for v in 0..mesh.vertices.len() as u32 {
        let on_free_list = mesh.unused_vertices.slots.contains(&v);
        assert_eq!(on_free_list, mesh.rc_value(v) == 0, "vertex {}", v);
    }
}

#[test]
fn refcount_underflow_is_refused() {
    let mut mesh = MeshBuffers::new();
    mesh.add_vertex(point("0", "0", "0"));
    mesh.add_vertex(point("1", "0", "0"));
    mesh.add_vertex(point("0", "1", "0"));
    // a face written directly into the buffers, with no counts recorded
    mesh.indices.push(0);
    mesh.indices.push(1);
    mesh.indices.push(2);
    let before = mesh.vertex_rc.counts.clone();
    let r = mesh.remove_face_and_vertices(0);
    assert_eq!(r.err().unwrap(), MeshError::RefcountUnderflow);
    assert_eq!(mesh.vertex_rc.counts, before, "buffers unchanged on refusal");
    assert!(mesh.is_face_live(0));
}

#[test]
fn freeing_a_still_referenced_vertex_is_refused() {
    let mut mesh = MeshBuffers::new();
    let a = mesh.add_vertex(point("0", "0", "0"));
    let b = mesh.add_vertex(point("1", "0", "0"));
    let c = mesh.add_vertex(point("0", "1", "0"));
    let d = mesh.add_vertex(point("1", "1", "0"));
    let f1 = mesh.add_face(a, b, c);
    let _f2 = mesh.add_face(b, c, d);
    // forge b's count down to one although two live faces reference it
    mesh.vertex_rc.counts[b as usize] = 1;
    let r = mesh.remove_face_and_vertices(f1);
    assert_eq!(r.err().unwrap(), MeshError::InvalidVertex);
}

#[test]
fn midpoint_cache_is_symmetric() {
    let mut mesh = MeshBuffers::new();
    let a = mesh.add_vertex(point("0", "0", "0"));
    let b = mesh.add_vertex(point("2", "4", "6"));
    let m1 = mesh.get_midpoint(a, b);
    let m2 = mesh.get_midpoint(b, a);
    assert_eq!(m1, m2, "both orders of the pair name the same midpoint");
    assert_eq!(val(&mesh.get_vertex(m1).x), 1.0);
    assert_eq!(val(&mesh.get_vertex(m1).y), 2.0);
    assert_eq!(val(&mesh.get_vertex(m1).z), 3.0);
    // asking again recomputes nothing
    assert_eq!(mesh.vertices.len(), 3);
    assert_eq!(mesh.get_midpoint(a, b), m1);
    assert_eq!(mesh.vertices.len(), 3);
}

#[test]
fn removing_an_endpoint_invalidates_the_midpoint_cache() {
    let mut mesh = MeshBuffers::new();
    let a = mesh.add_vertex(point("0", "0", "0"));
    let b = mesh.add_vertex(point("2", "4", "6"));
    let m = mesh.get_midpoint(a, b);
    assert_eq!(mesh.cache.entries.len(), 1);
    mesh.remove_vertex(a);
    assert_eq!(mesh.cache.entries.len(), 0, "entry mentioning a was dropped");
    // a's slot is reborn with a different position; the midpoint must be
    // recomputed, not served stale
    let a2 = mesh.add_vertex(point("10", "10", "10"));
    assert_eq!(a2, a);
    let m2 = mesh.get_midpoint(a2, b);
    assert_ne!(m2, m, "stale cached index must not come back");
    assert_eq!(val(&mesh.get_vertex(m2).x), 6.0);
}

#[test]
fn removing_the_midpoint_vertex_invalidates_its_entry() {
    let mut mesh = MeshBuffers::new();
    let a = mesh.add_vertex(point("0", "0", "0"));
    let b = mesh.add_vertex(point("2", "0", "0"));
    let m = mesh.get_midpoint(a, b);
    mesh.remove_vertex(m);
    assert_eq!(mesh.cache.entries.len(), 0);
    let m2 = mesh.get_midpoint(a, b);
    assert_eq!(m2, m, "the freed slot itself is reused for the new midpoint");
    assert!(mesh.is_vertex_live(m2));
}

#[test]
fn replace_face_overwrites_in_place() {
    let mut mesh = MeshBuffers::new();
    let a = mesh.add_vertex(point("0", "0", "0"));
    let b = mesh.add_vertex(point("1", "0", "0"));
    let c = mesh.add_vertex(point("0", "1", "0"));
    let d = mesh.add_vertex(point("1", "1", "0"));
    let f = mesh.add_face(a, b, c);
    mesh.replace_face(f, a, b, d);
    assert_eq!(mesh.get_face(f), (a, b, d));
    assert_eq!(mesh.rc_value(a), 2, "replace adds counts; the caller settles the old ones");
    assert_eq!(mesh.rc_value(c), 1);
    assert_eq!(mesh.rc_value(d), 1);
    assert_eq!(live_faces(&mesh), 1);
}

#[test]
fn subdivide_face_produces_four_to_the_lod_faces() {
    let mut mesh = MeshBuffers::new();
    let a = mesh.add_vertex(point("0", "0", "0"));
    let b = mesh.add_vertex(point("4", "0", "0"));
    let c = mesh.add_vertex(point("0", "4", "0"));
    let f = mesh.add_face(a, b, c);
    let (second_level, faces) = mesh.subdivide_face(f, 2);
    assert_eq!(faces.len(), 16);
    assert_eq!(live_faces(&mesh), 16);
    // a two-level subdivision of one triangle has 15 distinct vertices
    assert_eq!(mesh.vertices.len(), 15);
    // the recorded first-level midpoints are the edge midpoints
    let m_ab = second_level[0];
    assert_eq!(val(&mesh.get_vertex(m_ab).x), 2.0);
    assert_eq!(val(&mesh.get_vertex(m_ab).y), 0.0);
    for p in faces {
        assert!(mesh.is_face_live(p));
    }
}

#[test]
fn clear_all_resets_every_buffer() {
    let mut mesh = MeshBuffers::new();
    let a = mesh.add_vertex(point("0", "0", "0"));
    let b = mesh.add_vertex(point("4", "0", "0"));
    let c = mesh.add_vertex(point("0", "4", "0"));
    let f = mesh.add_face(a, b, c);
    mesh.subdivide_face(f, 1);
    mesh.clear_all();
    assert_eq!(mesh.vertices.len(), 0);
    assert_eq!(mesh.indices.len(), 0);
    assert_eq!(mesh.unused_vertices.slots.len(), 0);
    assert_eq!(mesh.unused_indices.slots.len(), 0);
    assert_eq!(mesh.vertex_rc.counts.len(), 0);
    assert_eq!(mesh.cache.entries.len(), 0);
}
