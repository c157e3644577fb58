use vstd::prelude::*;

use crate::chunk::Chunk;
use crate::chunk::CHUNK_LOD;
use crate::mesh::MeshBuffers;
use crate::mesh::pow4;
use crate::scalar::Scalar;
use crate::vector::Vec3;
use crate::vector::Vec3View;
use crate::vector::vscale;

verus! {

// Construction of a planet's render state: twenty root chunks, one per face
// of an icosahedron scaled to the planet radius, each owning its own shared
// mesh buffers.

/// The corner coordinates of a unit icosahedron, built from the golden
/// ratio.  `which` names one of the twelve vertices.
pub open spec fn icosahedron_corner_view(which: int) -> Vec3View {
    if which == 0 {
        (Vec3View { x: "1.618033988749894848204586834365638118"@, y: "1"@, z: "0"@ })
    } else if which == 1 {
        (Vec3View { x: "1.618033988749894848204586834365638118"@, y: "-1"@, z: "0"@ })
    } else if which == 2 {
        (Vec3View { x: "-1.618033988749894848204586834365638118"@, y: "1"@, z: "0"@ })
    } else if which == 3 {
        (Vec3View { x: "-1.618033988749894848204586834365638118"@, y: "-1"@, z: "0"@ })
    } else if which == 4 {
        (Vec3View { x: "0"@, y: "1.618033988749894848204586834365638118"@, z: "1"@ })
    } else if which == 5 {
        (Vec3View { x: "0"@, y: "1.618033988749894848204586834365638118"@, z: "-1"@ })
    } else if which == 6 {
        (Vec3View { x: "0"@, y: "-1.618033988749894848204586834365638118"@, z: "1"@ })
    } else if which == 7 {
        (Vec3View { x: "0"@, y: "-1.618033988749894848204586834365638118"@, z: "-1"@ })
    } else if which == 8 {
        (Vec3View { x: "1"@, y: "0"@, z: "1.618033988749894848204586834365638118"@ })
    } else if which == 9 {
        (Vec3View { x: "1"@, y: "0"@, z: "-1.618033988749894848204586834365638118"@ })
    } else if which == 10 {
        (Vec3View { x: "-1"@, y: "0"@, z: "1.618033988749894848204586834365638118"@ })
    } else {
        (Vec3View { x: "-1"@, y: "0"@, z: "-1.618033988749894848204586834365638118"@ })
    }
}

/// The three icosahedron corners of face `face`, in winding order.
pub open spec fn icosahedron_face_view(face: int) -> (int, int, int) {
    if face == 0 {
        (0 as int, 4 as int, 8 as int)
    } else if face == 1 {
        (0 as int, 9 as int, 5 as int)
    } else if face == 2 {
        (1 as int, 8 as int, 6 as int)
    } else if face == 3 {
        (1 as int, 7 as int, 9 as int)
    } else if face == 4 {
        (2 as int, 10 as int, 4 as int)
    } else if face == 5 {
        (2 as int, 5 as int, 11 as int)
    } else if face == 6 {
        (3 as int, 6 as int, 10 as int)
    } else if face == 7 {
        (3 as int, 11 as int, 7 as int)
    } else if face == 8 {
        (0 as int, 8 as int, 1 as int)
    } else if face == 9 {
        (0 as int, 1 as int, 9 as int)
    } else if face == 10 {
        (2 as int, 3 as int, 10 as int)
    } else if face == 11 {
        (2 as int, 11 as int, 3 as int)
    } else if face == 12 {
        (8 as int, 4 as int, 10 as int)
    } else if face == 13 {
        (9 as int, 11 as int, 5 as int)
    } else if face == 14 {
        (8 as int, 10 as int, 6 as int)
    } else if face == 15 {
        (9 as int, 7 as int, 11 as int)
    } else if face == 16 {
        (4 as int, 5 as int, 2 as int)
    } else if face == 17 {
        (5 as int, 4 as int, 0 as int)
    } else if face == 18 {
        (6 as int, 7 as int, 1 as int)
    } else {
        (7 as int, 6 as int, 3 as int)
    }
}

/// One corner of the unit icosahedron.
pub fn icosahedron_corner(which: usize) -> (v: Vec3)
    requires
        which < 12,
    ensures
        v@ == icosahedron_corner_view(which as int),
{
        if which == 0 {
            Vec3::new(Scalar::from_text("1.618033988749894848204586834365638118"), Scalar::from_text("1"), Scalar::from_text("0"))
        } else if which == 1 {
            Vec3::new(Scalar::from_text("1.618033988749894848204586834365638118"), Scalar::from_text("-1"), Scalar::from_text("0"))
        } else if which == 2 {
            Vec3::new(Scalar::from_text("-1.618033988749894848204586834365638118"), Scalar::from_text("1"), Scalar::from_text("0"))
        } else if which == 3 {
            Vec3::new(Scalar::from_text("-1.618033988749894848204586834365638118"), Scalar::from_text("-1"), Scalar::from_text("0"))
        } else if which == 4 {
            Vec3::new(Scalar::from_text("0"), Scalar::from_text("1.618033988749894848204586834365638118"), Scalar::from_text("1"))
        } else if which == 5 {
            Vec3::new(Scalar::from_text("0"), Scalar::from_text("1.618033988749894848204586834365638118"), Scalar::from_text("-1"))
        } else if which == 6 {
            Vec3::new(Scalar::from_text("0"), Scalar::from_text("-1.618033988749894848204586834365638118"), Scalar::from_text("1"))
        } else if which == 7 {
            Vec3::new(Scalar::from_text("0"), Scalar::from_text("-1.618033988749894848204586834365638118"), Scalar::from_text("-1"))
        } else if which == 8 {
            Vec3::new(Scalar::from_text("1"), Scalar::from_text("0"), Scalar::from_text("1.618033988749894848204586834365638118"))
        } else if which == 9 {
            Vec3::new(Scalar::from_text("1"), Scalar::from_text("0"), Scalar::from_text("-1.618033988749894848204586834365638118"))
        } else if which == 10 {
            Vec3::new(Scalar::from_text("-1"), Scalar::from_text("0"), Scalar::from_text("1.618033988749894848204586834365638118"))
        } else {
            Vec3::new(Scalar::from_text("-1"), Scalar::from_text("0"), Scalar::from_text("-1.618033988749894848204586834365638118"))
        }
}

/// The corner numbers of one icosahedron face.
pub fn icosahedron_face(face: usize) -> (r: (usize, usize, usize))
    requires
        face < 20,
    ensures
        r.0 as int == icosahedron_face_view(face as int).0,
        r.1 as int == icosahedron_face_view(face as int).1,
        r.2 as int == icosahedron_face_view(face as int).2,
        r.0 < 12 && r.1 < 12 && r.2 < 12,
{
        if face == 0 {
            (0, 4, 8)
        } else if face == 1 {
            (0, 9, 5)
        } else if face == 2 {
            (1, 8, 6)
        } else if face == 3 {
            (1, 7, 9)
        } else if face == 4 {
            (2, 10, 4)
        } else if face == 5 {
            (2, 5, 11)
        } else if face == 6 {
            (3, 6, 10)
        } else if face == 7 {
            (3, 11, 7)
        } else if face == 8 {
            (0, 8, 1)
        } else if face == 9 {
            (0, 1, 9)
        } else if face == 10 {
            (2, 3, 10)
        } else if face == 11 {
            (2, 11, 3)
        } else if face == 12 {
            (8, 4, 10)
        } else if face == 13 {
            (9, 11, 5)
        } else if face == 14 {
            (8, 10, 6)
        } else if face == 15 {
            (9, 7, 11)
        } else if face == 16 {
            (4, 5, 2)
        } else if face == 17 {
            (5, 4, 0)
        } else if face == 18 {
            (6, 7, 1)
        } else {
            (7, 6, 3)
        }
}

/// One root chunk together with the shared mesh buffers it and its future
/// descendants mutate.
#[derive(Debug)]
pub struct PlanetViewBundle {
    pub chunk: Chunk,
    pub mesh: MeshBuffers,
}

/// Builds the twenty root chunks of a planet of the given radius: each face
/// of the icosahedron, scaled by the radius, becomes a root chunk with its
/// own buffers, subdivided to its base depth.
pub fn build_planet_views(radius: &Scalar) -> (r: Vec<PlanetViewBundle>)
    ensures
        r@.len() == 20,
        forall|k: int|
            0 <= k < 20 ==> {
                let b = #[trigger] r@[k];
                &&& b.chunk.tree_wf()
                &&& b.mesh.wf()
                &&& b.chunk.is_root
                &&& b.chunk.lod == 1
                &&& b.chunk.children@.len() == 0
                &&& b.chunk.radius@ == radius@
                &&& b.mesh.live_face_count() == pow4(CHUNK_LOD as nat)
                &&& b.chunk.first_level_vertices@[0] == 0
                &&& b.chunk.first_level_vertices@[1] == 1
                &&& b.chunk.first_level_vertices@[2] == 2
                &&& b.mesh.vertices@[0]@ == vscale(
                    icosahedron_corner_view(icosahedron_face_view(k).0),
                    radius@,
                )
                &&& b.mesh.vertices@[1]@ == vscale(
                    icosahedron_corner_view(icosahedron_face_view(k).1),
                    radius@,
                )
                &&& b.mesh.vertices@[2]@ == vscale(
                    icosahedron_corner_view(icosahedron_face_view(k).2),
                    radius@,
                )
            },
{
    let mut out: Vec<PlanetViewBundle> = Vec::new();
    let mut face: usize = 0;
    while face < 20
        invariant
            face <= 20,
            out@.len() == face,
            forall|k: int|
                0 <= k < face ==> {
                    let b = #[trigger] out@[k];
                    &&& b.chunk.tree_wf()
                    &&& b.mesh.wf()
                    &&& b.chunk.is_root
                    &&& b.chunk.lod == 1
                    &&& b.chunk.children@.len() == 0
                    &&& b.chunk.radius@ == radius@
                    &&& b.mesh.live_face_count() == pow4(CHUNK_LOD as nat)
                    &&& b.chunk.first_level_vertices@[0] == 0
                    &&& b.chunk.first_level_vertices@[1] == 1
                    &&& b.chunk.first_level_vertices@[2] == 2
                    &&& b.mesh.vertices@[0]@ == vscale(
                    icosahedron_corner_view(icosahedron_face_view(k).0),
                    radius@,
                    )
                    &&& b.mesh.vertices@[1]@ == vscale(
                    icosahedron_corner_view(icosahedron_face_view(k).1),
                    radius@,
                    )
                    &&& b.mesh.vertices@[2]@ == vscale(
                    icosahedron_corner_view(icosahedron_face_view(k).2),
                    radius@,
                    )
                },
        decreases 20 - face,
    {
        let (ia, ib, ic) = icosahedron_face(face);
        let pa = icosahedron_corner(ia).scale(radius);
        let pb = icosahedron_corner(ib).scale(radius);
        let pc = icosahedron_corner(ic).scale(radius);
        let mut mesh = MeshBuffers::new();
        let ghost qa = pa@;
        let ghost qb = pb@;
        let ghost qc = pc@;
        let i0 = mesh.add_vertex(pa);
        proof {
            assert(mesh.vertices@[i0 as int]@ == qa);
        }
        let i1 = mesh.add_vertex(pb);
        proof {
            assert(mesh.vertex_live(i0 as int));
            assert(mesh.vertices@[i0 as int]@ == qa);
            assert(mesh.vertices@[i1 as int]@ == qb);
        }
        let i2 = mesh.add_vertex(pc);
        proof {
            assert(mesh.vertex_live(i0 as int) && mesh.vertex_live(i1 as int));
            assert(mesh.vertices@[i0 as int]@ == qa);
            assert(mesh.vertices@[i1 as int]@ == qb);
            assert(mesh.vertices@[i2 as int]@ == qc);
        }
        proof {
            assert(pow4(0) == 1);
            assert(pow4(1) == 4 * pow4(0));
            assert(pow4(2) == 4 * pow4(1));
        }
        let chunk = Chunk::new(true, 1, radius.dup(), [i0, i1, i2], &mut mesh);
        proof {
            assert(i0 == 0 && i1 == 1 && i2 == 2);
            assert(chunk.first_level_vertices@[0] == i0);
            assert(chunk.first_level_vertices@[1] == i1);
            assert(chunk.first_level_vertices@[2] == i2);
            assert(ia as int == icosahedron_face_view(face as int).0);
            assert(ib as int == icosahedron_face_view(face as int).1);
            assert(ic as int == icosahedron_face_view(face as int).2);
            assert(mesh.vertices@[0]@ == vscale(
                icosahedron_corner_view(ia as int),
                radius@,
            ));
            assert(mesh.vertices@[1]@ == vscale(
                icosahedron_corner_view(ib as int),
                radius@,
            ));
            assert(mesh.vertices@[2]@ == vscale(
                icosahedron_corner_view(ic as int),
                radius@,
            ));
        }
        out.push(PlanetViewBundle { chunk, mesh });
        face = face + 1;
    }
    out
}

} // verus!
