use vstd::prelude::*;

use crate::mesh::MeshBuffers;
use crate::mesh::MeshError;
use crate::mesh::pow4;
use crate::mesh::cache_lookup;
use crate::scalar::Scalar;
use crate::scalar::div_of;
use crate::scalar::mul_of;
use crate::scalar::lt_of;
use crate::scalar::two_text;
use crate::vector::Vec3;
use crate::vector::Vec3View;
use crate::vector::vcentroid;
use crate::vector::vscale;
use crate::vector::vmagnitude;
use crate::vector::vdistance_squared;

verus! {

// The adaptive level-of-detail tree over one triangular face of an icosphere.
// A chunk is either a leaf, whose own faces realize its triangle at a fixed
// subdivision depth, or is divided into exactly four children.  A per-frame
// walk compares each chunk's distance to the camera against two thresholds
// that halve with every level, subdividing near chunks and undividing far
// ones; the undivide threshold exceeds the subdivide threshold, giving
// hysteresis against thrashing at a stable distance.

/// Subdivision depth of one chunk's own renderable faces.
pub const CHUNK_LOD: usize = 2;

/// The deepest chunk level.
pub const MAX_LOD: u32 = 22;

/// A node of the level-of-detail tree over one icosphere face.
#[derive(Debug)]
pub struct Chunk {
    pub children: Vec<Chunk>,
    pub is_root: bool,
    pub radius: Scalar,
    pub position: Vec3,
    pub lod: u32,
    pub first_level_vertices: [u32; 3],
    pub second_level_indices: [u32; 3],
    pub faces: Vec<usize>,
}

/// The scaled `mul_of(factor, radius)` length halved `n` times.
pub open spec fn halved(s: Seq<char>, n: nat) -> Seq<char>
    decreases n,
{
    if n == 0 {
        s
    } else {
        div_of(halved(s, (n - 1) as nat), two_text())
    }
}

/// The squared comparison threshold for a chunk at level `lod` on a planet of
/// the given radius: `((factor * radius) / 2^lod)^2`.
pub open spec fn threshold_spec(radius: Seq<char>, factor: Seq<char>, lod: nat) -> Seq<char> {
    let t = halved(mul_of(factor, radius), lod);
    mul_of(t, t)
}

/// The distance factor below which a leaf chunk subdivides.
pub fn subdivide_radius() -> (s: Scalar)
    ensures
        s@ == "25"@,
{
    Scalar::from_text("25")
}

/// The distance factor beyond which a divided chunk undivides.  It exceeds
/// the subdivide factor, providing hysteresis.
pub fn undivide_radius() -> (s: Scalar)
    ensures
        s@ == "40"@,
{
    Scalar::from_text("40")
}

impl Chunk {
    /// The shape of a well-formed chunk tree: levels grow by one toward the
    /// leaves and never pass `MAX_LOD`; a node has no children or exactly
    /// four; a leaf's face list realizes its triangle at depth `CHUNK_LOD`;
    /// and the stored corner and midpoint indices are pairwise distinct as
    /// the quadrisection pattern demands.
    pub open spec fn tree_wf(self) -> bool
        decreases self,
    {
        &&& 1 <= self.lod <= MAX_LOD
        &&& self.children@.len() == 0 || self.children@.len() == 4
        &&& self.faces@.len() == pow4(CHUNK_LOD as nat)
        &&& self.faces@.no_duplicates()
        &&& self.first_level_vertices@[0] != self.first_level_vertices@[1]
        &&& self.first_level_vertices@[1] != self.first_level_vertices@[2]
        &&& self.first_level_vertices@[0] != self.first_level_vertices@[2]
        &&& self.second_level_indices@[0] != self.second_level_indices@[1]
        &&& self.second_level_indices@[1] != self.second_level_indices@[2]
        &&& self.second_level_indices@[0] != self.second_level_indices@[2]
        &&& self.second_level_indices@[0] != self.first_level_vertices@[0]
        &&& self.second_level_indices@[0] != self.first_level_vertices@[1]
        &&& self.second_level_indices@[1] != self.first_level_vertices@[1]
        &&& self.second_level_indices@[1] != self.first_level_vertices@[2]
        &&& self.second_level_indices@[2] != self.first_level_vertices@[2]
        &&& self.second_level_indices@[2] != self.first_level_vertices@[0]
        &&& self.children@.len() == 4 ==> forall|i: int|
            0 <= i < 4 ==> (#[trigger] self.children@[i]).tree_wf() && self.children@[i].lod
                == self.lod + 1 && !self.children@[i].is_root
    }

    /// Builds a chunk for the triangle with the given live corner vertices:
    /// adds the root face, subdivides it `CHUNK_LOD` levels deep, and places
    /// the chunk at the centroid of its corners projected onto the sphere of
    /// the planet radius.
    pub fn new(
        is_root: bool,
        lod: u32,
        radius: Scalar,
        first_level_vertices: [u32; 3],
        mesh: &mut MeshBuffers,
    ) -> (r: Chunk)
        requires
            old(mesh).wf(),
            1 <= lod <= MAX_LOD,
            old(mesh).vertex_live(first_level_vertices[0] as int),
            old(mesh).vertex_live(first_level_vertices[1] as int),
            old(mesh).vertex_live(first_level_vertices[2] as int),
            first_level_vertices[0] != first_level_vertices[1],
            first_level_vertices[1] != first_level_vertices[2],
            first_level_vertices[0] != first_level_vertices[2],
            old(mesh).vertices@.len() + pow4(CHUNK_LOD as nat) <= u32::MAX as int,
        ensures
            final(mesh).wf(),
            r.tree_wf(),
            r.children@.len() == 0,
            r.is_root == is_root,
            r.lod == lod,
            r.radius@ == radius@,
            r.first_level_vertices == first_level_vertices,
            forall|k: int| 0 <= k < r.faces@.len() ==> final(mesh).face_live(#[trigger] r.faces@[k] as int),
            final(mesh).live_face_count() == old(mesh).live_face_count() + pow4(CHUNK_LOD as nat),
            final(mesh).vertices@.len() <= old(mesh).vertices@.len() + pow4(CHUNK_LOD as nat),
            forall|q: int| old(mesh).face_live(q) ==> final(mesh).face_live(q),
            forall|w: int| old(mesh).vertex_live(w) ==> final(mesh).vertex_live(w),
            forall|w: int|
                old(mesh).vertex_live(w) ==> final(mesh).vertices@[w] == old(mesh).vertices@[w],
            r.position@ == ({
                let cen = vcentroid(
                    old(mesh).vertices@[first_level_vertices[0] as int]@,
                    old(mesh).vertices@[first_level_vertices[1] as int]@,
                    old(mesh).vertices@[first_level_vertices[2] as int]@,
                );
                vscale(cen, div_of(radius@, vmagnitude(cen)))
            }),
            cache_lookup(final(mesh).cache, first_level_vertices[0], first_level_vertices[1])
                == Some(r.second_level_indices@[0]),
            cache_lookup(final(mesh).cache, first_level_vertices[1], first_level_vertices[2])
                == Some(r.second_level_indices@[1]),
            cache_lookup(final(mesh).cache, first_level_vertices[2], first_level_vertices[0])
                == Some(r.second_level_indices@[2]),
    {
        let root_face_index = mesh.add_face(
            first_level_vertices[0],
            first_level_vertices[1],
            first_level_vertices[2],
        );
        let (second_level_indices, faces) = mesh.subdivide_face(root_face_index, CHUNK_LOD);
        proof {
            assert(pow4(0) == 1);
            assert(pow4(1) == 4 * pow4(0));
            assert(pow4(2) == 4 * pow4(1));
        }
        let v1 = mesh.get_vertex(first_level_vertices[0]).dup();
        let v2 = mesh.get_vertex(first_level_vertices[1]).dup();
        let v3 = mesh.get_vertex(first_level_vertices[2]).dup();
        let cen = Vec3::centroid(&v1, &v2, &v3);
        let factor = radius.div(&cen.magnitude());
        let position = cen.scale(&factor);
        Chunk {
            children: Vec::new(),
            is_root,
            radius,
            position,
            lod,
            first_level_vertices,
            second_level_indices,
            faces,
        }
    }

    /// Returns this chunk's own faces and their corner references to the
    /// shared buffers.  A face that is no longer live, or whose cleanup hits
    /// a bookkeeping fault, stops the walk with the fault.
    fn clear(&mut self, mesh: &mut MeshBuffers) -> (r: Result<(), MeshError>)
        requires
            old(mesh).wf(),
            old(self).tree_wf(),
            old(self).children@.len() == 0,
        ensures
            final(mesh).wf(),
            *final(self) == *old(self),
            final(mesh).vertices@.len() == old(mesh).vertices@.len(),
            r is Ok ==> final(mesh).live_face_count() == old(mesh).live_face_count() - pow4(
                CHUNK_LOD as nat,
            ),
            r == Err::<(), MeshError>(MeshError::InvalidFace) ==> exists|k: int|
                0 <= k < old(self).faces@.len() && !final(mesh).face_live(
                    #[trigger] old(self).faces@[k] as int,
                ),
            r == Err::<(), MeshError>(MeshError::RefcountUnderflow) ==> final(mesh).some_live_face_underflows(),
            r == Err::<(), MeshError>(MeshError::InvalidVertex) ==> final(mesh).some_live_face_stale(),
            r is Err ==> (r == Err::<(), MeshError>(MeshError::InvalidFace) || r == Err::<
                (),
                MeshError,
            >(MeshError::RefcountUnderflow) || r == Err::<(), MeshError>(
                MeshError::InvalidVertex,
            )),
    {
        let n = self.faces.len();
        let mut k: usize = 0;
        while k < n
            invariant
                mesh.wf(),
                n == self.faces@.len(),
                k <= n,
                *self == *old(self),
                mesh.vertices@.len() == old(mesh).vertices@.len(),
                mesh.live_face_count() == old(mesh).live_face_count() - k,
            decreases n - k,
        {
            let face = self.faces[k];
            if !mesh.is_face_live(face) {
                proof {
                    assert(!mesh.face_live(old(self).faces@[k as int] as int));
                }
                return Err(MeshError::InvalidFace);
            }
            let ghost pre = *mesh;
            match mesh.remove_face_and_vertices(face) {
                Ok(u) => {},
                Err(e) => {
                    proof {
                        let a = mesh.indices@[face as int];
                        let b = mesh.indices@[face as int + 1];
                        let c = mesh.indices@[face as int + 2];
                        if e == MeshError::RefcountUnderflow {
                            assert(mesh.face_live(face as int));
                            assert(mesh.some_live_face_underflows());
                        }
                        if e == MeshError::InvalidVertex {
                            if mesh.rc_of(a as int) == 1 && mesh.referenced_elsewhere(
                                face as int,
                                a,
                            ) {
                                assert(mesh.face_live(face as int) && mesh.rc_of(a as int) == 1);
                            } else if mesh.rc_of(b as int) == 1 && mesh.referenced_elsewhere(
                                face as int,
                                b,
                            ) {
                                assert(mesh.face_live(face as int) && mesh.rc_of(b as int) == 1);
                            } else {
                                assert(mesh.rc_of(c as int) == 1 && mesh.referenced_elsewhere(
                                    face as int,
                                    c,
                                ));
                                assert(mesh.face_live(face as int) && mesh.rc_of(c as int) == 1);
                            }
                            assert(mesh.some_live_face_stale());
                        }
                    }
                    return Err(e);
                },
            }
            k = k + 1;
        }
        Ok(())
    }

    /// Rebuilds this chunk's own triangle from its three live corners: a root
    /// face plus `CHUNK_LOD` levels of subdivision, refreshing the stored
    /// second-level midpoints and face list.
    fn rebuild_own_faces(&mut self, mesh: &mut MeshBuffers) -> (r: Result<(), MeshError>)
        requires
            old(mesh).wf(),
            old(self).tree_wf(),
            old(self).children@.len() == 0,
        ensures
            final(mesh).wf(),
            final(self).tree_wf(),
            final(self).children@.len() == 0,
            final(self).lod == old(self).lod,
            final(self).is_root == old(self).is_root,
            final(self).radius@ == old(self).radius@,
            final(self).first_level_vertices == old(self).first_level_vertices,
            r is Ok ==> final(mesh).live_face_count() == old(mesh).live_face_count() + pow4(
                CHUNK_LOD as nat,
            ) && final(mesh).vertices@.len() <= old(mesh).vertices@.len() + pow4(
                CHUNK_LOD as nat,
            ),
            r is Ok ==> cache_lookup(
                final(mesh).cache,
                final(self).first_level_vertices@[0],
                final(self).first_level_vertices@[1],
            ) == Some(final(self).second_level_indices@[0]) && cache_lookup(
                final(mesh).cache,
                final(self).first_level_vertices@[1],
                final(self).first_level_vertices@[2],
            ) == Some(final(self).second_level_indices@[1]) && cache_lookup(
                final(mesh).cache,
                final(self).first_level_vertices@[2],
                final(self).first_level_vertices@[0],
            ) == Some(final(self).second_level_indices@[2]),
            r is Err ==> *final(self) == *old(self) && *final(mesh) == *old(mesh),
            r is Err ==> (r == Err::<(), MeshError>(MeshError::InvalidVertex) || r == Err::<
                (),
                MeshError,
            >(MeshError::CapacityExceeded)),
            r == Err::<(), MeshError>(MeshError::InvalidVertex) ==> !(final(mesh).vertex_live(
                old(self).first_level_vertices@[0] as int,
            ) && final(mesh).vertex_live(old(self).first_level_vertices@[1] as int) && final(mesh).vertex_live(old(self).first_level_vertices@[2] as int)),
            r == Err::<(), MeshError>(MeshError::CapacityExceeded) ==> final(mesh).vertices@.len() >= u32::MAX - 16,
    {
        if !(mesh.is_vertex_live(self.first_level_vertices[0]) && mesh.is_vertex_live(
            self.first_level_vertices[1],
        ) && mesh.is_vertex_live(self.first_level_vertices[2])) {
            return Err(MeshError::InvalidVertex);
        }
        if mesh.vertices.len() >= u32::MAX as usize - 16 {
            return Err(MeshError::CapacityExceeded);
        }
        proof {
            assert(pow4(0) == 1);
            assert(pow4(1) == 4 * pow4(0));
            assert(pow4(2) == 4 * pow4(1));
        }
        let root_face_index = mesh.add_face(
            self.first_level_vertices[0],
            self.first_level_vertices[1],
            self.first_level_vertices[2],
        );
        let (second_level_indices, faces) = mesh.subdivide_face(root_face_index, CHUNK_LOD);
        self.second_level_indices = second_level_indices;
        self.faces = faces;
        Ok(())
    }
}

impl Chunk {
    /// The squared threshold for this chunk's level: the factor times the
    /// planet radius, halved once per level, squared.
    fn lod_threshold(&self, factor: &Scalar) -> (t: Scalar)
        ensures
            t@ == threshold_spec(self.radius@, factor@, self.lod as nat),
    {
        let mut t = factor.mul(&self.radius);
        let two = Scalar::two();
        let mut i: u32 = 0;
        while i < self.lod
            invariant
                i <= self.lod,
                two@ == two_text(),
                t@ == halved(mul_of(factor@, self.radius@), i as nat),
            decreases self.lod - i,
        {
            t = t.div(&two);
            i = i + 1;
        }
        t.mul(&t)
    }

    /// Splits this leaf into four children, one per quadrant of its triangle:
    /// its own faces are returned to the shared buffers and each child builds
    /// its own `CHUNK_LOD`-deep geometry from two original corners and two
    /// shared second-level midpoints.  At `MAX_LOD` the call is a no-op.
    /// Every refusal certifies a fault: exhausted capacity, a count that a
    /// removal would underflow, a stranded shared vertex, or a tree whose
    /// linkage into the buffers is broken.
    pub fn subdivide(&mut self, mesh: &mut MeshBuffers) -> (r: Result<(), MeshError>)
        requires
            old(mesh).wf(),
            old(self).tree_wf(),
            old(self).children@.len() == 0,
        ensures
            final(mesh).wf(),
            r is Ok ==> final(self).tree_wf() && final(self).lod == old(self).lod && final(self).is_root == old(self).is_root,
            r is Ok ==> (final(self).children@.len() == 4 || (old(self).lod == MAX_LOD && *final(self) == *old(self))),
            r is Ok && old(self).lod < MAX_LOD ==> final(self).children@.len() == 4 && final(mesh).live_face_count() == old(mesh).live_face_count() + 3 * pow4(CHUNK_LOD as nat) && final(mesh).vertices@.len() <= old(mesh).vertices@.len() + 4 * pow4(CHUNK_LOD as nat),
            r is Ok && old(self).lod < MAX_LOD ==> ({
                let fl = old(self).first_level_vertices@;
                let sl = old(self).second_level_indices@;
                &&& final(self).first_level_vertices == old(self).first_level_vertices
                &&& final(self).second_level_indices == old(self).second_level_indices
                &&& final(self).children@[0].first_level_vertices@ == seq![fl[0], sl[0], sl[2]]
                &&& final(self).children@[1].first_level_vertices@ == seq![sl[0], sl[1], sl[2]]
                &&& final(self).children@[2].first_level_vertices@ == seq![sl[0], fl[1], sl[1]]
                &&& final(self).children@[3].first_level_vertices@ == seq![sl[1], fl[2], sl[2]]
                &&& final(self).children@[0].radius@ == old(self).radius@
                &&& final(self).children@[1].radius@ == old(self).radius@
                &&& final(self).children@[2].radius@ == old(self).radius@
                &&& final(self).children@[3].radius@ == old(self).radius@
            }),
            old(self).lod >= MAX_LOD ==> r is Ok && *final(self) == *old(self) && *final(mesh)
                == *old(mesh),
            old(self).lod < MAX_LOD && old(mesh).vertices@.len() >= u32::MAX - 64 ==> r == Err::<
                (),
                MeshError,
            >(MeshError::CapacityExceeded) && *final(self) == *old(self) && *final(mesh) == *old(mesh),
            r == Err::<(), MeshError>(MeshError::CapacityExceeded) ==> final(mesh).vertices@.len()
                >= u32::MAX - 64,
            r == Err::<(), MeshError>(MeshError::InvalidFace) ==> *final(self) == *old(self)
                && !Self::tree_linked(*final(self), *final(mesh)),
            r == Err::<(), MeshError>(MeshError::RefcountUnderflow) ==> final(mesh).some_live_face_underflows(),
            r == Err::<(), MeshError>(MeshError::InvalidVertex) ==> (final(mesh).some_live_face_stale() || !Self::tree_linked(*final(self), *final(mesh))),
            r is Err ==> (r == Err::<(), MeshError>(MeshError::InvalidFace) || r == Err::<
                (),
                MeshError,
            >(MeshError::RefcountUnderflow) || r == Err::<(), MeshError>(
                MeshError::InvalidVertex,
            ) || r == Err::<(), MeshError>(MeshError::CapacityExceeded)),
    {
        if self.lod >= MAX_LOD {
            return Ok(());
        }
        if mesh.vertices.len() >= u32::MAX as usize - 64 {
            return Err(MeshError::CapacityExceeded);
        }
        match self.clear(mesh) {
            Ok(u) => {},
            Err(e) => {
                proof {
                    if e == MeshError::InvalidFace {
                        let k = choose|k: int|
                            0 <= k < self.faces@.len() && !mesh.face_live(
                                #[trigger] self.faces@[k] as int,
                            );
                        assert(!Self::tree_linked(*self, *mesh));
                    }
                }
                return Err(e);
            },
        }
        let fl = self.first_level_vertices;
        let sl = self.second_level_indices;
        if !(mesh.is_vertex_live(fl[0]) && mesh.is_vertex_live(fl[1]) && mesh.is_vertex_live(fl[2])
            && mesh.is_vertex_live(sl[0]) && mesh.is_vertex_live(sl[1]) && mesh.is_vertex_live(
            sl[2],
        )) {
            proof {
                assert(!Self::tree_linked(*self, *mesh));
            }
            return Err(MeshError::InvalidVertex);
        }
        proof {
            assert(pow4(0) == 1);
            assert(pow4(1) == 4 * pow4(0));
            assert(pow4(2) == 4 * pow4(1));
        }
        let c0 = Chunk::new(false, self.lod + 1, self.radius.dup(), [fl[0], sl[0], sl[2]], mesh);
        proof {
            assert(mesh.vertices@.len() + pow4(CHUNK_LOD as nat) <= u32::MAX as int);
        }
        let c1 = Chunk::new(false, self.lod + 1, self.radius.dup(), [sl[0], sl[1], sl[2]], mesh);
        proof {
            assert(mesh.vertices@.len() + pow4(CHUNK_LOD as nat) <= u32::MAX as int);
        }
        let c2 = Chunk::new(false, self.lod + 1, self.radius.dup(), [sl[0], fl[1], sl[1]], mesh);
        proof {
            assert(mesh.vertices@.len() + pow4(CHUNK_LOD as nat) <= u32::MAX as int);
        }
        let c3 = Chunk::new(false, self.lod + 1, self.radius.dup(), [sl[1], fl[2], sl[2]], mesh);
        self.children.push(c0);
        self.children.push(c1);
        self.children.push(c2);
        self.children.push(c3);
        proof {
            assert(self.children@.len() == 4);
            assert forall|i: int|
                0 <= i < 4 implies (#[trigger] self.children@[i]).tree_wf() && self.children@[i].lod
                == self.lod + 1 && !self.children@[i].is_root by {}
        }
        Ok(())
    }

    /// Collapses this divided chunk back to a leaf.  A root resets the shared
    /// buffers wholesale and rebuilds only its own triangle, the cheapest
    /// path; a non-root requires all four children to be leaves (checked
    /// loudly: collapsing over divided grandchildren would strand their
    /// geometry), clears them and rebuilds its own faces.  A bookkeeping
    /// fault reported mid-collapse is fatal to this tree: the refusal
    /// certifies the fault (a broken linkage, an underflowing count, a
    /// stranded vertex, or exhausted capacity) and the host treats it as a
    /// crash of the simulation.
    #[verifier::rlimit(100)]
    pub fn undivide(&mut self, mesh: &mut MeshBuffers) -> (r: Result<(), MeshError>)
        requires
            old(mesh).wf(),
            old(self).tree_wf(),
            old(self).children@.len() == 4,
        ensures
            final(mesh).wf(),
            r is Ok ==> final(self).tree_wf() && final(self).lod == old(self).lod && final(self).is_root == old(self).is_root && final(self).children@.len() == 0,
            r is Ok && old(self).is_root ==> final(mesh).live_face_count() == pow4(
                CHUNK_LOD as nat,
            ),
            r is Ok && !old(self).is_root ==> final(mesh).live_face_count() == old(mesh).live_face_count() - 3 * pow4(CHUNK_LOD as nat) && final(self).first_level_vertices == old(self).first_level_vertices && final(mesh).vertices@.len() <= old(mesh).vertices@.len() + pow4(CHUNK_LOD as nat),
            r is Ok && old(self).is_root ==> ({
                &&& final(self).first_level_vertices@[0] == 0
                &&& final(self).first_level_vertices@[1] == 1
                &&& final(self).first_level_vertices@[2] == 2
                &&& final(mesh).vertices@[0]@ == old(mesh).vertices@[old(self).first_level_vertices@[0] as int]@
                &&& final(mesh).vertices@[1]@ == old(mesh).vertices@[old(self).first_level_vertices@[1] as int]@
                &&& final(mesh).vertices@[2]@ == old(mesh).vertices@[old(self).first_level_vertices@[2] as int]@
                &&& final(mesh).vertices@.len() <= 18
            }),
            !old(self).is_root && (exists|k: int|
                0 <= k < 4 && (#[trigger] old(self).children@[k]).children@.len() > 0) ==> r
                == Err::<(), MeshError>(MeshError::ChildrenNotLeaves) && *final(self) == *old(self)
                && *final(mesh) == *old(mesh),
            old(self).is_root ==> (r is Ok <==> (old(mesh).vertex_live(
                old(self).first_level_vertices@[0] as int,
            ) && old(mesh).vertex_live(old(self).first_level_vertices@[1] as int) && old(mesh).vertex_live(old(self).first_level_vertices@[2] as int))),
            r == Err::<(), MeshError>(MeshError::InvalidFace) ==> !Self::tree_linked(
                *final(self),
                *final(mesh),
            ),
            r == Err::<(), MeshError>(MeshError::RefcountUnderflow) ==> final(mesh).some_live_face_underflows(),
            r == Err::<(), MeshError>(MeshError::InvalidVertex) ==> (final(mesh).some_live_face_stale() || !Self::tree_linked(*final(self), *final(mesh))),
            r == Err::<(), MeshError>(MeshError::CapacityExceeded) ==> final(mesh).vertices@.len()
                >= u32::MAX - 64,
            r == Err::<(), MeshError>(MeshError::ChildrenNotLeaves) ==> final(self).children@.len()
                == 4 && (exists|k: int|
                0 <= k < 4 && (#[trigger] final(self).children@[k]).children@.len() > 0),
    {
        if self.is_root {
            if !(mesh.is_vertex_live(self.first_level_vertices[0]) && mesh.is_vertex_live(
                self.first_level_vertices[1],
            ) && mesh.is_vertex_live(self.first_level_vertices[2])) {
                proof {
                    assert(!Self::tree_linked(*self, *mesh));
                }
                return Err(MeshError::InvalidVertex);
            }
            let p0 = mesh.get_vertex(self.first_level_vertices[0]).dup();
            let p1 = mesh.get_vertex(self.first_level_vertices[1]).dup();
            let p2 = mesh.get_vertex(self.first_level_vertices[2]).dup();
            self.children = Vec::new();
            mesh.clear_all();
            let i0 = mesh.add_vertex(p0);
            let i1 = mesh.add_vertex(p1);
            let i2 = mesh.add_vertex(p2);
            self.first_level_vertices = [i0, i1, i2];
            proof {
                assert(pow4(0) == 1);
                assert(pow4(1) == 4 * pow4(0));
                assert(pow4(2) == 4 * pow4(1));
            }
            let root_face_index = mesh.add_face(i0, i1, i2);
            let (second_level_indices, faces) = mesh.subdivide_face(root_face_index, CHUNK_LOD);
            self.second_level_indices = second_level_indices;
            self.faces = faces;
            Ok(())
        } else {
            let mut k: usize = 0;
            while k < 4
                invariant
                    old(self).tree_wf(),
                    old(self).children@.len() == 4,
                    !old(self).is_root,
                    *self == *old(self),
                    *mesh == *old(mesh),
                    old(mesh).wf(),
                    k <= 4,
                    forall|i: int| 0 <= i < k ==> (#[trigger] self.children@[i]).children@.len() == 0,
                decreases 4 - k,
            {
                if self.children[k].children.len() > 0 {
                    proof {
                        assert(self.children@[k as int].children@.len() > 0);
                    }
                    return Err(MeshError::ChildrenNotLeaves);
                }
                k = k + 1;
            }
            proof {
                assert(forall|k: int|
                    0 <= k < 4 ==> (#[trigger] old(self).children@[k]).children@.len() == 0);
            }
            let ghost entry_count = mesh.live_face_count();
            let mut cleared: usize = 0;
            while self.children.len() > 0
                invariant
                    mesh.wf(),
                    !old(self).is_root,
                    entry_count == old(mesh).live_face_count(),
                    mesh.vertices@.len() == old(mesh).vertices@.len(),
                    forall|i: int|
                        0 <= i < 4 ==> (#[trigger] old(self).children@[i]).children@.len() == 0,
                    self.lod == old(self).lod,
                    self.is_root == old(self).is_root,
                    self.radius == old(self).radius,
                    self.position == old(self).position,
                    self.first_level_vertices == old(self).first_level_vertices,
                    self.second_level_indices == old(self).second_level_indices,
                    self.faces == old(self).faces,
                    old(self).tree_wf(),
                    cleared + self.children@.len() == 4,
                    forall|i: int|
                        0 <= i < self.children@.len() ==> #[trigger] self.children@[i] == old(self).children@[i],
                    forall|i: int|
                        0 <= i < self.children@.len() ==> (
                        #[trigger] self.children@[i]).tree_wf() && self.children@[i].children@.len()
                            == 0,
                    mesh.live_face_count() == entry_count - cleared * pow4(CHUNK_LOD as nat),
                decreases self.children@.len(),
            {
                let ghost pre_children = self.children@;
                let ghost child_index = pre_children.len() - 1;
                let mut child = match self.children.pop() {
                    Some(c) => c,
                    None => {
                        proof {
                            assert(false);
                        }
                        return Err(MeshError::InvalidFace);
                    },
                };
                proof {
                    assert(child == pre_children.last());
                    assert(pre_children[child_index] == old(self).children@[child_index]);
                    assert(child == old(self).children@[child_index]);
                }
                match child.clear(mesh) {
                    Ok(u) => {},
                    Err(e) => {
                        let ghost child_back = child;
                        self.children.push(child);
                        proof {
                            assert(self.children@.len() == 4 - cleared);
                            assert(self.children@[self.children@.len() - 1] == child_back);
                            if e == MeshError::InvalidFace {
                                let k = choose|k: int|
                                    0 <= k < child_back.faces@.len() && !mesh.face_live(
                                        #[trigger] child_back.faces@[k] as int,
                                    );
                                assert(!Self::tree_linked(*self, *mesh)) by {
                                    if cleared == 0 {
                                        if Self::tree_linked(*self, *mesh) {
                                            assert(Self::tree_linked(self.children@[3], *mesh));
                                            assert(child_back.children@.len() == 0);
                                            assert(mesh.face_live(child_back.faces@[k] as int));
                                        }
                                    } else {
                                        assert(self.children@.len() != 0 && self.children@.len()
                                            != 4);
                                    }
                                }
                            }
                        }
                        return Err(e);
                    },
                }
                cleared = cleared + 1;
                proof {
                    assert(cleared * pow4(CHUNK_LOD as nat) == (cleared - 1) * pow4(
                        CHUNK_LOD as nat,
                    ) + pow4(CHUNK_LOD as nat)) by (nonlinear_arith);
                }
            }
            let ghost after_clears = mesh.live_face_count();
            proof {
                assert(after_clears == entry_count - 4 * pow4(CHUNK_LOD as nat));
            }
            match self.rebuild_own_faces(mesh) {
                Ok(u) => {},
                Err(e) => {
                    proof {
                        if e == MeshError::InvalidVertex {
                            assert(!Self::tree_linked(*self, *mesh));
                        }
                    }
                    return Err(e);
                },
            }
            proof {
                assert(mesh.live_face_count() == after_clears + pow4(CHUNK_LOD as nat));
                assert(mesh.live_face_count() == entry_count - 3 * pow4(CHUNK_LOD as nat));
            }
            Ok(())
        }
    }

    /// The tree's linkage into the shared buffers: every node has no
    /// children or exactly four, every node's stored corners are live, and a
    /// leaf's listed faces and stored midpoints are live.  Every refused walk
    /// operation certifies that the tree it leaves behind violates this.
    pub open spec fn tree_linked(c: Chunk, m: MeshBuffers) -> bool
        decreases c,
    {
        &&& (c.children@.len() == 0 || c.children@.len() == 4)
        &&& m.vertex_live(c.first_level_vertices@[0] as int)
        &&& m.vertex_live(c.first_level_vertices@[1] as int)
        &&& m.vertex_live(c.first_level_vertices@[2] as int)
        &&& (c.children@.len() == 0 ==> (forall|j: int|
            0 <= j < c.faces@.len() ==> m.face_live(#[trigger] c.faces@[j] as int))
            && m.vertex_live(c.second_level_indices@[0] as int) && m.vertex_live(
            c.second_level_indices@[1] as int,
        ) && m.vertex_live(c.second_level_indices@[2] as int))
        &&& (c.children@.len() == 4 ==> forall|i: int|
            0 <= i < 4 ==> Self::tree_linked(#[trigger] c.children@[i], m))
    }

    /// What one frame of the walk decides for the chunk `pre`, leaving
    /// `post`, with the camera at `cam`: a divided chunk beyond its undivide
    /// threshold collapses to a leaf; one within it keeps its four children,
    /// each transformed by the same relation (the walk runs bottom-up, so
    /// children are decided first); a leaf within its subdivide threshold
    /// divides, unless it already sits at the deepest level; any other leaf
    /// stays a leaf.  Children created by a division are not revisited in
    /// the same frame.
    pub open spec fn walk_decision(pre: Chunk, post: Chunk, cam: Vec3View) -> bool
        decreases pre,
    {
        let dsq = vdistance_squared(cam, pre.position@);
        let far = lt_of(threshold_spec(pre.radius@, "40"@, pre.lod as nat), dsq);
        let near = lt_of(dsq, threshold_spec(pre.radius@, "25"@, pre.lod as nat));
        &&& (pre.children@.len() == 4 && far ==> post.children@.len() == 0)
        &&& (pre.children@.len() == 4 && !far ==> post.children@.len() == 4 && (forall|i: int|
            0 <= i < 4 ==> Self::walk_decision(pre.children@[i], #[trigger] post.children@[i], cam)))
        &&& (pre.children@.len() == 0 && near && pre.lod < MAX_LOD ==> post.children@.len() == 4)
        &&& (pre.children@.len() == 0 && near && pre.lod == MAX_LOD ==> post.children@.len() == 0)
        &&& (pre.children@.len() == 0 && !near ==> post.children@.len() == 0)
    }

    /// The per-frame driver: walks the tree bottom-up (children before
    /// parents) and, for each chunk, compares its squared distance to the
    /// camera against the level-scaled thresholds; a divided chunk beyond the
    /// undivide threshold collapses, a leaf within the subdivide threshold
    /// splits — `walk_decision` states this for every chunk of the tree.
    /// The camera position is planet-local.
    pub fn divide_or_undivide(&mut self, mesh: &mut MeshBuffers, camera_position: &Vec3) -> (r:
        Result<(), MeshError>)
        requires
            old(mesh).wf(),
            old(self).tree_wf(),
        ensures
            final(mesh).wf(),
            r is Ok ==> final(self).tree_wf() && final(self).lod == old(self).lod && final(self).is_root == old(self).is_root,
            r is Ok ==> Self::walk_decision(*old(self), *final(self), camera_position@),
            r == Err::<(), MeshError>(MeshError::RefcountUnderflow) ==> final(mesh).some_live_face_underflows(),
            r == Err::<(), MeshError>(MeshError::CapacityExceeded) ==> final(mesh).vertices@.len()
                >= u32::MAX - 64,
            r == Err::<(), MeshError>(MeshError::InvalidFace) ==> !Self::tree_linked(
                *final(self),
                *final(mesh),
            ),
            r == Err::<(), MeshError>(MeshError::InvalidVertex) ==> (final(mesh).some_live_face_stale() || !Self::tree_linked(*final(self), *final(mesh))),
            r == Err::<(), MeshError>(MeshError::ChildrenNotLeaves) ==> final(self).children@.len()
                == 4 && (exists|k: int|
                0 <= k < 4 && (#[trigger] final(self).children@[k]).children@.len() > 0),
        decreases MAX_LOD as int + 1 - old(self).lod,
    {
        let n = self.children.len();
        if n > 0 {
            proof {
                assert(self.children@[0].tree_wf() && self.children@[0].lod == self.lod + 1);
            }
            let mut i: usize = 0;
            while i < n
                invariant
                    n == 4,
                    mesh.wf(),
                    i <= n,
                    self.children@.len() == 4,
                    self.lod == old(self).lod,
                    self.is_root == old(self).is_root,
                    self.radius == old(self).radius,
                    self.position == old(self).position,
                    self.first_level_vertices == old(self).first_level_vertices,
                    self.second_level_indices == old(self).second_level_indices,
                    self.faces == old(self).faces,
                    old(self).tree_wf(),
                    old(self).children@.len() == 4,
                    1 <= self.lod <= MAX_LOD,
                    self.lod < MAX_LOD,
                    forall|k: int|
                        i <= k < 4 ==> #[trigger] self.children@[k] == old(self).children@[k],
                    forall|k: int|
                        0 <= k < i ==> (#[trigger] self.children@[k]).tree_wf()
                            && self.children@[k].lod == self.lod + 1
                            && !self.children@[k].is_root && Self::walk_decision(
                            old(self).children@[k],
                            self.children@[k],
                            camera_position@,
                        ),
                decreases n - i,
            {
                proof {
                    assert(old(self).children@[i as int].tree_wf());
                    assert(old(self).children@[i as int].lod == old(self).lod + 1);
                }
                let ghost pre_children = self.children@;
                let mut child = self.children.remove(i);
                let res = child.divide_or_undivide(mesh, camera_position);
                let ghost child_after = child;
                self.children.insert(i, child);
                proof {
                    assert(self.children@ =~= pre_children.update(i as int, child_after));
                }
                match res {
                    Ok(u) => {},
                    Err(e) => {
                        proof {
                            assert(self.children@[i as int] == child_after);
                            if !Self::tree_linked(child_after, *mesh) {
                                assert(!Self::tree_linked(*self, *mesh)) by {
                                    if Self::tree_linked(*self, *mesh) {
                                        assert(Self::tree_linked(
                                            self.children@[i as int],
                                            *mesh,
                                        ));
                                    }
                                }
                            }
                            if e == MeshError::ChildrenNotLeaves {
                                assert(self.children@[i as int].children@.len() > 0);
                            }
                        }
                        return Err(e);
                    },
                }
                i = i + 1;
            }
        }
        let ghost before_decision = *self;
        let dsq = Vec3::distance_squared(camera_position, &self.position);
        let und = self.lod_threshold(&undivide_radius());
        let sub = self.lod_threshold(&subdivide_radius());
        let r: Result<(), MeshError> = if und.lt(&dsq) && self.children.len() > 0 {
            self.undivide(mesh)
        } else if dsq.lt(&sub) && self.children.len() == 0 {
            self.subdivide(mesh)
        } else {
            Ok(())
        };
        proof {
            if r is Ok {
                assert(Self::walk_decision(*old(self), *self, camera_position@)) by {
                    if old(self).children@.len() == 4 {
                        assert forall|k: int|
                            0 <= k < 4 implies Self::walk_decision(
                            old(self).children@[k],
                            #[trigger] before_decision.children@[k],
                            camera_position@,
                        ) by {}
                    }
                }
            }
        }
        r
    }
}

/// Chunk subdivision conservation.  A leaf below the deepest level gains
/// `3 * pow4(CHUNK_LOD)` live faces when it subdivides (its own faces leave,
/// four children's worth arrive), and an undivided non-root sheds exactly as
/// many; the two together leave the live-face count of the shared buffers
/// where it started.  The hypotheses are supplied by the contracts of
/// `subdivide` and `undivide`.
pub proof fn lemma_subdivide_undivide_conserves_faces(
    count_before: int,
    count_mid: int,
    count_after: int,
)
    requires
        count_mid == count_before + 3 * pow4(CHUNK_LOD as nat),
        count_after == count_mid - 3 * pow4(CHUNK_LOD as nat),
    ensures
        count_after == count_before,
{
}

} // verus!
