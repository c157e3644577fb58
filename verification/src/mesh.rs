use vstd::prelude::*;

use crate::vector::Vec3;
use crate::vector::vmidpoint;

verus! {

// The shared mesh buffers of one planet: a growable vertex array and a
// triangular index array, with free-list reuse, per-vertex reference counts,
// and a midpoint-deduplication cache so adjacent triangles share subdivision
// vertices.  A face occupies three consecutive slots of the index array; a
// face is addressed by the position of its first slot (a multiple of three).
// A vertex or face slot is never shrunk away: a removed one is pushed on the
// matching free list and overwritten on reuse.

/// Bookkeeping failures.  Each marks a caller contract violation that the
/// buffer manager refuses loudly instead of masking.
#[derive(Debug, PartialEq, Eq, Structural)]
pub enum MeshError {
    /// A reference count would have dropped below zero.
    RefcountUnderflow,
    /// A face position that is out of range or on the free list.
    InvalidFace,
    /// A vertex index that is out of range or on the free list.
    InvalidVertex,
    /// An `undivide` found a child that is not a leaf.
    ChildrenNotLeaves,
    /// The vertex buffer has no room left for a subdivision.
    CapacityExceeded,
}

/// Free list of removed vertex indices.
#[derive(Debug)]
pub struct UnusedVertices {
    pub slots: Vec<u32>,
}

/// Free list of removed face positions.
#[derive(Debug)]
pub struct UnusedIndices {
    pub slots: Vec<usize>,
}

/// Reference count per vertex index, grown lazily.
#[derive(Debug)]
pub struct VertexRc {
    pub counts: Vec<u64>,
}

/// One midpoint-cache record: the unordered source pair `(a, b)` stored with
/// `a < b`, and the index of their shared midpoint vertex.
#[derive(Debug, Clone, Copy)]
pub struct CacheEntry {
    pub a: u32,
    pub b: u32,
    pub midpoint: u32,
}

/// Deduplication table mapping an unordered pair of source vertices to the
/// midpoint vertex allocated for their shared edge.
#[derive(Debug)]
pub struct MidpointIndexCache {
    pub entries: Vec<CacheEntry>,
}

/// The shared mesh state of one planet.
#[derive(Debug)]
pub struct MeshBuffers {
    pub vertices: Vec<Vec3>,
    pub indices: Vec<u32>,
    pub unused_vertices: UnusedVertices,
    pub unused_indices: UnusedIndices,
    pub vertex_rc: VertexRc,
    pub cache: MidpointIndexCache,
}

/// The normalized cache key of an unordered vertex pair.
pub open spec fn cache_key(i1: u32, i2: u32) -> (u32, u32) {
    if i1 < i2 {
        (i1, i2)
    } else {
        (i2, i1)
    }
}

/// Whether a cache entry mentions the vertex `v`, as an endpoint or as the
/// cached midpoint.
pub open spec fn entry_mentions(e: CacheEntry, v: u32) -> bool {
    e.a == v || e.b == v || e.midpoint == v
}

/// The cached midpoint for the unordered pair `(i1, i2)`: the first matching
/// entry, scanning front to back.
pub open spec fn cache_lookup_at(entries: Seq<CacheEntry>, key: (u32, u32)) -> Option<u32>
    decreases entries.len(),
{
    if entries.len() == 0 {
        None
    } else if entries[0].a == key.0 && entries[0].b == key.1 {
        Some(entries[0].midpoint)
    } else {
        cache_lookup_at(entries.drop_first(), key)
    }
}

/// The cached midpoint for the unordered pair `(i1, i2)`.
pub open spec fn cache_lookup(c: MidpointIndexCache, i1: u32, i2: u32) -> Option<u32> {
    cache_lookup_at(c.entries@, cache_key(i1, i2))
}

/// The entries that survive removal of vertex `v`: those that do not mention
/// it, in their original order.
pub open spec fn cache_purge(entries: Seq<CacheEntry>, v: u32) -> Seq<CacheEntry>
    decreases entries.len(),
{
    if entries.len() == 0 {
        entries
    } else if entry_mentions(entries[0], v) {
        cache_purge(entries.drop_first(), v)
    } else {
        seq![entries[0]] + cache_purge(entries.drop_first(), v)
    }
}

/// The pairwise shape of a cache entry sequence: every entry is normalized
/// (`a < b`), keys are pairwise distinct, midpoints are pairwise distinct,
/// and no midpoint equals any recorded endpoint.
pub open spec fn entries_pairwise_wf(es: Seq<CacheEntry>) -> bool {
    &&& forall|i: int| 0 <= i < es.len() ==> (#[trigger] es[i]).a < es[i].b
    &&& forall|i: int, j: int|
        0 <= i < es.len() && 0 <= j < es.len() && i != j ==> !((#[trigger] es[i]).a == (
        #[trigger] es[j]).a && es[i].b == es[j].b)
    &&& forall|i: int, j: int|
        0 <= i < es.len() && 0 <= j < es.len() && i != j ==> (#[trigger] es[i]).midpoint != (
        #[trigger] es[j]).midpoint
    &&& forall|i: int|
        0 <= i < es.len() ==> (#[trigger] es[i]).midpoint != es[i].a && es[i].midpoint != es[i].b
}

impl MeshBuffers {
    /// Vertex `v` exists and is not on the free list.
    pub open spec fn vertex_live(self, v: int) -> bool {
        0 <= v < self.vertices@.len() && !self.unused_vertices.slots@.contains(v as u32)
    }

    /// Face position `p` addresses three slots and is not on the free list.
    pub open spec fn face_live(self, p: int) -> bool {
        0 <= p && p + 3 <= self.indices@.len() && p % 3 == 0
            && !self.unused_indices.slots@.contains(p as usize)
    }

    /// The reference count recorded for vertex `v`; indices beyond the lazily
    /// grown count table stand at zero.
    pub open spec fn rc_of(self, v: int) -> nat {
        if 0 <= v < self.vertex_rc.counts@.len() {
            self.vertex_rc.counts@[v] as nat
        } else {
            0
        }
    }

    /// The number of live faces, derived from the slot and free-list lengths.
    pub open spec fn live_face_count(self) -> int {
        self.indices@.len() as int / 3 - self.unused_indices.slots@.len() as int
    }

    /// Shape of the index buffer and its free list.
    pub open spec fn faces_wf(self) -> bool {
        &&& self.indices@.len() % 3 == 0
        &&& forall|i: int|
            0 <= i < self.unused_indices.slots@.len() ==> (#[trigger] self.unused_indices.slots@[i])
                % 3 == 0 && self.unused_indices.slots@[i] + 3 <= self.indices@.len()
        &&& self.unused_indices.slots@.no_duplicates()
    }

    /// Shape of the vertex buffer, its free list and the count table.
    pub open spec fn verts_wf(self) -> bool {
        &&& self.vertices@.len() <= u32::MAX as int
        &&& forall|i: int|
            0 <= i < self.unused_vertices.slots@.len() ==> (
            #[trigger] self.unused_vertices.slots@[i]) < self.vertices@.len()
        &&& self.unused_vertices.slots@.no_duplicates()
        &&& self.vertex_rc.counts@.len() <= self.vertices@.len()
        &&& forall|i: int|
            0 <= i < self.unused_vertices.slots@.len() ==> self.rc_of(
                #[trigger] self.unused_vertices.slots@[i] as int,
            ) == 0
    }

    /// Every live face references three live, pairwise distinct vertices.
    pub open spec fn live_faces_wf(self) -> bool {
        forall|p: int|
            #[trigger] self.face_live(p) ==> {
                let a = self.indices@[p];
                let b = self.indices@[p + 1];
                let c = self.indices@[p + 2];
                &&& self.vertex_live(a as int)
                &&& self.vertex_live(b as int)
                &&& self.vertex_live(c as int)
                &&& a != b && b != c && a != c
            }
    }

    /// Cache entries reference only live vertices and satisfy the pairwise
    /// shape conditions of `entries_pairwise_wf`.
    pub open spec fn cache_wf(self) -> bool {
        let es = self.cache.entries@;
        &&& entries_pairwise_wf(es)
        &&& forall|i: int|
            0 <= i < es.len() ==> self.vertex_live((#[trigger] es[i]).a as int)
                && self.vertex_live(es[i].b as int) && self.vertex_live(es[i].midpoint as int)
    }

    /// The joint well-formedness of all mesh buffers.
    pub open spec fn wf(self) -> bool {
        self.faces_wf() && self.verts_wf() && self.live_faces_wf() && self.cache_wf()
    }

    /// Reference counts are zero exactly on free-listed vertices.  This is the
    /// reference-counting law: it is preserved by `add_face` and
    /// `remove_face_and_vertices`, and `decrement` refuses to move a count
    /// below zero.
    pub open spec fn rc_zero_iff_free(self) -> bool {
        forall|v: int|
            0 <= v < self.vertices@.len() ==> (self.unused_vertices.slots@.contains(v as u32)
                <==> self.rc_of(v) == 0)
    }

    /// Empty buffers.
    pub fn new() -> (m: MeshBuffers)
        ensures
            m.wf(),
            m.vertices@.len() == 0,
            m.indices@.len() == 0,
            m.unused_vertices.slots@.len() == 0,
            m.unused_indices.slots@.len() == 0,
            m.vertex_rc.counts@.len() == 0,
            m.cache.entries@.len() == 0,
            m.rc_zero_iff_free(),
    {
        MeshBuffers {
            vertices: Vec::new(),
            indices: Vec::new(),
            unused_vertices: UnusedVertices { slots: Vec::new() },
            unused_indices: UnusedIndices { slots: Vec::new() },
            vertex_rc: VertexRc { counts: Vec::new() },
            cache: MidpointIndexCache { entries: Vec::new() },
        }
    }

    /// Whether vertex `v` is currently live, checked against the free list.
    pub fn is_vertex_live(&self, v: u32) -> (b: bool)
        ensures
            b == self.vertex_live(v as int),
    {
        if (v as usize) < self.vertices.len() {
            !self.unused_vertices.contains_slot(v)
        } else {
            false
        }
    }

    /// Whether face position `p` is currently live, checked against the free
    /// list.
    pub fn is_face_live(&self, p: usize) -> (b: bool)
        ensures
            b == self.face_live(p as int),
    {
        if p % 3 == 0 && p <= self.indices.len() && self.indices.len() - p >= 3 {
            !self.unused_indices.contains_slot(p)
        } else {
            false
        }
    }
}

impl UnusedVertices {
    /// Whether `v` is on the free list.
    pub fn contains_slot(&self, v: u32) -> (b: bool)
        ensures
            b == self.slots@.contains(v),
    {
        let n = self.slots.len();
        let mut i: usize = 0;
        while i < n
            invariant
                n == self.slots@.len(),
                i <= n,
                forall|j: int| 0 <= j < i ==> self.slots@[j] != v,
            decreases n - i,
        {
            if self.slots[i] == v {
                return true;
            }
            i = i + 1;
        }
        false
    }

    /// Empties the free list.
    pub fn clear_all(&mut self)
        ensures
            final(self).slots@.len() == 0,
    {
        self.slots.clear();
    }
}

impl UnusedIndices {
    /// Whether `p` is on the free list.
    pub fn contains_slot(&self, p: usize) -> (b: bool)
        ensures
            b == self.slots@.contains(p),
    {
        let n = self.slots.len();
        let mut i: usize = 0;
        while i < n
            invariant
                n == self.slots@.len(),
                i <= n,
                forall|j: int| 0 <= j < i ==> self.slots@[j] != p,
            decreases n - i,
        {
            if self.slots[i] == p {
                return true;
            }
            i = i + 1;
        }
        false
    }

    /// Empties the free list.
    pub fn clear_all(&mut self)
        ensures
            final(self).slots@.len() == 0,
    {
        self.slots.clear();
    }
}

impl VertexRc {
    /// Bumps the count of vertex `index`, growing the table with zeros as
    /// needed.  The count saturates at `u64::MAX`, a value no real execution
    /// reaches.
    pub fn increment(&mut self, index: u32)
        ensures
            final(self).counts@.len() == if (index as int) < old(self).counts@.len() {
                old(self).counts@.len() as int
            } else {
                index as int + 1
            },
            forall|v: int|
                0 <= v < final(self).counts@.len() && v != index as int ==> final(self).counts@[v]
                    == (if v < old(self).counts@.len() {
                    old(self).counts@[v]
                } else {
                    0
                }),
            final(self).counts@[index as int] as nat == (if old(self).spec_count(index as int)
                < u64::MAX {
                old(self).spec_count(index as int) + 1
            } else {
                u64::MAX as nat
            }),
    {
        while self.counts.len() <= index as usize
            invariant
                forall|v: int|
                    0 <= v < self.counts@.len() ==> self.counts@[v] == (if v < old(
                        self).counts@.len() {
                        old(self).counts@[v]
                    } else {
                        0
                    }),
                self.counts@.len() >= old(self).counts@.len(),
                self.counts@.len() <= vstd::math::max(old(self).counts@.len() as int, index as int + 1),
            decreases index as int + 1 - self.counts@.len(),
        {
            self.counts.push(0);
        }
        let current = self.counts[index as usize];
        if current < u64::MAX {
            self.counts.set(index as usize, current + 1);
        }
    }

    /// The recorded count, with absent table entries standing at zero.
    pub open spec fn spec_count(self, v: int) -> nat {
        if 0 <= v < self.counts@.len() {
            self.counts@[v] as nat
        } else {
            0
        }
    }

    /// Drops the count of vertex `index` by one and reports whether it
    /// reached zero.  A count already at zero is a bookkeeping bug: the call
    /// refuses it.
    pub fn decrement(&mut self, index: u32) -> (r: Result<bool, MeshError>)
        ensures
            match r {
                Ok(zeroed) => {
                    &&& old(self).spec_count(index as int) > 0
                    &&& (index as int) < old(self).counts@.len()
                    &&& final(self).counts@ == old(self).counts@.update(
                        index as int,
                        (old(self).counts@[index as int] - 1) as u64,
                    )
                    &&& zeroed == (old(self).spec_count(index as int) == 1)
                },
                Err(e) => {
                    &&& e == MeshError::RefcountUnderflow
                    &&& old(self).spec_count(index as int) == 0
                    &&& *final(self) == *old(self)
                },
            },
    {
        if (index as usize) < self.counts.len() {
            let current = self.counts[index as usize];
            if current == 0 {
                return Err(MeshError::RefcountUnderflow);
            }
            self.counts.set(index as usize, current - 1);
            Ok(current == 1)
        } else {
            Err(MeshError::RefcountUnderflow)
        }
    }

    /// Empties the count table.
    pub fn clear_all(&mut self)
        ensures
            final(self).counts@.len() == 0,
    {
        self.counts.clear();
    }
}

impl MidpointIndexCache {
    /// Records the midpoint vertex for the unordered pair `(i1, i2)`.  The
    /// pair must not be cached yet: lookups answer with the first match, so a
    /// shadowing second record would be unreachable behind the first.
    pub fn insert(&mut self, i1: u32, i2: u32, vertex_index: u32)
        requires
            i1 != i2,
            cache_lookup(*old(self), i1, i2) is None,
        ensures
            cache_lookup(*final(self), i1, i2) == Some(vertex_index),
            final(self).entries@ == old(self).entries@.push(
                CacheEntry {
                    a: cache_key(i1, i2).0,
                    b: cache_key(i1, i2).1,
                    midpoint: vertex_index,
                },
            ),
    {
        let entry = if i1 < i2 {
            CacheEntry { a: i1, b: i2, midpoint: vertex_index }
        } else {
            CacheEntry { a: i2, b: i1, midpoint: vertex_index }
        };
        proof {
            lemma_lookup_push(self.entries@, entry, cache_key(i1, i2));
        }
        self.entries.push(entry);
    }

    /// Looks up the cached midpoint for the unordered pair `(i1, i2)`.
    pub fn get(&self, i1: u32, i2: u32) -> (r: Option<u32>)
        ensures
            r == cache_lookup(*self, i1, i2),
    {
        let key_a = if i1 < i2 { i1 } else { i2 };
        let key_b = if i1 < i2 { i2 } else { i1 };
        proof {
            assert(cache_key(i1, i2) == (key_a, key_b));
        }
        let n = self.entries.len();
        proof {
            assert(self.entries@.subrange(0, n as int) =~= self.entries@);
        }
        let mut i: usize = 0;
        while i < n
            invariant
                n == self.entries@.len(),
                i <= n,
                cache_key(i1, i2) == (key_a, key_b),
                cache_lookup_at(self.entries@, (key_a, key_b)) == cache_lookup_at(
                    self.entries@.subrange(i as int, n as int),
                    (key_a, key_b),
                ),
            decreases n - i,
        {
            let e = self.entries[i];
            proof {
                assert(self.entries@.subrange(i as int, n as int).drop_first()
                    =~= self.entries@.subrange(i as int + 1, n as int));
            }
            if e.a == key_a && e.b == key_b {
                proof {
                    let sr = self.entries@.subrange(i as int, n as int);
                    assert(sr[0] == e);
                    assert(cache_lookup_at(sr, (key_a, key_b)) == Some(e.midpoint));
                }
                return Some(e.midpoint);
            }
            i = i + 1;
        }
        proof {
            assert(self.entries@.subrange(n as int, n as int).len() == 0);
        }
        None
    }

    /// Drops every entry that mentions vertex `index`, as an endpoint or as
    /// the cached midpoint.
    pub fn remove(&mut self, index: u32)
        ensures
            final(self).entries@ == cache_purge(old(self).entries@, index),
    {
        let n = self.entries.len();
        proof {
            assert(self.entries@.subrange(0, n as int) =~= self.entries@);
        }
        let mut kept: Vec<CacheEntry> = Vec::new();
        let mut i: usize = 0;
        while i < n
            invariant
                n == self.entries@.len(),
                i <= n,
                cache_purge(self.entries@, index) == kept@ + cache_purge(
                    self.entries@.subrange(i as int, n as int),
                    index,
                ),
            decreases n - i,
        {
            let e = self.entries[i];
            proof {
                assert(self.entries@.subrange(i as int, n as int).drop_first()
                    =~= self.entries@.subrange(i as int + 1, n as int));
            }
            if !(e.a == index || e.b == index || e.midpoint == index) {
                kept.push(e);
                proof {
                    assert(kept@.drop_last() + (seq![e] + cache_purge(
                        self.entries@.subrange(i as int + 1, n as int),
                        index,
                    )) =~= kept@ + cache_purge(
                        self.entries@.subrange(i as int + 1, n as int),
                        index,
                    ));
                }
            }
            i = i + 1;
        }
        proof {
            assert(cache_purge(self.entries@.subrange(n as int, n as int), index).len() == 0);
            assert(kept@ + cache_purge(self.entries@.subrange(n as int, n as int), index)
                =~= kept@);
        }
        self.entries = kept;
    }

    /// Empties the cache.
    pub fn clear_all(&mut self)
        ensures
            final(self).entries@.len() == 0,
    {
        self.entries.clear();
    }
}

/// The midpoint cache is symmetric in its two source vertices: both orders of
/// the pair name the same record.
pub proof fn lemma_midpoint_cache_symmetric(c: MidpointIndexCache, i1: u32, i2: u32)
    ensures
        cache_lookup(c, i1, i2) == cache_lookup(c, i2, i1),
{
    assert(cache_key(i1, i2) == cache_key(i2, i1));
}

/// In a duplicate-free sequence, popping the last element removes exactly
/// that element from membership.
proof fn lemma_pop_distinct<T>(s: Seq<T>)
    requires
        s.len() > 0,
        s.no_duplicates(),
    ensures
        !s.drop_last().contains(s.last()),
        forall|x: T| x != s.last() ==> (s.drop_last().contains(x) == s.contains(x)),
        s.drop_last().no_duplicates(),
{
    assert forall|i: int, j: int|
        0 <= i < s.drop_last().len() && 0 <= j < s.drop_last().len() && i != j implies s.drop_last()[i]
        != s.drop_last()[j] by {
        assert(s.drop_last()[i] == s[i] && s.drop_last()[j] == s[j]);
    }
    if s.drop_last().contains(s.last()) {
        let i = choose|i: int| 0 <= i < s.drop_last().len() && s.drop_last()[i] == s.last();
        assert(s[i] == s[s.len() - 1]);
        assert(false);
    }
    assert forall|x: T| x != s.last() implies (s.drop_last().contains(x) == s.contains(x)) by {
        if s.contains(x) {
            let i = choose|i: int| 0 <= i < s.len() && s[i] == x;
            assert(i < s.len() - 1);
            assert(s.drop_last()[i] == x);
        }
        if s.drop_last().contains(x) {
            let i = choose|i: int| 0 <= i < s.drop_last().len() && s.drop_last()[i] == x;
            assert(s[i] == x);
        }
    }
}

/// Membership in a pushed sequence.
proof fn lemma_push_contains<T>(s: Seq<T>, v: T)
    ensures
        forall|x: T| #[trigger] s.push(v).contains(x) == (s.contains(x) || x == v),
        s.no_duplicates() && !s.contains(v) ==> s.push(v).no_duplicates(),
{
    if s.no_duplicates() && !s.contains(v) {
        assert forall|i: int, j: int|
            0 <= i < s.push(v).len() && 0 <= j < s.push(v).len() && i != j implies s.push(v)[i]
            != s.push(v)[j] by {
            if i < s.len() && j < s.len() {
                assert(s.push(v)[i] == s[i] && s.push(v)[j] == s[j]);
            } else if i < s.len() {
                assert(s.push(v)[i] == s[i] && s.push(v)[j] == v);
                if s[i] == v { assert(s.contains(v)); }
            } else {
                assert(s.push(v)[i] == v && s.push(v)[j] == s[j]);
                if s[j] == v { assert(s.contains(v)); }
            }
        }
    }
    assert forall|x: T| #[trigger] s.push(v).contains(x) == (s.contains(x) || x == v) by {
        if s.contains(x) {
            let i = choose|i: int| 0 <= i < s.len() && s[i] == x;
            assert(s.push(v)[i] == x);
        }
        assert(s.push(v)[s.len() as int] == v);
        if s.push(v).contains(x) {
            let i = choose|i: int| 0 <= i < s.push(v).len() && s.push(v)[i] == x;
            if i < s.len() {
                assert(s[i] == x);
            }
        }
    }
}

impl MeshBuffers {
    /// Some live face other than `p` references vertex `v`.
    pub open spec fn referenced_elsewhere(self, p: int, v: u32) -> bool {
        exists|q: int|
            #[trigger] self.face_live(q) && q != p && (self.indices@[q] == v || self.indices@[q + 1]
                == v || self.indices@[q + 2] == v)
    }

    /// Some live face has a corner whose reference count is already zero:
    /// the bookkeeping fault that a refused removal exhibits.
    pub open spec fn some_live_face_underflows(self) -> bool {
        exists|p: int|
            #[trigger] self.face_live(p) && (self.rc_of(self.indices@[p] as int) == 0
                || self.rc_of(self.indices@[p + 1] as int) == 0 || self.rc_of(
                self.indices@[p + 2] as int,
            ) == 0)
    }

    /// Some live face has a corner held by exactly one count while another
    /// live face still references it: freeing it would strand that face.
    pub open spec fn some_live_face_stale(self) -> bool {
        exists|p: int, v: u32|
            #![trigger self.face_live(p), self.rc_of(v as int)]
            self.face_live(p) && (self.indices@[p] == v || self.indices@[p + 1] == v
                || self.indices@[p + 2] == v) && self.rc_of(v as int) == 1
                && self.referenced_elsewhere(p, v)
    }

    /// Some live face references vertex `v`.
    pub open spec fn vertex_referenced(self, v: u32) -> bool {
        exists|q: int|
            #[trigger] self.face_live(q) && (self.indices@[q] == v || self.indices@[q + 1] == v
                || self.indices@[q + 2] == v)
    }

    /// Scans the live faces, skipping position `skip`, for one that references
    /// vertex `v`.
    pub fn scan_referenced_elsewhere(&self, skip: usize, v: u32) -> (b: bool)
        requires
            self.wf(),
        ensures
            b == self.referenced_elsewhere(skip as int, v),
    {
        let n = self.indices.len();
        let mut p: usize = 0;
        while p < n
            invariant
                self.wf(),
                n == self.indices@.len(),
                p <= n,
                p % 3 == 0,
                forall|q: int|
                    #[trigger] self.face_live(q) && q != skip as int && q < p ==> !(self.indices@[q]
                        == v || self.indices@[q + 1] == v || self.indices@[q + 2] == v),
            decreases n - p,
        {
            if p != skip && !self.unused_indices.contains_slot(p) {
                if self.indices[p] == v || self.indices[p + 1] == v || self.indices[p + 2] == v {
                    assert(self.face_live(p as int));
                    return true;
                }
            }
            p = p + 3;
        }
        assert forall|q: int| #[trigger] self.face_live(q) && q != skip as int implies !(
        self.indices@[q] == v || self.indices@[q + 1] == v || self.indices@[q + 2] == v) by {
            assert(q < n);
        }
        false
    }

    /// Reuses a free-listed vertex slot if one exists, else appends; returns
    /// the stable index of the stored position.  The new vertex starts with a
    /// reference count of zero.
    pub fn add_vertex(&mut self, position: Vec3) -> (idx: u32)
        requires
            old(self).wf(),
            old(self).vertices@.len() < u32::MAX as int,
        ensures
            final(self).wf(),
            !old(self).vertex_live(idx as int),
            final(self).vertex_live(idx as int),
            final(self).vertices@[idx as int] == position,
            final(self).rc_of(idx as int) == 0,
            if old(self).unused_vertices.slots@.len() > 0 {
                &&& idx == old(self).unused_vertices.slots@.last()
                &&& final(self).vertices@ == old(self).vertices@.update(idx as int, position)
                &&& final(self).unused_vertices.slots@ == old(
                    self,
                ).unused_vertices.slots@.drop_last()
            } else {
                &&& idx as int == old(self).vertices@.len()
                &&& final(self).vertices@ == old(self).vertices@.push(position)
                &&& final(self).unused_vertices.slots@ == old(self).unused_vertices.slots@
            },
            forall|w: int|
                w != idx as int ==> (final(self).vertex_live(w) <==> old(self).vertex_live(w)),
            forall|w: int|
                0 <= w < old(self).vertices@.len() && w != idx as int ==> final(self).vertices@[w]
                    == old(self).vertices@[w],
            forall|v: int| final(self).rc_of(v) == old(self).rc_of(v),
            final(self).indices@ == old(self).indices@,
            final(self).unused_indices.slots@ == old(self).unused_indices.slots@,
            final(self).vertex_rc.counts@ == old(self).vertex_rc.counts@,
            final(self).cache.entries@ == old(self).cache.entries@,
    {
        proof {
            if old(self).unused_vertices.slots@.len() > 0 {
                lemma_pop_distinct(old(self).unused_vertices.slots@);
            }
        }
        let reused = self.unused_vertices.slots.pop();
        match reused {
            Some(idx) => {
                self.vertices.set(idx as usize, position);
                proof {
                    assert forall|w: int| old(self).vertex_live(w) implies self.vertex_live(
                        w,
                    ) by {}
                    assert(self.verts_wf());
                    assert(self.faces_wf());
                    assert forall|p: int| #[trigger] self.face_live(p) implies old(
                        self,
                    ).face_live(p) by {}
                    assert(self.live_faces_wf());
                    assert(self.cache_wf());
                }
                idx
            },
            None => {
                self.vertices.push(position);
                proof {
                    assert forall|w: int| old(self).vertex_live(w) implies self.vertex_live(
                        w,
                    ) by {}
                    assert(self.verts_wf());
                    assert(self.faces_wf());
                    assert forall|p: int| #[trigger] self.face_live(p) implies old(
                        self,
                    ).face_live(p) by {}
                    assert(self.live_faces_wf());
                    assert(self.cache_wf());
                }
                (self.vertices.len() - 1) as u32
            },
        }
    }

    /// Returns the position stored for live vertex `index`.
    pub fn get_vertex(&self, index: u32) -> (r: &Vec3)
        requires
            self.wf(),
            self.vertex_live(index as int),
        ensures
            *r == self.vertices@[index as int],
    {
        &self.vertices[index as usize]
    }

    /// Pushes a live, unreferenced, zero-count vertex onto the free list and
    /// drops every midpoint-cache entry that mentions it.
    pub fn remove_vertex(&mut self, index: u32)
        requires
            old(self).wf(),
            old(self).vertex_live(index as int),
            old(self).rc_of(index as int) == 0,
            !old(self).vertex_referenced(index),
        ensures
            final(self).wf(),
            final(self).unused_vertices.slots@ == old(self).unused_vertices.slots@.push(index),
            final(self).cache.entries@ == cache_purge(old(self).cache.entries@, index),
            final(self).vertices@ == old(self).vertices@,
            final(self).indices@ == old(self).indices@,
            final(self).unused_indices.slots@ == old(self).unused_indices.slots@,
            final(self).vertex_rc.counts@ == old(self).vertex_rc.counts@,
            !final(self).vertex_live(index as int),
            forall|w: int|
                w != index as int ==> (final(self).vertex_live(w) <==> old(self).vertex_live(w)),
            forall|p: int| final(self).face_live(p) <==> old(self).face_live(p),
            forall|v: int| final(self).rc_of(v) == old(self).rc_of(v),
            forall|i1: u32, i2: u32|
                #[trigger] cache_lookup(final(self).cache, i1, i2) == (match cache_lookup(
                    old(self).cache,
                    i1,
                    i2,
                ) {
                    Some(mp) => if i1 == index || i2 == index || mp == index {
                        None
                    } else {
                        Some(mp)
                    },
                    None => None::<u32>,
                }),
    {
        proof {
            lemma_push_contains(old(self).unused_vertices.slots@, index);
            lemma_cache_purge_wf(old(self).cache.entries@, index);
            assert forall|i1: u32, i2: u32|
                #[trigger] cache_lookup_at(
                    cache_purge(old(self).cache.entries@, index),
                    cache_key(i1, i2),
                ) == (match cache_lookup_at(old(self).cache.entries@, cache_key(i1, i2)) {
                    Some(mp) => if i1 == index || i2 == index || mp == index {
                        None
                    } else {
                        Some(mp)
                    },
                    None => None::<u32>,
                }) by {
                lemma_cache_purge_lookup(old(self).cache.entries@, index, cache_key(i1, i2));
            }
        }
        self.unused_vertices.slots.push(index);
        self.cache.remove(index);
        proof {
            lemma_cache_purge_pairwise(old(self).cache.entries@, index);
            lemma_cache_purge_subset(old(self).cache.entries@, index);
            assert forall|w: int| w != index as int && old(self).vertex_live(w) implies self
                .vertex_live(w) by {}
            assert(self.verts_wf());
            assert(self.faces_wf());
            assert forall|p: int| #[trigger] self.face_live(p) implies {
                let a = self.indices@[p];
                let b = self.indices@[p + 1];
                let c = self.indices@[p + 2];
                &&& self.vertex_live(a as int)
                &&& self.vertex_live(b as int)
                &&& self.vertex_live(c as int)
                &&& a != b && b != c && a != c
            } by {
                assert(old(self).face_live(p));
                let a = self.indices@[p];
                let b = self.indices@[p + 1];
                let c = self.indices@[p + 2];
                if a == index || b == index || c == index {
                    assert(old(self).vertex_referenced(index));
                }
            }
            assert(self.live_faces_wf());
            let es = self.cache.entries@;
            assert forall|i: int|
                0 <= i < es.len() implies self.vertex_live((#[trigger] es[i]).a as int)
                && self.vertex_live(es[i].b as int) && self.vertex_live(
                es[i].midpoint as int,
            ) by {
                let j = choose|j: int|
                    0 <= j < old(self).cache.entries@.len() && old(self).cache.entries@[j] == es[i];
                assert(!entry_mentions(es[i], index));
            }
            assert(self.cache_wf());
        }
    }
}

/// Restricting a pairwise well-formed entry sequence to its tail keeps it
/// pairwise well-formed.
proof fn lemma_pairwise_drop_first(es: Seq<CacheEntry>)
    requires
        es.len() > 0,
        entries_pairwise_wf(es),
    ensures
        entries_pairwise_wf(es.drop_first()),
{
    let t = es.drop_first();
    assert forall|i: int| 0 <= i < t.len() implies (#[trigger] t[i]).a < t[i].b by {
        assert(t[i] == es[i + 1]);
    }
    assert forall|i: int, j: int|
        0 <= i < t.len() && 0 <= j < t.len() && i != j implies !((#[trigger] t[i]).a == (
    #[trigger] t[j]).a && t[i].b == t[j].b) by {
        assert(t[i] == es[i + 1] && t[j] == es[j + 1]);
    }
    assert forall|i: int, j: int|
        0 <= i < t.len() && 0 <= j < t.len() && i != j implies (#[trigger] t[i]).midpoint != (
    #[trigger] t[j]).midpoint by {
        assert(t[i] == es[i + 1] && t[j] == es[j + 1]);
    }
    assert forall|i: int|
        0 <= i < t.len() implies (#[trigger] t[i]).midpoint != t[i].a && t[i].midpoint
        != t[i].b by {
        assert(t[i] == es[i + 1]);
    }
}

/// Every entry surviving a purge is an entry of the original sequence and
/// does not mention the removed vertex.
proof fn lemma_cache_purge_subset(es: Seq<CacheEntry>, v: u32)
    ensures
        cache_purge(es, v).len() <= es.len(),
        forall|k: int|
            0 <= k < cache_purge(es, v).len() ==> es.contains(#[trigger] cache_purge(es, v)[k])
                && !entry_mentions(cache_purge(es, v)[k], v),
    decreases es.len(),
{
    if es.len() > 0 {
        let t = es.drop_first();
        lemma_cache_purge_subset(t, v);
        assert forall|k: int|
            0 <= k < cache_purge(es, v).len() implies es.contains(
            #[trigger] cache_purge(es, v)[k],
        ) && !entry_mentions(cache_purge(es, v)[k], v) by {
            if entry_mentions(es[0], v) {
                assert(cache_purge(es, v) == cache_purge(t, v));
                assert(t.contains(cache_purge(t, v)[k]));
                let j = choose|j: int| 0 <= j < t.len() && t[j] == cache_purge(t, v)[k];
                assert(es[j + 1] == t[j]);
            } else {
                assert(cache_purge(es, v) == seq![es[0]] + cache_purge(t, v));
                if k == 0 {
                    assert(cache_purge(es, v)[0] == es[0]);
                } else {
                    assert(cache_purge(es, v)[k] == cache_purge(t, v)[k - 1]);
                    assert(t.contains(cache_purge(t, v)[k - 1]));
                    let j = choose|j: int| 0 <= j < t.len() && t[j] == cache_purge(t, v)[k - 1];
                    assert(es[j + 1] == t[j]);
                }
            }
        }
    }
}

/// Purging preserves the pairwise shape of the entry sequence.
proof fn lemma_cache_purge_pairwise(es: Seq<CacheEntry>, v: u32)
    requires
        entries_pairwise_wf(es),
    ensures
        entries_pairwise_wf(cache_purge(es, v)),
    decreases es.len(),
{
    if es.len() > 0 {
        let t = es.drop_first();
        lemma_pairwise_drop_first(es);
        lemma_cache_purge_pairwise(t, v);
        lemma_cache_purge_subset(t, v);
        if !entry_mentions(es[0], v) {
            let ps = cache_purge(es, v);
            let pt = cache_purge(t, v);
            assert(ps == seq![es[0]] + pt);
            assert(ps[0] == es[0]);
            assert forall|k: int| 1 <= k < ps.len() implies #[trigger] ps[k] == pt[k - 1] by {}
            // every tail survivor is some original entry beyond the head
            assert forall|k: int| 1 <= k < ps.len() implies t.contains(#[trigger] ps[k]) by {}
            assert forall|i: int, j: int|
                0 <= i < ps.len() && 0 <= j < ps.len() && i != j implies !((#[trigger] ps[i]).a
                == (#[trigger] ps[j]).a && ps[i].b == ps[j].b) by {
                if i != 0 && j != 0 {
                } else {
                    let k = if i == 0 { j } else { i };
                    let w = choose|w: int| 0 <= w < t.len() && t[w] == ps[k];
                    assert(es[w + 1] == t[w]);
                }
            }
            assert forall|i: int, j: int|
                0 <= i < ps.len() && 0 <= j < ps.len() && i != j implies (
            #[trigger] ps[i]).midpoint != (#[trigger] ps[j]).midpoint by {
                if i != 0 && j != 0 {
                } else {
                    let k = if i == 0 { j } else { i };
                    let w = choose|w: int| 0 <= w < t.len() && t[w] == ps[k];
                    assert(es[w + 1] == t[w]);
                }
            }
            assert forall|i: int|
                0 <= i < ps.len() implies (#[trigger] ps[i]).midpoint != ps[i].a && ps[i].midpoint
                != ps[i].b by {
                if i != 0 {
                    let w = choose|w: int| 0 <= w < t.len() && t[w] == ps[i];
                    assert(es[w + 1] == t[w]);
                }
            }
        }
    }
}

/// A sequence with no entry for `key` looks `key` up to nothing.
proof fn lemma_lookup_none(es: Seq<CacheEntry>, key: (u32, u32))
    requires
        forall|i: int| 0 <= i < es.len() ==> !((#[trigger] es[i]).a == key.0 && es[i].b == key.1),
    ensures
        cache_lookup_at(es, key) is None,
    decreases es.len(),
{
    if es.len() > 0 {
        let t = es.drop_first();
        assert forall|i: int|
            0 <= i < t.len() implies !((#[trigger] t[i]).a == key.0 && t[i].b == key.1) by {
            assert(t[i] == es[i + 1]);
        }
        lemma_lookup_none(t, key);
    }
}

/// What a purge does to a lookup: a key that involves the removed vertex, or
/// whose cached midpoint is the removed vertex, now misses; every other key
/// answers as before.
proof fn lemma_cache_purge_lookup(es: Seq<CacheEntry>, v: u32, key: (u32, u32))
    requires
        entries_pairwise_wf(es),
    ensures
        cache_lookup_at(cache_purge(es, v), key) == (if key.0 == v || key.1 == v {
            None
        } else {
            match cache_lookup_at(es, key) {
                Some(mp) => if mp == v {
                    None::<u32>
                } else {
                    Some(mp)
                },
                None => None::<u32>,
            }
        }),
    decreases es.len(),
{
    if es.len() == 0 {
    } else {
        let t = es.drop_first();
        lemma_pairwise_drop_first(es);
        lemma_cache_purge_lookup(t, v, key);
        let ps = cache_purge(es, v);
        let pt = cache_purge(t, v);
        if entry_mentions(es[0], v) {
            assert(ps == pt);
            if es[0].a == key.0 && es[0].b == key.1 {
                // the head was the unique entry for this key; the purged
                // sequence has none
                assert forall|i: int|
                    0 <= i < t.len() implies !((#[trigger] t[i]).a == key.0 && t[i].b == key.1) by {
                    assert(t[i] == es[i + 1]);
                }
                lemma_lookup_none(t, key);
                lemma_cache_purge_subset(t, v);
                assert forall|i: int|
                    0 <= i < pt.len() implies !((#[trigger] pt[i]).a == key.0 && pt[i].b
                    == key.1) by {
                    let j = choose|j: int| 0 <= j < t.len() && t[j] == pt[i];
                }
                lemma_lookup_none(pt, key);
            }
        } else {
            assert(ps == seq![es[0]] + pt);
            assert(ps[0] == es[0]);
            assert(ps.drop_first() =~= pt);
            if es[0].a == key.0 && es[0].b == key.1 {
                assert(cache_lookup_at(es, key) == Some(es[0].midpoint));
                assert(cache_lookup_at(ps, key) == Some(es[0].midpoint));
                assert(es[0].midpoint != v && es[0].a != v && es[0].b != v);
            } else {
                assert(cache_lookup_at(es, key) == cache_lookup_at(t, key));
                assert(cache_lookup_at(ps, key) == cache_lookup_at(pt, key));
            }
        }
    }
}

/// Purging preserves full cache well-formedness against a mesh state whose
/// vertex liveness agrees on every vertex other than the removed one.
proof fn lemma_cache_purge_wf(es: Seq<CacheEntry>, v: u32)
    ensures
        cache_purge(es, v).len() <= es.len(),
        forall|k: int|
            0 <= k < cache_purge(es, v).len() ==> es.contains(#[trigger] cache_purge(es, v)[k])
                && !entry_mentions(cache_purge(es, v)[k], v),
{
    lemma_cache_purge_subset(es, v);
}

/// A reference-count bump that saturates at the largest representable count.
pub open spec fn sat_bump(n: nat) -> nat {
    if n < u64::MAX as nat {
        n + 1
    } else {
        n
    }
}

impl MeshBuffers {
    /// Increments the reference count of each corner, then stores the face in
    /// a reused free slot group if one exists, else appends three slots.
    /// Returns the face position.
    pub fn add_face(&mut self, i1: u32, i2: u32, i3: u32) -> (p: usize)
        requires
            old(self).wf(),
            old(self).vertex_live(i1 as int),
            old(self).vertex_live(i2 as int),
            old(self).vertex_live(i3 as int),
            i1 != i2,
            i2 != i3,
            i1 != i3,
        ensures
            final(self).wf(),
            final(self).face_live(p as int),
            !old(self).face_live(p as int),
            final(self).indices@[p as int] == i1,
            final(self).indices@[p as int + 1] == i2,
            final(self).indices@[p as int + 2] == i3,
            forall|q: int| q != p as int ==> (final(self).face_live(q) <==> old(self).face_live(q)),
            forall|k: int|
                0 <= k < old(self).indices@.len() && !(p as int <= k < p as int + 3)
                    ==> final(self).indices@[k] == old(self).indices@[k],
            final(self).live_face_count() == old(self).live_face_count() + 1,
            if old(self).unused_indices.slots@.len() > 0 {
                &&& p == old(self).unused_indices.slots@.last()
                &&& final(self).unused_indices.slots@ == old(self).unused_indices.slots@.drop_last()
                &&& final(self).indices@.len() == old(self).indices@.len()
            } else {
                &&& p as int == old(self).indices@.len()
                &&& final(self).unused_indices.slots@ == old(self).unused_indices.slots@
                &&& final(self).indices@.len() == old(self).indices@.len() + 3
            },
            forall|v: int|
                v != i1 as int && v != i2 as int && v != i3 as int ==> final(self).rc_of(v) == old(
                    self,
                ).rc_of(v),
            final(self).rc_of(i1 as int) == sat_bump(old(self).rc_of(i1 as int)),
            final(self).rc_of(i2 as int) == sat_bump(old(self).rc_of(i2 as int)),
            final(self).rc_of(i3 as int) == sat_bump(old(self).rc_of(i3 as int)),
            final(self).vertices@ == old(self).vertices@,
            final(self).unused_vertices.slots@ == old(self).unused_vertices.slots@,
            final(self).cache.entries@ == old(self).cache.entries@,
            forall|w: int| final(self).vertex_live(w) <==> old(self).vertex_live(w),
            old(self).rc_zero_iff_free() ==> final(self).rc_zero_iff_free(),
    {
        self.vertex_rc.increment(i1);
        self.vertex_rc.increment(i2);
        self.vertex_rc.increment(i3);
        proof {
            if old(self).unused_indices.slots@.len() > 0 {
                lemma_pop_distinct(old(self).unused_indices.slots@);
            }
        }
        let reused = self.unused_indices.slots.pop();
        let n = self.indices.len();
        let p = match reused {
            Some(p) => {
                proof {
                    assert(old(self).unused_indices.slots@[old(
                        self,
                    ).unused_indices.slots@.len() - 1] == p);
                    assert(p + 3 <= n);
                }
                self.indices.set(p, i1);
                self.indices.set(p + 1, i2);
                self.indices.set(p + 2, i3);
                p
            },
            None => {
                self.indices.push(i1);
                self.indices.push(i2);
                self.indices.push(i3);
                self.indices.len() - 3
            },
        };
        proof {
            assert forall|w: int| self.vertex_live(w) <==> old(self).vertex_live(w) by {}
            assert(self.verts_wf());
            assert(self.faces_wf());
            assert forall|q: int|
                q != p as int implies (self.face_live(q) <==> old(self).face_live(q)) by {}
            assert forall|q: int| #[trigger] self.face_live(q) && q != p as int implies {
                let a = self.indices@[q];
                let b = self.indices@[q + 1];
                let c = self.indices@[q + 2];
                &&& self.vertex_live(a as int)
                &&& self.vertex_live(b as int)
                &&& self.vertex_live(c as int)
                &&& a != b && b != c && a != c
            } by {
                assert(old(self).face_live(q));
                assert(self.indices@[q] == old(self).indices@[q]);
                assert(self.indices@[q + 1] == old(self).indices@[q + 1]);
                assert(self.indices@[q + 2] == old(self).indices@[q + 2]);
            }
            assert(self.live_faces_wf());
            assert(self.cache_wf());
            if old(self).rc_zero_iff_free() {
                assert forall|v: int|
                    0 <= v < self.vertices@.len() implies (self.unused_vertices.slots@.contains(
                    v as u32) <==> self.rc_of(v) == 0) by {
                    assert(0 <= v < old(self).vertices@.len());
                    assert(old(self).unused_vertices.slots@.contains(v as u32) <==> old(
                        self,
                    ).rc_of(v) == 0);
                    if v == i1 as int || v == i2 as int || v == i3 as int {
                        assert(!old(self).unused_vertices.slots@.contains(v as u32));
                        assert(old(self).rc_of(v) != 0);
                    }
                }
            }
        }
        p
    }

    /// Returns the three corner indices of live face `index`.
    pub fn get_face(&self, index: usize) -> (r: (u32, u32, u32))
        requires
            self.wf(),
            self.face_live(index as int),
        ensures
            r.0 == self.indices@[index as int],
            r.1 == self.indices@[index as int + 1],
            r.2 == self.indices@[index as int + 2],
    {
        let n = self.indices.len();
        proof {
            assert(index + 3 <= n);
        }
        (self.indices[index], self.indices[index + 1], self.indices[index + 2])
    }

    /// Zeroes the three slots of live face `position` and returns the slot
    /// group to the free list.  Reference counts are untouched: full cleanup
    /// is `remove_face_and_vertices`.
    pub fn remove_face(&mut self, position: usize)
        requires
            old(self).wf(),
            old(self).face_live(position as int),
        ensures
            final(self).wf(),
            !final(self).face_live(position as int),
            forall|q: int|
                q != position as int ==> (final(self).face_live(q) <==> old(self).face_live(q)),
            final(self).unused_indices.slots@ == old(self).unused_indices.slots@.push(position),
            final(self).indices@ == old(self).indices@.update(position as int, 0u32).update(
                position as int + 1,
                0u32,
            ).update(position as int + 2, 0u32),
            final(self).live_face_count() == old(self).live_face_count() - 1,
            final(self).vertices@ == old(self).vertices@,
            final(self).unused_vertices.slots@ == old(self).unused_vertices.slots@,
            final(self).vertex_rc.counts@ == old(self).vertex_rc.counts@,
            final(self).cache.entries@ == old(self).cache.entries@,
            forall|w: int| final(self).vertex_live(w) <==> old(self).vertex_live(w),
            forall|v: int| final(self).rc_of(v) == old(self).rc_of(v),
    {
        proof {
            lemma_push_contains(old(self).unused_indices.slots@, position);
        }
        self.unused_indices.slots.push(position);
        let n = self.indices.len();
        proof {
            assert(position + 3 <= n);
        }
        self.indices.set(position, 0);
        self.indices.set(position + 1, 0);
        self.indices.set(position + 2, 0);
        proof {
            assert(self.verts_wf());
            assert(self.faces_wf());
            assert forall|q: int| #[trigger] self.face_live(q) implies {
                let a = self.indices@[q];
                let b = self.indices@[q + 1];
                let c = self.indices@[q + 2];
                &&& self.vertex_live(a as int)
                &&& self.vertex_live(b as int)
                &&& self.vertex_live(c as int)
                &&& a != b && b != c && a != c
            } by {
                assert(q != position as int);
                assert(old(self).face_live(q));
                assert(self.indices@[q] == old(self).indices@[q]);
                assert(self.indices@[q + 1] == old(self).indices@[q + 1]);
                assert(self.indices@[q + 2] == old(self).indices@[q + 2]);
            }
            assert(self.live_faces_wf());
            assert(self.cache_wf());
        }
    }

    /// Overwrites the corners of live face `position` in place, incrementing
    /// the reference counts of the new corners.  The displaced corners keep
    /// their counts: the caller accounts for them.
    pub fn replace_face(&mut self, position: usize, i1: u32, i2: u32, i3: u32)
        requires
            old(self).wf(),
            old(self).face_live(position as int),
            old(self).vertex_live(i1 as int),
            old(self).vertex_live(i2 as int),
            old(self).vertex_live(i3 as int),
            i1 != i2,
            i2 != i3,
            i1 != i3,
        ensures
            final(self).wf(),
            final(self).face_live(position as int),
            forall|q: int| final(self).face_live(q) <==> old(self).face_live(q),
            final(self).indices@ == old(self).indices@.update(position as int, i1).update(
                position as int + 1,
                i2,
            ).update(position as int + 2, i3),
            final(self).live_face_count() == old(self).live_face_count(),
            forall|v: int|
                v != i1 as int && v != i2 as int && v != i3 as int ==> final(self).rc_of(v) == old(
                    self,
                ).rc_of(v),
            final(self).rc_of(i1 as int) == sat_bump(old(self).rc_of(i1 as int)),
            final(self).rc_of(i2 as int) == sat_bump(old(self).rc_of(i2 as int)),
            final(self).rc_of(i3 as int) == sat_bump(old(self).rc_of(i3 as int)),
            final(self).vertices@ == old(self).vertices@,
            final(self).unused_vertices.slots@ == old(self).unused_vertices.slots@,
            final(self).unused_indices.slots@ == old(self).unused_indices.slots@,
            final(self).cache.entries@ == old(self).cache.entries@,
            forall|w: int| final(self).vertex_live(w) <==> old(self).vertex_live(w),
            old(self).rc_zero_iff_free() ==> final(self).rc_zero_iff_free(),
    {
        self.vertex_rc.increment(i1);
        self.vertex_rc.increment(i2);
        self.vertex_rc.increment(i3);
        let n = self.indices.len();
        proof {
            assert(position + 3 <= n);
        }
        self.indices.set(position, i1);
        self.indices.set(position + 1, i2);
        self.indices.set(position + 2, i3);
        proof {
            assert(self.verts_wf());
            assert(self.faces_wf());
            assert forall|q: int| #[trigger] self.face_live(q) && q != position as int implies {
                let a = self.indices@[q];
                let b = self.indices@[q + 1];
                let c = self.indices@[q + 2];
                &&& self.vertex_live(a as int)
                &&& self.vertex_live(b as int)
                &&& self.vertex_live(c as int)
                &&& a != b && b != c && a != c
            } by {
                assert(old(self).face_live(q));
                assert(self.indices@[q] == old(self).indices@[q]);
                assert(self.indices@[q + 1] == old(self).indices@[q + 1]);
                assert(self.indices@[q + 2] == old(self).indices@[q + 2]);
            }
            assert(self.live_faces_wf());
            assert(self.cache_wf());
            if old(self).rc_zero_iff_free() {
                assert forall|v: int|
                    0 <= v < self.vertices@.len() implies (self.unused_vertices.slots@.contains(
                    v as u32) <==> self.rc_of(v) == 0) by {
                    assert(0 <= v < old(self).vertices@.len());
                    assert(old(self).unused_vertices.slots@.contains(v as u32) <==> old(
                        self,
                    ).rc_of(v) == 0);
                    if v == i1 as int || v == i2 as int || v == i3 as int {
                        assert(!old(self).unused_vertices.slots@.contains(v as u32));
                        assert(old(self).rc_of(v) != 0);
                    }
                }
            }
        }
    }
}

/// A successful lookup names the midpoint of some entry that carries the key.
proof fn lemma_lookup_member(es: Seq<CacheEntry>, key: (u32, u32))
    requires
        cache_lookup_at(es, key) is Some,
    ensures
        exists|k: int|
            0 <= k < es.len() && (#[trigger] es[k]).a == key.0 && es[k].b == key.1
                && es[k].midpoint == cache_lookup_at(es, key)->Some_0,
    decreases es.len(),
{
    if es[0].a == key.0 && es[0].b == key.1 {
        assert(es[0].a == key.0 && es[0].b == key.1 && es[0].midpoint == cache_lookup_at(
            es,
            key,
        )->Some_0);
    } else {
        let t = es.drop_first();
        lemma_lookup_member(t, key);
        let k = choose|k: int|
            0 <= k < t.len() && (#[trigger] t[k]).a == key.0 && t[k].b == key.1 && t[k].midpoint
                == cache_lookup_at(t, key)->Some_0;
        assert(es[k + 1] == t[k]);
    }
}

/// If some entry carries the key, the lookup succeeds.
proof fn lemma_match_lookup_some(es: Seq<CacheEntry>, key: (u32, u32))
    requires
        exists|k: int| 0 <= k < es.len() && (#[trigger] es[k]).a == key.0 && es[k].b == key.1,
    ensures
        cache_lookup_at(es, key) is Some,
    decreases es.len(),
{
    if !(es[0].a == key.0 && es[0].b == key.1) {
        let k = choose|k: int|
            0 <= k < es.len() && (#[trigger] es[k]).a == key.0 && es[k].b == key.1;
        let t = es.drop_first();
        assert(t[k - 1] == es[k]);
        lemma_match_lookup_some(t, key);
    }
}

/// What appending one entry does to a lookup: keys already present answer as
/// before; the new entry answers only its own key.
proof fn lemma_lookup_push(es: Seq<CacheEntry>, e: CacheEntry, key: (u32, u32))
    ensures
        cache_lookup_at(es.push(e), key) == (match cache_lookup_at(es, key) {
            Some(mp) => Some(mp),
            None => if e.a == key.0 && e.b == key.1 {
                Some(e.midpoint)
            } else {
                None::<u32>
            },
        }),
    decreases es.len(),
{
    if es.len() == 0 {
        assert(es.push(e)[0] == e);
        assert(es.push(e).len() == 1);
        if e.a == key.0 && e.b == key.1 {
            assert(cache_lookup_at(es.push(e), key) == Some(e.midpoint));
        } else {
            assert(es.push(e).drop_first() =~= Seq::<CacheEntry>::empty());
            assert(cache_lookup_at(es.push(e).drop_first(), key) is None);
            assert(cache_lookup_at(es.push(e), key) is None);
        }
    } else {
        assert(es.push(e)[0] == es[0]);
        assert(es.push(e).drop_first() =~= es.drop_first().push(e));
        lemma_lookup_push(es.drop_first(), e, key);
        if es[0].a == key.0 && es[0].b == key.1 {
            assert(cache_lookup_at(es, key) == Some(es[0].midpoint));
            assert(cache_lookup_at(es.push(e), key) == Some(es[0].midpoint));
        } else {
            assert(cache_lookup_at(es, key) == cache_lookup_at(es.drop_first(), key));
            assert(cache_lookup_at(es.push(e), key) == cache_lookup_at(
                es.drop_first().push(e),
                key,
            ));
        }
    }
}

impl MeshBuffers {
    /// The reference count currently recorded for vertex `v`.
    pub fn rc_value(&self, v: u32) -> (r: u64)
        ensures
            r as nat == self.rc_of(v as int),
    {
        if (v as usize) < self.vertex_rc.counts.len() {
            self.vertex_rc.counts[v as usize]
        } else {
            0
        }
    }

    /// Resets every buffer simultaneously: the total teardown used when a
    /// root chunk undivides.
    pub fn clear_all(&mut self)
        ensures
            final(self).wf(),
            final(self).rc_zero_iff_free(),
            final(self).vertices@.len() == 0,
            final(self).indices@.len() == 0,
            final(self).unused_vertices.slots@.len() == 0,
            final(self).unused_indices.slots@.len() == 0,
            final(self).vertex_rc.counts@.len() == 0,
            final(self).cache.entries@.len() == 0,
    {
        self.indices.clear();
        self.vertices.clear();
        self.unused_indices.clear_all();
        self.unused_vertices.clear_all();
        self.vertex_rc.clear_all();
        self.cache.clear_all();
    }

    /// Removes live face `position` and drops one reference from each of its
    /// three corners; a corner whose count reaches zero is returned to the
    /// vertex free list (with its cache records).  A corner whose count is
    /// already zero, or whose count would reach zero while another live face
    /// still references it, is a bookkeeping bug: the call refuses it and
    /// leaves the buffers unchanged.
    #[verifier::rlimit(80)]
    pub fn remove_face_and_vertices(&mut self, position: usize) -> (r: Result<(), MeshError>)
        requires
            old(self).wf(),
            old(self).face_live(position as int),
        ensures
            final(self).wf(),
            ({
                let a = old(self).indices@[position as int];
                let b = old(self).indices@[position as int + 1];
                let c = old(self).indices@[position as int + 2];
                let underflow = old(self).rc_of(a as int) == 0 || old(self).rc_of(b as int) == 0
                    || old(self).rc_of(c as int) == 0;
                let stale = (old(self).rc_of(a as int) == 1 && old(self).referenced_elsewhere(
                    position as int,
                    a,
                )) || (old(self).rc_of(b as int) == 1 && old(self).referenced_elsewhere(
                    position as int,
                    b,
                )) || (old(self).rc_of(c as int) == 1 && old(self).referenced_elsewhere(
                    position as int,
                    c,
                ));
                match r {
                    Ok(u) => {
                        let freed_a = old(self).rc_of(a as int) == 1;
                        let freed_b = old(self).rc_of(b as int) == 1;
                        let freed_c = old(self).rc_of(c as int) == 1;
                        let free_add = (if freed_a {
                            seq![a]
                        } else {
                            Seq::<u32>::empty()
                        }) + (if freed_b {
                            seq![b]
                        } else {
                            Seq::<u32>::empty()
                        }) + (if freed_c {
                            seq![c]
                        } else {
                            Seq::<u32>::empty()
                        });
                        let es1 = if freed_a {
                            cache_purge(old(self).cache.entries@, a)
                        } else {
                            old(self).cache.entries@
                        };
                        let es2 = if freed_b {
                            cache_purge(es1, b)
                        } else {
                            es1
                        };
                        &&& !underflow
                        &&& !stale
                        &&& !final(self).face_live(position as int)
                        &&& forall|q: int|
                            q != position as int ==> (final(self).face_live(q) <==> old(
                                self,
                            ).face_live(q))
                        &&& final(self).unused_indices.slots@ == old(
                            self,
                        ).unused_indices.slots@.push(position)
                        &&& final(self).live_face_count() == old(self).live_face_count() - 1
                        &&& final(self).vertices@ == old(self).vertices@
                        &&& forall|v: int|
                            v != a as int && v != b as int && v != c as int ==> final(self).rc_of(v)
                                == old(self).rc_of(v)
                        &&& final(self).rc_of(a as int) == old(self).rc_of(a as int) - 1
                        &&& final(self).rc_of(b as int) == old(self).rc_of(b as int) - 1
                        &&& final(self).rc_of(c as int) == old(self).rc_of(c as int) - 1
                        &&& final(self).unused_vertices.slots@ == old(
                            self,
                        ).unused_vertices.slots@ + free_add
                        &&& final(self).cache.entries@ == (if freed_c {
                            cache_purge(es2, c)
                        } else {
                            es2
                        })
                        &&& forall|w: int|
                            !free_add.contains(w as u32) ==> (final(self).vertex_live(w) <==> old(
                                self,
                            ).vertex_live(w))
                        &&& (old(self).rc_zero_iff_free() ==> final(self).rc_zero_iff_free())
                    },
                    Err(e) => {
                        &&& *final(self) == *old(self)
                        &&& (e == MeshError::RefcountUnderflow <==> underflow)
                        &&& (e == MeshError::InvalidVertex <==> (!underflow && stale))
                        &&& (underflow || stale)
                    },
                }
            }),
    {
        let (a, b, c) = self.get_face(position);
        let rc_a = self.rc_value(a);
        let rc_b = self.rc_value(b);
        let rc_c = self.rc_value(c);
        if rc_a == 0 || rc_b == 0 || rc_c == 0 {
            return Err(MeshError::RefcountUnderflow);
        }
        if (rc_a == 1 && self.scan_referenced_elsewhere(position, a)) || (rc_b == 1
            && self.scan_referenced_elsewhere(position, b)) || (rc_c == 1
            && self.scan_referenced_elsewhere(position, c)) {
            return Err(MeshError::InvalidVertex);
        }
        self.remove_face(position);
        let ghost s0 = *self;
        let zero_a = match self.vertex_rc.decrement(a) {
            Ok(z) => z,
            Err(e) => {
                proof {
                    assert(false);
                }
                return Err(e);
            },
        };
        if zero_a {
            proof {
                assert forall|q: int|
                    !(#[trigger] self.face_live(q) && (self.indices@[q] == a || self.indices@[q
                        + 1] == a || self.indices@[q + 2] == a)) by {
                    if self.face_live(q) {
                        assert(old(self).face_live(q) && q != position as int);
                        assert(self.indices@[q] == old(self).indices@[q]);
                        assert(self.indices@[q + 1] == old(self).indices@[q + 1]);
                        assert(self.indices@[q + 2] == old(self).indices@[q + 2]);
                    }
                }
            }
            proof {
                assert forall|p: int| #[trigger] self.face_live(p) implies {
                    let x = self.indices@[p];
                    let y = self.indices@[p + 1];
                    let z = self.indices@[p + 2];
                    &&& self.vertex_live(x as int)
                    &&& self.vertex_live(y as int)
                    &&& self.vertex_live(z as int)
                    &&& x != y && y != z && x != z
                } by {
                    assert(s0.face_live(p));
                }
                assert(self.live_faces_wf());
                assert(self.wf());
            }
            self.remove_vertex(a);
        } else {
            proof {
                assert forall|p: int| #[trigger] self.face_live(p) implies {
                    let x = self.indices@[p];
                    let y = self.indices@[p + 1];
                    let z = self.indices@[p + 2];
                    &&& self.vertex_live(x as int)
                    &&& self.vertex_live(y as int)
                    &&& self.vertex_live(z as int)
                    &&& x != y && y != z && x != z
                } by {
                    assert(s0.face_live(p));
                }
                assert(self.live_faces_wf());
                assert(self.wf());
            }
        }
        let ghost s1 = *self;
        let zero_b = match self.vertex_rc.decrement(b) {
            Ok(z) => z,
            Err(e) => {
                proof {
                    assert(false);
                }
                return Err(e);
            },
        };
        if zero_b {
            proof {
                assert forall|q: int|
                    !(#[trigger] self.face_live(q) && (self.indices@[q] == b || self.indices@[q
                        + 1] == b || self.indices@[q + 2] == b)) by {
                    if self.face_live(q) {
                        assert(old(self).face_live(q) && q != position as int);
                        assert(self.indices@[q] == old(self).indices@[q]);
                        assert(self.indices@[q + 1] == old(self).indices@[q + 1]);
                        assert(self.indices@[q + 2] == old(self).indices@[q + 2]);
                    }
                }
            }
            proof {
                assert forall|p: int| #[trigger] self.face_live(p) implies {
                    let x = self.indices@[p];
                    let y = self.indices@[p + 1];
                    let z = self.indices@[p + 2];
                    &&& self.vertex_live(x as int)
                    &&& self.vertex_live(y as int)
                    &&& self.vertex_live(z as int)
                    &&& x != y && y != z && x != z
                } by {
                    assert(s1.face_live(p));
                }
                assert(self.live_faces_wf());
                assert(self.wf());
            }
            self.remove_vertex(b);
        } else {
            proof {
                assert forall|p: int| #[trigger] self.face_live(p) implies {
                    let x = self.indices@[p];
                    let y = self.indices@[p + 1];
                    let z = self.indices@[p + 2];
                    &&& self.vertex_live(x as int)
                    &&& self.vertex_live(y as int)
                    &&& self.vertex_live(z as int)
                    &&& x != y && y != z && x != z
                } by {
                    assert(s1.face_live(p));
                }
                assert(self.live_faces_wf());
                assert(self.wf());
            }
        }
        let ghost s2 = *self;
        let zero_c = match self.vertex_rc.decrement(c) {
            Ok(z) => z,
            Err(e) => {
                proof {
                    assert(false);
                }
                return Err(e);
            },
        };
        if zero_c {
            proof {
                assert forall|q: int|
                    !(#[trigger] self.face_live(q) && (self.indices@[q] == c || self.indices@[q
                        + 1] == c || self.indices@[q + 2] == c)) by {
                    if self.face_live(q) {
                        assert(old(self).face_live(q) && q != position as int);
                        assert(self.indices@[q] == old(self).indices@[q]);
                        assert(self.indices@[q + 1] == old(self).indices@[q + 1]);
                        assert(self.indices@[q + 2] == old(self).indices@[q + 2]);
                    }
                }
            }
            proof {
                assert forall|p: int| #[trigger] self.face_live(p) implies {
                    let x = self.indices@[p];
                    let y = self.indices@[p + 1];
                    let z = self.indices@[p + 2];
                    &&& self.vertex_live(x as int)
                    &&& self.vertex_live(y as int)
                    &&& self.vertex_live(z as int)
                    &&& x != y && y != z && x != z
                } by {
                    assert(s2.face_live(p));
                }
                assert(self.live_faces_wf());
                assert(self.wf());
            }
            self.remove_vertex(c);
        } else {
            proof {
                assert forall|p: int| #[trigger] self.face_live(p) implies {
                    let x = self.indices@[p];
                    let y = self.indices@[p + 1];
                    let z = self.indices@[p + 2];
                    &&& self.vertex_live(x as int)
                    &&& self.vertex_live(y as int)
                    &&& self.vertex_live(z as int)
                    &&& x != y && y != z && x != z
                } by {
                    assert(s2.face_live(p));
                }
                assert(self.live_faces_wf());
                assert(self.wf());
            }
        }
        proof {
            let fa = if zero_a { seq![a] } else { Seq::<u32>::empty() };
            let fb = if zero_b { seq![b] } else { Seq::<u32>::empty() };
            let fc = if zero_c { seq![c] } else { Seq::<u32>::empty() };
            assert(s1.unused_vertices.slots@ =~= old(self).unused_vertices.slots@ + fa);
            assert(s2.unused_vertices.slots@ =~= old(self).unused_vertices.slots@ + fa + fb);
            assert(self.unused_vertices.slots@ =~= old(self).unused_vertices.slots@ + (fa + fb
                + fc));
            lemma_push_contains(old(self).unused_vertices.slots@, a);
            lemma_push_contains(s1.unused_vertices.slots@, b);
            lemma_push_contains(s2.unused_vertices.slots@, c);
            assert forall|w: int|
                !(fa + fb + fc).contains(w as u32) implies (self.vertex_live(w) <==> old(
                    self,
                ).vertex_live(w)) by {
                if zero_a {
                    assert((fa + fb + fc)[0] == a);
                }
                if zero_b {
                    assert((fa + fb + fc)[fa.len() as int] == b);
                }
                if zero_c {
                    assert((fa + fb + fc)[(fa.len() + fb.len()) as int] == c);
                }
            }
            if old(self).rc_zero_iff_free() {
                assert forall|v: int|
                    0 <= v < self.vertices@.len() implies (self.unused_vertices.slots@.contains(
                    v as u32) <==> self.rc_of(v) == 0) by {
                    assert(old(self).unused_vertices.slots@.contains(v as u32) <==> old(
                        self,
                    ).rc_of(v) == 0);
                    if v == a as int {
                        assert(self.rc_of(v) == old(self).rc_of(v) - 1);
                    } else if v == b as int {
                        assert(self.rc_of(v) == old(self).rc_of(v) - 1);
                    } else if v == c as int {
                        assert(self.rc_of(v) == old(self).rc_of(v) - 1);
                    }
                }
            }
        }
        Ok(())
    }

    /// Returns the shared midpoint vertex for the edge `(i1, i2)`: the cached
    /// one when the pair has been split before, else a newly allocated vertex
    /// at the componentwise mean of the two endpoint positions, recorded in
    /// the cache under the unordered pair.
    pub fn get_midpoint(&mut self, i1: u32, i2: u32) -> (m: u32)
        requires
            old(self).wf(),
            old(self).vertex_live(i1 as int),
            old(self).vertex_live(i2 as int),
            i1 != i2,
            old(self).vertices@.len() < u32::MAX as int,
        ensures
            final(self).wf(),
            final(self).vertex_live(m as int),
            m != i1 && m != i2,
            cache_lookup(final(self).cache, i1, i2) == Some(m),
            forall|j1: u32, j2: u32|
                cache_key(j1, j2) != cache_key(i1, i2) ==> #[trigger] cache_lookup(
                    final(self).cache,
                    j1,
                    j2,
                ) == cache_lookup(old(self).cache, j1, j2),
            forall|q: int| final(self).face_live(q) <==> old(self).face_live(q),
            final(self).indices@ == old(self).indices@,
            final(self).unused_indices.slots@ == old(self).unused_indices.slots@,
            forall|v: int| final(self).rc_of(v) == old(self).rc_of(v),
            forall|w: int|
                w != m as int ==> (final(self).vertex_live(w) <==> old(self).vertex_live(w)),
            forall|w: int|
                0 <= w < old(self).vertices@.len() && w != m as int ==> final(self).vertices@[w]
                    == old(self).vertices@[w],
            final(self).vertices@.len() <= old(self).vertices@.len() + 1,
            match cache_lookup(old(self).cache, i1, i2) {
                Some(mp) => m == mp && *final(self) == *old(self),
                None => {
                    &&& !old(self).vertex_live(m as int)
                    &&& final(self).vertices@[m as int]@ == vmidpoint(
                        old(self).vertices@[i1 as int]@,
                        old(self).vertices@[i2 as int]@,
                    )
                    &&& final(self).rc_of(m as int) == 0
                    &&& final(self).cache.entries@ == old(self).cache.entries@.push(
                        CacheEntry {
                            a: cache_key(i1, i2).0,
                            b: cache_key(i1, i2).1,
                            midpoint: m,
                        },
                    )
                },
            },
    {
        let cached = self.cache.get(i1, i2);
        match cached {
            Some(idx) => {
                proof {
                    lemma_lookup_member(self.cache.entries@, cache_key(i1, i2));
                    let k = choose|k: int|
                        0 <= k < self.cache.entries@.len() && (#[trigger] self.cache.entries@[k]).a
                            == cache_key(i1, i2).0 && self.cache.entries@[k].b == cache_key(
                            i1,
                            i2,
                        ).1 && self.cache.entries@[k].midpoint == idx;
                    assert(self.vertex_live(idx as int));
                    assert(self.wf());
                    assert(cache_lookup(self.cache, i1, i2) == Some(idx));
                    assert(idx != i1 && idx != i2);
                }
                idx
            },
            None => {
                let p1 = self.get_vertex(i1).dup();
                let p2 = self.get_vertex(i2).dup();
                let mid = Vec3::midpoint(&p1, &p2);
                let idx = self.add_vertex(mid);
                let ghost sa = *self;
                self.cache.insert(i1, i2, idx);
                proof {
                    assert(self.verts_wf());
                    assert(self.faces_wf());
                    assert forall|p: int| #[trigger] self.face_live(p) implies {
                        let x = self.indices@[p];
                        let y = self.indices@[p + 1];
                        let z = self.indices@[p + 2];
                        &&& self.vertex_live(x as int)
                        &&& self.vertex_live(y as int)
                        &&& self.vertex_live(z as int)
                        &&& x != y && y != z && x != z
                    } by {
                        assert(sa.face_live(p));
                    }
                    assert(self.live_faces_wf());
                    let ghost key = cache_key(i1, i2);
                    let ghost entry = CacheEntry { a: key.0, b: key.1, midpoint: idx };
                    let ghost es_old = old(self).cache.entries@;
                    let ghost es_new = self.cache.entries@;
                    assert(es_new == es_old.push(entry));
                    // no old entry carries this key, else the lookup would
                    // have succeeded
                    assert forall|k: int|
                        0 <= k < es_old.len() implies !((#[trigger] es_old[k]).a == key.0
                        && es_old[k].b == key.1) by {
                        if es_old[k].a == key.0 && es_old[k].b == key.1 {
                            lemma_match_lookup_some(es_old, key);
                        }
                    }
                    assert(entries_pairwise_wf(es_new)) by {
                        assert forall|i: int|
                            0 <= i < es_new.len() implies (#[trigger] es_new[i]).a < es_new[i].b
                            && es_new[i].midpoint != es_new[i].a && es_new[i].midpoint
                            != es_new[i].b by {
                            if i < es_old.len() {
                                assert(es_new[i] == es_old[i]);
                            } else {
                                assert(es_new[i] == entry);
                                assert(old(self).vertex_live(i1 as int));
                                assert(old(self).vertex_live(i2 as int));
                                assert(!old(self).vertex_live(idx as int));
                            }
                        }
                        assert forall|i: int, j: int|
                            0 <= i < es_new.len() && 0 <= j < es_new.len() && i != j implies !((
                        #[trigger] es_new[i]).a == (#[trigger] es_new[j]).a && es_new[i].b
                            == es_new[j].b) by {
                            if i < es_old.len() && j < es_old.len() {
                                assert(es_new[i] == es_old[i] && es_new[j] == es_old[j]);
                            } else if i < es_old.len() {
                                assert(es_new[i] == es_old[i] && es_new[j] == entry);
                            } else {
                                assert(es_new[i] == entry && es_new[j] == es_old[j]);
                            }
                        }
                        assert forall|i: int, j: int|
                            0 <= i < es_new.len() && 0 <= j < es_new.len() && i != j implies (
                        #[trigger] es_new[i]).midpoint != (#[trigger] es_new[j]).midpoint by {
                            if i < es_old.len() && j < es_old.len() {
                                assert(es_new[i] == es_old[i] && es_new[j] == es_old[j]);
                            } else if i < es_old.len() {
                                assert(es_new[i] == es_old[i] && es_new[j] == entry);
                                assert(old(self).vertex_live(es_old[i].midpoint as int));
                            } else {
                                assert(es_new[i] == entry && es_new[j] == es_old[j]);
                                assert(old(self).vertex_live(es_old[j].midpoint as int));
                            }
                        }
                    }
                    assert forall|i: int|
                        0 <= i < es_new.len() implies self.vertex_live(
                        (#[trigger] es_new[i]).a as int) && self.vertex_live(es_new[i].b as int)
                        && self.vertex_live(es_new[i].midpoint as int) by {
                        if i < es_old.len() {
                            assert(es_new[i] == es_old[i]);
                            assert(old(self).vertex_live(es_old[i].a as int));
                            assert(old(self).vertex_live(es_old[i].b as int));
                            assert(old(self).vertex_live(es_old[i].midpoint as int));
                        } else {
                            assert(es_new[i] == entry);
                        }
                    }
                    assert(self.cache_wf());
                    lemma_lookup_push(es_old, entry, key);
                    assert forall|j1: u32, j2: u32|
                        cache_key(j1, j2) != cache_key(i1, i2) implies #[trigger] cache_lookup(
                        self.cache, j1, j2) == cache_lookup(old(self).cache, j1, j2) by {
                        lemma_lookup_push(es_old, entry, cache_key(j1, j2));
                    }
                }
                idx
            },
        }
    }
}

/// The number of leaf faces after `n` levels of triangular quadrisection.
pub open spec fn pow4(n: nat) -> nat
    decreases n,
{
    if n == 0 {
        1
    } else {
        4 * pow4((n - 1) as nat)
    }
}

/// Quadrisection counts grow with the level.
proof fn lemma_pow4_mono(m: nat, n: nat)
    requires
        m <= n,
    ensures
        pow4(m) <= pow4(n),
    decreases n,
{
    if m < n {
        lemma_pow4_mono(m, (n - 1) as nat);
    }
}

/// Two distinct cached keys name distinct midpoints.
proof fn lemma_distinct_midpoints(es: Seq<CacheEntry>, k1: (u32, u32), k2: (u32, u32))
    requires
        entries_pairwise_wf(es),
        cache_lookup_at(es, k1) is Some,
        cache_lookup_at(es, k2) is Some,
        k1 != k2,
    ensures
        cache_lookup_at(es, k1) != cache_lookup_at(es, k2),
{
    lemma_lookup_member(es, k1);
    lemma_lookup_member(es, k2);
    let i = choose|i: int|
        0 <= i < es.len() && (#[trigger] es[i]).a == k1.0 && es[i].b == k1.1 && es[i].midpoint
            == cache_lookup_at(es, k1)->Some_0;
    let j = choose|j: int|
        0 <= j < es.len() && (#[trigger] es[j]).a == k2.0 && es[j].b == k2.1 && es[j].midpoint
            == cache_lookup_at(es, k2)->Some_0;
    assert(i != j);
}

impl MeshBuffers {
    /// Splits one face into four: the three edge midpoints (shared with
    /// neighbours through the cache) become new corners; the original slot is
    /// reused for one child and three faces are added.  Returns the positions
    /// of the four children.
    #[verifier::rlimit(100)]
    fn quadrisect(&mut self, face_index: usize) -> (r: ([u32; 3], [usize; 4]))
        requires
            old(self).wf(),
            old(self).face_live(face_index as int),
            old(self).vertices@.len() + 3 <= u32::MAX as int,
        ensures
            final(self).wf(),
            final(self).live_face_count() == old(self).live_face_count() + 3,
            final(self).vertices@.len() <= old(self).vertices@.len() + 3,
            forall|q: int| old(self).face_live(q) ==> final(self).face_live(q),
            forall|w: int| old(self).vertex_live(w) ==> final(self).vertex_live(w),
            forall|w: int|
                old(self).vertex_live(w) ==> final(self).vertices@[w] == old(self).vertices@[w],
            r.1@[0] == face_index,
            r.1@.no_duplicates(),
            forall|k: int| 0 <= k < 4 ==> final(self).face_live(#[trigger] r.1@[k] as int),
            forall|k: int| 1 <= k < 4 ==> !old(self).face_live(#[trigger] r.1@[k] as int),
            ({
                let a = old(self).indices@[face_index as int];
                let b = old(self).indices@[face_index as int + 1];
                let c = old(self).indices@[face_index as int + 2];
                &&& final(self).vertex_live(r.0@[0] as int)
                &&& final(self).vertex_live(r.0@[1] as int)
                &&& final(self).vertex_live(r.0@[2] as int)
                &&& r.0@[0] != r.0@[1] && r.0@[1] != r.0@[2] && r.0@[0] != r.0@[2]
                &&& r.0@[0] != a && r.0@[0] != b
                &&& r.0@[1] != b && r.0@[1] != c
                &&& r.0@[2] != c && r.0@[2] != a
                // the returned trio are the shared midpoints of the three
                // edges, as the cache records them
                &&& cache_lookup(final(self).cache, a, b) == Some(r.0@[0])
                &&& cache_lookup(final(self).cache, b, c) == Some(r.0@[1])
                &&& cache_lookup(final(self).cache, c, a) == Some(r.0@[2])
                // the quadrisection pattern: the reused slot keeps one corner
                // with two midpoints, two children pair a corner with two
                // midpoints, and the centre is all three midpoints
                &&& final(self).indices@[r.1@[0] as int] == a
                &&& final(self).indices@[r.1@[0] as int + 1] == r.0@[0]
                &&& final(self).indices@[r.1@[0] as int + 2] == r.0@[2]
                &&& final(self).indices@[r.1@[1] as int] == r.0@[0]
                &&& final(self).indices@[r.1@[1] as int + 1] == b
                &&& final(self).indices@[r.1@[1] as int + 2] == r.0@[1]
                &&& final(self).indices@[r.1@[2] as int] == c
                &&& final(self).indices@[r.1@[2] as int + 1] == r.0@[2]
                &&& final(self).indices@[r.1@[2] as int + 2] == r.0@[1]
                &&& final(self).indices@[r.1@[3] as int] == r.0@[0]
                &&& final(self).indices@[r.1@[3] as int + 1] == r.0@[1]
                &&& final(self).indices@[r.1@[3] as int + 2] == r.0@[2]
            }),
            forall|j1: u32, j2: u32|
                #[trigger] cache_lookup(old(self).cache, j1, j2) is Some ==> cache_lookup(
                    final(self).cache,
                    j1,
                    j2,
                ) == cache_lookup(old(self).cache, j1, j2),
    {
        let (a, b, c) = self.get_face(face_index);
        let m1 = self.get_midpoint(a, b);
        let ghost s1 = *self;
        let m2 = self.get_midpoint(b, c);
        let ghost s2 = *self;
        let m3 = self.get_midpoint(c, a);
        let ghost s3 = *self;
        proof {
            assert(cache_key(a, b) != cache_key(b, c) && cache_key(b, c) != cache_key(c, a)
                && cache_key(a, b) != cache_key(c, a));
            assert(cache_lookup(self.cache, a, b) == Some(m1));
            assert(cache_lookup(self.cache, b, c) == Some(m2));
            assert(cache_lookup(self.cache, c, a) == Some(m3));
            lemma_distinct_midpoints(self.cache.entries@, cache_key(a, b), cache_key(b, c));
            lemma_distinct_midpoints(self.cache.entries@, cache_key(b, c), cache_key(c, a));
            lemma_distinct_midpoints(self.cache.entries@, cache_key(a, b), cache_key(c, a));
        }
        self.replace_face(face_index, a, m1, m3);
        let f2 = self.add_face(m1, b, m2);
        let f3 = self.add_face(c, m3, m2);
        let f4 = self.add_face(m1, m2, m3);
        proof {
            assert forall|j1: u32, j2: u32|
                #[trigger] cache_lookup(old(self).cache, j1, j2) is Some implies cache_lookup(
                self.cache, j1, j2) == cache_lookup(old(self).cache, j1, j2) by {
                assert(cache_lookup(s1.cache, j1, j2) == cache_lookup(old(self).cache, j1, j2))
                    by {
                    if cache_key(j1, j2) == cache_key(a, b) {
                        assert(cache_lookup(old(self).cache, a, b) == cache_lookup(
                            old(self).cache,
                            j1,
                            j2,
                        ));
                    }
                }
                assert(cache_lookup(s2.cache, j1, j2) == cache_lookup(s1.cache, j1, j2)) by {
                    if cache_key(j1, j2) == cache_key(b, c) {
                        assert(cache_lookup(s1.cache, b, c) == cache_lookup(s1.cache, j1, j2));
                    }
                }
                assert(cache_lookup(s3.cache, j1, j2) == cache_lookup(s2.cache, j1, j2)) by {
                    if cache_key(j1, j2) == cache_key(c, a) {
                        assert(cache_lookup(s2.cache, c, a) == cache_lookup(s2.cache, j1, j2));
                    }
                }
                assert(self.cache.entries@ == s3.cache.entries@);
            }
        }
        ([m1, m2, m3], [face_index, f2, f3, f4])
    }

    /// Applies `lod` levels of quadrisection starting from a single face.
    /// Returns the three midpoint vertices of the first level (for later
    /// re-subdivision) and the positions of all resulting leaf faces.
    pub fn subdivide_face(&mut self, index: usize, lod: usize) -> (r: ([u32; 3], Vec<usize>))
        requires
            old(self).wf(),
            old(self).face_live(index as int),
            old(self).vertices@.len() + pow4(lod as nat) <= u32::MAX as int,
        ensures
            final(self).wf(),
            r.1@.len() == pow4(lod as nat),
            r.1@.no_duplicates(),
            forall|k: int| 0 <= k < r.1@.len() ==> final(self).face_live(#[trigger] r.1@[k] as int),
            forall|q: int| old(self).face_live(q) ==> final(self).face_live(q),
            forall|w: int| old(self).vertex_live(w) ==> final(self).vertex_live(w),
            forall|w: int|
                old(self).vertex_live(w) ==> final(self).vertices@[w] == old(self).vertices@[w],
            final(self).live_face_count() == old(self).live_face_count() + pow4(lod as nat) - 1,
            final(self).vertices@.len() <= old(self).vertices@.len() + pow4(lod as nat) - 1,
            lod == 0 ==> r.1@ == seq![index] && *final(self) == *old(self),
            lod > 0 ==> ({
                let a = old(self).indices@[index as int];
                let b = old(self).indices@[index as int + 1];
                let c = old(self).indices@[index as int + 2];
                &&& final(self).vertex_live(r.0@[0] as int)
                &&& final(self).vertex_live(r.0@[1] as int)
                &&& final(self).vertex_live(r.0@[2] as int)
                &&& r.0@[0] != r.0@[1] && r.0@[1] != r.0@[2] && r.0@[0] != r.0@[2]
                &&& r.0@[0] != a && r.0@[0] != b
                &&& r.0@[1] != b && r.0@[1] != c
                &&& r.0@[2] != c && r.0@[2] != a
                // the recorded trio are the cached shared midpoints of the
                // original face's three edges
                &&& cache_lookup(final(self).cache, a, b) == Some(r.0@[0])
                &&& cache_lookup(final(self).cache, b, c) == Some(r.0@[1])
                &&& cache_lookup(final(self).cache, c, a) == Some(r.0@[2])
            }),
    {
        if lod == 0 {
            let mut faces: Vec<usize> = Vec::new();
            faces.push(index);
            proof {
                assert(faces@ =~= seq![index]);
            }
            return ([0, 0, 0], faces);
        }
        proof {
            lemma_pow4_mono(1, lod as nat);
            assert(pow4(0) == 1);
            assert(pow4(1) == 4 * pow4(0));
        }
        let (second_level, first_children) = self.quadrisect(index);
        let mut faces: Vec<usize> = Vec::new();
        faces.push(first_children[0]);
        faces.push(first_children[1]);
        faces.push(first_children[2]);
        faces.push(first_children[3]);
        proof {
            assert(faces@ =~= first_children@);
            assert(faces@.no_duplicates());
        }
        let mut current_lod: usize = 1;
        while current_lod < lod
            invariant
                self.wf(),
                1 <= current_lod <= lod,
                old(self).face_live(index as int),
                old(self).vertices@.len() + pow4(lod as nat) <= u32::MAX as int,
                faces@.len() == pow4(current_lod as nat),
                faces@.no_duplicates(),
                forall|k: int|
                    0 <= k < faces@.len() ==> self.face_live(#[trigger] faces@[k] as int),
                self.live_face_count() == old(self).live_face_count() + pow4(current_lod as nat)
                    - 1,
                self.vertices@.len() <= old(self).vertices@.len() + pow4(current_lod as nat) - 1,
                forall|q: int| old(self).face_live(q) ==> self.face_live(q),
                forall|w: int| old(self).vertex_live(w) ==> self.vertex_live(w),
                forall|w: int|
                    old(self).vertex_live(w) ==> self.vertices@[w] == old(self).vertices@[w],
                ({
                    let a = old(self).indices@[index as int];
                    let b = old(self).indices@[index as int + 1];
                    let c = old(self).indices@[index as int + 2];
                    &&& self.vertex_live(second_level@[0] as int)
                    &&& self.vertex_live(second_level@[1] as int)
                    &&& self.vertex_live(second_level@[2] as int)
                    &&& second_level@[0] != second_level@[1] && second_level@[1]
                        != second_level@[2] && second_level@[0] != second_level@[2]
                    &&& second_level@[0] != a && second_level@[0] != b
                    &&& second_level@[1] != b && second_level@[1] != c
                    &&& second_level@[2] != c && second_level@[2] != a
                    &&& cache_lookup(self.cache, a, b) == Some(second_level@[0])
                    &&& cache_lookup(self.cache, b, c) == Some(second_level@[1])
                    &&& cache_lookup(self.cache, c, a) == Some(second_level@[2])
                }),
            decreases lod - current_lod,
        {
            let ghost level_start = *self;
            let n_faces = faces.len();
            let mut new_faces: Vec<usize> = Vec::new();
            let mut fi: usize = 0;
            proof {
                lemma_pow4_mono(current_lod as nat + 1, lod as nat);
            }
            while fi < n_faces
                invariant
                    self.wf(),
                    fi <= n_faces,
                    n_faces == faces@.len(),
                    faces@.len() == pow4(current_lod as nat),
                    faces@.no_duplicates(),
                    current_lod < lod,
                    old(self).vertices@.len() + pow4(lod as nat) <= u32::MAX as int,
                    pow4(current_lod as nat + 1) <= pow4(lod as nat),
                    level_start.vertices@.len() <= old(self).vertices@.len() + pow4(
                        current_lod as nat,
                    ) - 1,
                    level_start.live_face_count() == old(self).live_face_count() + pow4(
                        current_lod as nat,
                    ) - 1,
                    forall|k: int|
                        fi <= k < faces@.len() ==> self.face_live(#[trigger] faces@[k] as int),
                    new_faces@.len() == 4 * fi,
                    new_faces@.no_duplicates(),
                    forall|k: int|
                        0 <= k < new_faces@.len() ==> self.face_live(
                            #[trigger] new_faces@[k] as int,
                        ),
                    forall|k1: int, k2: int|
                        0 <= k1 < new_faces@.len() && fi <= k2 < faces@.len()
                            ==> #[trigger] new_faces@[k1] != #[trigger] faces@[k2],
                    self.live_face_count() == level_start.live_face_count() + 3 * fi,
                    self.vertices@.len() <= level_start.vertices@.len() + 3 * fi,
                    forall|q: int| level_start.face_live(q) ==> self.face_live(q),
                    forall|w: int| level_start.vertex_live(w) ==> self.vertex_live(w),
                    forall|w: int|
                        level_start.vertex_live(w) ==> self.vertices@[w]
                            == level_start.vertices@[w],
                    forall|q: int| old(self).face_live(q) ==> level_start.face_live(q),
                    forall|w: int| old(self).vertex_live(w) ==> level_start.vertex_live(w),
                    forall|w: int|
                        old(self).vertex_live(w) ==> level_start.vertices@[w] == old(
                            self,
                        ).vertices@[w],
                    ({
                        let a = old(self).indices@[index as int];
                        let b = old(self).indices@[index as int + 1];
                        let c = old(self).indices@[index as int + 2];
                        &&& level_start.vertex_live(second_level@[0] as int)
                        &&& level_start.vertex_live(second_level@[1] as int)
                        &&& level_start.vertex_live(second_level@[2] as int)
                        &&& second_level@[0] != second_level@[1] && second_level@[1]
                            != second_level@[2] && second_level@[0] != second_level@[2]
                        &&& second_level@[0] != a && second_level@[0] != b
                        &&& second_level@[1] != b && second_level@[1] != c
                        &&& second_level@[2] != c && second_level@[2] != a
                        &&& cache_lookup(self.cache, a, b) == Some(second_level@[0])
                        &&& cache_lookup(self.cache, b, c) == Some(second_level@[1])
                        &&& cache_lookup(self.cache, c, a) == Some(second_level@[2])
                    }),
                decreases n_faces - fi,
            {
                let face_index = faces[fi];
                proof {
                    assert(self.vertices@.len() + 3 <= u32::MAX as int) by {
                        assert(3 * fi + 3 <= 3 * pow4(current_lod as nat));
                        assert(pow4(current_lod as nat) + 3 * pow4(current_lod as nat) == pow4(
                            current_lod as nat + 1,
                        ));
                    }
                }
                let (_, children) = self.quadrisect(face_index);
                let ghost prev_new = new_faces@;
                new_faces.push(children[0]);
                new_faces.push(children[1]);
                new_faces.push(children[2]);
                new_faces.push(children[3]);
                proof {
                    assert(children@[0] == face_index);
                    assert forall|k1: int, k2: int|
                        0 <= k1 < new_faces@.len() && fi + 1 <= k2 < faces@.len()
                            implies #[trigger] new_faces@[k1] != #[trigger] faces@[k2] by {
                        if k1 < prev_new.len() {
                            assert(new_faces@[k1] == prev_new[k1]);
                        } else {
                            let j = k1 - prev_new.len();
                            assert(new_faces@[k1] == children@[j]);
                            if j == 0 {
                            } else {
                                assert(!level_start.face_live(children@[j] as int));
                            }
                        }
                    }
                    assert forall|k1: int, k2: int|
                        0 <= k1 < new_faces@.len() && 0 <= k2 < new_faces@.len() && k1 != k2
                            implies #[trigger] new_faces@[k1] != #[trigger] new_faces@[k2] by {
                        if k1 < prev_new.len() && k2 < prev_new.len() {
                        } else if k1 < prev_new.len() {
                            let j = k2 - prev_new.len();
                            assert(new_faces@[k2] == children@[j]);
                        } else if k2 < prev_new.len() {
                            let j = k1 - prev_new.len();
                            assert(new_faces@[k1] == children@[j]);
                        } else {
                            let j1 = k1 - prev_new.len();
                            let j2 = k2 - prev_new.len();
                            assert(new_faces@[k1] == children@[j1]);
                            assert(new_faces@[k2] == children@[j2]);
                        }
                    }
                }
                fi = fi + 1;
            }
            faces = new_faces;
            current_lod = current_lod + 1;
            proof {
                assert(pow4(current_lod as nat) == 4 * pow4((current_lod - 1) as nat));
            }
        }
        (second_level, faces)
    }
}

/// The reference-counting law.  Counts never fall below zero: `decrement`
/// refuses a count already at zero.  And a vertex stands on the free list
/// exactly when its count is zero: `MeshBuffers::new` establishes
/// `rc_zero_iff_free`, and the contracts of `add_face` and
/// `remove_face_and_vertices` each carry its preservation, so the law holds
/// after any sequence of those calls.  This lemma states what the predicate
/// says of such a state.
pub proof fn lemma_refcount_zero_iff_free(m: MeshBuffers)
    requires
        m.rc_zero_iff_free(),
    ensures
        forall|v: int|
            0 <= v < m.vertices@.len() ==> (m.unused_vertices.slots@.contains(v as u32) <==> m.rc_of(
                v,
            ) == 0),
{
}

} // verus!
