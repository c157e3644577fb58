//! An orbital-mechanics simulation core coupled with an adaptive geodesic
//! mesh engine.  The orbit state machine advances bodies either by numeric
//! integration of Cartesian state or analytically from Keplerian elements,
//! converts between the two representations, and resolves positions through
//! an acyclic parent hierarchy.  The mesh side manages a shared,
//! reference-counted vertex and index buffer with midpoint deduplication,
//! over which a chunk tree subdivides and undivides an icosphere by camera
//! distance.  Real-number values are carried as exact decimal text and their
//! arithmetic is delegated to an arbitrary-precision library behind trusted,
//! named operations; every contract pins its result to a composition of
//! those names.

pub mod scalar;
pub mod vector;
pub mod solver;
pub mod mesh;
pub mod chunk;
pub mod orbit;
pub mod planet;
pub mod time;

pub use crate::chunk::Chunk;
pub use crate::mesh::MeshBuffers;
pub use crate::mesh::MeshError;
pub use crate::mesh::MidpointIndexCache;
pub use crate::mesh::UnusedIndices;
pub use crate::mesh::UnusedVertices;
pub use crate::mesh::VertexRc;
pub use crate::orbit::Bodies;
pub use crate::orbit::Body;
pub use crate::orbit::Frame;
pub use crate::orbit::Orbit;
pub use crate::orbit::OrbitError;
pub use crate::orbit::Planet;
pub use crate::planet::PlanetViewBundle;
pub use crate::scalar::Scalar;
pub use crate::solver::KeplerEquation;
pub use crate::solver::solve_newton_raphson;
pub use crate::solver::solve_newton_raphson_with_convergence;
pub use crate::time::DeltaTime;
pub use crate::time::TimeSpeed;
pub use crate::vector::Vec3;
