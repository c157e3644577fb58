use vstd::prelude::*;

use crate::scalar::Scalar;
use crate::scalar::add_of;
use crate::scalar::sub_of;
use crate::scalar::mul_of;
use crate::scalar::div_of;
use crate::scalar::rem_of;
use crate::scalar::sqrt_of;
use crate::scalar::sin_of;
use crate::scalar::cos_of;
use crate::scalar::tan_of;
use crate::scalar::atan_of;
use crate::scalar::acos_of;
use crate::scalar::lt_of;
use crate::scalar::neg_of;
use crate::scalar::zero_text;
use crate::scalar::one_text;
use crate::scalar::two_text;
use crate::scalar::half_text;
use crate::scalar::two_pi_text;
use crate::solver::KeplerEquation;
use crate::solver::newton_iterate;
use crate::solver::solve_newton_raphson;
use crate::vector::Vec3;
use crate::vector::Vec3View;
use crate::vector::vadd;
use crate::vector::vsub;
use crate::vector::vdiv;
use crate::vector::vdot;
use crate::vector::vcross;
use crate::vector::vmagnitude;
use crate::vector::vrotate_x;
use crate::vector::vrotate_z;

verus! {

// The orbit state machine.  A body's motion is either Free - Cartesian
// position and velocity integrated under two-body gravity with velocity
// Verlet - or Kepler - classical orbital elements propagated analytically by
// solving Kepler's equation each step.  Exactly one representation is
// authoritative at a time, selected by the sum type `Motion`; the current
// Cartesian position and speed are kept up to date by every step in either
// mode.

/// Solver tolerance on the eccentric anomaly.
pub fn eccentric_anomaly_tolerance() -> (s: Scalar)
    ensures
        s@ == "1e-6"@,
{
    Scalar::from_text("1e-6")
}

/// Iteration budget for the eccentric-anomaly solver.
pub const ECCENTRIC_ANOMALY_MAX_ITERATIONS: u32 = 100;

/// The gravitational constant G.
pub open spec fn g_text() -> Seq<char> {
    "6.6743e-11"@
}

/// The gravitational constant G.
pub fn gravitational_constant() -> (s: Scalar)
    ensures
        s@ == g_text(),
{
    Scalar::from_text("6.6743e-11")
}

/// The mean motion `sqrt(mu / a^3)` of an orbit with semimajor axis `a`
/// around a parent of standard gravitational parameter `mu`.
pub open spec fn mean_motion_of(a: Seq<char>, mu: Seq<char>) -> Seq<char> {
    sqrt_of(div_of(mu, mul_of(mul_of(a, a), a)))
}

/// How an orbit's movement is interpreted.
#[derive(Debug, Clone, Copy, PartialEq, Eq, Structural)]
pub enum Frame {
    /// Movement simulated dynamically by numeric integration.
    Free,
    /// Movement propagated analytically from orbital elements.
    Orbit,
}

/// Why a Keplerian step was refused.  Only elliptical paths are implemented:
/// the others fail loudly rather than silently misbehave.
#[derive(Debug, Clone, Copy, PartialEq, Eq, Structural)]
pub enum OrbitError {
    /// A negative eccentricity makes no physical sense.
    NegativeEccentricity,
    /// A parabolic path (eccentricity one, or one that the ordering cannot
    /// classify) is not implemented.
    ParabolicUnsupported,
    /// A hyperbolic path (eccentricity above one) is not implemented.
    HyperbolicUnsupported,
}

/// The classical orbital elements of an elliptical orbit, with the mean
/// motion derived once at construction.
#[derive(Debug)]
pub struct Elements {
    pub semimajor_axis: Scalar,
    pub eccentricity: Scalar,
    pub argument_of_periapsis: Scalar,
    pub inclination: Scalar,
    pub longitude_of_ascending_node: Scalar,
    pub mean_movement: Scalar,
}

/// The authoritative representation of an orbit's motion.
#[derive(Debug)]
pub enum Motion {
    /// Cartesian velocity, integrated numerically.
    Free { velocity: Vec3 },
    /// Orbital elements and the current anomalies, propagated analytically.
    Kepler {
        elements: Elements,
        current_mean_anomaly: Scalar,
        current_eccentric_anomaly: Scalar,
        radius: Scalar,
    },
}

/// The motion state of one body relative to a parent body, identified by its
/// handle in the `Bodies` registry.
#[derive(Debug)]
pub struct Orbit {
    pub position: Vec3,
    pub velocity: Scalar,
    pub motion: Motion,
    pub epoch: Scalar,
    pub parent: usize,
}

/// A gravitating mass anchor: its standard gravitational parameter and,
/// unless it is the fixed root of the hierarchy, its own orbit.
#[derive(Debug)]
pub struct Body {
    pub standard_gravitational_parameter: Scalar,
    pub orbit: Option<Orbit>,
}

/// The registry of bodies.  Handles are indices; a body's own orbit may only
/// point at an earlier body, so parent chains are acyclic by construction.
#[derive(Debug)]
pub struct Bodies {
    pub items: Vec<Body>,
}

/// A handle to a registered body that does not change.
#[derive(Debug, Clone, Copy)]
pub struct Planet {
    pub body: usize,
}

/// The texts produced by one analytic Kepler step.
pub struct KeplerStepView {
    pub mean_anomaly: Seq<char>,
    pub eccentric_anomaly: Seq<char>,
    pub radius: Seq<char>,
    pub position: Vec3View,
    pub velocity: Seq<char>,
}

/// One analytic propagation step: the mean anomaly advances by `n * dt` and
/// wraps into `[0, 2*pi)`; Kepler's equation is inverted for the eccentric
/// anomaly; the true anomaly, orbital radius, plane position rotated by
/// inclination then ascending node, and vis-viva speed follow.
pub open spec fn kepler_step_view(
    a: Seq<char>,
    e: Seq<char>,
    omega: Seq<char>,
    inc: Seq<char>,
    lan: Seq<char>,
    n: Seq<char>,
    m: Seq<char>,
    mu: Seq<char>,
    dt: Seq<char>,
) -> KeplerStepView {
    let wrapped = rem_of(add_of(m, mul_of(n, dt)), two_pi_text());
    let m2 = if lt_of(wrapped, zero_text()) {
        add_of(wrapped, two_pi_text())
    } else {
        wrapped
    };
    let ea = newton_iterate(e, m2, m2, "1e-6"@, ECCENTRIC_ANOMALY_MAX_ITERATIONS as nat);
    let c = sqrt_of(div_of(add_of(one_text(), e), sub_of(one_text(), e)));
    let nu0 = mul_of(atan_of(mul_of(c, tan_of(div_of(ea, two_text())))), two_text());
    let radius = div_of(
        mul_of(a, sub_of(one_text(), mul_of(e, e))),
        add_of(one_text(), mul_of(e, cos_of(nu0))),
    );
    let nu = add_of(nu0, omega);
    let plane = Vec3View { x: mul_of(radius, cos_of(nu)), y: zero_text(), z: mul_of(radius, sin_of(nu)) };
    let rotated = vrotate_z(vrotate_x(plane, inc), lan);
    let speed = sqrt_of(mul_of(mu, sub_of(div_of(two_text(), radius), div_of(one_text(), a))));
    KeplerStepView {
        mean_anomaly: m2,
        eccentric_anomaly: ea,
        radius: radius,
        position: rotated,
        velocity: speed,
    }
}

/// The texts produced by one velocity-Verlet integration step.
pub struct FreeStepView {
    pub position: Vec3View,
    pub velocity: Vec3View,
    pub speed: Seq<char>,
}

/// One velocity-Verlet step under pure two-body gravity: acceleration at the
/// current position moves the position, acceleration is recomputed there, and
/// the velocity advances by the average of the two.
pub open spec fn free_step_view(pos: Vec3View, vel: Vec3View, mu: Seq<char>, dt: Seq<char>) -> FreeStepView {
    let r_squared = vdot(pos, pos);
    let g = div_of(mu, r_squared);
    let rr = sqrt_of(r_squared);
    let gx = mul_of(div_of(neg_of(pos.x), rr), g);
    let gy = mul_of(div_of(neg_of(pos.y), rr), g);
    let gz = mul_of(div_of(neg_of(pos.z), rr), g);
    let sshs = div_of(mul_of(dt, dt), two_text());
    let pos2 = Vec3View {
        x: add_of(pos.x, add_of(mul_of(vel.x, dt), mul_of(gx, sshs))),
        y: add_of(pos.y, add_of(mul_of(vel.y, dt), mul_of(gy, sshs))),
        z: add_of(pos.z, add_of(mul_of(vel.z, dt), mul_of(gz, sshs))),
    };
    let r_squared_new = vdot(pos2, pos2);
    let g_new = div_of(mu, r_squared_new);
    let rr_new = sqrt_of(r_squared_new);
    let gx_new = mul_of(div_of(neg_of(pos2.x), rr_new), g_new);
    let gy_new = mul_of(div_of(neg_of(pos2.y), rr_new), g_new);
    let gz_new = mul_of(div_of(neg_of(pos2.z), rr_new), g_new);
    let vel2 = Vec3View {
        x: add_of(vel.x, mul_of(mul_of(half_text(), add_of(gx, gx_new)), dt)),
        y: add_of(vel.y, mul_of(mul_of(half_text(), add_of(gy, gy_new)), dt)),
        z: add_of(vel.z, mul_of(mul_of(half_text(), add_of(gz, gz_new)), dt)),
    };
    FreeStepView { position: pos2, velocity: vel2, speed: vmagnitude(vel2) }
}

/// The velocity vector recovered from orbital elements when switching to the
/// Free frame: plane-local components from the eccentric anomaly, rotated by
/// the argument of periapsis, inclination and ascending node.
pub open spec fn set_free_velocity_view(
    e: Seq<char>,
    mu: Seq<char>,
    a: Seq<char>,
    radius: Seq<char>,
    ea: Seq<char>,
    omega: Seq<char>,
    lan: Seq<char>,
    inc_stored: Seq<char>,
) -> Vec3View {
    let constant = div_of(sqrt_of(mul_of(mu, a)), radius);
    let vx = mul_of(neg_of(constant), sin_of(ea));
    let vz = mul_of(constant, mul_of(sqrt_of(sub_of(one_text(), mul_of(e, e))), cos_of(ea)));
    let inc = neg_of(inc_stored);
    let cos_w = cos_of(omega);
    let sin_w = sin_of(omega);
    let cos_l = cos_of(lan);
    let sin_l = sin_of(lan);
    let sin_i = sin_of(inc);
    let cos_i = cos_of(inc);
    Vec3View {
        x: sub_of(
            mul_of(vx, sub_of(mul_of(cos_w, cos_l), mul_of(mul_of(sin_w, cos_i), sin_l))),
            mul_of(vz, add_of(mul_of(sin_w, cos_l), mul_of(mul_of(cos_w, cos_i), sin_l))),
        ),
        y: add_of(mul_of(mul_of(vx, sin_w), sin_i), mul_of(mul_of(vz, cos_w), sin_i)),
        z: add_of(
            mul_of(vx, add_of(mul_of(cos_w, cos_l), mul_of(mul_of(sin_w, cos_i), sin_l))),
            mul_of(vz, sub_of(mul_of(mul_of(cos_w, cos_i), cos_l), mul_of(sin_w, sin_l))),
        ),
    }
}

/// The texts produced by deriving orbital elements from Cartesian state.
pub struct SetOrbitView {
    pub semimajor_axis: Seq<char>,
    pub eccentricity: Seq<char>,
    pub argument_of_periapsis: Seq<char>,
    pub inclination: Seq<char>,
    pub longitude_of_ascending_node: Seq<char>,
    pub mean_movement: Seq<char>,
    pub mean_anomaly: Seq<char>,
    pub eccentric_anomaly: Seq<char>,
    pub radius: Seq<char>,
}

/// Derivation of orbital elements from Cartesian position, velocity vector
/// and speed: momentum and eccentricity vectors, the node line, quadrant
/// selection of the angles by the usual sign tests, Kepler's equation for the
/// mean anomaly, and the vis-viva semimajor axis.
pub open spec fn set_orbit_view(
    pos: Vec3View,
    vel: Vec3View,
    speed: Seq<char>,
    mu: Seq<char>,
) -> SetOrbitView {
    let radius = vmagnitude(pos);
    let momentum = vcross(pos, vel);
    let ecc_vec = vsub(vdiv(vcross(vel, momentum), mu), vdiv(pos, radius));
    let nvec = Vec3View { x: neg_of(momentum.y), y: momentum.x, z: zero_text() };
    let n_norm = vmagnitude(nvec);
    let acos_term = acos_of(
        div_of(vdot(ecc_vec, pos), mul_of(vmagnitude(ecc_vec), vmagnitude(pos))),
    );
    let nu = if !lt_of(vdot(pos, vel), zero_text()) {
        acos_term
    } else {
        sub_of(two_pi_text(), acos_term)
    };
    let inclination = acos_of(div_of(momentum.z, vmagnitude(momentum)));
    let ecc = vmagnitude(ecc_vec);
    let ecc_const = sqrt_of(div_of(add_of(one_text(), ecc), sub_of(one_text(), ecc)));
    let ea = mul_of(two_text(), atan_of(div_of(tan_of(div_of(nu, two_text())), ecc_const)));
    let lan = if !lt_of(nvec.y, zero_text()) {
        acos_of(div_of(nvec.x, n_norm))
    } else {
        sub_of(two_pi_text(), acos_of(div_of(nvec.x, n_norm)))
    };
    let omega = if !lt_of(ecc_vec.z, zero_text()) {
        acos_of(div_of(vdot(nvec, ecc_vec), mul_of(ecc, n_norm)))
    } else {
        sub_of(two_pi_text(), acos_of(div_of(vdot(nvec, ecc_vec), mul_of(ecc, n_norm))))
    };
    let mean_anomaly = sub_of(ea, mul_of(ecc, sin_of(ea)));
    let a = div_of(
        one_text(),
        sub_of(div_of(two_text(), radius), div_of(mul_of(speed, speed), mu)),
    );
    SetOrbitView {
        semimajor_axis: a,
        eccentricity: ecc,
        argument_of_periapsis: omega,
        inclination: neg_of(inclination),
        longitude_of_ascending_node: lan,
        mean_movement: mean_motion_of(a, mu),
        mean_anomaly: mean_anomaly,
        eccentric_anomaly: ea,
        radius: radius,
    }
}

impl Bodies {
    /// Parent chains are acyclic: a body's own orbit points at an earlier
    /// body.
    pub open spec fn wf(self) -> bool {
        forall|i: int|
            0 <= i < self.items@.len() ==> ((#[trigger] self.items@[i]).orbit matches Some(o)
                ==> o.parent < i)
    }

    /// An empty registry.
    pub fn new() -> (r: Bodies)
        ensures
            r.wf(),
            r.items@.len() == 0,
    {
        Bodies { items: Vec::new() }
    }

    /// Registers a body and returns its handle.  A body with its own orbit
    /// must orbit an already registered body.
    pub fn add(&mut self, body: Body) -> (id: usize)
        requires
            old(self).wf(),
            body.orbit matches Some(o) ==> o.parent < old(self).items@.len(),
        ensures
            final(self).wf(),
            id == old(self).items@.len(),
            final(self).items@ == old(self).items@.push(body),
    {
        let id = self.items.len();
        self.items.push(body);
        id
    }

    /// The number of registered bodies.
    pub fn count(&self) -> (n: usize)
        ensures
            n == self.items@.len(),
    {
        self.items.len()
    }

    /// The body behind a handle.
    pub fn get(&self, id: usize) -> (b: &Body)
        requires
            id < self.items@.len(),
        ensures
            *b == self.items@[id as int],
    {
        &self.items[id]
    }
}

impl Body {
    /// A body of the given mass: its standard gravitational parameter is the
    /// mass times the gravitational constant.
    pub fn new(mass: Scalar, orbit: Option<Orbit>) -> (b: Body)
        ensures
            b.standard_gravitational_parameter@ == mul_of(mass@, g_text()),
            b.orbit == orbit,
    {
        let g = gravitational_constant();
        Body { standard_gravitational_parameter: mass.mul(&g), orbit }
    }
}

impl Planet {
    /// Registers a body of the given mass and returns a fixed handle to it.
    pub fn new(bodies: &mut Bodies, mass: Scalar, orbit: Option<Orbit>) -> (p: Planet)
        requires
            old(bodies).wf(),
            orbit matches Some(o) ==> o.parent < old(bodies).items@.len(),
        ensures
            final(bodies).wf(),
            p.body == old(bodies).items@.len(),
            final(bodies).items@.len() == old(bodies).items@.len() + 1,
            final(bodies).items@[p.body as int].standard_gravitational_parameter@ == mul_of(
                mass@,
                g_text(),
            ),
            final(bodies).items@[p.body as int].orbit == orbit,
    {
        let body = Body::new(mass, orbit);
        let id = bodies.add(body);
        Planet { body: id }
    }
}

impl Orbit {
    /// Which representation of the motion is authoritative.
    pub open spec fn spec_frame(self) -> Frame {
        match self.motion {
            Motion::Free { .. } => Frame::Free,
            Motion::Kepler { .. } => Frame::Orbit,
        }
    }

    /// The velocity vector, in the Free frame.
    pub open spec fn spec_free_velocity(self) -> Vec3View {
        match self.motion {
            Motion::Free { velocity } => velocity@,
            Motion::Kepler { .. } => arbitrary(),
        }
    }

    /// The orbital elements, in the Orbit frame.
    pub open spec fn spec_elements(self) -> Elements {
        match self.motion {
            Motion::Kepler { elements, .. } => elements,
            Motion::Free { .. } => arbitrary(),
        }
    }

    /// The current mean anomaly, in the Orbit frame.
    pub open spec fn spec_mean_anomaly(self) -> Seq<char> {
        match self.motion {
            Motion::Kepler { current_mean_anomaly, .. } => current_mean_anomaly@,
            Motion::Free { .. } => arbitrary(),
        }
    }

    /// The current eccentric anomaly, in the Orbit frame.
    pub open spec fn spec_eccentric_anomaly(self) -> Seq<char> {
        match self.motion {
            Motion::Kepler { current_eccentric_anomaly, .. } => current_eccentric_anomaly@,
            Motion::Free { .. } => arbitrary(),
        }
    }

    /// The current orbital radius, in the Orbit frame.
    pub open spec fn spec_radius(self) -> Seq<char> {
        match self.motion {
            Motion::Kepler { radius, .. } => radius@,
            Motion::Free { .. } => arbitrary(),
        }
    }

    /// Which representation of the motion is authoritative.
    pub fn frame(&self) -> (f: Frame)
        ensures
            f == self.spec_frame(),
    {
        match &self.motion {
            Motion::Free { .. } => Frame::Free,
            Motion::Kepler { .. } => Frame::Orbit,
        }
    }

    /// The current Cartesian position relative to the parent body.
    pub fn position(&self) -> (r: (Scalar, Scalar, Scalar))
        ensures
            r.0@ == self.position@.x,
            r.1@ == self.position@.y,
            r.2@ == self.position@.z,
    {
        (self.position.x.dup(), self.position.y.dup(), self.position.z.dup())
    }

    /// The current speed.
    pub fn velocity(&self) -> (r: Scalar)
        ensures
            r@ == self.velocity@,
    {
        self.velocity.dup()
    }

    /// The Cartesian velocity vector, when the orbit is in the Free frame.
    pub fn free_velocity(&self) -> (r: Option<(Scalar, Scalar, Scalar)>)
        ensures
            match r {
                Some(v) => self.motion is Free && v.0@ == self.spec_free_velocity().x && v.1@
                    == self.spec_free_velocity().y && v.2@ == self.spec_free_velocity().z,
                None => self.motion is Kepler,
            },
    {
        match &self.motion {
            Motion::Free { velocity } => Some(
                (velocity.x.dup(), velocity.y.dup(), velocity.z.dup()),
            ),
            Motion::Kepler { .. } => None,
        }
    }

    /// The mean motion, when the orbit is in the Orbit frame.
    pub fn mean_movement(&self) -> (r: Option<Scalar>)
        ensures
            match r {
                Some(s) => self.motion is Kepler && s@ == self.spec_elements().mean_movement@,
                None => self.motion is Free,
            },
    {
        match &self.motion {
            Motion::Kepler { elements, .. } => Some(elements.mean_movement.dup()),
            Motion::Free { .. } => None,
        }
    }

    /// The eccentricity, when the orbit is in the Orbit frame.
    pub fn eccentricity(&self) -> (r: Option<Scalar>)
        ensures
            match r {
                Some(s) => self.motion is Kepler && s@ == self.spec_elements().eccentricity@,
                None => self.motion is Free,
            },
    {
        match &self.motion {
            Motion::Kepler { elements, .. } => Some(elements.eccentricity.dup()),
            Motion::Free { .. } => None,
        }
    }

    /// The semimajor axis, when the orbit is in the Orbit frame.
    pub fn semimajor_axis(&self) -> (r: Option<Scalar>)
        ensures
            match r {
                Some(s) => self.motion is Kepler && s@ == self.spec_elements().semimajor_axis@,
                None => self.motion is Free,
            },
    {
        match &self.motion {
            Motion::Kepler { elements, .. } => Some(elements.semimajor_axis.dup()),
            Motion::Free { .. } => None,
        }
    }

    /// The argument of periapsis, when the orbit is in the Orbit frame.
    pub fn argument_of_periapsis(&self) -> (r: Option<Scalar>)
        ensures
            match r {
                Some(s) => self.motion is Kepler && s@ == self.spec_elements().argument_of_periapsis@,
                None => self.motion is Free,
            },
    {
        match &self.motion {
            Motion::Kepler { elements, .. } => Some(elements.argument_of_periapsis.dup()),
            Motion::Free { .. } => None,
        }
    }

    /// The stored inclination, when the orbit is in the Orbit frame.
    pub fn inclination(&self) -> (r: Option<Scalar>)
        ensures
            match r {
                Some(s) => self.motion is Kepler && s@ == self.spec_elements().inclination@,
                None => self.motion is Free,
            },
    {
        match &self.motion {
            Motion::Kepler { elements, .. } => Some(elements.inclination.dup()),
            Motion::Free { .. } => None,
        }
    }

    /// The longitude of the ascending node, when the orbit is in the Orbit
    /// frame.
    pub fn longitude_of_ascending_node(&self) -> (r: Option<Scalar>)
        ensures
            match r {
                Some(s) => self.motion is Kepler && s@
                    == self.spec_elements().longitude_of_ascending_node@,
                None => self.motion is Free,
            },
    {
        match &self.motion {
            Motion::Kepler { elements, .. } => Some(elements.longitude_of_ascending_node.dup()),
            Motion::Free { .. } => None,
        }
    }

    /// The current eccentric anomaly, when the orbit is in the Orbit frame.
    pub fn current_eccentric_anomaly(&self) -> (r: Option<Scalar>)
        ensures
            match r {
                Some(s) => self.motion is Kepler && s@ == self.spec_eccentric_anomaly(),
                None => self.motion is Free,
            },
    {
        match &self.motion {
            Motion::Kepler { current_eccentric_anomaly, .. } => Some(
                current_eccentric_anomaly.dup(),
            ),
            Motion::Free { .. } => None,
        }
    }

    /// The current mean anomaly, when the orbit is in the Orbit frame.
    pub fn current_mean_anomaly(&self) -> (r: Option<Scalar>)
        ensures
            match r {
                Some(s) => self.motion is Kepler && s@ == self.spec_mean_anomaly(),
                None => self.motion is Free,
            },
    {
        match &self.motion {
            Motion::Kepler { current_mean_anomaly, .. } => Some(current_mean_anomaly.dup()),
            Motion::Free { .. } => None,
        }
    }

    /// Creates an orbit from explicit Cartesian state, in the Free frame.
    pub fn new_free(
        x: Scalar,
        y: Scalar,
        z: Scalar,
        vx: Scalar,
        vy: Scalar,
        vz: Scalar,
        parent: usize,
    ) -> (r: Orbit)
        ensures
            r.position@ == (Vec3View { x: x@, y: y@, z: z@ }),
            r.motion is Free,
            r.spec_free_velocity() == (Vec3View { x: vx@, y: vy@, z: vz@ }),
            r.velocity@ == vmagnitude(Vec3View { x: vx@, y: vy@, z: vz@ }),
            r.epoch@ == zero_text(),
            r.parent == parent,
    {
        let vel = Vec3::new(vx, vy, vz);
        let velocity = vel.magnitude();
        Orbit {
            position: Vec3::new(x, y, z),
            velocity,
            motion: Motion::Free { velocity: vel },
            epoch: Scalar::zero(),
            parent,
        }
    }
}

/// What one `step` call does: in the Free frame a velocity-Verlet update; in
/// the Orbit frame an analytic Kepler step when the eccentricity is
/// elliptical (at least zero and below one), and a loud refusal otherwise.
/// Negative eccentricity is physically invalid; parabolic and hyperbolic
/// paths are unimplemented.  On a refusal the orbit is unchanged.
pub open spec fn step_spec(
    pre: Orbit,
    post: Orbit,
    mu: Seq<char>,
    dt: Seq<char>,
    r: Result<(), OrbitError>,
) -> bool {
    match pre.motion {
        Motion::Free { velocity } => {
            let fs = free_step_view(pre.position@, velocity@, mu, dt);
            &&& r is Ok
            &&& post.position@ == fs.position
            &&& post.motion is Free
            &&& post.spec_free_velocity() == fs.velocity
            &&& post.velocity@ == fs.speed
            &&& post.epoch@ == pre.epoch@
            &&& post.parent == pre.parent
        },
        Motion::Kepler { elements, current_mean_anomaly, current_eccentric_anomaly, radius } => {
            let e = elements.eccentricity@;
            let neg = lt_of(e, zero_text());
            let ell = !neg && lt_of(e, one_text());
            let hyp = !neg && !ell && lt_of(one_text(), e);
            if neg {
                r == Err::<(), OrbitError>(OrbitError::NegativeEccentricity) && post == pre
            } else if ell {
                let ks = kepler_step_view(
                    elements.semimajor_axis@,
                    e,
                    elements.argument_of_periapsis@,
                    elements.inclination@,
                    elements.longitude_of_ascending_node@,
                    elements.mean_movement@,
                    current_mean_anomaly@,
                    mu,
                    dt,
                );
                &&& r is Ok
                &&& post.position@ == ks.position
                &&& post.velocity@ == ks.velocity
                &&& post.motion is Kepler
                &&& post.spec_elements().semimajor_axis@ == elements.semimajor_axis@
                &&& post.spec_elements().eccentricity@ == elements.eccentricity@
                &&& post.spec_elements().argument_of_periapsis@ == elements.argument_of_periapsis@
                &&& post.spec_elements().inclination@ == elements.inclination@
                &&& post.spec_elements().longitude_of_ascending_node@
                    == elements.longitude_of_ascending_node@
                &&& post.spec_elements().mean_movement@ == elements.mean_movement@
                &&& post.spec_mean_anomaly() == ks.mean_anomaly
                &&& post.spec_eccentric_anomaly() == ks.eccentric_anomaly
                &&& post.spec_radius() == ks.radius
                &&& post.epoch@ == pre.epoch@
                &&& post.parent == pre.parent
            } else if hyp {
                r == Err::<(), OrbitError>(OrbitError::HyperbolicUnsupported) && post == pre
            } else {
                r == Err::<(), OrbitError>(OrbitError::ParabolicUnsupported) && post == pre
            }
        },
    }
}

/// The position of an orbit in the root reference frame: its own position
/// plus, recursively, the absolute position of its parent's own orbit.  The
/// recursion ends at a body with no orbit, fixed at the origin; parent
/// handles strictly decrease along the chain, so it cannot cycle.
pub open spec fn abs_pos_view(bodies: Bodies, o: Orbit) -> Vec3View
    decreases o.parent,
        when bodies.wf() && o.parent < bodies.items@.len()
{
    match bodies.items@[o.parent as int].orbit {
        Some(po) => vadd(o.position@, abs_pos_view(bodies, po)),
        None => o.position@,
    }
}

impl Orbit {
    /// Integrates one velocity-Verlet step under the parent's gravity.
    fn step_free(&mut self, mu: &Scalar, seconds: &Scalar)
        requires
            old(self).motion is Free,
        ensures
            step_spec(*old(self), *final(self), mu@, seconds@, Ok(())),
    {
        let vel = match &self.motion {
            Motion::Free { velocity } => velocity.dup(),
            Motion::Kepler { .. } => {
                proof {
                    assert(false);
                }
                Vec3::new(Scalar::zero(), Scalar::zero(), Scalar::zero())
            },
        };
        let r_squared = self.position.dot(&self.position);
        let g = mu.div(&r_squared);
        let rr = r_squared.sqrt();
        let gx = self.position.x.neg().div(&rr).mul(&g);
        let gy = self.position.y.neg().div(&rr).mul(&g);
        let gz = self.position.z.neg().div(&rr).mul(&g);
        let sshs = seconds.mul(seconds).div(&Scalar::two());
        let pos2 = Vec3::new(
            self.position.x.add(&vel.x.mul(seconds).add(&gx.mul(&sshs))),
            self.position.y.add(&vel.y.mul(seconds).add(&gy.mul(&sshs))),
            self.position.z.add(&vel.z.mul(seconds).add(&gz.mul(&sshs))),
        );
        let r_squared_new = pos2.dot(&pos2);
        let g_new = mu.div(&r_squared_new);
        let rr_new = r_squared_new.sqrt();
        let gx_new = pos2.x.neg().div(&rr_new).mul(&g_new);
        let gy_new = pos2.y.neg().div(&rr_new).mul(&g_new);
        let gz_new = pos2.z.neg().div(&rr_new).mul(&g_new);
        let half = Scalar::half();
        let vel2 = Vec3::new(
            vel.x.add(&half.mul(&gx.add(&gx_new)).mul(seconds)),
            vel.y.add(&half.mul(&gy.add(&gy_new)).mul(seconds)),
            vel.z.add(&half.mul(&gz.add(&gz_new)).mul(seconds)),
        );
        self.velocity = vel2.magnitude();
        self.position = pos2;
        self.motion = Motion::Free { velocity: vel2 };
    }

    /// Propagates the elliptical elements by `seconds`: advances and wraps
    /// the mean anomaly, inverts Kepler's equation, and rebuilds the
    /// Cartesian position and vis-viva speed.
    fn step_eliptical_orbit(&mut self, mu: &Scalar, seconds: &Scalar)
        requires
            old(self).motion is Kepler,
            !lt_of(old(self).spec_elements().eccentricity@, zero_text()),
            lt_of(old(self).spec_elements().eccentricity@, one_text()),
        ensures
            step_spec(*old(self), *final(self), mu@, seconds@, Ok(())),
    {
        let (a, e, omega, inc, lan, n, m) = match &self.motion {
            Motion::Kepler { elements, current_mean_anomaly, .. } => (
                elements.semimajor_axis.dup(),
                elements.eccentricity.dup(),
                elements.argument_of_periapsis.dup(),
                elements.inclination.dup(),
                elements.longitude_of_ascending_node.dup(),
                elements.mean_movement.dup(),
                current_mean_anomaly.dup(),
            ),
            Motion::Free { .. } => {
                proof {
                    assert(false);
                }
                (
                    Scalar::zero(),
                    Scalar::zero(),
                    Scalar::zero(),
                    Scalar::zero(),
                    Scalar::zero(),
                    Scalar::zero(),
                    Scalar::zero(),
                )
            },
        };
        let two_pi = Scalar::two_pi();
        let zero = Scalar::zero();
        let wrapped = m.add(&n.mul(seconds)).rem(&two_pi);
        let m2 = if wrapped.lt(&zero) {
            wrapped.add(&two_pi)
        } else {
            wrapped
        };
        let equation = KeplerEquation { eccentricity: e.dup(), mean_anomaly: m2.dup() };
        let ea = solve_newton_raphson(
            &equation,
            &m2,
            &eccentric_anomaly_tolerance(),
            ECCENTRIC_ANOMALY_MAX_ITERATIONS,
        );
        let one = Scalar::one();
        let two = Scalar::two();
        let c = one.add(&e).div(&one.sub(&e)).sqrt();
        let nu0 = c.mul(&ea.div(&two).tan()).atan().mul(&two);
        let radius = a.mul(&one.sub(&e.mul(&e))).div(&one.add(&e.mul(&nu0.cos())));
        let nu = nu0.add(&omega);
        let plane = Vec3::new(radius.mul(&nu.cos()), Scalar::zero(), radius.mul(&nu.sin()));
        let rotated = plane.rotate_x(&inc).rotate_z(&lan);
        let speed = mu.mul(&two.div(&radius).sub(&one.div(&a))).sqrt();
        self.position = rotated;
        self.velocity = speed;
        self.motion = Motion::Kepler {
            elements: Elements {
                semimajor_axis: a,
                eccentricity: e,
                argument_of_periapsis: omega,
                inclination: inc,
                longitude_of_ascending_node: lan,
                mean_movement: n,
            },
            current_mean_anomaly: m2,
            current_eccentric_anomaly: ea,
            radius,
        };
    }

    /// Classifies the eccentricity and propagates an elliptical orbit, or
    /// refuses the step loudly.
    fn step_orbit(&mut self, mu: &Scalar, seconds: &Scalar) -> (r: Result<(), OrbitError>)
        requires
            old(self).motion is Kepler,
        ensures
            step_spec(*old(self), *final(self), mu@, seconds@, r),
    {
        let e = match &self.motion {
            Motion::Kepler { elements, .. } => elements.eccentricity.dup(),
            Motion::Free { .. } => {
                proof {
                    assert(false);
                }
                Scalar::zero()
            },
        };
        let zero = Scalar::zero();
        let one = Scalar::one();
        if e.lt(&zero) {
            Err(OrbitError::NegativeEccentricity)
        } else if e.lt(&one) {
            self.step_eliptical_orbit(mu, seconds);
            Ok(())
        } else if one.lt(&e) {
            Err(OrbitError::HyperbolicUnsupported)
        } else {
            Err(OrbitError::ParabolicUnsupported)
        }
    }

    /// Moves the body according to the elapsed simulated seconds, reading the
    /// parent's standard gravitational parameter from the registry.
    pub fn step(&mut self, bodies: &Bodies, seconds: &Scalar) -> (r: Result<(), OrbitError>)
        requires
            old(self).parent < bodies.items@.len(),
        ensures
            step_spec(
                *old(self),
                *final(self),
                bodies.items@[old(self).parent as int].standard_gravitational_parameter@,
                seconds@,
                r,
            ),
    {
        let mu = bodies.get(self.parent).standard_gravitational_parameter.dup();
        match &self.motion {
            Motion::Free { .. } => {
                self.step_free(&mu, seconds);
                Ok(())
            },
            Motion::Kepler { .. } => self.step_orbit(&mu, seconds),
        }
    }

    /// Creates an orbit from explicit Keplerian elements, in the Orbit frame,
    /// then fast-forwards it from the starting epoch to the current one with
    /// a single step covering the whole span.  The mean motion is derived
    /// once here from the semimajor axis and the parent's gravitational
    /// parameter.
    pub fn new_orbit(
        semimajor_axis: Scalar,
        eccentricity: Scalar,
        argument_of_periapsis: Scalar,
        inclination: Scalar,
        longitude_of_ascending_node: Scalar,
        parent: usize,
        current_epoch: Scalar,
        starting_epoch: Scalar,
        bodies: &Bodies,
    ) -> (r: Result<Orbit, OrbitError>)
        requires
            parent < bodies.items@.len(),
        ensures
            ({
                let mu = bodies.items@[parent as int].standard_gravitational_parameter@;
                let n = mean_motion_of(semimajor_axis@, mu);
                let dt = sub_of(current_epoch@, starting_epoch@);
                match r {
                    Ok(o) => {
                        let ks = kepler_step_view(
                            semimajor_axis@,
                            eccentricity@,
                            argument_of_periapsis@,
                            inclination@,
                            longitude_of_ascending_node@,
                            n,
                            zero_text(),
                            mu,
                            dt,
                        );
                        &&& !lt_of(eccentricity@, zero_text())
                        &&& lt_of(eccentricity@, one_text())
                        &&& o.motion is Kepler
                        &&& o.spec_elements().semimajor_axis@ == semimajor_axis@
                        &&& o.spec_elements().eccentricity@ == eccentricity@
                        &&& o.spec_elements().argument_of_periapsis@ == argument_of_periapsis@
                        &&& o.spec_elements().inclination@ == inclination@
                        &&& o.spec_elements().longitude_of_ascending_node@
                            == longitude_of_ascending_node@
                        &&& o.spec_elements().mean_movement@ == n
                        &&& o.spec_mean_anomaly() == ks.mean_anomaly
                        &&& o.spec_eccentric_anomaly() == ks.eccentric_anomaly
                        &&& o.spec_radius() == ks.radius
                        &&& o.position@ == ks.position
                        &&& o.velocity@ == ks.velocity
                        &&& o.epoch@ == starting_epoch@
                        &&& o.parent == parent
                    },
                    Err(e) => {
                        &&& (e == OrbitError::NegativeEccentricity <==> lt_of(
                            eccentricity@,
                            zero_text(),
                        ))
                        &&& (e == OrbitError::HyperbolicUnsupported <==> (!lt_of(
                            eccentricity@,
                            zero_text(),
                        ) && !lt_of(eccentricity@, one_text()) && lt_of(one_text(), eccentricity@)))
                        &&& (e == OrbitError::ParabolicUnsupported <==> (!lt_of(
                            eccentricity@,
                            zero_text(),
                        ) && !lt_of(eccentricity@, one_text()) && !lt_of(
                            one_text(),
                            eccentricity@,
                        )))
                    },
                }
            }),
    {
        let mu = bodies.get(parent).standard_gravitational_parameter.dup();
        let a3 = semimajor_axis.mul(&semimajor_axis).mul(&semimajor_axis);
        let mean_movement = mu.div(&a3).sqrt();
        let dt = current_epoch.sub(&starting_epoch);
        let mut orbit = Orbit {
            position: Vec3::new(Scalar::zero(), Scalar::zero(), Scalar::zero()),
            velocity: Scalar::zero(),
            motion: Motion::Kepler {
                elements: Elements {
                    semimajor_axis,
                    eccentricity,
                    argument_of_periapsis,
                    inclination,
                    longitude_of_ascending_node,
                    mean_movement,
                },
                current_mean_anomaly: Scalar::zero(),
                current_eccentric_anomaly: Scalar::zero(),
                radius: Scalar::zero(),
            },
            epoch: starting_epoch,
            parent,
        };
        match orbit.step(bodies, &dt) {
            Ok(u) => Ok(orbit),
            Err(e) => Err(e),
        }
    }

    /// Converts the current Keplerian state into Cartesian velocity, leaving
    /// the position and speed as the last step computed them; a no-op when
    /// the orbit is already in the Free frame.
    pub fn set_free(&mut self, bodies: &Bodies)
        requires
            old(self).parent < bodies.items@.len(),
        ensures
            old(self).motion is Free ==> *final(self) == *old(self),
            old(self).motion is Kepler ==> {
                let mu = bodies.items@[old(self).parent as int].standard_gravitational_parameter@;
                let el = old(self).spec_elements();
                let v = set_free_velocity_view(
                    el.eccentricity@,
                    mu,
                    el.semimajor_axis@,
                    old(self).spec_radius(),
                    old(self).spec_eccentric_anomaly(),
                    el.argument_of_periapsis@,
                    el.longitude_of_ascending_node@,
                    el.inclination@,
                );
                &&& final(self).motion is Free
                &&& final(self).spec_free_velocity() == v
                &&& final(self).position@ == old(self).position@
                &&& final(self).velocity@ == old(self).velocity@
                &&& final(self).epoch@ == old(self).epoch@
                &&& final(self).parent == old(self).parent
            },
    {
        let (e, a, radius, ea, omega, lan, inc_stored) = match &self.motion {
            Motion::Free { .. } => {
                return ;
            },
            Motion::Kepler { elements, current_eccentric_anomaly, radius, .. } => (
                elements.eccentricity.dup(),
                elements.semimajor_axis.dup(),
                radius.dup(),
                current_eccentric_anomaly.dup(),
                elements.argument_of_periapsis.dup(),
                elements.longitude_of_ascending_node.dup(),
                elements.inclination.dup(),
            ),
        };
        let mu = bodies.get(self.parent).standard_gravitational_parameter.dup();
        let one = Scalar::one();
        let constant = mu.mul(&a).sqrt().div(&radius);
        let vx = constant.neg().mul(&ea.sin());
        let vz = constant.mul(&one.sub(&e.mul(&e)).sqrt().mul(&ea.cos()));
        let inc = inc_stored.neg();
        let cos_w = omega.cos();
        let sin_w = omega.sin();
        let cos_l = lan.cos();
        let sin_l = lan.sin();
        let sin_i = inc.sin();
        let cos_i = inc.cos();
        let rotated_vx = vx.mul(&cos_w.mul(&cos_l).sub(&sin_w.mul(&cos_i).mul(&sin_l))).sub(
            &vz.mul(&sin_w.mul(&cos_l).add(&cos_w.mul(&cos_i).mul(&sin_l))),
        );
        let rotated_vy = vx.mul(&sin_w).mul(&sin_i).add(&vz.mul(&cos_w).mul(&sin_i));
        let rotated_vz = vx.mul(&cos_w.mul(&cos_l).add(&sin_w.mul(&cos_i).mul(&sin_l))).add(
            &vz.mul(&cos_w.mul(&cos_i).mul(&cos_l).sub(&sin_w.mul(&sin_l))),
        );
        self.motion = Motion::Free { velocity: Vec3::new(rotated_vx, rotated_vy, rotated_vz) };
    }

    /// Converts the current Cartesian state into Keplerian elements, fixing
    /// the epoch at `current_epoch`; a no-op when the orbit is already in the
    /// Orbit frame.
    pub fn set_orbit(&mut self, current_epoch: Scalar, bodies: &Bodies)
        requires
            old(self).parent < bodies.items@.len(),
        ensures
            old(self).motion is Kepler ==> *final(self) == *old(self),
            old(self).motion is Free ==> {
                let mu = bodies.items@[old(self).parent as int].standard_gravitational_parameter@;
                let sv = set_orbit_view(
                    old(self).position@,
                    old(self).spec_free_velocity(),
                    old(self).velocity@,
                    mu,
                );
                &&& final(self).motion is Kepler
                &&& final(self).spec_elements().semimajor_axis@ == sv.semimajor_axis
                &&& final(self).spec_elements().eccentricity@ == sv.eccentricity
                &&& final(self).spec_elements().argument_of_periapsis@ == sv.argument_of_periapsis
                &&& final(self).spec_elements().inclination@ == sv.inclination
                &&& final(self).spec_elements().longitude_of_ascending_node@
                    == sv.longitude_of_ascending_node
                &&& final(self).spec_elements().mean_movement@ == sv.mean_movement
                &&& final(self).spec_mean_anomaly() == sv.mean_anomaly
                &&& final(self).spec_eccentric_anomaly() == sv.eccentric_anomaly
                &&& final(self).spec_radius() == sv.radius
                &&& final(self).position@ == old(self).position@
                &&& final(self).velocity@ == old(self).velocity@
                &&& final(self).epoch@ == current_epoch@
                &&& final(self).parent == old(self).parent
            },
    {
        let vel = match &self.motion {
            Motion::Kepler { .. } => {
                return ;
            },
            Motion::Free { velocity } => velocity.dup(),
        };
        let mu = bodies.get(self.parent).standard_gravitational_parameter.dup();
        let zero = Scalar::zero();
        let one = Scalar::one();
        let two = Scalar::two();
        let two_pi = Scalar::two_pi();
        let radius = self.position.magnitude();
        let momentum = self.position.cross(&vel);
        let ecc_vec = vel.cross(&momentum).div_scalar(&mu).sub(
            &self.position.div_scalar(&radius),
        );
        let nvec = Vec3::new(momentum.y.neg(), momentum.x.dup(), Scalar::zero());
        let n_norm = nvec.magnitude();
        let acos_term = ecc_vec.dot(&self.position).div(
            &ecc_vec.magnitude().mul(&self.position.magnitude()),
        ).acos();
        let nu = if !self.position.dot(&vel).lt(&zero) {
            acos_term
        } else {
            two_pi.sub(&acos_term)
        };
        let inclination = momentum.z.div(&momentum.magnitude()).acos();
        let ecc = ecc_vec.magnitude();
        let ecc_const = one.add(&ecc).div(&one.sub(&ecc)).sqrt();
        let ea = two.mul(&nu.div(&two).tan().div(&ecc_const).atan());
        let lan = if !nvec.y.lt(&zero) {
            nvec.x.div(&n_norm).acos()
        } else {
            two_pi.sub(&nvec.x.div(&n_norm).acos())
        };
        let omega = if !ecc_vec.z.lt(&zero) {
            nvec.dot(&ecc_vec).div(&ecc.mul(&n_norm)).acos()
        } else {
            two_pi.sub(&nvec.dot(&ecc_vec).div(&ecc.mul(&n_norm)).acos())
        };
        let mean_anomaly = ea.sub(&ecc.mul(&ea.sin()));
        let a = one.div(&two.div(&radius).sub(&self.velocity.mul(&self.velocity).div(&mu)));
        let a3 = a.mul(&a).mul(&a);
        let mean_movement = mu.div(&a3).sqrt();
        self.epoch = current_epoch;
        self.motion = Motion::Kepler {
            elements: Elements {
                semimajor_axis: a,
                eccentricity: ecc,
                argument_of_periapsis: omega,
                inclination: inclination.neg(),
                longitude_of_ascending_node: lan,
                mean_movement,
            },
            current_mean_anomaly: mean_anomaly,
            current_eccentric_anomaly: ea,
            radius,
        };
    }

    /// Resolves this orbit's position in the root reference frame by walking
    /// the acyclic parent chain.
    pub fn absolute_position(&self, bodies: &Bodies) -> (r: Vec3)
        requires
            bodies.wf(),
            self.parent < bodies.items@.len(),
        ensures
            r@ == abs_pos_view(*bodies, *self),
        decreases self.parent,
    {
        let parent_body = bodies.get(self.parent);
        match &parent_body.orbit {
            Some(po) => {
                proof {
                    assert(bodies.items@[self.parent as int].orbit matches Some(o) ==> o.parent
                        < self.parent as int);
                }
                let parent_position = po.absolute_position(bodies);
                self.position.add(&parent_position)
            },
            None => self.position.dup(),
        }
    }
}

impl Bodies {
    /// Advances the own orbit of body `id` by the elapsed seconds.  Nothing
    /// changes for a root body with no orbit.
    pub fn step_body(&mut self, id: usize, seconds: &Scalar) -> (r: Result<(), OrbitError>)
        requires
            old(self).wf(),
            id < old(self).items@.len(),
        ensures
            final(self).wf(),
            final(self).items@.len() == old(self).items@.len(),
            forall|j: int|
                0 <= j < old(self).items@.len() && j != id as int ==> final(self).items@[j] == old(self).items@[j],
            final(self).items@[id as int].standard_gravitational_parameter == old(self).items@[id as int].standard_gravitational_parameter,
            match old(self).items@[id as int].orbit {
                None => r is Ok && final(self).items@ == old(self).items@,
                Some(o) => {
                    &&& final(self).items@[id as int].orbit matches Some(o2) && step_spec(
                        o,
                        o2,
                        old(self).items@[o.parent as int].standard_gravitational_parameter@,
                        seconds@,
                        r,
                    )
                },
            },
    {
        let parent = match &self.items[id].orbit {
            Some(o) => o.parent,
            None => {
                return Ok(());
            },
        };
        proof {
            assert(old(self).items@[id as int].orbit matches Some(o) ==> o.parent < id as int);
        }
        let taken = self.items[id].orbit.take();
        let mut orbit = match taken {
            Some(o) => o,
            None => {
                proof {
                    assert(false);
                }
                return Ok(());
            },
        };
        let res = orbit.step(self, seconds);
        let mut slot = Some(orbit);
        core::mem::swap(&mut self.items[id].orbit, &mut slot);
        res
    }

    /// What one registry pass leaves of body `j`: a body with no orbit of
    /// its own is untouched; one with an orbit holds the stepped orbit, per
    /// the step relation under its parent's gravitational parameter.
    pub open spec fn body_stepped(
        pre: Bodies,
        post: Bodies,
        j: int,
        dt: Seq<char>,
        r: Result<(), OrbitError>,
    ) -> bool {
        match pre.items@[j].orbit {
            None => post.items@[j] == pre.items@[j],
            Some(o) => post.items@[j].orbit matches Some(o2) && step_spec(
                o,
                o2,
                pre.items@[o.parent as int].standard_gravitational_parameter@,
                dt,
                r,
            ),
        }
    }

    /// One tick of the driving loop: advances every body's own orbit by the
    /// elapsed simulated seconds, parents before children.  A refused step
    /// stops the pass: the bodies before the refusing one are stepped, the
    /// refusing one is unchanged with the refusal recorded, and the rest are
    /// untouched.
    pub fn step_all(&mut self, seconds: &Scalar) -> (r: Result<(), OrbitError>)
        requires
            old(self).wf(),
        ensures
            final(self).wf(),
            final(self).items@.len() == old(self).items@.len(),
            forall|j: int|
                0 <= j < old(self).items@.len() ==> final(self).items@[j].standard_gravitational_parameter == old(self).items@[j].standard_gravitational_parameter,
            r is Ok ==> forall|j: int|
                0 <= j < old(self).items@.len() ==> Bodies::body_stepped(
                    *old(self),
                    *final(self),
                    j,
                    seconds@,
                    Ok(()),
                ),
            r is Err ==> exists|i: int|
                #![trigger old(self).items@[i]]
                0 <= i < old(self).items@.len() && Bodies::body_stepped(
                    *old(self),
                    *final(self),
                    i,
                    seconds@,
                    r,
                ) && (forall|j: int|
                    0 <= j < i ==> Bodies::body_stepped(
                        *old(self),
                        *final(self),
                        j,
                        seconds@,
                        Ok(()),
                    )) && (forall|j: int|
                    i < j < old(self).items@.len() ==> final(self).items@[j] == old(self).items@[j]),
    {
        let n = self.items.len();
        let mut i: usize = 0;
        while i < n
            invariant
                self.wf(),
                n == self.items@.len(),
                n == old(self).items@.len(),
                i <= n,
                forall|j: int|
                    0 <= j < n ==> self.items@[j].standard_gravitational_parameter == old(self).items@[j].standard_gravitational_parameter,
                forall|j: int|
                    0 <= j < i ==> Bodies::body_stepped(*old(self), *self, j, seconds@, Ok(())),
                forall|j: int| i <= j < n ==> self.items@[j] == old(self).items@[j],
            decreases n - i,
        {
            let ghost pre = *self;
            let res = self.step_body(i, seconds);
            proof {
                assert(pre.items@[i as int] == old(self).items@[i as int]);
                match old(self).items@[i as int].orbit {
                    Some(o) => {
                        assert(pre.items@[o.parent as int].standard_gravitational_parameter
                            == old(self).items@[o.parent as int].standard_gravitational_parameter);
                    },
                    None => {},
                }
                assert forall|j: int|
                    0 <= j < i implies Bodies::body_stepped(
                    *old(self), *self, j, seconds@, Ok(())) by {
                    assert(Bodies::body_stepped(*old(self), pre, j, seconds@, Ok(())));
                    assert(self.items@[j] == pre.items@[j]);
                }
            }
            match res {
                Ok(u) => {},
                Err(e) => {
                    proof {
                        assert(Bodies::body_stepped(*old(self), *self, i as int, seconds@, res));
                    }
                    return Err(e);
                },
            }
            proof {
                assert(Bodies::body_stepped(*old(self), *self, i as int, seconds@, Ok(())));
            }
            i = i + 1;
        }
        Ok(())
    }
}

} // verus!
