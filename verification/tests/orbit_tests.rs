use orbits::scalar::Scalar;
use orbits::solver::{solve_newton_raphson, solve_newton_raphson_with_convergence, KeplerEquation};
use orbits::time::{DeltaTime, TimeSpeed};
use orbits::{Bodies, Frame, Orbit, OrbitError, Planet};

fn sc(text: &str) -> Scalar {
    Scalar::from_text(text)
}

fn val(s: &Scalar) -> f64 {
    s.as_text().parse::<f64>().unwrap()
}

fn rel_close(a: f64, b: f64, tol: f64) -> bool {
    let scale = a.abs().max(b.abs()).max(1e-300);
    (a - b).abs() / scale < tol
}

const HALF_PI: &str = "1.570796326794896619231321691639751442099";

#[test]
fn create_orbit() {
    let mut bodies = Bodies::new();
    let sun = Planet::new(&mut bodies, sc("1.9891e30"), None);
    let mut earth = Orbit::new_orbit(
        sc("149598023000"),
        sc("0.017"),
        sc(HALF_PI),
        sc("0"),
        sc("0"),
        sun.body,
        sc("0"),
        sc("0"),
        &bodies,
    )
    .unwrap();

    let n = earth.mean_movement().unwrap();
    let got = val(&n);
    assert!(
        rel_close(got, 1.9913261148403696e-7, 1e-12),
        "mean movement {} differs from 1.9913261148403696e-7",
        got
    );
    // Step about a year
    earth.step(&bodies, &sc("3.154e7")).unwrap();
}

#[test]
fn mean_motion_formula() {
    // sqrt(G * Mp / a^3) for the solar mass and one astronomical unit
    let mut bodies = Bodies::new();
    let sun = Planet::new(&mut bodies, sc("1.9891e30"), None);
    let earth = Orbit::new_orbit(
        sc("149598023000"),
        sc("0.0167"),
        sc("0"),
        sc("0"),
        sc("0"),
        sun.body,
        sc("0"),
        sc("0"),
        &bodies,
    )
    .unwrap();
    let n = val(&earth.mean_movement().unwrap());
    let expected = (1.9891e30 * 6.6743e-11 / 149598023000.0f64.powi(3)).sqrt();
    assert!(rel_close(n, expected, 1e-12), "mean movement {} vs {}", n, expected);
}

#[test]
fn kepler_equation_round_trip() {
    let tolerance = sc("1e-6");
    for e in ["0", "0.3", "0.7", "0.95"] {
        for m in ["0", "1", "2.5", "5.9"] {
            let equation = KeplerEquation {
                eccentricity: sc(e),
                mean_anomaly: sc(m),
            };
            let ea = solve_newton_raphson(&equation, &sc(m), &tolerance, 100);
            let ea_f = val(&ea);
            let e_f: f64 = e.parse().unwrap();
            let m_f: f64 = m.parse().unwrap();
            let residual = (ea_f - e_f * ea_f.sin() - m_f).abs();
            assert!(
                residual < 1e-6,
                "residual {} for e={} m={}",
                residual,
                e,
                m
            );
        }
    }
}

#[test]
fn frame_conversion_preserves_cartesian_state() {
    // a conversion cycle leaves the position, the speed and the epoch of the
    // state it started from untouched, and lands back in the same frame
    let mut bodies = Bodies::new();
    let sun = Planet::new(&mut bodies, sc("1.9891e30"), None);
    let mut orbit = Orbit::new_orbit(
        sc("1.5e11"),
        sc("0.2"),
        sc("0.5"),
        sc("0.3"),
        sc("1.1"),
        sun.body,
        sc("2000000"),
        sc("0"),
        &bodies,
    )
    .unwrap();
    let (x0, y0, z0) = orbit.position();
    let v0 = val(&orbit.velocity());
    assert_eq!(orbit.frame(), Frame::Orbit);

    orbit.set_free(&bodies);
    assert_eq!(orbit.frame(), Frame::Free);
    orbit.set_orbit(sc("2000000"), &bodies);
    assert_eq!(orbit.frame(), Frame::Orbit);
    orbit.set_free(&bodies);
    assert_eq!(orbit.frame(), Frame::Free);

    let (x1, y1, z1) = orbit.position();
    let v1 = val(&orbit.velocity());
    assert!(rel_close(val(&x0), val(&x1), 1e-12));
    assert!(rel_close(val(&y0), val(&y1), 1e-12));
    assert!(rel_close(val(&z0), val(&z1), 1e-12));
    assert!(rel_close(v0, v1, 1e-12));
}

#[test]
fn set_orbit_recovers_the_vis_viva_semimajor_axis() {
    // elements derived from Cartesian state satisfy the vis-viva relation
    let mut bodies = Bodies::new();
    let sun = Planet::new(&mut bodies, sc("1.9891e30"), None);
    let mut orbit = Orbit::new_free(
        sc("1.5e11"),
        sc("1e10"),
        sc("2e10"),
        sc("-5e3"),
        sc("1e3"),
        sc("2.8e4"),
        sun.body,
    );
    orbit.set_orbit(sc("0"), &bodies);
    let mu = 1.9891e30 * 6.6743e-11;
    let r = (1.5e11f64.powi(2) + 1e10f64.powi(2) + 2e10f64.powi(2)).sqrt();
    let speed_sq = 5e3f64.powi(2) + 1e3f64.powi(2) + 2.8e4f64.powi(2);
    let expected_a = 1.0 / (2.0 / r - speed_sq / mu);
    let a = val(&orbit.semimajor_axis().unwrap());
    assert!(rel_close(a, expected_a, 1e-9), "semimajor axis {} vs {}", a, expected_a);
    // and the mean motion is derived from that axis
    let n = val(&orbit.mean_movement().unwrap());
    let expected_n = (mu / expected_a.powi(3)).sqrt();
    assert!(rel_close(n, expected_n, 1e-9));
}

#[test]
fn end_to_end_scenario() {
    let mut bodies = Bodies::new();
    let sun = Planet::new(&mut bodies, sc("1.989e30"), None);
    let mut earth = Orbit::new_orbit(
        sc("149.598e9"),
        sc("0.0167"),
        sc("0"),
        sc("0"),
        sc("0"),
        sun.body,
        sc("0"),
        sc("0"),
        &bodies,
    )
    .unwrap();

    // at epoch zero the body sits at perihelion: a * (1 - e) along x
    let start = earth.absolute_position(&bodies);
    let x0 = val(&start.x);
    let y0 = val(&start.y);
    let z0 = val(&start.z);
    let perihelion = 149.598e9 * (1.0 - 0.0167);
    assert!(rel_close(x0, perihelion, 1e-9), "x {} vs perihelion {}", x0, perihelion);
    assert!(y0.abs() < 1.0);
    assert!(z0.abs() < 1.0);

    // one full orbital period returns the body to its starting position
    let n = val(&earth.mean_movement().unwrap());
    let period = 2.0 * std::f64::consts::PI / n;
    earth.step(&bodies, &sc(&format!("{:.6}", period))).unwrap();
    let back = earth.absolute_position(&bodies);
    let scale = 149.598e9;
    assert!((val(&back.x) - x0).abs() / scale < 1e-4, "x {} vs {}", val(&back.x), x0);
    assert!((val(&back.y) - y0).abs() / scale < 1e-4);
    assert!((val(&back.z) - z0).abs() / scale < 1e-4);
}

#[test]
fn absolute_position_adds_parent_chain() {
    let mut bodies = Bodies::new();
    let sun = Planet::new(&mut bodies, sc("1.9891e30"), None);
    let earth_orbit = Orbit::new_free(
        sc("100"),
        sc("200"),
        sc("300"),
        sc("0"),
        sc("0"),
        sc("0"),
        sun.body,
    );
    let earth = Planet::new(&mut bodies, sc("5.97e24"), Some(earth_orbit));
    let ship = Orbit::new_free(sc("7"), sc("8"), sc("9"), sc("0"), sc("0"), sc("0"), earth.body);
    let p = ship.absolute_position(&bodies);
    assert!((val(&p.x) - 107.0).abs() < 1e-9);
    assert!((val(&p.y) - 208.0).abs() < 1e-9);
    assert!((val(&p.z) - 309.0).abs() < 1e-9);
}

#[test]
fn new_free_velocity_magnitude() {
    let mut bodies = Bodies::new();
    let sun = Planet::new(&mut bodies, sc("1.9891e30"), None);
    let orbit = Orbit::new_free(sc("1"), sc("2"), sc("3"), sc("3"), sc("4"), sc("0"), sun.body);
    assert_eq!(orbit.frame(), Frame::Free);
    assert!((val(&orbit.velocity()) - 5.0).abs() < 1e-12);
}

#[test]
fn unsupported_eccentricities_fail_loudly() {
    let mut bodies = Bodies::new();
    let sun = Planet::new(&mut bodies, sc("1.9891e30"), None);
    let parabolic = Orbit::new_orbit(
        sc("1.5e11"),
        sc("1"),
        sc("0"),
        sc("0"),
        sc("0"),
        sun.body,
        sc("0"),
        sc("0"),
        &bodies,
    );
    assert_eq!(parabolic.err().unwrap(), OrbitError::ParabolicUnsupported);

    let hyperbolic = Orbit::new_orbit(
        sc("1.5e11"),
        sc("1.5"),
        sc("0"),
        sc("0"),
        sc("0"),
        sun.body,
        sc("0"),
        sc("0"),
        &bodies,
    );
    assert_eq!(hyperbolic.err().unwrap(), OrbitError::HyperbolicUnsupported);

    let negative = Orbit::new_orbit(
        sc("1.5e11"),
        sc("-0.2"),
        sc("0"),
        sc("0"),
        sc("0"),
        sun.body,
        sc("0"),
        sc("0"),
        &bodies,
    );
    assert_eq!(negative.err().unwrap(), OrbitError::NegativeEccentricity);
}

#[test]
fn set_free_and_set_orbit_are_no_ops_in_their_own_frame() {
    let mut bodies = Bodies::new();
    let sun = Planet::new(&mut bodies, sc("1.9891e30"), None);
    let mut free = Orbit::new_free(sc("1"), sc("2"), sc("3"), sc("4"), sc("5"), sc("6"), sun.body);
    free.set_free(&bodies);
    assert_eq!(free.frame(), Frame::Free);

    let mut kep = Orbit::new_orbit(
        sc("1.5e11"),
        sc("0.1"),
        sc("0"),
        sc("0.2"),
        sc("0"),
        sun.body,
        sc("0"),
        sc("0"),
        &bodies,
    )
    .unwrap();
    let m0 = val(&kep.current_mean_anomaly().unwrap());
    kep.set_orbit(sc("12345"), &bodies);
    assert_eq!(kep.frame(), Frame::Orbit);
    assert_eq!(val(&kep.current_mean_anomaly().unwrap()), m0);
}

#[test]
fn step_all_advances_registered_bodies() {
    let mut bodies = Bodies::new();
    let sun = Planet::new(&mut bodies, sc("1.9891e30"), None);
    let earth_orbit = Orbit::new_orbit(
        sc("149598023000"),
        sc("0.0167"),
        sc("0"),
        sc("0"),
        sc("0"),
        sun.body,
        sc("0"),
        sc("0"),
        &bodies,
    )
    .unwrap();
    let m_before = val(&earth_orbit.current_mean_anomaly().unwrap());
    let earth = Planet::new(&mut bodies, sc("5.97e24"), Some(earth_orbit));
    bodies.step_all(&sc("86400")).unwrap();
    let m_after = val(
        &bodies
            .get(earth.body)
            .orbit
            .as_ref()
            .unwrap()
            .current_mean_anomaly()
            .unwrap(),
    );
    assert!(m_after > m_before, "mean anomaly did not advance");
    assert!((m_after - 1.9913261148403696e-7 * 86400.0).abs() < 1e-6);
}

#[test]
fn delta_time_scales_by_speed() {
    let mut dt = DeltaTime::new();
    assert_eq!(val(&dt.seconds()), 0.0);
    let speed = TimeSpeed(sc("3"));
    dt.update(&sc("2"), &speed);
    assert!((val(&dt.seconds()) - 6.0).abs() < 1e-12);
    let default_speed = TimeSpeed::new();
    dt.update(&sc("2.5"), &default_speed);
    assert!((val(&dt.seconds()) - 2.5).abs() < 1e-12);
}

#[test]
fn set_free_recovers_the_perihelion_velocity() {
    // at perihelion with zero angles the recovered velocity is tangential and
    // has the vis-viva magnitude
    let mut bodies = Bodies::new();
    let sun = Planet::new(&mut bodies, sc("1.9891e30"), None);
    let mut orbit = Orbit::new_orbit(
        sc("1.5e11"),
        sc("0.1"),
        sc("0"),
        sc("0"),
        sc("0"),
        sun.body,
        sc("0"),
        sc("0"),
        &bodies,
    )
    .unwrap();
    orbit.set_free(&bodies);
    let (vx, vy, vz) = orbit.free_velocity().unwrap();
    let mu: f64 = 1.9891e30 * 6.6743e-11;
    let a: f64 = 1.5e11;
    let r: f64 = a * 0.9;
    let expected = (mu * (2.0 / r - 1.0 / a)).sqrt();
    assert!(val(&vx).abs() < 1e-3, "radial velocity {}", val(&vx));
    assert!(val(&vy).abs() < 1e-3);
    assert!(
        rel_close(val(&vz), expected, 1e-6),
        "tangential velocity {} vs {}",
        val(&vz),
        expected
    );
}

#[test]
fn verlet_integration_holds_a_circular_orbit() {
    let mut bodies = Bodies::new();
    let sun = Planet::new(&mut bodies, sc("1.9891e30"), None);
    let mu: f64 = 1.9891e30 * 6.6743e-11;
    let r: f64 = 1.5e11;
    let vc: f64 = (mu / r).sqrt();
    let mut orbit = Orbit::new_free(
        sc("1.5e11"),
        sc("0"),
        sc("0"),
        sc("0"),
        sc("0"),
        sc(&format!("{:.6}", vc)),
        sun.body,
    );
    for _ in 0..10 {
        orbit.step(&bodies, &sc("3600")).unwrap();
    }
    let (x, y, z) = orbit.position();
    let radius = (val(&x).powi(2) + val(&y).powi(2) + val(&z).powi(2)).sqrt();
    assert!(
        rel_close(radius, r, 1e-6),
        "orbital radius {} drifted from {}",
        radius,
        r
    );
    assert!(rel_close(val(&orbit.velocity()), vc, 1e-5));
}

#[test]
fn set_orbit_recovers_standard_elements() {
    // the element derivation agrees with an independent computation of the
    // classical formulas from the same Cartesian state
    let mut bodies = Bodies::new();
    let sun = Planet::new(&mut bodies, sc("1.9891e30"), None);
    let (px, py, pz): (f64, f64, f64) = (1.5e11, 1e10, 2e10);
    let (vx, vy, vz): (f64, f64, f64) = (-5e3, 1e3, 2.8e4);
    let mut orbit = Orbit::new_free(
        sc("1.5e11"),
        sc("1e10"),
        sc("2e10"),
        sc("-5e3"),
        sc("1e3"),
        sc("2.8e4"),
        sun.body,
    );
    orbit.set_orbit(sc("0"), &bodies);

    let mu: f64 = 1.9891e30 * 6.6743e-11;
    let r = (px * px + py * py + pz * pz).sqrt();
    // h = r x v
    let hx = py * vz - pz * vy;
    let hy = pz * vx - px * vz;
    let hz = px * vy - py * vx;
    let h = (hx * hx + hy * hy + hz * hz).sqrt();
    // e_vec = (v x h) / mu - r / |r|
    let ex = (vy * hz - vz * hy) / mu - px / r;
    let ey = (vz * hx - vx * hz) / mu - py / r;
    let ez = (vx * hy - vy * hx) / mu - pz / r;
    let e = (ex * ex + ey * ey + ez * ez).sqrt();
    // node line n = (-h_y, h_x, 0)
    let nx = -hy;
    let ny = hx;
    let n_norm = (nx * nx + ny * ny).sqrt();
    let inclination = (hz / h).acos();
    let lan = if ny >= 0.0 {
        (nx / n_norm).acos()
    } else {
        2.0 * std::f64::consts::PI - (nx / n_norm).acos()
    };
    let omega = if ez >= 0.0 {
        ((nx * ex + ny * ey) / (e * n_norm)).acos()
    } else {
        2.0 * std::f64::consts::PI - ((nx * ex + ny * ey) / (e * n_norm)).acos()
    };

    assert!(rel_close(val(&orbit.eccentricity().unwrap()), e, 1e-9));
    assert!(rel_close(val(&orbit.inclination().unwrap()), -inclination, 1e-9));
    assert!(rel_close(
        val(&orbit.longitude_of_ascending_node().unwrap()),
        lan,
        1e-9
    ));
    assert!(rel_close(val(&orbit.argument_of_periapsis().unwrap()), omega, 1e-9));
}

#[test]
fn inclined_step_matches_an_independent_propagation() {
    // one analytic step with every angle nonzero agrees with an independent
    // computation of the same propagation
    let mut bodies = Bodies::new();
    let sun = Planet::new(&mut bodies, sc("1.9891e30"), None);
    let (a, e, omega, inc, lan): (f64, f64, f64, f64, f64) = (1.5e11, 0.3, 0.4, 0.2, 1.0);
    let dt: f64 = 5e6;
    let orbit = Orbit::new_orbit(
        sc("1.5e11"),
        sc("0.3"),
        sc("0.4"),
        sc("0.2"),
        sc("1"),
        sun.body,
        sc("5e6"),
        sc("0"),
        &bodies,
    )
    .unwrap();

    let mu: f64 = 1.9891e30 * 6.6743e-11;
    let n = (mu / a.powi(3)).sqrt();
    let m = (n * dt) % (2.0 * std::f64::consts::PI);
    // Newton-Raphson on Kepler's equation, seeded with the mean anomaly
    let mut ea = m;
    for _ in 0..100 {
        let next = ea - (ea - e * ea.sin() - m) / (1.0 - e * ea.cos());
        if (next - ea).abs() < 1e-6 {
            ea = next;
            break;
        }
        ea = next;
    }
    let c = ((1.0 + e) / (1.0 - e)).sqrt();
    let nu0 = (c * (ea / 2.0).tan()).atan() * 2.0;
    let radius = a * (1.0 - e * e) / (1.0 + e * nu0.cos());
    let nu = nu0 + omega;
    // plane position (radius*cos, 0, radius*sin), rotated about X then Z
    let (x0, y0, z0) = (radius * nu.cos(), 0.0f64, radius * nu.sin());
    let (x1, y1, z1) = (
        x0,
        y0 * inc.cos() - z0 * inc.sin(),
        y0 * inc.sin() + z0 * inc.cos(),
    );
    let (x2, y2, z2) = (
        x1 * lan.cos() - y1 * lan.sin(),
        x1 * lan.sin() + y1 * lan.cos(),
        z1,
    );

    let (x, y, z) = orbit.position();
    assert!(rel_close(val(&x), x2, 1e-9), "x {} vs {}", val(&x), x2);
    assert!(rel_close(val(&y), y2, 1e-9), "y {} vs {}", val(&y), y2);
    assert!(rel_close(val(&z), z2, 1e-9), "z {} vs {}", val(&z), z2);
    let speed = (mu * (2.0 / radius - 1.0 / a)).sqrt();
    assert!(rel_close(val(&orbit.velocity()), speed, 1e-9));
}

#[test]
fn solver_reports_exhaustion() {
    // a comfortable case converges within the budget; the same case under a
    // budget of one update is returned as an approximation with the flag down
    let equation = KeplerEquation {
        eccentricity: sc("0.95"),
        mean_anomaly: sc("3.5"),
    };
    let tolerance = sc("1e-6");
    let (ea, converged) = solve_newton_raphson_with_convergence(&equation, &sc("3.5"), &tolerance, 100);
    assert!(converged);
    let residual = (val(&ea) - 0.95 * val(&ea).sin() - 3.5).abs();
    assert!(residual < 1e-6);

    let (estimate, converged) =
        solve_newton_raphson_with_convergence(&equation, &sc("3.5"), &tolerance, 1);
    assert!(!converged, "one update cannot reach the tolerance here");
    assert!(val(&estimate).is_finite());
}
