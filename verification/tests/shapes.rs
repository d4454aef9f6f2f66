//! Behavioural tests for the collidable shapes, driving the library through
//! its public constructors with real IEEE-754 values.

use collidable::Collidable;
use collidable::CollidableShape;
use collidable::calc_normx;
use collidable::calc_normy;

/// The bit pattern of a single-precision value, as the library carries it.
fn b(v: f32) -> u32 {
    v.to_bits()
}

/// The single-precision value behind a library bit pattern.
fn f(bits: u32) -> f32 {
    f32::from_bits(bits)
}

fn assert_close(actual: f32, expected: f32, tol: f32) {
    assert!(
        (actual - expected).abs() <= tol,
        "expected {expected}, got {actual}"
    );
}

#[test]
fn circle_metrics() {
    let c = Collidable::new_circle(3, 17, b(3.0), b(-4.0), b(2.5));
    assert_eq!(c.collidable_type, 3);
    assert_eq!(c.collidable_id, 17);
    assert!(matches!(c.collidable_shape, CollidableShape::Circle));
    assert_eq!(f(c.centrex), 3.0);
    assert_eq!(f(c.centrey), -4.0);
    assert_eq!(f(c.radius), 2.5);
    assert_eq!(f(c.width), 5.0);
    assert_eq!(f(c.height), 5.0);
    assert_eq!(c.nvert, 0);
    assert!(c.vertx.is_empty());
    assert!(c.verty.is_empty());
    assert!(c.normx.is_empty());
    assert!(c.normy.is_empty());
}

#[test]
fn circle_negative_radius_doubles_too() {
    let c = Collidable::new_circle(0, 0, b(0.0), b(0.0), b(-2.0));
    assert_eq!(f(c.radius), -2.0);
    assert_eq!(f(c.width), -4.0);
    assert_eq!(f(c.height), -4.0);
}

#[test]
fn rect_round_trip() {
    let c = Collidable::new_rect(1, 2, b(0.0), b(0.0), b(10.0), b(20.0));
    assert!(matches!(c.collidable_shape, CollidableShape::Polygon));
    assert_eq!(c.nvert, 4);
    let vx: Vec<f32> = c.vertx.iter().map(|&v| f(v)).collect();
    let vy: Vec<f32> = c.verty.iter().map(|&v| f(v)).collect();
    assert_eq!(vx, vec![0.0, 10.0, 10.0, 0.0]);
    assert_eq!(vy, vec![0.0, 0.0, 20.0, 20.0]);
    assert_eq!(f(c.centrex), 5.0);
    assert_eq!(f(c.centrey), 10.0);
    assert_eq!(f(c.width), 10.0);
    assert_eq!(f(c.height), 20.0);
    assert_eq!(f(c.radius), 0.0);
}

#[test]
fn rect_vertex_order_fractional() {
    let c = Collidable::new_rect(0, 0, b(1.5), b(-2.0), b(3.25), b(4.5));
    let vx: Vec<f32> = c.vertx.iter().map(|&v| f(v)).collect();
    let vy: Vec<f32> = c.verty.iter().map(|&v| f(v)).collect();
    assert_eq!(vx, vec![1.5, 4.75, 4.75, 1.5]);
    assert_eq!(vy, vec![-2.0, -2.0, 2.5, 2.5]);
    assert_eq!(f(c.centrex), 3.125);
    assert_eq!(f(c.centrey), 0.25);
}

#[test]
fn rect_normals_exact() {
    let c = Collidable::new_rect(1, 2, b(0.0), b(0.0), b(10.0), b(20.0));
    let nx: Vec<f32> = c.normx.iter().map(|&v| f(v)).collect();
    let ny: Vec<f32> = c.normy.iter().map(|&v| f(v)).collect();
    assert_eq!(nx, vec![0.0, 20.0, 0.0, -20.0]);
    assert_eq!(ny, vec![-10.0, 0.0, 10.0, 0.0]);
}

#[test]
fn poly_bbox() {
    let c = Collidable::new_poly(
        7,
        8,
        4,
        vec![b(0.0), b(4.0), b(4.0), b(0.0)],
        vec![b(0.0), b(0.0), b(3.0), b(3.0)],
    );
    assert!(matches!(c.collidable_shape, CollidableShape::Polygon));
    assert_eq!(f(c.width), 4.0);
    assert_eq!(f(c.height), 3.0);
    assert_eq!(f(c.centrex), 2.0);
    assert_eq!(f(c.centrey), 1.5);
    assert_eq!(f(c.radius), 0.0);
    assert_eq!(c.nvert, 4);
    let vx: Vec<f32> = c.vertx.iter().map(|&v| f(v)).collect();
    assert_eq!(vx, vec![0.0, 4.0, 4.0, 0.0]);
}

#[test]
fn poly_negative_coordinates() {
    let c = Collidable::new_poly(
        0,
        0,
        3,
        vec![b(-5.0), b(1.0), b(-2.0)],
        vec![b(2.0), b(-7.0), b(0.5)],
    );
    assert_eq!(f(c.width), 6.0);
    assert_eq!(f(c.height), 9.0);
    assert_eq!(f(c.centrex), -2.0);
    assert_eq!(f(c.centrey), -2.5);
}

#[test]
fn poly_empty_falls_back_to_zero() {
    let c = Collidable::new_poly(0, 0, 0, vec![], vec![]);
    assert_eq!(f(c.width), 0.0);
    assert_eq!(f(c.height), 0.0);
    assert_eq!(f(c.centrex), 0.0);
    assert_eq!(f(c.centrey), 0.0);
    assert_eq!(c.nvert, 0);
    assert!(c.normx.is_empty());
    assert!(c.normy.is_empty());
}

#[test]
fn poly_nan_does_not_panic() {
    let c = Collidable::new_poly(
        0,
        0,
        3,
        vec![b(1.0), b(f32::NAN), b(3.0)],
        vec![b(f32::NAN), b(2.0), b(5.0)],
    );
    // A NaN never displaces an ordered incumbent, so the x extent is taken
    // from the ordered values alone; a NaN incumbent sticks, so the y extent
    // stays NaN. Either way the constructor returns instead of aborting.
    assert_eq!(f(c.width), 2.0);
    assert!(f(c.height).is_nan());
}

#[test]
fn poly_normals_wrap_around() {
    let vx = vec![b(0.0), b(6.0), b(3.0)];
    let vy = vec![b(0.0), b(0.0), b(9.0)];
    let nx = calc_normx(3, &vy);
    let ny = calc_normy(3, &vx);
    let nxf: Vec<f32> = nx.iter().map(|&v| f(v)).collect();
    let nyf: Vec<f32> = ny.iter().map(|&v| f(v)).collect();
    // Edge i runs from vertex i to vertex (i + 1) % 3; the last edge wraps
    // back to vertex 0.
    assert_eq!(nxf, vec![0.0, 9.0, -9.0]);
    assert_eq!(nyf, vec![-6.0, 3.0, 3.0]);
}

#[test]
fn arc_scenario_quarter_turn() {
    let c = Collidable::new_arc(5, 6, b(0.0), b(0.0), b(1.0), b(1.0), b(0.0), b(std::f32::consts::FRAC_PI_2));
    // floor((pi/2) / (pi/16)) + 2 = 8 + 2.
    assert_eq!(c.nvert, 10);
    assert_eq!(c.vertx.len(), 10);
    assert_eq!(c.verty.len(), 10);
    assert_eq!(c.normx.len(), 10);
    assert_eq!(c.normy.len(), 10);
    // The apex is the centre itself.
    assert_eq!(f(c.vertx[0]), 0.0);
    assert_eq!(f(c.verty[0]), 0.0);
    // The first rim vertex sits on the starting edge: the bisector (1, 0)
    // rotated by -pi/4.
    assert_close(f(c.vertx[1]), std::f32::consts::FRAC_PI_4.cos(), 1e-5);
    assert_close(f(c.verty[1]), -std::f32::consts::FRAC_PI_4.sin(), 1e-5);
    // The last vertex sits on the ending edge: the bisector rotated by
    // +pi/4, at distance 1 from the centre.
    assert_close(f(c.vertx[9]), std::f32::consts::FRAC_PI_4.cos(), 1e-5);
    assert_close(f(c.verty[9]), std::f32::consts::FRAC_PI_4.sin(), 1e-5);
    // Every rim vertex sits on the radius-1 rim.
    for i in 1..10 {
        let d = (f(c.vertx[i]).powi(2) + f(c.verty[i]).powi(2)).sqrt();
        assert_close(d, 1.0, 1e-4);
    }
    // The bounding metrics are the enclosing circle's, not the fan's.
    assert_eq!(f(c.width), 2.0);
    assert_eq!(f(c.height), 2.0);
    assert_eq!(f(c.centrex), 0.0);
    assert_eq!(f(c.centrey), 0.0);
    assert_eq!(f(c.radius), 0.0);
}

#[test]
fn arc_zero_sector_degenerates() {
    let c = Collidable::new_arc(0, 0, b(2.0), b(3.0), b(5.0), b(3.0), b(4.0), b(0.0));
    assert_eq!(c.nvert, 2);
    assert_eq!(f(c.vertx[0]), 2.0);
    assert_eq!(f(c.verty[0]), 3.0);
    // The one boundary point is the normalized bisector (0.6, 0.8) scaled
    // by the radius, unrotated.
    assert_close(f(c.vertx[1]), 2.0 + 3.0, 1e-5);
    assert_close(f(c.verty[1]), 3.0 + 4.0, 1e-5);
}

#[test]
fn arc_small_sector_keeps_two_vertices() {
    let c = Collidable::new_arc(0, 0, b(0.0), b(0.0), b(1.0), b(0.0), b(1.0), b(0.19));
    // 0.19 rad is under the pi/16 step, so no intermediate samples appear.
    assert_eq!(c.nvert, 2);
}

#[test]
fn try_new_arc_matches_new_arc() {
    let sector = b(std::f32::consts::PI);
    let c = Collidable::try_new_arc(5, 6, b(1.0), b(2.0), b(3.0), b(0.0), b(1.0), sector)
        .expect("an ordinary sector must fit");
    let d = Collidable::new_arc(5, 6, b(1.0), b(2.0), b(3.0), b(0.0), b(1.0), sector);
    assert_eq!(c.nvert, d.nvert);
    assert_eq!(c.vertx, d.vertx);
    assert_eq!(c.verty, d.verty);
    assert_eq!(c.normx, d.normx);
    assert_eq!(c.normy, d.normy);
    assert_eq!(c.width, d.width);
    assert_eq!(c.height, d.height);
}

#[test]
fn update_normals_tracks_mutated_vertices() {
    let mut c = Collidable::new_rect(1, 2, b(0.0), b(0.0), b(10.0), b(20.0));
    // The owning system replaces the ring in place with a wider rectangle,
    // then must refresh the normals itself.
    c.vertx = vec![b(0.0), b(40.0), b(40.0), b(0.0)];
    let nx_before = c.normx.clone();
    c.update_normals();
    let ny: Vec<f32> = c.normy.iter().map(|&v| f(v)).collect();
    assert_eq!(ny, vec![-40.0, 0.0, 40.0, 0.0]);
    assert_eq!(c.normx, nx_before);
    assert_eq!(c.vertx.len(), 4);
}

#[test]
fn update_normals_idempotent() {
    let mut c = Collidable::new_poly(
        0,
        0,
        3,
        vec![b(0.25), b(6.5), b(-3.75)],
        vec![b(1.0), b(-2.5), b(9.0)],
    );
    c.update_normals();
    let nx_once = c.normx.clone();
    let ny_once = c.normy.clone();
    c.update_normals();
    // Bit-identical, not merely numerically close.
    assert_eq!(c.normx, nx_once);
    assert_eq!(c.normy, ny_once);
}

#[test]
fn update_normals_lengths_match_vertex_count() {
    let mut c = Collidable::new_arc(0, 0, b(0.0), b(0.0), b(2.0), b(1.0), b(1.0), b(2.0));
    c.update_normals();
    assert_eq!(c.normx.len(), c.nvert);
    assert_eq!(c.normy.len(), c.nvert);
}
