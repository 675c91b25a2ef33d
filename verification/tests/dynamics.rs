use asteroids::Asteroid;
use asteroids::Config;
use asteroids::Input;
use asteroids::Ship;
use asteroids::World;

fn idle() -> Input {
    Input::idle()
}

#[test]
fn firing_may_exceed_the_cap_by_exactly_one() {
    let cfg = Config::standard();
    let ship = Ship::at(0, 0, 0);
    let mut w = World::from_parts(cfg, ship, Vec::new(), Vec::new());
    let fire = Input { fire_pressed: true, ..Input::idle() };
    for _ in 0..12 {
        w.advance(0, fire);
    }
    // The cap is checked before the increment, so a session can reach one
    // past the cap of ten and no further.
    assert_eq!(w.projectile_count(), 11);
    assert_eq!(w.projectiles().len(), 11);
}

#[test]
fn thrust_moves_along_the_heading() {
    let cfg = Config::standard();
    let ship = Ship::at(0, 0, 0);
    let mut w = World::from_parts(cfg, ship, Vec::new(), Vec::new());
    let thrust = Input { thrust: true, ..Input::idle() };
    w.advance(1000, thrust);
    // One second of thrust reaches one unit per second; at heading zero a
    // whole second of motion covers one unit along z and none along x.
    let s = w.ship_state();
    assert_eq!(s.x, 0);
    assert_eq!(s.z, 1000);
}

#[test]
fn coasting_decays_speed_to_a_stop() {
    let cfg = Config::standard();
    let ship = Ship::at(0, 0, 0);
    let mut w = World::from_parts(cfg, ship, Vec::new(), Vec::new());
    let thrust = Input { thrust: true, ..Input::idle() };
    w.advance(1000, thrust);
    assert_eq!(w.ship_state().z, 1000);
    w.advance(1000, idle());
    // Friction takes 0.8 units per second off the speed, so one coasting
    // second moves the remaining 0.2 units.
    assert_eq!(w.ship_state().z, 1200);
    w.advance(1000, idle());
    assert_eq!(w.ship_state().z, 1200);
    w.advance(1000, idle());
    assert_eq!(w.ship_state().z, 1200);
}

#[test]
fn held_turn_keys_set_the_turn_rate_directly() {
    let cfg = Config::standard();
    let left = Input { turn_left: true, ..Input::idle() };
    let right = Input { turn_right: true, ..Input::idle() };

    let mut wl = World::from_parts(cfg, Ship::at(0, 0, 0), Vec::new(), Vec::new());
    wl.advance(500, left);
    assert_eq!(wl.ship_state().orient, 1571);

    let mut wr = World::from_parts(cfg, Ship::at(0, 0, 0), Vec::new(), Vec::new());
    wr.advance(500, right);
    assert_eq!(wr.ship_state().orient, 4713);
}

#[test]
fn invulnerable_ship_ignores_input() {
    let cfg = Config::standard();
    let ship = Ship::at(0, 0, 0);
    let asteroid = Asteroid::place(500, 0, 0, 0, false);
    let mut w = World::from_parts(cfg, ship, vec![asteroid], Vec::new());
    w.advance(16, idle());
    assert!(w.ship_state().invulnerable);
    let all = Input { turn_left: true, turn_right: false, thrust: true, fire_pressed: true };
    w.advance(16, all);
    assert_eq!(w.projectile_count(), 0);
    assert_eq!(w.ship_state().orient, 0);
    assert_eq!(w.lives(), 2);
}

#[test]
fn invulnerable_ship_jitters_near_the_origin() {
    let cfg = Config::standard();
    let ship = Ship::at(0, 0, 0);
    let asteroid = Asteroid::place(500, 0, 0, 0, false);
    let mut w = World::from_parts(cfg, ship, vec![asteroid], Vec::new());
    w.advance(16, idle());
    assert!(w.ship_state().invulnerable);
    w.advance(16, idle());
    let s = w.ship_state();
    assert!(s.x >= 0 && s.x < 500);
    assert!(s.z >= 0 && s.z < 500);
}

#[test]
fn a_fresh_session_starts_clear_of_the_ship() {
    let cfg = Config::standard();
    let w = World::new(cfg);
    assert_eq!(w.score(), 0);
    assert_eq!(w.lives(), 3);
    assert_eq!(w.projectile_count(), 0);
    let placed = w.asteroids();
    assert_eq!(placed.len(), 3);
    for a in &placed {
        assert!(a.x >= -11000 && a.x <= 11000);
        assert!(a.z >= -8000 && a.z <= 8000);
        let d2 = (a.x as i128) * (a.x as i128) + (a.z as i128) * (a.z as i128);
        assert!(d2 > 1000000);
    }
}

#[test]
fn firing_spawns_at_the_ships_pose() {
    let cfg = Config::standard();
    let ship = Ship::at(3000, -2000, 1571);
    let mut w = World::from_parts(cfg, ship, Vec::new(), Vec::new());
    let fire = Input { fire_pressed: true, ..Input::idle() };
    w.advance(0, fire);
    let ps = w.projectiles();
    assert_eq!(ps.len(), 1);
    assert_eq!(ps[0].x, 3000);
    assert_eq!(ps[0].z, -2000);
    assert_eq!(ps[0].orient, 1571);
}

#[test]
fn zero_elapsed_time_changes_nothing_visible() {
    let cfg = Config::standard();
    let ship = Ship::at(123, -456, 789);
    let mut w = World::from_parts(cfg, ship, Vec::new(), Vec::new());
    w.advance(0, idle());
    let s = w.ship_state();
    assert_eq!(s.x, 123);
    assert_eq!(s.z, -456);
    assert_eq!(s.orient, 789);
    assert_eq!(w.lives(), 3);
    assert_eq!(w.score(), 0);
}
