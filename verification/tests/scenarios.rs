use asteroids::Asteroid;
use asteroids::Config;
use asteroids::Input;
use asteroids::Projectile;
use asteroids::Ship;
use asteroids::World;

fn idle() -> Input {
    Input::idle()
}

fn fire() -> Input {
    Input { fire_pressed: true, ..Input::idle() }
}

#[test]
fn collision_costs_life_and_grants_invulnerability() {
    let cfg = Config::standard();
    let ship = Ship::at(0, 0, 0);
    let asteroid = Asteroid::place(500, 0, 0, 0, false);
    let mut w = World::from_parts(cfg, ship, vec![asteroid], Vec::new());
    w.advance(16, idle());
    assert_eq!(w.lives(), 2);
    assert!(w.ship_state().invulnerable);
    assert_eq!(w.score(), 0);
}

#[test]
fn projectile_expires_once_its_second_is_up() {
    let cfg = Config::standard();
    let ship = Ship::at(0, 0, 0);
    let mut w = World::from_parts(cfg, ship, Vec::new(), Vec::new());
    let pre = w.projectile_count();
    w.advance(16, fire());
    assert_eq!(w.projectile_count(), pre + 1);
    let mut elapsed: i64 = 16;
    while elapsed < 1000 + 16 {
        w.advance(16, idle());
        elapsed += 16;
    }
    assert!(elapsed - 16 >= 1000);
    assert_eq!(w.projectile_count(), pre);
    assert_eq!(w.projectiles().len(), 0);
}

#[test]
fn projectile_pass_resolves_before_ship_pass() {
    let cfg = Config::standard();
    let ship = Ship::at(0, 0, 0);
    let asteroid = Asteroid::place(0, 0, 0, 0, true);
    let projectile = Projectile::in_flight(0, 0, 0, 1000);
    let mut w = World::from_parts(cfg, ship, vec![asteroid], vec![projectile]);
    w.advance(16, idle());
    // The asteroid dies to the projectile before the ship pass runs, and
    // its five fragments join the world only after that pass: the ship,
    // coincident with all of them, takes no damage this tick.
    assert_eq!(w.score(), 10);
    assert_eq!(w.lives(), 3);
    assert!(!w.ship_state().invulnerable);
    assert_eq!(w.projectile_count(), 0);
    let frags = w.asteroids();
    assert_eq!(frags.len(), 5);
    for f in &frags {
        assert_eq!(f.x, 0);
        assert_eq!(f.z, 0);
    }
}

#[test]
fn wraparound_at_the_boundary_happens_once() {
    let cfg = Config::standard();
    let ship = Ship::at(11001, 0, 0);
    let mut w = World::from_parts(cfg, ship, Vec::new(), Vec::new());
    w.advance(16, idle());
    assert_eq!(w.ship_state().x, -11000);
    w.advance(16, idle());
    assert_eq!(w.ship_state().x, -11000);
}

#[test]
fn wraparound_covers_both_axes() {
    let cfg = Config::standard();
    let ship = Ship::at(0, -8007, 0);
    let mut w = World::from_parts(cfg, ship, Vec::new(), Vec::new());
    w.advance(16, idle());
    assert_eq!(w.ship_state().z, 8000);
    w.advance(16, idle());
    assert_eq!(w.ship_state().z, 8000);
}

#[test]
fn destroying_non_divisible_asteroid_spawns_nothing() {
    let cfg = Config::standard();
    let ship = Ship::at(-10000, -7000, 0);
    let asteroid = Asteroid::place(0, 0, 0, 0, false);
    let projectile = Projectile::in_flight(0, 0, 0, 1000);
    let mut w = World::from_parts(cfg, ship, vec![asteroid], vec![projectile]);
    w.advance(16, idle());
    assert_eq!(w.score(), 10);
    assert_eq!(w.asteroids().len(), 0);
    assert_eq!(w.projectile_count(), 0);
}

#[test]
fn fragments_sit_at_the_parents_former_position() {
    let cfg = Config::standard();
    let ship = Ship::at(-10000, -7000, 0);
    let asteroid = Asteroid::place(2000, 0, 0, 0, true);
    let projectile = Projectile::in_flight(2000, 0, 0, 1000);
    let mut w = World::from_parts(cfg, ship, vec![asteroid], vec![projectile]);
    w.advance(16, idle());
    let frags = w.asteroids();
    assert_eq!(frags.len(), 5);
    for f in &frags {
        assert_eq!(f.x, 2000);
        assert_eq!(f.z, 0);
        assert!(f.orient >= 0 && f.orient < asteroids::TAU_MR);
    }
}

#[test]
fn every_destroyed_asteroid_is_worth_ten() {
    let cfg = Config::standard();
    let ship = Ship::at(-10000, -7000, 0);
    let asteroids_in = vec![
        Asteroid::place(0, 0, 0, 0, false),
        Asteroid::place(4000, 0, 0, 0, false),
    ];
    let projectiles_in = vec![
        Projectile::in_flight(0, 0, 0, 1000),
        Projectile::in_flight(4000, 0, 0, 1000),
    ];
    let mut w = World::from_parts(cfg, ship, asteroids_in, projectiles_in);
    w.advance(16, idle());
    assert_eq!(w.score(), 20);
    assert_eq!(w.asteroids().len(), 0);
    assert_eq!(w.projectile_count(), 0);
}

#[test]
fn each_colliding_asteroid_costs_a_life() {
    let cfg = Config::standard();
    let ship = Ship::at(0, 0, 0);
    let asteroids_in = vec![
        Asteroid::place(0, 0, 0, 0, false),
        Asteroid::place(100, 0, 0, 0, false),
        Asteroid::place(200, 0, 0, 0, false),
        Asteroid::place(300, 0, 0, 0, false),
        Asteroid::place(400, 0, 0, 0, false),
    ];
    let mut w = World::from_parts(cfg, ship, asteroids_in, Vec::new());
    w.advance(16, idle());
    // One tick, five coincident asteroids: each one independently costs a
    // life, so lives go negative.
    assert_eq!(w.lives(), -2);
    assert!(w.ship_state().invulnerable);
}

#[test]
fn invulnerability_expiry_and_damage_share_a_tick() {
    let cfg = Config::standard();
    let ship = Ship::at(0, 0, 0);
    let asteroid = Asteroid::place(500, 0, 0, 0, false);
    let mut w = World::from_parts(cfg, ship, vec![asteroid], Vec::new());
    w.advance(16, idle());
    assert_eq!(w.lives(), 2);
    // The countdown expires during this tick, before the ship pass, so the
    // still-coincident asteroid hits again at once.
    w.advance(2001, idle());
    assert_eq!(w.lives(), 1);
    assert!(w.ship_state().invulnerable);
}
