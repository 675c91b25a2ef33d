//! Entities and session state of the simulation, with their mathematical
//! views and well-formedness invariants.
//!
//! Units: positions in milli-units (a thousandth of a world unit), angles
//! in milliradians, times in milliseconds, speeds in milli-units per
//! second.
use vstd::prelude::*;
use crate::angles::TAU_MR;

verus! {

/// Ship turn rate while a turn key is held: half a turn per second.
pub const TURN_RATE_MR: i64 = 3142;

/// Ship acceleration while thrusting, in milli-units per second per second.
pub const THRUST_MU: i64 = 1000;

/// Deceleration while coasting, in milli-units per second per second.
pub const FRICTION_MU: i64 = 800;

/// Constant drift speed of every asteroid, in milli-units per second.
pub const ASTEROID_SPEED: i64 = 1000;

/// Constant speed of a projectile, faster than any asteroid.
pub const PROJECTILE_SPEED: i64 = 8000;

/// Time to live of a projectile: one second.
pub const PROJECTILE_TTL_MS: i64 = 1000;

/// Score awarded for each destroyed asteroid.
pub const REWARD: i64 = 10;

/// Fragments spawned when a divisible asteroid is destroyed.
pub const FRAGMENT_COUNT: usize = 5;

/// Exclusive bound of the positional jitter while invulnerable, in
/// milli-units: half a world unit.
pub const JITTER_MU: i64 = 500;

/// Lives at the start of a session.
pub const INITIAL_LIVES: i64 = 3;

/// Largest magnitude a coordinate or an arena bound may take.
pub const COORD_LIMIT: i64 = 1000000000000;

/// Largest time value (one tick's `dt` or a configured duration) accepted,
/// in milliseconds.
pub const TIME_LIMIT: i64 = 1000000000;

/// Largest configurable projectile cap.
pub const CAP_LIMIT: i64 = 1000000;

/// Largest configurable number of initial asteroids.
pub const INITIAL_COUNT_LIMIT: usize = 10000;

/// Session configuration, consumed once at session start.
#[derive(Clone, Copy)]
pub struct Config {
    /// Left arena bound, milli-units.
    pub x_min: i64,
    /// Right arena bound, milli-units.
    pub x_max: i64,
    /// Near arena bound, milli-units.
    pub z_min: i64,
    /// Far arena bound, milli-units.
    pub z_max: i64,
    /// Asteroid radius, milli-units; collisions trigger under twice this.
    pub radius: i64,
    /// Cap on live projectiles (one more may exist transiently).
    pub cap: i64,
    /// Invulnerability duration after a hit, milliseconds.
    pub invulnerability_ms: i64,
    /// Asteroids placed at session start.
    pub initial_asteroids: usize,
}

/// Mathematical view of a configuration.
pub ghost struct ConfigV {
    pub x_min: int,
    pub x_max: int,
    pub z_min: int,
    pub z_max: int,
    pub radius: int,
    pub cap: int,
    pub invulnerability_ms: int,
    pub initial_asteroids: int,
}

impl View for Config {
    type V = ConfigV;

    open spec fn view(&self) -> ConfigV {
        ConfigV {
            x_min: self.x_min as int,
            x_max: self.x_max as int,
            z_min: self.z_min as int,
            z_max: self.z_max as int,
            radius: self.radius as int,
            cap: self.cap as int,
            invulnerability_ms: self.invulnerability_ms as int,
            initial_asteroids: self.initial_asteroids as int,
        }
    }
}

impl ConfigV {
    /// Squared collision threshold: collisions trigger strictly under
    /// twice the asteroid radius.
    pub open spec fn threshold_sq(self) -> int {
        (2 * self.radius) * (2 * self.radius)
    }

    /// A usable configuration: a proper arena within the machine limits
    /// whose far corner is clear of the ship's starting point at the
    /// origin, so that initial placement can always succeed.
    pub open spec fn wf(self) -> bool {
        &&& self.x_min < self.x_max
        &&& self.z_min < self.z_max
        &&& -COORD_LIMIT <= self.x_min
        &&& self.x_max <= COORD_LIMIT
        &&& -COORD_LIMIT <= self.z_min
        &&& self.z_max <= COORD_LIMIT
        &&& 0 < self.radius <= COORD_LIMIT
        &&& 0 <= self.cap <= CAP_LIMIT
        &&& 0 <= self.invulnerability_ms <= TIME_LIMIT
        &&& 0 <= self.initial_asteroids <= INITIAL_COUNT_LIMIT
        &&& self.x_max * self.x_max + self.z_max * self.z_max > self.threshold_sq()
    }
}

impl Config {
    /// The documented defaults: an arena of x in [-11, 11] and z in
    /// [-8, 8] world units, radius half a unit, three starting asteroids,
    /// a cap of ten projectiles and two seconds of invulnerability.
    pub fn standard() -> (c: Config)
        ensures
            c@.wf(),
            c@.x_min == -11000 && c@.x_max == 11000,
            c@.z_min == -8000 && c@.z_max == 8000,
            c@.radius == 500,
            c@.cap == 10,
            c@.invulnerability_ms == 2000,
            c@.initial_asteroids == 3,
    {
        Config {
            x_min: -11000,
            x_max: 11000,
            z_min: -8000,
            z_max: 8000,
            radius: 500,
            cap: 10,
            invulnerability_ms: 2000,
            initial_asteroids: 3,
        }
    }
}

/// The logical key-state snapshot handed in each tick. `fire_pressed` is
/// the rising edge of the fire key: one press spawns at most one
/// projectile however long it is held.
#[derive(Clone, Copy)]
pub struct Input {
    pub turn_left: bool,
    pub turn_right: bool,
    pub thrust: bool,
    pub fire_pressed: bool,
}

impl Input {
    /// A snapshot with no key active.
    pub fn idle() -> (i: Input)
        ensures
            !i.turn_left && !i.turn_right && !i.thrust && !i.fire_pressed,
    {
        Input { turn_left: false, turn_right: false, thrust: false, fire_pressed: false }
    }
}

/// The player's ship: the session's single steerable entity.
#[derive(Clone, Copy)]
pub struct Ship {
    pub x: i64,
    pub z: i64,
    pub orient: i64,
    pub speed: i64,
    pub turn_rate: i64,
    pub invulnerable: bool,
    pub invulnerability_left: i64,
}

/// Mathematical view of the ship.
pub ghost struct ShipV {
    pub x: int,
    pub z: int,
    pub orient: int,
    pub speed: int,
    pub turn_rate: int,
    pub invulnerable: bool,
    pub invulnerability_left: int,
}

impl View for Ship {
    type V = ShipV;

    open spec fn view(&self) -> ShipV {
        ShipV {
            x: self.x as int,
            z: self.z as int,
            orient: self.orient as int,
            speed: self.speed as int,
            turn_rate: self.turn_rate as int,
            invulnerable: self.invulnerable,
            invulnerability_left: self.invulnerability_left as int,
        }
    }
}

impl ShipV {
    /// Invariant kept by every tick.
    pub open spec fn wf(self) -> bool {
        &&& -COORD_LIMIT <= self.x <= COORD_LIMIT
        &&& -COORD_LIMIT <= self.z <= COORD_LIMIT
        &&& 0 <= self.orient < TAU_MR
        &&& 0 <= self.speed <= i64::MAX
        &&& (self.turn_rate == 0 || self.turn_rate == TURN_RATE_MR || self.turn_rate
            == -TURN_RATE_MR)
        &&& 0 <= self.invulnerability_left <= TIME_LIMIT
        &&& (!self.invulnerable ==> self.invulnerability_left == 0)
    }
}

impl Ship {
    /// A vulnerable ship at rest.
    pub fn at(x: i64, z: i64, orient: i64) -> (s: Ship)
        requires
            -COORD_LIMIT <= x <= COORD_LIMIT,
            -COORD_LIMIT <= z <= COORD_LIMIT,
            0 <= orient < TAU_MR,
        ensures
            s@ == (ShipV {
                x: x as int,
                z: z as int,
                orient: orient as int,
                speed: 0,
                turn_rate: 0,
                invulnerable: false,
                invulnerability_left: 0,
            }),
            s@.wf(),
    {
        Ship {
            x,
            z,
            orient,
            speed: 0,
            turn_rate: 0,
            invulnerable: false,
            invulnerability_left: 0,
        }
    }
}

/// A drifting asteroid; only divisible (full-size) ones split when shot.
#[derive(Clone, Copy)]
pub struct Asteroid {
    pub x: i64,
    pub z: i64,
    pub orient: i64,
    pub speed: i64,
    pub divisible: bool,
}

/// Mathematical view of an asteroid.
pub ghost struct AsteroidV {
    pub x: int,
    pub z: int,
    pub orient: int,
    pub speed: int,
    pub divisible: bool,
}

impl View for Asteroid {
    type V = AsteroidV;

    open spec fn view(&self) -> AsteroidV {
        AsteroidV {
            x: self.x as int,
            z: self.z as int,
            orient: self.orient as int,
            speed: self.speed as int,
            divisible: self.divisible,
        }
    }
}

impl AsteroidV {
    /// Invariant kept by every tick.
    pub open spec fn wf(self) -> bool {
        &&& -COORD_LIMIT <= self.x <= COORD_LIMIT
        &&& -COORD_LIMIT <= self.z <= COORD_LIMIT
        &&& 0 <= self.orient < TAU_MR
        &&& 0 <= self.speed <= i64::MAX
    }
}

impl Asteroid {
    /// An asteroid with the given placement and drift.
    pub fn place(x: i64, z: i64, orient: i64, speed: i64, divisible: bool) -> (a: Asteroid)
        requires
            -COORD_LIMIT <= x <= COORD_LIMIT,
            -COORD_LIMIT <= z <= COORD_LIMIT,
            0 <= orient < TAU_MR,
            0 <= speed,
        ensures
            a@ == (AsteroidV {
                x: x as int,
                z: z as int,
                orient: orient as int,
                speed: speed as int,
                divisible: divisible,
            }),
            a@.wf(),
    {
        Asteroid { x, z, orient, speed, divisible }
    }
}

/// A fired projectile.
#[derive(Clone, Copy)]
pub struct Projectile {
    pub x: i64,
    pub z: i64,
    pub orient: i64,
    pub speed: i64,
    pub ttl: i64,
}

/// Mathematical view of a projectile.
pub ghost struct ProjectileV {
    pub x: int,
    pub z: int,
    pub orient: int,
    pub speed: int,
    pub ttl: int,
}

impl View for Projectile {
    type V = ProjectileV;

    open spec fn view(&self) -> ProjectileV {
        ProjectileV {
            x: self.x as int,
            z: self.z as int,
            orient: self.orient as int,
            speed: self.speed as int,
            ttl: self.ttl as int,
        }
    }
}

impl ProjectileV {
    /// Invariant kept by every tick.
    pub open spec fn wf(self) -> bool {
        &&& -COORD_LIMIT <= self.x <= COORD_LIMIT
        &&& -COORD_LIMIT <= self.z <= COORD_LIMIT
        &&& 0 <= self.orient < TAU_MR
        &&& 0 <= self.speed <= i64::MAX
        &&& 0 <= self.ttl <= PROJECTILE_TTL_MS
    }
}

impl Projectile {
    /// A projectile in flight with the given time left to live.
    pub fn in_flight(x: i64, z: i64, orient: i64, ttl: i64) -> (p: Projectile)
        requires
            -COORD_LIMIT <= x <= COORD_LIMIT,
            -COORD_LIMIT <= z <= COORD_LIMIT,
            0 <= orient < TAU_MR,
            0 <= ttl <= PROJECTILE_TTL_MS,
        ensures
            p@ == (ProjectileV {
                x: x as int,
                z: z as int,
                orient: orient as int,
                speed: PROJECTILE_SPEED as int,
                ttl: ttl as int,
            }),
            p@.wf(),
    {
        Projectile { x, z, orient, speed: PROJECTILE_SPEED, ttl }
    }
}

/// Score, lives and the incrementally maintained live-projectile counter.
pub ghost struct GameV {
    pub score: int,
    pub lives: int,
    pub projectile_count: int,
}

/// What a presentation layer reads of the ship each frame.
pub struct ShipState {
    pub x: i64,
    pub z: i64,
    pub orient: i64,
    pub invulnerable: bool,
}

/// What a presentation layer reads of an asteroid or a projectile.
pub struct EntityState {
    pub x: i64,
    pub z: i64,
    pub orient: i64,
}

/// Mathematical view of a whole session.
#[verifier::ext_equal]
pub ghost struct WorldV {
    pub cfg: ConfigV,
    pub ship: ShipV,
    pub asteroids: Seq<AsteroidV>,
    pub projectiles: Seq<ProjectileV>,
    pub game: GameV,
}

impl WorldV {
    /// The session invariant: every entity is well formed and the
    /// projectile counter mirrors the projectile count, which never
    /// exceeds the cap by more than the allowed transient one.
    pub open spec fn wf(self) -> bool {
        &&& self.cfg.wf()
        &&& self.ship.wf()
        &&& forall|j: int| 0 <= j < self.asteroids.len() ==> (#[trigger] self.asteroids[j]).wf()
        &&& forall|j: int|
            0 <= j < self.projectiles.len() ==> (#[trigger] self.projectiles[j]).wf()
        &&& self.game.projectile_count == self.projectiles.len()
        &&& self.game.projectile_count <= self.cfg.cap + 1
        &&& 0 <= self.game.score <= i64::MAX
        &&& i64::MIN <= self.game.lives <= i64::MAX
    }
}

} // verus!
