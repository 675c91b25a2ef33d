//! The executable session: world state and the per-tick pipeline, each
//! stage proved equal to its specification from `steps`.
use vstd::prelude::*;
use crate::angles::TAU_MR;
use crate::angles::cos_exec;
use crate::angles::sin_exec;
use crate::angles::turned_exec;
use crate::lemmas::lemma_input_wf;
use crate::lemmas::lemma_move_wf;
use crate::lemmas::lemma_shake_wf;
use crate::lemmas::lemma_timer_wf;
use crate::lemmas::lemma_turn_wf;
use crate::lemmas::lemma_tick_wf;
use crate::model::ASTEROID_SPEED;
use crate::model::Asteroid;
use crate::model::AsteroidV;
use crate::model::COORD_LIMIT;
use crate::model::Config;
use crate::model::EntityState;
use crate::model::FRICTION_MU;
use crate::model::GameV;
use crate::model::INITIAL_LIVES;
use crate::model::Input;
use crate::model::JITTER_MU;
use crate::model::PROJECTILE_SPEED;
use crate::model::PROJECTILE_TTL_MS;
use crate::model::Projectile;
use crate::model::ProjectileV;
use crate::model::Ship;
use crate::model::ShipState;
use crate::model::THRUST_MU;
use crate::model::TIME_LIMIT;
use crate::model::TURN_RATE_MR;
use crate::model::WorldV;
use crate::random::sample_range;
use crate::steps::input_spec;
use crate::steps::moved_x;
use crate::steps::moved_z;
use crate::steps::scaled_disp;
use crate::steps::tick_rel;
use crate::steps::timer_spec;
use crate::steps::ttl_filter;
use crate::steps::turn_spec;
use crate::steps::move_spec;
use crate::steps::shake_spec;
use crate::steps::marks;
use crate::steps::marks_upto;
use crate::steps::count_true;
use crate::steps::keep;
use crate::steps::fragments_ok;
use crate::steps::hit_count;
use crate::steps::laser_spec;
use crate::steps::shipcol_spec;
use crate::lemmas::lemma_laser_wf;
use crate::model::CAP_LIMIT;

verus! {

/// One tick of drift along one axis followed by wraparound, computed in
/// 128 bits so that no speed the session can reach overflows, and proved
/// equal to `wrap` of the specified displacement.
fn axis_move(v: i64, trig: i64, speed: i64, dt: i64, lo: i64, hi: i64) -> (r: i64)
    requires
        -1000 <= trig <= 1000,
        0 <= speed,
        0 <= dt <= TIME_LIMIT,
        lo < hi,
        -COORD_LIMIT <= lo,
        hi <= COORD_LIMIT,
        -COORD_LIMIT <= v <= COORD_LIMIT,
    ensures
        r == crate::steps::wrap(
            v + scaled_disp(trig as int, speed as int, dt as int),
            lo as int,
            hi as int,
        ),
        lo <= r <= hi,
{
    let mag: i128 = if trig >= 0 {
        trig as i128
    } else {
        -(trig as i128)
    };
    proof {
        assert(mag * speed <= 1000 * (i64::MAX as int) && 0 <= mag * speed) by (nonlinear_arith)
            requires
                0 <= mag <= 1000,
                0 <= speed <= i64::MAX,
        ;
        assert((mag * speed) * dt <= 1000 * (i64::MAX as int) * TIME_LIMIT && 0 <= (mag * speed)
            * dt) by (nonlinear_arith)
            requires
                0 <= mag * speed <= 1000 * (i64::MAX as int),
                0 <= dt <= TIME_LIMIT,
        ;
    }
    let p: i128 = mag * (speed as i128) * (dt as i128);
    proof {
        vstd::arithmetic::div_mod::lemma_div_pos_is_pos(p as int, 1000000);
        vstd::arithmetic::div_mod::lemma_div_is_ordered(
            p as int,
            1000 * (i64::MAX as int) * TIME_LIMIT,
            1000000,
        );
    }
    let d: i128 = p / 1000000;
    let raw: i128 = if trig >= 0 {
        (v as i128) + d
    } else {
        (v as i128) - d
    };
    if raw < lo as i128 {
        hi
    } else if raw > hi as i128 {
        lo
    } else {
        raw as i64
    }
}

/// Whether two positions lie strictly within the collision distance of
/// twice the asteroid radius, compared on squares in 128 bits.
fn close_exec(ax: i64, az2: i64, bx: i64, bz: i64, cfg: &Config) -> (r: bool)
    requires
        cfg@.wf(),
        -COORD_LIMIT <= ax <= COORD_LIMIT,
        -COORD_LIMIT <= az2 <= COORD_LIMIT,
        -COORD_LIMIT <= bx <= COORD_LIMIT,
        -COORD_LIMIT <= bz <= COORD_LIMIT,
    ensures
        r == crate::steps::close(ax as int, az2 as int, bx as int, bz as int, cfg@.threshold_sq()),
{
    let dx: i128 = ax as i128 - bx as i128;
    let dz: i128 = az2 as i128 - bz as i128;
    let rr: i128 = 2 * (cfg.radius as i128);
    proof {
        let lim: int = 2 * (COORD_LIMIT as int);
        assert(0 <= dx * dx <= lim * lim) by (nonlinear_arith)
            requires
                -lim <= dx <= lim,
        ;
        assert(0 <= dz * dz <= lim * lim) by (nonlinear_arith)
            requires
                -lim <= dz <= lim,
        ;
        assert(0 <= rr * rr <= lim * lim) by (nonlinear_arith)
            requires
                0 < rr <= lim,
        ;
        assert(lim * lim == 4000000000000000000000000);
    }
    let sq1: i128 = dx * dx;
    let sq2: i128 = dz * dz;
    let sqr: i128 = rr * rr;
    sq1 + sq2 < sqr
}

/// A whole game session: configuration, entities and the score, lives and
/// live-projectile counter read by the presentation layer.
pub struct World {
    cfg: Config,
    ship: Ship,
    asteroids: Vec<Asteroid>,
    projectiles: Vec<Projectile>,
    score: i64,
    lives: i64,
    projectile_count: i64,
}

impl View for World {
    type V = WorldV;

    closed spec fn view(&self) -> WorldV {
        WorldV {
            cfg: self.cfg@,
            ship: self.ship@,
            asteroids: self.asteroids@.map_values(|a: Asteroid| a@),
            projectiles: self.projectiles@.map_values(|p: Projectile| p@),
            game: GameV {
                score: self.score as int,
                lives: self.lives as int,
                projectile_count: self.projectile_count as int,
            },
        }
    }
}

/// How many random placements are tried before the far arena corner —
/// clear of the origin by configuration — is used instead.
const PLACEMENT_TRIES: usize = 10000;

/// A position for a fresh asteroid: drawn uniformly from the arena and
/// redrawn until it is farther from the ship's starting point at the
/// origin than the collision distance.
fn place_clear(cfg: &Config) -> (r: (i64, i64))
    requires
        cfg@.wf(),
    ensures
        cfg@.x_min <= r.0 <= cfg@.x_max,
        cfg@.z_min <= r.1 <= cfg@.z_max,
        r.0 * r.0 + r.1 * r.1 > cfg@.threshold_sq(),
{
    let mut tries: usize = PLACEMENT_TRIES;
    while tries > 0
        invariant
            cfg@.wf(),
        decreases tries,
    {
        let x = sample_range(cfg.x_min, cfg.x_max);
        let z = sample_range(cfg.z_min, cfg.z_max);
        if farther_than_collision_distance(x, z, cfg) {
            return (x, z);
        }
        tries = tries - 1;
    }
    (cfg.x_max, cfg.z_max)
}

/// Whether a placement is strictly farther from the ship's starting point
/// at the origin than the collision distance, compared on squares.
fn farther_than_collision_distance(x: i64, z: i64, cfg: &Config) -> (r: bool)
    requires
        cfg@.wf(),
        -COORD_LIMIT <= x <= COORD_LIMIT,
        -COORD_LIMIT <= z <= COORD_LIMIT,
    ensures
        r == (x * x + z * z > cfg@.threshold_sq()),
{
    let xw: i128 = x as i128;
    let zw: i128 = z as i128;
    let rr: i128 = 2 * (cfg.radius as i128);
    proof {
        let lim: int = 2 * (COORD_LIMIT as int);
        assert(0 <= xw * xw <= lim * lim) by (nonlinear_arith)
            requires
                -lim <= xw <= lim,
        ;
        assert(0 <= zw * zw <= lim * lim) by (nonlinear_arith)
            requires
                -lim <= zw <= lim,
        ;
        assert(0 <= rr * rr <= lim * lim) by (nonlinear_arith)
            requires
                0 < rr <= lim,
        ;
        assert(lim * lim == 4000000000000000000000000);
    }
    let sq1: i128 = xw * xw;
    let sq2: i128 = zw * zw;
    let sqr: i128 = rr * rr;
    sq1 + sq2 > sqr
}

impl World {
    /// A fresh session: the ship at rest at the origin, vulnerable, with
    /// the configured number of full-size divisible asteroids drifting at
    /// the common speed, each placed clear of the ship, and no projectile
    /// in flight.
    pub fn new(cfg: Config) -> (w: World)
        requires
            cfg@.wf(),
        ensures
            w@.wf(),
            w@.cfg == cfg@,
            w@.ship == (crate::model::ShipV {
                x: 0,
                z: 0,
                orient: 0,
                speed: 0,
                turn_rate: 0,
                invulnerable: false,
                invulnerability_left: 0,
            }),
            w@.projectiles.len() == 0,
            w@.game == (GameV { score: 0, lives: INITIAL_LIVES as int, projectile_count: 0 }),
            w@.asteroids.len() == cfg@.initial_asteroids,
            forall|j: int|
                0 <= j < w@.asteroids.len() ==> (#[trigger] w@.asteroids[j]).wf()
                    && w@.asteroids[j].divisible && w@.asteroids[j].speed == ASTEROID_SPEED
                    && w@.asteroids[j].x * w@.asteroids[j].x + w@.asteroids[j].z
                    * w@.asteroids[j].z > cfg@.threshold_sq(),
    {
        let ship = Ship::at(0, 0, 0);
        let mut asteroids: Vec<Asteroid> = Vec::new();
        let target = cfg.initial_asteroids;
        while asteroids.len() < target
            invariant
                cfg@.wf(),
                asteroids@.len() <= target,
                forall|j: int|
                    0 <= j < asteroids@.len() ==> (#[trigger] asteroids@[j])@.wf()
                        && asteroids@[j]@.divisible && asteroids@[j]@.speed == ASTEROID_SPEED
                        && asteroids@[j]@.x * asteroids@[j]@.x + asteroids@[j]@.z
                        * asteroids@[j]@.z > cfg@.threshold_sq(),
            decreases target - asteroids.len(),
        {
            let pos = place_clear(&cfg);
            let orient = sample_range(0, TAU_MR);
            asteroids.push(
                Asteroid { x: pos.0, z: pos.1, orient, speed: ASTEROID_SPEED, divisible: true },
            );
        }
        let w = World::from_parts(cfg, ship, asteroids, Vec::new());
        proof {
            assert(w@.projectiles =~= Seq::<ProjectileV>::empty());
            assert forall|j: int| 0 <= j < w@.asteroids.len() implies (#[trigger] w@.asteroids[j]).wf()
                && w@.asteroids[j].divisible && w@.asteroids[j].speed == ASTEROID_SPEED
                && w@.asteroids[j].x * w@.asteroids[j].x + w@.asteroids[j].z
                * w@.asteroids[j].z > cfg@.threshold_sq() by {
                assert(w@.asteroids[j] == asteroids@[j]@);
            }
        }
        w
    }

    /// A session assembled from explicit parts, with a fresh score and the
    /// starting number of lives. The host that owns the session start uses
    /// this after choosing placements.
    pub fn from_parts(
        cfg: Config,
        ship: Ship,
        asteroids: Vec<Asteroid>,
        projectiles: Vec<Projectile>,
    ) -> (w: World)
        requires
            cfg@.wf(),
            ship@.wf(),
            forall|j: int| 0 <= j < asteroids@.len() ==> (#[trigger] asteroids@[j])@.wf(),
            forall|j: int| 0 <= j < projectiles@.len() ==> (#[trigger] projectiles@[j])@.wf(),
            projectiles@.len() <= cfg@.cap + 1,
        ensures
            w@.wf(),
            w@.cfg == cfg@,
            w@.ship == ship@,
            w@.asteroids == asteroids@.map_values(|a: Asteroid| a@),
            w@.projectiles == projectiles@.map_values(|p: Projectile| p@),
            w@.game == (GameV {
                score: 0,
                lives: INITIAL_LIVES as int,
                projectile_count: projectiles@.len() as int,
            }),
    {
        proof {
            assert(projectiles@.len() <= crate::model::CAP_LIMIT + 1);
        }
        let count = projectiles.len() as i64;
        let w = World {
            cfg,
            ship,
            asteroids,
            projectiles,
            score: 0,
            lives: INITIAL_LIVES,
            projectile_count: count,
        };
        proof {
            assert forall|j: int|
                0 <= j < w@.asteroids.len() implies (#[trigger] w@.asteroids[j]).wf() by {
                assert(w@.asteroids[j] == w.asteroids@[j]@);
            }
            assert forall|j: int|
                0 <= j < w@.projectiles.len() implies (#[trigger] w@.projectiles[j]).wf() by {
                assert(w@.projectiles[j] == w.projectiles@[j]@);
            }
        }
        w
    }

    /// The score so far; it never decreases.
    pub fn score(&self) -> (s: i64)
        ensures
            s == self@.game.score,
    {
        self.score
    }

    /// Lives remaining; may go negative, ending the session is the host's
    /// concern.
    pub fn lives(&self) -> (l: i64)
        ensures
            l == self@.game.lives,
    {
        self.lives
    }

    /// The live-projectile counter maintained incrementally by the
    /// pipeline.
    pub fn projectile_count(&self) -> (c: i64)
        ensures
            c == self@.game.projectile_count,
    {
        self.projectile_count
    }

    /// What the presentation layer reads of the ship.
    pub fn ship_state(&self) -> (s: ShipState)
        ensures
            s.x == self@.ship.x,
            s.z == self@.ship.z,
            s.orient == self@.ship.orient,
            s.invulnerable == self@.ship.invulnerable,
    {
        ShipState {
            x: self.ship.x,
            z: self.ship.z,
            orient: self.ship.orient,
            invulnerable: self.ship.invulnerable,
        }
    }

    /// Positions and orientations of the live asteroids.
    pub fn asteroids(&self) -> (v: Vec<EntityState>)
        ensures
            v@.len() == self@.asteroids.len(),
            forall|j: int|
                0 <= j < v@.len() ==> (#[trigger] v@[j]).x == self@.asteroids[j].x && v@[j].z
                    == self@.asteroids[j].z && v@[j].orient == self@.asteroids[j].orient,
    {
        let mut v: Vec<EntityState> = Vec::new();
        let n = self.asteroids.len();
        let mut i: usize = 0;
        while i < n
            invariant
                i <= n,
                n == self.asteroids@.len(),
                v@.len() == i,
                forall|j: int|
                    0 <= j < i ==> (#[trigger] v@[j]).x == self@.asteroids[j].x && v@[j].z
                        == self@.asteroids[j].z && v@[j].orient == self@.asteroids[j].orient,
            decreases n - i,
        {
            let a = self.asteroids[i];
            v.push(EntityState { x: a.x, z: a.z, orient: a.orient });
            i = i + 1;
        }
        v
    }

    /// Positions and orientations of the live projectiles.
    pub fn projectiles(&self) -> (v: Vec<EntityState>)
        ensures
            v@.len() == self@.projectiles.len(),
            forall|j: int|
                0 <= j < v@.len() ==> (#[trigger] v@[j]).x == self@.projectiles[j].x && v@[j].z
                    == self@.projectiles[j].z && v@[j].orient == self@.projectiles[j].orient,
    {
        let mut v: Vec<EntityState> = Vec::new();
        let n = self.projectiles.len();
        let mut i: usize = 0;
        while i < n
            invariant
                i <= n,
                n == self.projectiles@.len(),
                v@.len() == i,
                forall|j: int|
                    0 <= j < i ==> (#[trigger] v@[j]).x == self@.projectiles[j].x && v@[j].z
                        == self@.projectiles[j].z && v@[j].orient == self@.projectiles[j].orient,
            decreases n - i,
        {
            let p = self.projectiles[i];
            v.push(EntityState { x: p.x, z: p.z, orient: p.orient });
            i = i + 1;
        }
        v
    }

    /// Input mapping, proved equal to its specification.
    fn input_step(&mut self, inp: Input, dt: i64)
        requires
            old(self)@.wf(),
            0 <= dt <= TIME_LIMIT,
        ensures
            final(self)@ == input_spec(old(self)@, inp, dt as int),
    {
        if self.ship.invulnerable {
            return ;
        }
        self.ship.turn_rate = if inp.turn_left {
            TURN_RATE_MR
        } else if inp.turn_right {
            -TURN_RATE_MR
        } else {
            0
        };
        if inp.thrust {
            proof {
                vstd::arithmetic::div_mod::lemma_div_pos_is_pos(THRUST_MU * dt, 1000);
            }
            let delta = THRUST_MU * dt / 1000;
            self.ship.speed = if self.ship.speed > i64::MAX - delta {
                i64::MAX
            } else {
                self.ship.speed + delta
            };
        } else if self.ship.speed > 0 {
            proof {
                vstd::arithmetic::div_mod::lemma_div_pos_is_pos(FRICTION_MU * dt, 1000);
                vstd::arithmetic::div_mod::lemma_multiply_divide_le(
                    FRICTION_MU * dt,
                    1000,
                    FRICTION_MU * TIME_LIMIT,
                );
            }
            let delta = FRICTION_MU * dt / 1000;
            self.ship.speed = if self.ship.speed - delta > 0 {
                self.ship.speed - delta
            } else {
                0
            };
        } else {
            self.ship.speed = 0;
        }
        if inp.fire_pressed && self.projectile_count <= self.cfg.cap {
            self.projectile_count = self.projectile_count + 1;
            let p = Projectile {
                x: self.ship.x,
                z: self.ship.z,
                orient: self.ship.orient,
                speed: PROJECTILE_SPEED,
                ttl: PROJECTILE_TTL_MS,
            };
            self.projectiles.push(p);
            proof {
                assert(self@.projectiles =~= input_spec(old(self)@, inp, dt as int).projectiles);
            }
        }
        proof {
            assert(self@ =~= input_spec(old(self)@, inp, dt as int));
        }
    }

    /// Turning, proved equal to its specification.
    fn turn_step(&mut self, dt: i64)
        requires
            old(self)@.wf(),
            0 <= dt <= TIME_LIMIT,
        ensures
            final(self)@ == turn_spec(old(self)@, dt as int),
    {
        self.ship.orient = turned_exec(self.ship.orient, self.ship.turn_rate, dt);
        proof {
            assert(self@ =~= turn_spec(old(self)@, dt as int));
        }
    }

    /// Motion integration with wraparound for every entity, proved equal
    /// to its specification.
    fn move_step(&mut self, dt: i64)
        requires
            old(self)@.wf(),
            0 <= dt <= TIME_LIMIT,
        ensures
            final(self)@ == move_spec(old(self)@, dt as int),
    {
        let sx = axis_move(
            self.ship.x,
            sin_exec(self.ship.orient),
            self.ship.speed,
            dt,
            self.cfg.x_min,
            self.cfg.x_max,
        );
        let sz = axis_move(
            self.ship.z,
            cos_exec(self.ship.orient),
            self.ship.speed,
            dt,
            self.cfg.z_min,
            self.cfg.z_max,
        );
        self.ship.x = sx;
        self.ship.z = sz;
        let n = self.asteroids.len();
        let mut i: usize = 0;
        while i < n
            invariant
                i <= n,
                n == self.asteroids@.len(),
                n == old(self).asteroids@.len(),
                old(self)@.wf(),
                0 <= dt <= TIME_LIMIT,
                self.cfg == old(self).cfg,
                self.ship@ == move_spec(old(self)@, dt as int).ship,
                self.projectiles@ == old(self).projectiles@,
                self.score == old(self).score,
                self.lives == old(self).lives,
                self.projectile_count == old(self).projectile_count,
                forall|j: int| i <= j < n ==> self.asteroids@[j] == old(self).asteroids@[j],
                forall|j: int|
                    0 <= j < i ==> (#[trigger] self.asteroids@[j])@ == (AsteroidV {
                        x: moved_x(
                            old(self)@.asteroids[j].x,
                            old(self)@.asteroids[j].orient,
                            old(self)@.asteroids[j].speed,
                            dt as int,
                            old(self)@.cfg,
                        ),
                        z: moved_z(
                            old(self)@.asteroids[j].z,
                            old(self)@.asteroids[j].orient,
                            old(self)@.asteroids[j].speed,
                            dt as int,
                            old(self)@.cfg,
                        ),
                        ..old(self)@.asteroids[j]
                    }),
            decreases n - i,
        {
            let a = self.asteroids[i];
            proof {
                assert(old(self)@.asteroids[i as int] == old(self).asteroids@[i as int]@);
                assert(old(self)@.asteroids[i as int].wf());
            }
            let ax = axis_move(a.x, sin_exec(a.orient), a.speed, dt, self.cfg.x_min, self.cfg.x_max);
            let az2 = axis_move(a.z, cos_exec(a.orient), a.speed, dt, self.cfg.z_min, self.cfg.z_max);
            self.asteroids.set(i, Asteroid { x: ax, z: az2, ..a });
            i = i + 1;
        }
        let m = self.projectiles.len();
        let mut k: usize = 0;
        while k < m
            invariant
                k <= m,
                m == self.projectiles@.len(),
                m == old(self).projectiles@.len(),
                old(self)@.wf(),
                0 <= dt <= TIME_LIMIT,
                self.cfg == old(self).cfg,
                self.ship@ == move_spec(old(self)@, dt as int).ship,
                self@.asteroids =~= move_spec(old(self)@, dt as int).asteroids,
                self.score == old(self).score,
                self.lives == old(self).lives,
                self.projectile_count == old(self).projectile_count,
                forall|j: int| k <= j < m ==> self.projectiles@[j] == old(self).projectiles@[j],
                forall|j: int|
                    0 <= j < k ==> (#[trigger] self.projectiles@[j])@ == (ProjectileV {
                        x: moved_x(
                            old(self)@.projectiles[j].x,
                            old(self)@.projectiles[j].orient,
                            old(self)@.projectiles[j].speed,
                            dt as int,
                            old(self)@.cfg,
                        ),
                        z: moved_z(
                            old(self)@.projectiles[j].z,
                            old(self)@.projectiles[j].orient,
                            old(self)@.projectiles[j].speed,
                            dt as int,
                            old(self)@.cfg,
                        ),
                        ..old(self)@.projectiles[j]
                    }),
            decreases m - k,
        {
            let p = self.projectiles[k];
            proof {
                assert(old(self)@.projectiles[k as int] == old(self).projectiles@[k as int]@);
                assert(old(self)@.projectiles[k as int].wf());
            }
            let px = axis_move(p.x, sin_exec(p.orient), p.speed, dt, self.cfg.x_min, self.cfg.x_max);
            let pz = axis_move(p.z, cos_exec(p.orient), p.speed, dt, self.cfg.z_min, self.cfg.z_max);
            self.projectiles.set(k, Projectile { x: px, z: pz, ..p });
            k = k + 1;
        }
        proof {
            assert(self@.asteroids =~= move_spec(old(self)@, dt as int).asteroids);
            assert(self@.projectiles =~= move_spec(old(self)@, dt as int).projectiles);
            assert(self@ =~= move_spec(old(self)@, dt as int));
        }
    }

    /// Timer decrement: projectile time-to-live decay and expiry, proved
    /// equal to its specification.
    fn timer_step(&mut self, dt: i64)
        requires
            old(self)@.wf(),
            0 <= dt <= TIME_LIMIT,
        ensures
            final(self)@ == timer_spec(old(self)@, dt as int),
    {
        let ghost vs = old(self)@.projectiles;
        let n = self.projectiles.len();
        let mut kept: Vec<Projectile> = Vec::new();
        let mut removed: i64 = 0;
        let mut i: usize = 0;
        while i < n
            invariant
                i <= n,
                n == self.projectiles@.len(),
                self.projectiles@ == old(self).projectiles@,
                vs == old(self)@.projectiles,
                vs.len() == n,
                old(self)@.wf(),
                0 <= dt <= TIME_LIMIT,
                kept@.map_values(|p: Projectile| p@) == ttl_filter(vs.take(i as int), dt as int),
                kept@.len() == ttl_filter(vs.take(i as int), dt as int).len(),
                ttl_filter(vs.take(i as int), dt as int).len() <= i,
                removed == i - ttl_filter(vs.take(i as int), dt as int).len(),
            decreases n - i,
        {
            proof {
                assert(vs[i as int] == self.projectiles@[i as int]@);
                assert(vs[i as int].wf());
                let pref = vs.take(i as int + 1);
                assert(pref.drop_last() =~= vs.take(i as int));
                assert(pref.last() == vs[i as int]);
            }
            let p = self.projectiles[i];
            let t = p.ttl - dt;
            if t < 0 {
                removed = removed + 1;
            } else {
                kept.push(Projectile { ttl: t, ..p });
                proof {
                    assert(kept@.map_values(|p: Projectile| p@) =~= ttl_filter(
                        vs.take(i as int + 1),
                        dt as int,
                    ));
                }
            }
            i = i + 1;
        }
        proof {
            assert(vs.take(n as int) =~= vs);
        }
        self.projectiles = kept;
        self.projectile_count = self.projectile_count - removed;
        proof {
            assert(self@ =~= timer_spec(old(self)@, dt as int));
        }
    }

    /// The invulnerability machine, proved equal to its specification; the
    /// jitter actually drawn is returned as a ghost witness.
    fn shake_step(&mut self, dt: i64) -> (jit: Ghost<(int, int)>)
        requires
            old(self)@.wf(),
            0 <= dt <= TIME_LIMIT,
        ensures
            0 <= jit@.0 < JITTER_MU,
            0 <= jit@.1 < JITTER_MU,
            final(self)@ == shake_spec(old(self)@, dt as int, jit@.0, jit@.1),
    {
        if !self.ship.invulnerable {
            return Ghost((0int, 0int));
        }
        let t = self.ship.invulnerability_left - dt;
        if t < 0 {
            self.ship.invulnerable = false;
            self.ship.invulnerability_left = 0;
            proof {
                assert(self@ =~= shake_spec(old(self)@, dt as int, 0, 0));
            }
            Ghost((0int, 0int))
        } else {
            self.ship.invulnerability_left = t;
            let jx = sample_range(0, JITTER_MU);
            let jz = sample_range(0, JITTER_MU);
            self.ship.x = jx;
            self.ship.z = jz;
            proof {
                assert(self@ =~= shake_spec(old(self)@, dt as int, jx as int, jz as int));
            }
            Ghost((jx as int, jz as int))
        }
    }

    /// The projectile-versus-asteroid pass: destruction marks over a
    /// pre-pass snapshot, removals at the end of the pass, score and the
    /// live counter, proved equal to its specification. The fragments of
    /// destroyed divisible asteroids are returned so that the caller can
    /// add them after the ship pass.
    fn laser_step(&mut self) -> (frags: Vec<Asteroid>)
        requires
            old(self)@.wf(),
        ensures
            final(self)@ == laser_spec(old(self)@),
            fragments_ok(
                old(self)@.asteroids,
                marks(
                    old(self)@.projectiles,
                    old(self)@.asteroids,
                    old(self)@.cfg.threshold_sq(),
                ).1,
                frags@.map_values(|a: Asteroid| a@),
            ),
    {
        let ghost ps = old(self)@.projectiles;
        let ghost az = old(self)@.asteroids;
        let ghost tsq = old(self)@.cfg.threshold_sq();
        let n = self.projectiles.len();
        let m = self.asteroids.len();
        let mut pdead: Vec<bool> = Vec::new();
        while pdead.len() < n
            invariant
                pdead@.len() <= n,
                forall|j: int| 0 <= j < pdead@.len() ==> !(#[trigger] pdead@[j]),
            decreases n - pdead.len(),
        {
            pdead.push(false);
        }
        let mut adead: Vec<bool> = Vec::new();
        while adead.len() < m
            invariant
                adead@.len() <= m,
                forall|j: int| 0 <= j < adead@.len() ==> !(#[trigger] adead@[j]),
            decreases m - adead.len(),
        {
            adead.push(false);
        }
        proof {
            assert(pdead@ =~= marks_upto(ps, az, tsq, 0).0);
            assert(adead@ =~= marks_upto(ps, az, tsq, 0).1);
        }
        let mut i: usize = 0;
        while i < n
            invariant
                i <= n,
                old(self)@.wf(),
                self@ == old(self)@,
                n == self.projectiles@.len(),
                m == self.asteroids@.len(),
                ps == old(self)@.projectiles,
                az == old(self)@.asteroids,
                tsq == old(self)@.cfg.threshold_sq(),
                pdead@.len() == n,
                adead@.len() == m,
                (pdead@, adead@) == marks_upto(ps, az, tsq, (i * m) as nat),
            decreases n - i,
        {
            let mut j: usize = 0;
            while j < m
                invariant
                    i < n,
                    j <= m,
                    old(self)@.wf(),
                    self@ == old(self)@,
                    n == self.projectiles@.len(),
                    m == self.asteroids@.len(),
                    ps == old(self)@.projectiles,
                    az == old(self)@.asteroids,
                    tsq == old(self)@.cfg.threshold_sq(),
                    pdead@.len() == n,
                    adead@.len() == m,
                    (pdead@, adead@) == marks_upto(ps, az, tsq, (i * m + j) as nat),
                decreases m - j,
            {
                proof {
                    assert(ps[i as int] == self.projectiles@[i as int]@);
                    assert(az[j as int] == self.asteroids@[j as int]@);
                    assert(ps[i as int].wf());
                    assert(az[j as int].wf());
                }
                let pi = self.projectiles[i];
                let aj = self.asteroids[j];
                let hit = !pdead[i] && !adead[j] && close_exec(pi.x, pi.z, aj.x, aj.z, &self.cfg);
                proof {
                    let k: int = i * m + j;
                    vstd::arithmetic::div_mod::lemma_fundamental_div_mod_converse(
                        k,
                        m as int,
                        i as int,
                        j as int,
                    );
                    assert(marks_upto(ps, az, tsq, (k + 1) as nat) == if !pdead@[i as int]
                        && !adead@[j as int] && crate::steps::close(
                        ps[i as int].x,
                        ps[i as int].z,
                        az[j as int].x,
                        az[j as int].z,
                        tsq,
                    ) {
                        (pdead@.update(i as int, true), adead@.update(j as int, true))
                    } else {
                        (pdead@, adead@)
                    });
                }
                if hit {
                    pdead.set(i, true);
                    adead.set(j, true);
                }
                j = j + 1;
            }
            proof {
                assert((i + 1) * m == i * m + m) by (nonlinear_arith);
            }
            i = i + 1;
        }
        let ghost mk = marks(ps, az, tsq);
        proof {
            assert(mk == (pdead@, adead@));
        }
        let mut pkilled: i64 = 0;
        let mut newps: Vec<Projectile> = Vec::new();
        let mut t: usize = 0;
        while t < n
            invariant
                t <= n,
                old(self)@.wf(),
                self@ == old(self)@,
                n == self.projectiles@.len(),
                ps == old(self)@.projectiles,
                pdead@.len() == n,
                0 <= pkilled <= t,
                pkilled == count_true(pdead@.take(t as int)),
                newps@.map_values(|p: Projectile| p@) == keep(
                    ps.take(t as int),
                    pdead@.take(t as int),
                ),
                newps@.len() + pkilled == t,
            decreases n - t,
        {
            proof {
                let pref = pdead@.take(t as int + 1);
                assert(pref.drop_last() =~= pdead@.take(t as int));
                assert(pref.last() == pdead@[t as int]);
                let sref = ps.take(t as int + 1);
                assert(sref.drop_last() =~= ps.take(t as int));
                assert(sref.last() == ps[t as int]);
                assert(ps[t as int] == self.projectiles@[t as int]@);
            }
            if pdead[t] {
                pkilled = pkilled + 1;
            } else {
                newps.push(self.projectiles[t]);
                proof {
                    assert(newps@.map_values(|p: Projectile| p@) =~= keep(
                        ps.take(t as int + 1),
                        pdead@.take(t as int + 1),
                    ));
                }
            }
            t = t + 1;
        }
        let mut akilled: usize = 0;
        let mut newaz: Vec<Asteroid> = Vec::new();
        let mut frags: Vec<Asteroid> = Vec::new();
        let mut u: usize = 0;
        while u < m
            invariant
                u <= m,
                old(self)@.wf(),
                self@ == old(self)@,
                m == self.asteroids@.len(),
                az == old(self)@.asteroids,
                adead@.len() == m,
                0 <= akilled <= u,
                akilled == count_true(adead@.take(u as int)),
                newaz@.map_values(|a: Asteroid| a@) == keep(
                    az.take(u as int),
                    adead@.take(u as int),
                ),
                fragments_ok(
                    az.take(u as int),
                    adead@.take(u as int),
                    frags@.map_values(|a: Asteroid| a@),
                ),
            decreases m - u,
        {
            proof {
                let pref = adead@.take(u as int + 1);
                assert(pref.drop_last() =~= adead@.take(u as int));
                assert(pref.last() == adead@[u as int]);
                let sref = az.take(u as int + 1);
                assert(sref.drop_last() =~= az.take(u as int));
                assert(sref.last() == az[u as int]);
                assert(az[u as int] == self.asteroids@[u as int]@);
                assert(az[u as int].wf());
            }
            let a = self.asteroids[u];
            if adead[u] {
                akilled = akilled + 1;
                if a.divisible {
                    let ghost fbase = frags@.map_values(|a: Asteroid| a@);
                    let mut c: usize = 0;
                    while c < crate::model::FRAGMENT_COUNT
                        invariant
                            c <= crate::model::FRAGMENT_COUNT,
                            az == old(self)@.asteroids,
                            0 <= u < az.len(),
                            az[u as int].wf(),
                            a@ == az[u as int],
                            a.divisible,
                            frags@.len() == fbase.len() + c,
                            forall|q: int|
                                0 <= q < fbase.len() ==> (#[trigger] frags@[q])@ == fbase[q],
                            forall|q: int|
                                fbase.len() <= q < fbase.len() + c
                                    ==> crate::steps::is_fragment_of(
                                    az[u as int],
                                    (#[trigger] frags@[q])@,
                                ),
                        decreases crate::model::FRAGMENT_COUNT - c,
                    {
                        let h = sample_range(0, TAU_MR);
                        frags.push(
                            Asteroid {
                                x: a.x,
                                z: a.z,
                                orient: h,
                                speed: ASTEROID_SPEED,
                                divisible: false,
                            },
                        );
                        c = c + 1;
                    }
                    proof {
                        let fr = frags@.map_values(|a: Asteroid| a@);
                        assert(fr.take(fr.len() - crate::model::FRAGMENT_COUNT) =~= fbase);
                        assert forall|q: int|
                            fr.len() - crate::model::FRAGMENT_COUNT <= q < fr.len()
                                implies crate::steps::is_fragment_of(
                                az[u as int],
                                #[trigger] fr[q],
                            ) by {
                            assert(fr[q] == frags@[q]@);
                        }
                    }
                }
            } else {
                newaz.push(a);
                proof {
                    assert(newaz@.map_values(|a: Asteroid| a@) =~= keep(
                        az.take(u as int + 1),
                        adead@.take(u as int + 1),
                    ));
                }
            }
            u = u + 1;
        }
        proof {
            assert(ps.take(n as int) =~= ps);
            assert(az.take(m as int) =~= az);
            assert(pdead@.take(n as int) =~= pdead@);
            assert(adead@.take(m as int) =~= adead@);
            crate::lemmas::lemma_count_true_bounds(adead@);
        }
        self.projectiles = newps;
        self.asteroids = newaz;
        self.projectile_count = self.projectile_count - pkilled;
        let reward: i128 = (crate::model::REWARD as i128) * (akilled as i128);
        let ns: i128 = self.score as i128 + reward;
        self.score = if ns > i64::MAX as i128 {
            i64::MAX
        } else {
            ns as i64
        };
        proof {
            assert(self@ =~= laser_spec(old(self)@));
        }
        frags
    }

    /// The ship-versus-asteroid pass over the survivors of the projectile
    /// pass, proved equal to its specification.
    fn shipcol_step(&mut self)
        requires
            old(self)@.wf(),
        ensures
            final(self)@ == shipcol_spec(old(self)@),
    {
        if self.ship.invulnerable {
            return ;
        }
        let ghost az = old(self)@.asteroids;
        let ghost tsq = old(self)@.cfg.threshold_sq();
        let m = self.asteroids.len();
        let mut hits: usize = 0;
        let mut t: usize = 0;
        while t < m
            invariant
                t <= m,
                old(self)@.wf(),
                self@ == old(self)@,
                !old(self)@.ship.invulnerable,
                m == self.asteroids@.len(),
                az == old(self)@.asteroids,
                tsq == old(self)@.cfg.threshold_sq(),
                0 <= hits <= t,
                hits == hit_count(old(self)@.ship, az.take(t as int), tsq),
            decreases m - t,
        {
            proof {
                let sref = az.take(t as int + 1);
                assert(sref.drop_last() =~= az.take(t as int));
                assert(sref.last() == az[t as int]);
                assert(az[t as int] == self.asteroids@[t as int]@);
                assert(az[t as int].wf());
            }
            let a = self.asteroids[t];
            if close_exec(self.ship.x, self.ship.z, a.x, a.z, &self.cfg) {
                hits = hits + 1;
            }
            t = t + 1;
        }
        proof {
            assert(az.take(m as int) =~= az);
        }
        if hits > 0 {
            let nl: i128 = self.lives as i128 - hits as i128;
            self.lives = if nl < i64::MIN as i128 {
                i64::MIN
            } else {
                nl as i64
            };
            self.ship.invulnerable = true;
            self.ship.invulnerability_left = self.cfg.invulnerability_ms;
        }
        proof {
            assert(self@ =~= shipcol_spec(old(self)@));
        }
    }

    /// One whole simulation tick in the mandated order: input mapping,
    /// turning, motion with wraparound, projectile timers, the
    /// invulnerability machine, the projectile pass and then the ship
    /// pass, with the fragments of destroyed asteroids joining the world
    /// last. `dt` is the elapsed time in milliseconds; the bound on it is
    /// a machine limit, over eleven days for a single tick.
    pub fn advance(&mut self, dt: i64, input: Input)
        requires
            old(self)@.wf(),
            0 <= dt <= TIME_LIMIT,
        ensures
            exists|jx: int, jz: int, fr: Seq<AsteroidV>|
                tick_rel(old(self)@, input, dt as int, jx, jz, fr, final(self)@),
            final(self)@.wf(),
            final(self)@.cfg == old(self)@.cfg,
            final(self)@.game.lives <= old(self)@.game.lives,
            final(self)@.game.score >= old(self)@.game.score,
            old(self)@.ship.invulnerable && old(self)@.ship.invulnerability_left - dt >= 0
                ==> final(self)@.game.lives == old(self)@.game.lives,
    {
        let ghost w0 = old(self)@;
        self.input_step(input, dt);
        proof {
            lemma_input_wf(w0, input, dt as int);
        }
        self.turn_step(dt);
        proof {
            lemma_turn_wf(input_spec(w0, input, dt as int), dt as int);
        }
        self.move_step(dt);
        proof {
            lemma_move_wf(turn_spec(input_spec(w0, input, dt as int), dt as int), dt as int);
        }
        self.timer_step(dt);
        proof {
            lemma_timer_wf(
                move_spec(turn_spec(input_spec(w0, input, dt as int), dt as int), dt as int),
                dt as int,
            );
        }
        let jit = self.shake_step(dt);
        proof {
            lemma_shake_wf(
                timer_spec(
                    move_spec(turn_spec(input_spec(w0, input, dt as int), dt as int), dt as int),
                    dt as int,
                ),
                dt as int,
                jit@.0,
                jit@.1,
            );
        }
        let ghost mid = self@;
        let frags = self.laser_step();
        proof {
            lemma_laser_wf(mid);
        }
        self.shipcol_step();
        let ghost afterv = self@;
        let fl = frags.len();
        let mut i: usize = 0;
        while i < fl
            invariant
                i <= fl,
                fl == frags@.len(),
                self@.cfg == afterv.cfg,
                self@.ship == afterv.ship,
                self@.projectiles == afterv.projectiles,
                self@.game == afterv.game,
                self@.asteroids == afterv.asteroids + frags@.map_values(|a: Asteroid| a@).take(
                    i as int,
                ),
            decreases fl - i,
        {
            proof {
                assert(frags@[i as int]@ == frags@.map_values(|a: Asteroid| a@)[i as int]);
            }
            let ghost pre = self@.asteroids;
            self.asteroids.push(frags[i]);
            proof {
                assert(self@.asteroids =~= pre.push(frags@[i as int]@));
                assert(frags@.map_values(|a: Asteroid| a@).take(i as int + 1) =~= frags@.map_values(
                    |a: Asteroid| a@,
                ).take(i as int).push(frags@[i as int]@));
                assert(self@.asteroids =~= afterv.asteroids + frags@.map_values(
                    |a: Asteroid| a@,
                ).take(i as int + 1));
                assert(self@ =~= (WorldV {
                    asteroids: afterv.asteroids + frags@.map_values(|a: Asteroid| a@).take(
                        i as int + 1,
                    ),
                    ..afterv
                }));
            }
            i = i + 1;
        }
        proof {
            let frv = frags@.map_values(|a: Asteroid| a@);
            assert(frv.take(fl as int) =~= frv);
            assert(self@ =~= (WorldV { asteroids: afterv.asteroids + frv, ..afterv }));
            assert(tick_rel(w0, input, dt as int, jit@.0, jit@.1, frv, self@));
            lemma_tick_wf(w0, input, dt as int, jit@.0, jit@.1, frv, self@);
            crate::laws::lemma_lives_monotone(w0, input, dt as int, jit@.0, jit@.1, frv, self@);
            crate::laws::lemma_score_reward(w0, input, dt as int, jit@.0, jit@.1, frv, self@);
        }
    }
}

} // verus!
