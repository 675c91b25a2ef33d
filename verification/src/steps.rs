//! The per-tick pipeline as mathematics: one specification function per
//! stage, composed in the mandated order — input mapping, turning, motion
//! with wraparound, projectile timers, the invulnerability machine, the
//! projectile-versus-asteroid pass and the ship-versus-asteroid pass, with
//! fragments of destroyed asteroids joining the world only after both
//! collision passes.
use vstd::prelude::*;
use crate::angles::TAU_MR;
use crate::angles::sin_milli;
use crate::angles::cos_milli;
use crate::angles::turned;
use crate::model::ASTEROID_SPEED;
use crate::model::AsteroidV;
use crate::model::ConfigV;
use crate::model::FRAGMENT_COUNT;
use crate::model::FRICTION_MU;
use crate::model::GameV;
use crate::model::Input;
use crate::model::JITTER_MU;
use crate::model::PROJECTILE_SPEED;
use crate::model::PROJECTILE_TTL_MS;
use crate::model::ProjectileV;
use crate::model::REWARD;
use crate::model::ShipV;
use crate::model::THRUST_MU;
use crate::model::TURN_RATE_MR;
use crate::model::WorldV;

verus! {

/// Clamps a mathematical integer into the machine's 64-bit range.
pub open spec fn sat64(v: int) -> int {
    if v > i64::MAX {
        i64::MAX as int
    } else if v < i64::MIN {
        i64::MIN as int
    } else {
        v
    }
}

/// Displacement along one axis: a trigonometric component scaled by 1000,
/// times a speed in milli-units per second, times milliseconds, brought
/// back to milli-units. The division truncates toward zero, as the
/// magnitudes are divided.
pub open spec fn scaled_disp(trig: int, speed: int, dt: int) -> int {
    if trig >= 0 {
        trig * speed * dt / 1000000
    } else {
        -((-trig) * speed * dt / 1000000)
    }
}

/// Teleport wraparound: a coordinate strictly past a bound reappears at
/// the opposite bound; velocity is untouched.
pub open spec fn wrap(v: int, lo: int, hi: int) -> int {
    if v < lo {
        hi
    } else if v > hi {
        lo
    } else {
        v
    }
}

/// New x coordinate of an entity after one tick of drift and wraparound.
/// The sign convention moves positive speed along the positive sine of
/// the orientation (the negated forward vector of the rendered model).
pub open spec fn moved_x(x: int, orient: int, speed: int, dt: int, cfg: ConfigV) -> int {
    wrap(x + scaled_disp(sin_milli(orient), speed, dt), cfg.x_min, cfg.x_max)
}

/// New z coordinate of an entity after one tick of drift and wraparound.
pub open spec fn moved_z(z: int, orient: int, speed: int, dt: int, cfg: ConfigV) -> int {
    wrap(z + scaled_disp(cos_milli(orient), speed, dt), cfg.z_min, cfg.z_max)
}

/// Input mapping. A held turn key sets the turn rate outright; thrust
/// accelerates while coasting decays under friction, clamped at zero; a
/// fire edge under the cap spawns a projectile at the ship and bumps the
/// live counter. An invulnerable ship ignores input entirely.
pub open spec fn input_spec(w: WorldV, inp: Input, dt: int) -> WorldV {
    if w.ship.invulnerable {
        w
    } else {
        let tr: int = if inp.turn_left {
            TURN_RATE_MR as int
        } else if inp.turn_right {
            -TURN_RATE_MR as int
        } else {
            0
        };
        let sp: int = if inp.thrust {
            sat64(w.ship.speed + THRUST_MU * dt / 1000)
        } else if w.ship.speed > 0 {
            if w.ship.speed - FRICTION_MU * dt / 1000 > 0 {
                w.ship.speed - FRICTION_MU * dt / 1000
            } else {
                0
            }
        } else {
            0
        };
        let ship = ShipV { turn_rate: tr, speed: sp, ..w.ship };
        if inp.fire_pressed && w.game.projectile_count <= w.cfg.cap {
            WorldV {
                ship,
                projectiles: w.projectiles.push(
                    ProjectileV {
                        x: w.ship.x,
                        z: w.ship.z,
                        orient: w.ship.orient,
                        speed: PROJECTILE_SPEED as int,
                        ttl: PROJECTILE_TTL_MS as int,
                    },
                ),
                game: GameV { projectile_count: w.game.projectile_count + 1, ..w.game },
                ..w
            }
        } else {
            WorldV { ship, ..w }
        }
    }
}

/// Turning: only the ship has a turn rate; asteroids and projectiles keep
/// their initial heading.
pub open spec fn turn_spec(w: WorldV, dt: int) -> WorldV {
    WorldV {
        ship: ShipV { orient: turned(w.ship.orient, w.ship.turn_rate, dt), ..w.ship },
        ..w
    }
}

/// Motion integration with wraparound for every entity.
pub open spec fn move_spec(w: WorldV, dt: int) -> WorldV {
    WorldV {
        ship: ShipV {
            x: moved_x(w.ship.x, w.ship.orient, w.ship.speed, dt, w.cfg),
            z: moved_z(w.ship.z, w.ship.orient, w.ship.speed, dt, w.cfg),
            ..w.ship
        },
        asteroids: w.asteroids.map_values(
            |a: AsteroidV| AsteroidV {
                x: moved_x(a.x, a.orient, a.speed, dt, w.cfg),
                z: moved_z(a.z, a.orient, a.speed, dt, w.cfg),
                ..a
            },
        ),
        projectiles: w.projectiles.map_values(
            |p: ProjectileV| ProjectileV {
                x: moved_x(p.x, p.orient, p.speed, dt, w.cfg),
                z: moved_z(p.z, p.orient, p.speed, dt, w.cfg),
                ..p
            },
        ),
        ..w
    }
}

/// Projectiles after one tick of time-to-live decay: each loses `dt`, and
/// one that drops below zero is removed.
pub open spec fn ttl_filter(ps: Seq<ProjectileV>, dt: int) -> Seq<ProjectileV>
    decreases ps.len(),
{
    if ps.len() == 0 {
        Seq::empty()
    } else {
        let rest = ttl_filter(ps.drop_last(), dt);
        let q = ProjectileV { ttl: ps.last().ttl - dt, ..ps.last() };
        if q.ttl < 0 {
            rest
        } else {
            rest.push(q)
        }
    }
}

/// Timer decrement: expired projectiles leave, and the live counter drops
/// by exactly the number removed.
pub open spec fn timer_spec(w: WorldV, dt: int) -> WorldV {
    let kept = ttl_filter(w.projectiles, dt);
    WorldV {
        projectiles: kept,
        game: GameV {
            projectile_count: w.game.projectile_count - (w.projectiles.len() - kept.len()),
            ..w.game
        },
        ..w
    }
}

/// The invulnerability machine. While invulnerable the countdown loses
/// `dt`; if it stays non-negative the ship's position is overwritten by a
/// small random jitter near the origin, otherwise the ship turns
/// vulnerable with the countdown clamped to zero.
pub open spec fn shake_spec(w: WorldV, dt: int, jx: int, jz: int) -> WorldV {
    if !w.ship.invulnerable {
        w
    } else {
        let t = w.ship.invulnerability_left - dt;
        if t < 0 {
            WorldV {
                ship: ShipV { invulnerable: false, invulnerability_left: 0, ..w.ship },
                ..w
            }
        } else {
            WorldV {
                ship: ShipV { invulnerability_left: t, x: jx, z: jz, ..w.ship },
                ..w
            }
        }
    }
}

/// Strict Euclidean proximity, compared on squares.
pub open spec fn close(ax: int, az: int, bx: int, bz: int, threshold_sq: int) -> bool {
    (ax - bx) * (ax - bx) + (az - bz) * (az - bz) < threshold_sq
}

/// The projectile-versus-asteroid pass walks all pairs in order — each
/// projectile in turn against each asteroid — over a pre-pass snapshot:
/// a pair collides only if neither member is already marked destroyed, so
/// a projectile destroys at most one asteroid. `marks_upto` gives both
/// mark vectors after the first `k` pairs.
pub open spec fn marks_upto(
    ps: Seq<ProjectileV>,
    az: Seq<AsteroidV>,
    threshold_sq: int,
    k: nat,
) -> (Seq<bool>, Seq<bool>)
    decreases k,
{
    if k == 0 {
        (Seq::new(ps.len(), |i: int| false), Seq::new(az.len(), |i: int| false))
    } else {
        let prev = marks_upto(ps, az, threshold_sq, (k - 1) as nat);
        let i = (k - 1) as int / az.len() as int;
        let j = (k - 1) as int % az.len() as int;
        if 0 <= i < ps.len() && 0 <= j < az.len() && !prev.0[i] && !prev.1[j] && close(
            ps[i].x,
            ps[i].z,
            az[j].x,
            az[j].z,
            threshold_sq,
        ) {
            (prev.0.update(i, true), prev.1.update(j, true))
        } else {
            prev
        }
    }
}

/// The destruction marks of the whole projectile-versus-asteroid pass.
pub open spec fn marks(ps: Seq<ProjectileV>, az: Seq<AsteroidV>, threshold_sq: int) -> (
    Seq<bool>,
    Seq<bool>,
) {
    marks_upto(ps, az, threshold_sq, (ps.len() * az.len()) as nat)
}

/// How many entries of a mark vector are set.
pub open spec fn count_true(d: Seq<bool>) -> int
    decreases d.len(),
{
    if d.len() == 0 {
        0
    } else {
        count_true(d.drop_last()) + if d.last() {
            1int
        } else {
            0int
        }
    }
}

/// The elements not marked destroyed, order preserved.
pub open spec fn keep<T>(s: Seq<T>, dead: Seq<bool>) -> Seq<T>
    decreases s.len(),
{
    if s.len() == 0 {
        Seq::empty()
    } else {
        let rest = keep(s.drop_last(), dead.drop_last());
        if dead[s.len() - 1] {
            rest
        } else {
            rest.push(s.last())
        }
    }
}

/// Resolution of the projectile pass: marked projectiles and asteroids
/// leave at the end of the pass, the live counter drops with the
/// projectiles, and each destroyed asteroid is worth a fixed reward.
/// Fragments are spawned separately, after the ship pass.
pub open spec fn laser_spec(w: WorldV) -> WorldV {
    let m = marks(w.projectiles, w.asteroids, w.cfg.threshold_sq());
    WorldV {
        projectiles: keep(w.projectiles, m.0),
        asteroids: keep(w.asteroids, m.1),
        game: GameV {
            score: sat64(w.game.score + REWARD * count_true(m.1)),
            projectile_count: w.game.projectile_count - count_true(m.0),
            ..w.game
        },
        ..w
    }
}

/// A fragment sits at its parent's former position, drifts at the common
/// asteroid speed with some heading, and never splits again.
pub open spec fn is_fragment_of(parent: AsteroidV, f: AsteroidV) -> bool {
    &&& f.x == parent.x
    &&& f.z == parent.z
    &&& !f.divisible
    &&& f.speed == ASTEROID_SPEED
    &&& 0 <= f.orient < TAU_MR
}

/// `fr` is exactly the fragment spawn of the pass whose destruction marks
/// are `dead`: each destroyed divisible asteroid contributes exactly
/// `FRAGMENT_COUNT` fragments at its former position, in asteroid order,
/// and nothing else contributes any.
pub open spec fn fragments_ok(az: Seq<AsteroidV>, dead: Seq<bool>, fr: Seq<AsteroidV>) -> bool
    decreases az.len(),
{
    if az.len() == 0 {
        fr.len() == 0
    } else {
        let n = az.len() as int;
        if dead[n - 1] && az[n - 1].divisible {
            &&& fr.len() >= FRAGMENT_COUNT
            &&& fragments_ok(
                az.drop_last(),
                dead.drop_last(),
                fr.take(fr.len() - FRAGMENT_COUNT),
            )
            &&& forall|i: int|
                fr.len() - FRAGMENT_COUNT <= i < fr.len() ==> is_fragment_of(
                    az[n - 1],
                    #[trigger] fr[i],
                )
        } else {
            fragments_ok(az.drop_last(), dead.drop_last(), fr)
        }
    }
}

/// How many marked asteroids were divisible: each of them, and only they,
/// spawn fragments.
pub open spec fn divisible_destroyed(az: Seq<AsteroidV>, dead: Seq<bool>) -> int
    decreases az.len(),
{
    if az.len() == 0 {
        0
    } else {
        divisible_destroyed(az.drop_last(), dead.drop_last()) + if dead[az.len() - 1]
            && az[az.len() - 1].divisible {
            1int
        } else {
            0int
        }
    }
}

/// How many asteroids within reach of the ship this tick.
pub open spec fn hit_count(ship: ShipV, az: Seq<AsteroidV>, threshold_sq: int) -> int
    decreases az.len(),
{
    if az.len() == 0 {
        0
    } else {
        hit_count(ship, az.drop_last(), threshold_sq) + if close(
            ship.x,
            ship.z,
            az.last().x,
            az.last().z,
            threshold_sq,
        ) {
            1int
        } else {
            0int
        }
    }
}

/// The ship-versus-asteroid pass, evaluated only while vulnerable, over
/// the asteroids that survived the projectile pass. Every asteroid in
/// reach independently costs a life; any hit makes the ship invulnerable
/// with a fresh countdown.
pub open spec fn shipcol_spec(w: WorldV) -> WorldV {
    if w.ship.invulnerable {
        w
    } else {
        let h = hit_count(w.ship, w.asteroids, w.cfg.threshold_sq());
        if h > 0 {
            WorldV {
                ship: ShipV {
                    invulnerable: true,
                    invulnerability_left: w.cfg.invulnerability_ms,
                    ..w.ship
                },
                game: GameV { lives: sat64(w.game.lives - h), ..w.game },
                ..w
            }
        } else {
            w
        }
    }
}

/// The world as both collision passes see it: after input mapping,
/// turning, motion, projectile timers and the invulnerability machine.
pub open spec fn pre_collision(w: WorldV, inp: Input, dt: int, jx: int, jz: int) -> WorldV {
    shake_spec(timer_spec(move_spec(turn_spec(input_spec(w, inp, dt), dt), dt), dt), dt, jx, jz)
}

/// One whole tick relates `w0` to `w1` with jitter `(jx, jz)` and
/// fragment spawn `fr`: the pipeline runs in its mandated order, the
/// projectile pass resolves before the ship pass, and fragments join the
/// world only after the ship pass — so a destroyed asteroid cannot hit
/// the ship in the same tick, and neither can its fragments.
pub open spec fn tick_rel(
    w0: WorldV,
    inp: Input,
    dt: int,
    jx: int,
    jz: int,
    fr: Seq<AsteroidV>,
    w1: WorldV,
) -> bool {
    let mid = pre_collision(w0, inp, dt, jx, jz);
    let after = shipcol_spec(laser_spec(mid));
    &&& 0 <= jx < JITTER_MU
    &&& 0 <= jz < JITTER_MU
    &&& fragments_ok(mid.asteroids, marks(mid.projectiles, mid.asteroids, mid.cfg.threshold_sq()).1, fr)
    &&& w1 == WorldV { asteroids: after.asteroids + fr, ..after }
}

} // verus!
