//! The laws of the simulation, each proved once and for all over the tick
//! specification: what every tick does to lives, score, the projectile
//! counter and the asteroid population, and how wraparound behaves at a
//! boundary.
use vstd::prelude::*;
use crate::lemmas::lemma_count_true_bounds;
use crate::lemmas::lemma_hit_count_bounds;
use crate::model::AsteroidV;
use crate::model::FRAGMENT_COUNT;
use crate::model::Input;
use crate::model::REWARD;
use crate::model::WorldV;
use crate::steps::count_true;
use crate::steps::divisible_destroyed;
use crate::steps::fragments_ok;
use crate::steps::is_fragment_of;
use crate::steps::laser_spec;
use crate::steps::marks;
use crate::steps::pre_collision;
use crate::steps::sat64;
use crate::steps::tick_rel;
use crate::steps::wrap;

verus! {

/// Lives never increase over a tick, and an invulnerable ship whose
/// countdown does not run out this tick loses none: damage is taken only
/// while vulnerable.
pub proof fn lemma_lives_monotone(
    w0: WorldV,
    inp: Input,
    dt: int,
    jx: int,
    jz: int,
    fr: Seq<AsteroidV>,
    w1: WorldV,
)
    requires
        w0.wf(),
        0 <= dt,
        tick_rel(w0, inp, dt, jx, jz, fr, w1),
    ensures
        w1.game.lives <= w0.game.lives,
        w0.ship.invulnerable && w0.ship.invulnerability_left - dt >= 0 ==> w1.game.lives
            == w0.game.lives,
        w1.game.lives < w0.game.lives ==> !laser_spec(
            pre_collision(w0, inp, dt, jx, jz),
        ).ship.invulnerable,
{
    let mid = pre_collision(w0, inp, dt, jx, jz);
    let we = laser_spec(mid);
    lemma_hit_count_bounds(we.ship, we.asteroids, we.cfg.threshold_sq());
}

/// The score of a tick: exactly the fixed reward for each asteroid the
/// projectile pass destroyed, nothing else — so it never decreases.
pub proof fn lemma_score_reward(
    w0: WorldV,
    inp: Input,
    dt: int,
    jx: int,
    jz: int,
    fr: Seq<AsteroidV>,
    w1: WorldV,
)
    requires
        w0.wf(),
        0 <= dt,
        tick_rel(w0, inp, dt, jx, jz, fr, w1),
    ensures
        w1.game.score == sat64(
            w0.game.score + REWARD * count_true(
                marks(
                    pre_collision(w0, inp, dt, jx, jz).projectiles,
                    pre_collision(w0, inp, dt, jx, jz).asteroids,
                    w0.cfg.threshold_sq(),
                ).1,
            ),
        ),
        w1.game.score >= w0.game.score,
{
    let mid = pre_collision(w0, inp, dt, jx, jz);
    let m = marks(mid.projectiles, mid.asteroids, mid.cfg.threshold_sq());
    lemma_count_true_bounds(m.1);
}

/// The projectile counter always mirrors the number of live projectiles
/// and never exceeds the cap by more than the allowed transient one, nor
/// goes negative.
pub proof fn lemma_projectile_counter(w: WorldV)
    requires
        w.wf(),
    ensures
        w.game.projectile_count == w.projectiles.len(),
        0 <= w.game.projectile_count <= w.cfg.cap + 1,
{
}

/// The cap is checked before the counter is bumped, so a vulnerable ship
/// that fires spawns a projectile exactly when the counter is at or below
/// the cap — the counter can reach one past the cap, and no further.
pub proof fn lemma_fire_cap(w: WorldV, inp: Input, dt: int)
    requires
        w.wf(),
        0 <= dt,
        !w.ship.invulnerable,
        inp.fire_pressed,
    ensures
        w.game.projectile_count <= w.cfg.cap ==> crate::steps::input_spec(
            w,
            inp,
            dt,
        ).projectiles.len() == w.projectiles.len() + 1,
        w.game.projectile_count > w.cfg.cap ==> crate::steps::input_spec(
            w,
            inp,
            dt,
        ).projectiles.len() == w.projectiles.len(),
        crate::steps::input_spec(w, inp, dt).game.projectile_count <= w.cfg.cap + 1,
{
}

/// A fragment spawn holds exactly `FRAGMENT_COUNT` fragments for each
/// destroyed divisible asteroid and none for any other, and every
/// fragment sits at the former position of a destroyed divisible parent,
/// itself not divisible.
pub proof fn lemma_fragment_spawn(az: Seq<AsteroidV>, dead: Seq<bool>, fr: Seq<AsteroidV>)
    requires
        dead.len() == az.len(),
        fragments_ok(az, dead, fr),
    ensures
        fr.len() == FRAGMENT_COUNT * divisible_destroyed(az, dead),
        forall|i: int|
            0 <= i < fr.len() ==> exists|j: int|
                0 <= j < az.len() && dead[j] && az[j].divisible && is_fragment_of(
                    az[j],
                    #[trigger] fr[i],
                ),
    decreases az.len(),
{
    if az.len() == 0 {
    } else {
        let n = az.len() as int;
        if dead[n - 1] && az[n - 1].divisible {
            let head = fr.take(fr.len() - FRAGMENT_COUNT);
            lemma_fragment_spawn(az.drop_last(), dead.drop_last(), head);
            assert(FRAGMENT_COUNT * divisible_destroyed(az, dead) == FRAGMENT_COUNT
                * divisible_destroyed(az.drop_last(), dead.drop_last()) + FRAGMENT_COUNT) by {
                vstd::arithmetic::mul::lemma_mul_is_distributive_add(
                    FRAGMENT_COUNT as int,
                    divisible_destroyed(az.drop_last(), dead.drop_last()),
                    1,
                );
            }
            assert forall|i: int| 0 <= i < fr.len() implies exists|j: int|
                0 <= j < az.len() && dead[j] && az[j].divisible && is_fragment_of(
                    az[j],
                    #[trigger] fr[i],
                ) by {
                if i < fr.len() - FRAGMENT_COUNT {
                    assert(fr[i] == head[i]);
                    let j = choose|j: int|
                        0 <= j < az.drop_last().len() && dead.drop_last()[j]
                            && az.drop_last()[j].divisible && is_fragment_of(
                            az.drop_last()[j],
                            head[i],
                        );
                    assert(az.drop_last()[j] == az[j]);
                    assert(0 <= j < az.len() && dead[j] && az[j].divisible && is_fragment_of(
                        az[j],
                        fr[i],
                    ));
                } else {
                    assert(is_fragment_of(az[n - 1], fr[i]));
                    assert(0 <= n - 1 < az.len() && dead[n - 1] && az[n - 1].divisible
                        && is_fragment_of(az[n - 1], fr[i]));
                }
            }
        } else {
            lemma_fragment_spawn(az.drop_last(), dead.drop_last(), fr);
            assert forall|i: int| 0 <= i < fr.len() implies exists|j: int|
                0 <= j < az.len() && dead[j] && az[j].divisible && is_fragment_of(
                    az[j],
                    #[trigger] fr[i],
                ) by {
                let j = choose|j: int|
                    0 <= j < az.drop_last().len() && dead.drop_last()[j]
                        && az.drop_last()[j].divisible && is_fragment_of(
                        az.drop_last()[j],
                        fr[i],
                    );
                assert(az.drop_last()[j] == az[j]);
                assert(0 <= j < az.len() && dead[j] && az[j].divisible && is_fragment_of(
                    az[j],
                    fr[i],
                ));
            }
        }
    }
}

/// Wraparound is idempotent: one application lands on or between the
/// bounds, and a second application changes nothing — a coordinate past a
/// bound teleports to the opposite bound exactly once, without
/// oscillating.
pub proof fn lemma_wrap_idempotent(v: int, lo: int, hi: int)
    requires
        lo < hi,
    ensures
        lo <= wrap(v, lo, hi) <= hi,
        wrap(wrap(v, lo, hi), lo, hi) == wrap(v, lo, hi),
        v > hi ==> wrap(v, lo, hi) == lo,
        v < lo ==> wrap(v, lo, hi) == hi,
{
}

} // verus!
