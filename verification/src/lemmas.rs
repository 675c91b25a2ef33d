//! Induction lemmas on the pipeline's recursive specifications, and the
//! proof that every stage preserves the session invariant.
use vstd::prelude::*;
use crate::angles::lemma_turned_in_range;
use crate::model::AsteroidV;
use crate::model::JITTER_MU;
use crate::model::ProjectileV;
use crate::model::ShipV;
use crate::model::TIME_LIMIT;
use crate::model::WorldV;
use crate::model::Input;
use crate::steps::count_true;
use crate::steps::fragments_ok;
use crate::steps::hit_count;
use crate::steps::input_spec;
use crate::steps::keep;
use crate::steps::laser_spec;
use crate::steps::marks;
use crate::steps::marks_upto;
use crate::steps::move_spec;
use crate::steps::pre_collision;
use crate::steps::shake_spec;
use crate::steps::shipcol_spec;
use crate::steps::tick_rel;
use crate::steps::timer_spec;
use crate::steps::ttl_filter;
use crate::steps::turn_spec;

verus! {

/// A mark vector has between zero and all of its entries set.
pub proof fn lemma_count_true_bounds(d: Seq<bool>)
    ensures
        0 <= count_true(d) <= d.len(),
    decreases d.len(),
{
    if d.len() > 0 {
        lemma_count_true_bounds(d.drop_last());
    }
}

/// Keeping the unmarked elements removes exactly the marked ones.
pub proof fn lemma_keep_len<T>(s: Seq<T>, dead: Seq<bool>)
    requires
        dead.len() == s.len(),
    ensures
        keep(s, dead).len() == s.len() - count_true(dead),
    decreases s.len(),
{
    lemma_count_true_bounds(dead);
    if s.len() > 0 {
        lemma_keep_len(s.drop_last(), dead.drop_last());
    }
}

/// Every kept asteroid was already in the sequence, so keeping preserves
/// well-formedness.
pub proof fn lemma_keep_asteroids_wf(az: Seq<AsteroidV>, dead: Seq<bool>)
    requires
        dead.len() == az.len(),
        forall|j: int| 0 <= j < az.len() ==> (#[trigger] az[j]).wf(),
    ensures
        forall|j: int| 0 <= j < keep(az, dead).len() ==> (#[trigger] keep(az, dead)[j]).wf(),
    decreases az.len(),
{
    if az.len() > 0 {
        lemma_keep_asteroids_wf(az.drop_last(), dead.drop_last());
        let rest = keep(az.drop_last(), dead.drop_last());
        assert(az[az.len() - 1].wf());
        assert forall|j: int|
            0 <= j < keep(az, dead).len() implies (#[trigger] keep(az, dead)[j]).wf() by {
            if !dead[az.len() - 1] && j == keep(az, dead).len() - 1 {
                assert(keep(az, dead)[j] == az.last());
            } else {
                assert(keep(az, dead)[j] == rest[j]);
            }
        }
    }
}

/// Every kept projectile was already in the sequence, so keeping preserves
/// well-formedness.
pub proof fn lemma_keep_projectiles_wf(ps: Seq<ProjectileV>, dead: Seq<bool>)
    requires
        dead.len() == ps.len(),
        forall|j: int| 0 <= j < ps.len() ==> (#[trigger] ps[j]).wf(),
    ensures
        forall|j: int| 0 <= j < keep(ps, dead).len() ==> (#[trigger] keep(ps, dead)[j]).wf(),
    decreases ps.len(),
{
    if ps.len() > 0 {
        lemma_keep_projectiles_wf(ps.drop_last(), dead.drop_last());
        let rest = keep(ps.drop_last(), dead.drop_last());
        assert(ps[ps.len() - 1].wf());
        assert forall|j: int|
            0 <= j < keep(ps, dead).len() implies (#[trigger] keep(ps, dead)[j]).wf() by {
            if !dead[ps.len() - 1] && j == keep(ps, dead).len() - 1 {
                assert(keep(ps, dead)[j] == ps.last());
            } else {
                assert(keep(ps, dead)[j] == rest[j]);
            }
        }
    }
}

/// Both mark vectors of the pair pass cover their sequences exactly.
pub proof fn lemma_marks_upto_len(
    ps: Seq<ProjectileV>,
    az: Seq<AsteroidV>,
    threshold_sq: int,
    k: nat,
)
    ensures
        marks_upto(ps, az, threshold_sq, k).0.len() == ps.len(),
        marks_upto(ps, az, threshold_sq, k).1.len() == az.len(),
    decreases k,
{
    if k > 0 {
        lemma_marks_upto_len(ps, az, threshold_sq, (k - 1) as nat);
    }
}

/// The whole pass's mark vectors cover their sequences exactly.
pub proof fn lemma_marks_len(ps: Seq<ProjectileV>, az: Seq<AsteroidV>, threshold_sq: int)
    ensures
        marks(ps, az, threshold_sq).0.len() == ps.len(),
        marks(ps, az, threshold_sq).1.len() == az.len(),
{
    lemma_marks_upto_len(ps, az, threshold_sq, (ps.len() * az.len()) as nat);
}

/// Decayed projectiles that survive are still well formed, and no new
/// ones appear.
pub proof fn lemma_ttl_filter_wf(ps: Seq<ProjectileV>, dt: int)
    requires
        0 <= dt,
        forall|j: int| 0 <= j < ps.len() ==> (#[trigger] ps[j]).wf(),
    ensures
        ttl_filter(ps, dt).len() <= ps.len(),
        forall|j: int|
            0 <= j < ttl_filter(ps, dt).len() ==> (#[trigger] ttl_filter(ps, dt)[j]).wf(),
    decreases ps.len(),
{
    if ps.len() > 0 {
        lemma_ttl_filter_wf(ps.drop_last(), dt);
        assert(ps.last().wf());
    }
}

/// A fragment spawn consists of well-formed asteroids.
pub proof fn lemma_fragments_wf(az: Seq<AsteroidV>, dead: Seq<bool>, fr: Seq<AsteroidV>)
    requires
        fragments_ok(az, dead, fr),
        forall|j: int| 0 <= j < az.len() ==> (#[trigger] az[j]).wf(),
    ensures
        forall|j: int| 0 <= j < fr.len() ==> (#[trigger] fr[j]).wf(),
    decreases az.len(),
{
    if az.len() == 0 {
    } else {
        let n = az.len() as int;
        if dead[n - 1] && az[n - 1].divisible {
            let head = fr.take(fr.len() - crate::model::FRAGMENT_COUNT);
            lemma_fragments_wf(az.drop_last(), dead.drop_last(), head);
            assert(az[n - 1].wf());
            assert forall|j: int| 0 <= j < fr.len() implies (#[trigger] fr[j]).wf() by {
                if j < fr.len() - crate::model::FRAGMENT_COUNT {
                    assert(fr[j] == head[j]);
                } else {
                    assert(crate::steps::is_fragment_of(az[n - 1], fr[j]));
                }
            }
        } else {
            lemma_fragments_wf(az.drop_last(), dead.drop_last(), fr);
        }
    }
}

/// The ship can be hit at most once per asteroid in a tick.
pub proof fn lemma_hit_count_bounds(ship: ShipV, az: Seq<AsteroidV>, threshold_sq: int)
    ensures
        0 <= hit_count(ship, az, threshold_sq) <= az.len(),
    decreases az.len(),
{
    if az.len() > 0 {
        lemma_hit_count_bounds(ship, az.drop_last(), threshold_sq);
    }
}

/// Input mapping keeps the session invariant.
pub proof fn lemma_input_wf(w: WorldV, inp: Input, dt: int)
    requires
        w.wf(),
        0 <= dt <= TIME_LIMIT,
    ensures
        input_spec(w, inp, dt).wf(),
{
    if !w.ship.invulnerable {
        vstd::arithmetic::div_mod::lemma_div_pos_is_pos(crate::model::THRUST_MU * dt, 1000);
        vstd::arithmetic::div_mod::lemma_div_pos_is_pos(crate::model::FRICTION_MU * dt, 1000);
    }
}

/// Turning keeps the session invariant.
pub proof fn lemma_turn_wf(w: WorldV, dt: int)
    requires
        w.wf(),
        0 <= dt,
    ensures
        turn_spec(w, dt).wf(),
{
    lemma_turned_in_range(w.ship.orient, w.ship.turn_rate, dt);
}

/// Motion with wraparound keeps the session invariant: a wrapped
/// coordinate always lands on or between the bounds.
pub proof fn lemma_move_wf(w: WorldV, dt: int)
    requires
        w.wf(),
        0 <= dt,
    ensures
        move_spec(w, dt).wf(),
{
    let r = move_spec(w, dt);
    assert forall|j: int| 0 <= j < r.asteroids.len() implies (#[trigger] r.asteroids[j]).wf() by {
        assert(w.asteroids[j].wf());
    }
    assert forall|j: int|
        0 <= j < r.projectiles.len() implies (#[trigger] r.projectiles[j]).wf() by {
        assert(w.projectiles[j].wf());
    }
}

/// Timer decrement keeps the session invariant; in particular the live
/// counter still mirrors the projectile count.
pub proof fn lemma_timer_wf(w: WorldV, dt: int)
    requires
        w.wf(),
        0 <= dt,
    ensures
        timer_spec(w, dt).wf(),
{
    lemma_ttl_filter_wf(w.projectiles, dt);
}

/// The invulnerability machine keeps the session invariant.
pub proof fn lemma_shake_wf(w: WorldV, dt: int, jx: int, jz: int)
    requires
        w.wf(),
        0 <= dt,
        0 <= jx < JITTER_MU,
        0 <= jz < JITTER_MU,
    ensures
        shake_spec(w, dt, jx, jz).wf(),
{
}

/// Resolution of the projectile pass keeps the session invariant.
pub proof fn lemma_laser_wf(w: WorldV)
    requires
        w.wf(),
    ensures
        laser_spec(w).wf(),
{
    let m = marks(w.projectiles, w.asteroids, w.cfg.threshold_sq());
    lemma_marks_len(w.projectiles, w.asteroids, w.cfg.threshold_sq());
    lemma_count_true_bounds(m.0);
    lemma_count_true_bounds(m.1);
    lemma_keep_len(w.projectiles, m.0);
    lemma_keep_len(w.asteroids, m.1);
    lemma_keep_projectiles_wf(w.projectiles, m.0);
    lemma_keep_asteroids_wf(w.asteroids, m.1);
}

/// The ship pass keeps the session invariant.
pub proof fn lemma_shipcol_wf(w: WorldV)
    requires
        w.wf(),
    ensures
        shipcol_spec(w).wf(),
{
    lemma_hit_count_bounds(w.ship, w.asteroids, w.cfg.threshold_sq());
}

/// A whole tick keeps the session invariant.
pub proof fn lemma_tick_wf(
    w0: WorldV,
    inp: Input,
    dt: int,
    jx: int,
    jz: int,
    fr: Seq<AsteroidV>,
    w1: WorldV,
)
    requires
        w0.wf(),
        0 <= dt <= TIME_LIMIT,
        tick_rel(w0, inp, dt, jx, jz, fr, w1),
    ensures
        w1.wf(),
{
    let wa = input_spec(w0, inp, dt);
    lemma_input_wf(w0, inp, dt);
    let wb = turn_spec(wa, dt);
    lemma_turn_wf(wa, dt);
    let wc = move_spec(wb, dt);
    lemma_move_wf(wb, dt);
    let wd = timer_spec(wc, dt);
    lemma_timer_wf(wc, dt);
    let mid = shake_spec(wd, dt, jx, jz);
    lemma_shake_wf(wd, dt, jx, jz);
    assert(mid == pre_collision(w0, inp, dt, jx, jz));
    let we = laser_spec(mid);
    lemma_laser_wf(mid);
    let after = shipcol_spec(we);
    lemma_shipcol_wf(we);
    let m = marks(mid.projectiles, mid.asteroids, mid.cfg.threshold_sq());
    lemma_fragments_wf(mid.asteroids, m.1, fr);
    assert forall|j: int| 0 <= j < w1.asteroids.len() implies (#[trigger] w1.asteroids[j]).wf() by {
        if j < after.asteroids.len() {
            assert(w1.asteroids[j] == after.asteroids[j]);
        } else {
            assert(w1.asteroids[j] == fr[j - after.asteroids.len()]);
        }
    }
}

} // verus!
