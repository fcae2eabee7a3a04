//! What a pet does over several calls.
//!
//! The simulation promises that a pet checked on after a long blackout ends up
//! exactly where it would have been had it been watched the whole time. The
//! proofs here state that promise over [`PetModel::advanced`], together with
//! the facts about the clocks and counts it rests on, and the other promises
//! that span several calls: advancing twice to one age charges nothing twice,
//! a scolding lands once per call, meters only fall and droppings only pile up
//! while nobody acts, a death is dated at the earliest fatal miss, sweeping
//! early never delays the next dropping, and how a generation stands always
//! agrees with its count of misses.

use vstd::prelude::*;

use crate::pet::{
    first_age, is_first, lemma_advance_moves_forward, lemma_first_age, lemma_overdue_monotone,
    lemma_poop_clock_monotone, lemma_total_misses_monotone, min_int, poop_reached_from,
    spec_new_pet, spec_overdue, spec_poop_clock, Outcome, PetModel, Refusal, Stage,
    CARE_MISS_LIMIT, DISCIPLINE_MAX, LIFESPAN_MS, METER_MAX, POOP_MAX, POOP_PERIOD_MS, SICK_POOP,
    STAGE_ADULT_MS, STAGE_BABY_MS, STAGE_TEEN_MS, WEIGHT_MAX, WEIGHT_MIN,
};
use crate::time::{lemma_awake_ms_monotone, sat_sub, spec_awake_ms};

verus! {

/// Two pets that agree on everything but what has been charged against them:
/// the care-miss count, each source's credited misses, and the scolding flag.
pub open spec fn same_but_charges(x: PetModel, y: PetModel) -> bool {
    PetModel {
        care_miss: 0,
        hunger_misses: 0,
        mood_misses: 0,
        sick_misses: 0,
        scolded_this_alert: false,
        ..x
    } == PetModel {
        care_miss: 0,
        hunger_misses: 0,
        mood_misses: 0,
        sick_misses: 0,
        scolded_this_alert: false,
        ..y
    }
}

/// Two pets that agree on everything but the scolding flag.
pub open spec fn same_but_scolding(x: PetModel, y: PetModel) -> bool {
    PetModel { scolded_this_alert: false, ..x } == PetModel { scolded_this_alert: false, ..y }
}

/// Two pets that agree but for their charges, would count the same misses at
/// every age from `from` on, and are both below the fatal count up to `from`.
pub open spec fn charged_alike(x: PetModel, y: PetModel, from: u64) -> bool {
    &&& same_but_charges(x, y)
    &&& forall|t: u64|
        #![trigger x.total_misses_at(t)]
        #![trigger y.total_misses_at(t)]
        from <= t ==> x.total_misses_at(t) == y.total_misses_at(t)
    &&& forall|t: u64|
        #![trigger x.total_misses_at(t)]
        #![trigger y.total_misses_at(t)]
        t <= from ==> x.total_misses_at(t) < CARE_MISS_LIMIT && y.total_misses_at(t)
            < CARE_MISS_LIMIT
}

/// The first age at which something holds does not depend on how far past it
/// one looks.
proof fn lemma_first_age_stable(h1: u64, h2: u64, p: spec_fn(u64) -> bool)
    requires
        p(h1),
        p(h2),
        h1 <= h2,
    ensures
        first_age(h1, p) == first_age(h2, p),
{
    lemma_first_age(h1, p, 0);
    let f = first_age(h1, p);
    lemma_first_age(h2, p, f);
}

/// While the awake clock stands still, so does the poop clock.
proof fn lemma_poop_clock_stalls(x: u64, y: u64)
    requires
        x <= y,
        spec_awake_ms(x) == spec_awake_ms(y),
    ensures
        spec_poop_clock(x) == spec_poop_clock(y),
{
    let bb = STAGE_BABY_MS;
    let tt = STAGE_TEEN_MS;
    let aa = STAGE_ADULT_MS;
    let ll = LIFESPAN_MS;
    lemma_awake_ms_monotone(x, y);
    if x < bb {
        lemma_awake_ms_monotone(x, bb);
    }
    if x < tt {
        lemma_awake_ms_monotone(x, tt);
    }
    if x < aa {
        lemma_awake_ms_monotone(x, aa);
    }
    if x < ll {
        lemma_awake_ms_monotone(x, ll);
    }
    if y > bb {
        lemma_awake_ms_monotone(bb, y);
    }
    if y > tt {
        lemma_awake_ms_monotone(tt, y);
    }
    if y > aa {
        lemma_awake_ms_monotone(aa, y);
    }
    if y > ll {
        lemma_awake_ms_monotone(ll, y);
    }
    if x <= bb && y > bb {
        lemma_awake_ms_monotone(x, bb);
        lemma_awake_ms_monotone(bb, y);
    }
}

/// Three droppings on the floor mean the poop clock has passed the third one.
proof fn lemma_poop_means_clock(m: PetModel)
    ensures
        m.poop() >= SICK_POOP <==> spec_poop_clock(m.age_ms) >= m.poop_cleaned_ms + SICK_POOP
            * POOP_PERIOD_MS,
{
    let x = sat_sub(spec_poop_clock(m.age_ms), m.poop_cleaned_ms as int);
    assert(x / 3_600_000 >= 3 <==> x >= 3 * 3_600_000) by (nonlinear_arith)
        requires
            x >= 0,
    ;
}

/// An illness that had not begun by age `alpha` begins at a strictly later
/// age and awake time, and looking for it from `alpha` on finds the same onset
/// as looking from any earlier `from`.
proof fn lemma_onset_after(from: u64, alpha: u64, beta: u64, target: int)
    requires
        from <= alpha <= beta,
        spec_poop_clock(alpha) < target,
        spec_poop_clock(beta) >= target,
    ensures
        first_age(beta, poop_reached_from(from, target)) > alpha,
        spec_awake_ms(first_age(beta, poop_reached_from(from, target))) > spec_awake_ms(alpha),
        spec_awake_ms(first_age(beta, poop_reached_from(from, target))) <= u64::MAX,
        first_age(beta, poop_reached_from(from, target)) == first_age(
            beta,
            poop_reached_from(alpha, target),
        ),
{
    let p = poop_reached_from(from, target);
    let q = poop_reached_from(alpha, target);
    lemma_first_age(beta, p, 0);
    let o = first_age(beta, p);
    if o <= alpha {
        lemma_poop_clock_monotone(o, alpha);
    }
    assert(o > alpha);
    let prev = (o - 1) as u64;
    assert(!p(prev));
    lemma_awake_ms_monotone(alpha, prev);
    lemma_awake_ms_monotone(prev, o);
    lemma_awake_ms_monotone(o, o);
    if spec_awake_ms(prev) == spec_awake_ms(o) {
        lemma_poop_clock_stalls(prev, o);
    }
    assert(is_first(q, o)) by {
        assert forall|b: u64| b < o implies !#[trigger] q(b) by {
            if alpha <= b {
                assert(!p(b));
            }
        }
    }
    lemma_first_age(beta, q, o);
}

/// Whatever source, misses telescope: those charged by `u` plus those run up
/// between `u` and `v` are those run up by `v`.
proof fn lemma_telescope(charged: int, u: int, v: int)
    requires
        charged <= u <= v,
    ensures
        sat_sub(u, charged) + sat_sub(v, u) == sat_sub(v, charged),
{
}

/// Pets charged alike die alike: at the same age, of the same cause, with the
/// same illness (if any), and the same count of misses at that age -- however
/// far back each looks for the fatal miss, as long as it is no further than
/// where they started to agree.
proof fn lemma_death_alike(x: PetModel, y: PetModel, from: u64, fx: u64, fy: u64)
    requires
        charged_alike(x, y, from),
        from <= x.age_ms,
        fx <= from,
        fy <= from,
    ensures
        same_but_charges(x.with_death(fx), y.with_death(fy)),
        x.with_death(fx).total_misses_at(x.with_death(fx).age_ms) == y.with_death(
            fy,
        ).total_misses_at(y.with_death(fy).age_ms),
        x.with_death(fx).outcome is None ==> x.with_death(fx).age_ms == x.age_ms,
{
    assert(x.age_ms == y.age_ms) by {
        assert(PetModel {
            care_miss: 0,
            hunger_misses: 0,
            mood_misses: 0,
            sick_misses: 0,
            scolded_this_alert: false,
            ..x
        }.age_ms == PetModel {
            care_miss: 0,
            hunger_misses: 0,
            mood_misses: 0,
            sick_misses: 0,
            scolded_this_alert: false,
            ..y
        }.age_ms);
    }
    let beta = x.age_ms;
    assert(x.total_misses_at(beta) == y.total_misses_at(beta));
    if x.total_misses_at(beta) >= CARE_MISS_LIMIT {
        let px = x.fatal_from(fx);
        let py = y.fatal_from(fy);
        lemma_first_age(beta, px, 0);
        let f = first_age(beta, px);
        assert(f > from) by {
            if f <= from {
                assert(x.total_misses_at(f) < CARE_MISS_LIMIT);
            }
        }
        assert(is_first(py, f)) by {
            assert(y.total_misses_at(f) == x.total_misses_at(f));
            assert forall|b: u64| b < f implies !#[trigger] py(b) by {
                if b <= from {
                    assert(y.total_misses_at(b) < CARE_MISS_LIMIT);
                } else {
                    assert(y.total_misses_at(b) == x.total_misses_at(b));
                    assert(!px(b));
                }
            }
        }
        lemma_first_age(beta, py, f);
        assert(x.sick_since_ms == y.sick_since_ms) by {
            assert(PetModel {
                care_miss: 0,
                hunger_misses: 0,
                mood_misses: 0,
                sick_misses: 0,
                scolded_this_alert: false,
                ..x
            }.sick_since_ms == PetModel {
                care_miss: 0,
                hunger_misses: 0,
                mood_misses: 0,
                sick_misses: 0,
                scolded_this_alert: false,
                ..y
            }.sick_since_ms);
        }
        let dx = x.with_death(fx);
        let dy = y.with_death(fy);
        assert(dx.total_misses_at(f) == x.total_misses_at(f));
        assert(dy.total_misses_at(f) == y.total_misses_at(f));
    }
}

/// Pets that agree but for their charges, and count the same misses now,
/// settle to the same pet but for the scolding flag; and to the same pet if
/// their flags agreed.
proof fn lemma_settle_alike(x: PetModel, y: PetModel)
    requires
        same_but_charges(x, y),
        x.total_misses_at(x.age_ms) == y.total_misses_at(y.age_ms),
    ensures
        same_but_scolding(x.settled(), y.settled()),
        x.scolded_this_alert == y.scolded_this_alert ==> x.settled() == y.settled(),
{
    let zx = PetModel {
        care_miss: 0,
        hunger_misses: 0,
        mood_misses: 0,
        sick_misses: 0,
        scolded_this_alert: false,
        ..x
    };
    let zy = PetModel {
        care_miss: 0,
        hunger_misses: 0,
        mood_misses: 0,
        sick_misses: 0,
        scolded_this_alert: false,
        ..y
    };
    assert(zx == zy);
    assert(zx.age_ms == x.age_ms && zy.age_ms == y.age_ms);
    assert(x.hunger_zero() == y.hunger_zero());
    assert(x.mood_zero() == y.mood_zero());
    assert(x.sick_since_ms == y.sick_since_ms);
}

/// After an advance that leaves the generation running, every miss is
/// charged and the pet is up to date.
pub proof fn lemma_advanced_up_to_date(m: PetModel, age_ms: u64)
    requires
        m.wf(),
    ensures
        m.advanced(age_ms).wf(),
        m.advanced(age_ms).outcome is None ==> m.advanced(age_ms).up_to_date(),
{
    if m.outcome is None {
        let ill = m.aged_to(age_ms).with_illness(m.age_ms);
        let s1 = ill.with_death(m.age_ms).settled();
        let aw = s1.awake();
        assert(spec_overdue(aw, ill.hunger_zero()) <= 255);
        assert(spec_overdue(aw, ill.mood_zero()) <= 255);
        assert(ill.sick_overdue(aw) <= 255);
        if ill.total_misses_at(ill.age_ms) >= CARE_MISS_LIMIT {
            lemma_first_age(ill.age_ms, ill.fatal_from(m.age_ms), 0);
        }
    }
}

/// Up to an age at which it has run up nothing, an illness changes no count of
/// misses: neither the misses it would run up nor those it was charged.
proof fn lemma_later_illness_uncounted(x: PetModel, y: PetModel, alpha: u64, t: u64)
    requires
        t <= alpha,
        x.sick_since_ms is None,
        y.sick_since_ms matches Some(od) && od > spec_awake_ms(alpha),
        y == (PetModel {
            sick_since_ms: y.sick_since_ms,
            sick_misses: y.sick_misses,
            age_ms: y.age_ms,
            ..x
        }),
    ensures
        x.total_misses_at(t) == y.total_misses_at(t),
{
    lemma_awake_ms_monotone(t, alpha);
}

/// Looking at a pet at an age `x` on the way to an age `a` finds the same
/// illness, or none where the one found at `a` begins after `x`; either way
/// the counts of misses agree up to `x`.
proof fn lemma_illness_on_the_way(m: PetModel, x: u64, a: u64)
    requires
        m.age_ms <= x <= m.aged_to(a).age_ms,
    ensures
        ({
            let ix = m.aged_to(x).with_illness(m.age_ms);
            let ia = m.aged_to(a).with_illness(m.age_ms);
            &&& ix.age_ms == x
            &&& ix == (PetModel {
                sick_since_ms: ix.sick_since_ms,
                sick_misses: ix.sick_misses,
                age_ms: x,
                ..ia
            })
            &&& (ix.sick_since_ms == ia.sick_since_ms || (ix.sick_since_ms is None && (
            ia.sick_since_ms matches Some(od) && od > spec_awake_ms(x))))
            &&& forall|t: u64|
                #![trigger ix.total_misses_at(t)]
                #![trigger ia.total_misses_at(t)]
                t <= x ==> ix.total_misses_at(t) == ia.total_misses_at(t)
        }),
{
    let age0 = m.age_ms;
    let xx = m.aged_to(x);
    let ax = m.aged_to(a);
    let alpha = ax.age_ms;
    let ix = xx.with_illness(age0);
    let ia = ax.with_illness(age0);
    lemma_poop_clock_monotone(x, alpha);
    lemma_poop_means_clock(xx);
    lemma_poop_means_clock(ax);
    let target = m.poop_cleaned_ms + SICK_POOP * POOP_PERIOD_MS;
    if m.sick_since_ms is None {
        if xx.poop() >= SICK_POOP {
            lemma_first_age(x, poop_reached_from(age0, target), 0);
            lemma_first_age_stable(x, alpha, poop_reached_from(age0, target));
        } else if ax.poop() >= SICK_POOP {
            lemma_onset_after(age0, x, alpha, target);
            assert forall|t: u64| t <= x implies ix.total_misses_at(t) == ia.total_misses_at(t) by {
                lemma_later_illness_uncounted(ix, ia, x, t);
            }
        }
    }
}

/// The second of two steps charges, on top of what the first charged, exactly
/// what a single step charges: the pets agree but for their charges, count
/// the same misses from the first step's age on, and are below the fatal
/// count up to it.
proof fn lemma_second_step_alike(m: PetModel, a: u64, b: u64)
    requires
        m.wf(),
        m.outcome is None,
        m.charged_within_owed(),
        a <= b,
        m.aged_to(a).with_illness(m.age_ms).total_misses_at(m.aged_to(a).age_ms)
            < CARE_MISS_LIMIT,
        m.aged_to(a).age_ms < LIFESPAN_MS,
    ensures
        ({
            let s1 = m.aged_to(a).with_illness(m.age_ms).settled();
            let i2 = s1.aged_to(b).with_illness(s1.age_ms);
            let i = m.aged_to(b).with_illness(m.age_ms);
            &&& charged_alike(i2, i, m.aged_to(a).age_ms)
            &&& i2.age_ms == i.age_ms
            &&& i2.scolded_this_alert == s1.scolded_this_alert
            &&& i.scolded_this_alert == m.scolded_this_alert
        }),
{
    let age0 = m.age_ms;
    let ax = m.aged_to(a);
    let bx = m.aged_to(b);
    let alpha = ax.age_ms;
    let beta = bx.age_ms;
    let i1 = ax.with_illness(age0);
    let s1 = i1.settled();
    let a2 = s1.aged_to(b);
    let i2 = a2.with_illness(alpha);
    let i = bx.with_illness(age0);
    lemma_awake_ms_monotone(age0, alpha);
    lemma_awake_ms_monotone(alpha, beta);
    lemma_poop_clock_monotone(alpha, beta);
    assert(a2.age_ms == beta);
    assert(s1.age_ms == alpha);
    let hz = m.hunger_zero();
    let mz = m.mood_zero();
    let aw0 = spec_awake_ms(age0);
    let awa = spec_awake_ms(alpha);
    // What the first step charged.
    assert(spec_overdue(awa, hz) <= 255 && spec_overdue(awa, mz) <= 255);
    assert(i1.sick_overdue(awa) <= 255);
    assert(s1.hunger_misses == spec_overdue(awa, hz));
    assert(s1.mood_misses == spec_overdue(awa, mz));
    assert(s1.sick_misses == i1.sick_overdue(awa));
    assert(s1.care_miss == i1.total_misses_at(alpha));
    lemma_overdue_monotone(aw0, awa, hz);
    lemma_overdue_monotone(aw0, awa, mz);
    // Where the illness stands in each of the three pets.
    let target = m.poop_cleaned_ms + SICK_POOP * POOP_PERIOD_MS;
    lemma_poop_means_clock(ax);
    lemma_poop_means_clock(bx);
    if m.sick_since_ms is None {
        if ax.poop() >= SICK_POOP {
            lemma_first_age(alpha, poop_reached_from(age0, target), 0);
            lemma_first_age_stable(alpha, beta, poop_reached_from(age0, target));
            assert(i2 == a2);
            assert(i.sick_since_ms == i1.sick_since_ms);
        } else {
            assert(i1 == ax);
            assert(s1.sick_misses == 0);
            if bx.poop() >= SICK_POOP {
                lemma_onset_after(age0, alpha, beta, target);
                assert(i2.sick_since_ms == i.sick_since_ms);
            }
        }
    } else {
        assert(i1 == ax && i == bx && i2 == a2);
    }
    assert(same_but_charges(i2, i));
    // From the first step's age on, the counts agree.
    assert forall|t: u64| alpha <= t implies i2.total_misses_at(t) == i.total_misses_at(t) by {
        let awt = spec_awake_ms(t);
        lemma_awake_ms_monotone(alpha, t);
        lemma_overdue_monotone(awa, awt, hz);
        lemma_overdue_monotone(awa, awt, mz);
        lemma_telescope(
            m.hunger_misses as int,
            spec_overdue(awa, hz),
            spec_overdue(awt, hz),
        );
        lemma_telescope(m.mood_misses as int, spec_overdue(awa, mz), spec_overdue(awt, mz));
        match i1.sick_since_ms {
            Some(since) => {
                lemma_overdue_monotone(aw0, awa, since as int);
                lemma_overdue_monotone(awa, awt, since as int);
                lemma_telescope(
                    i1.sick_misses as int,
                    spec_overdue(awa, since as int),
                    spec_overdue(awt, since as int),
                );
            },
            None => {},
        }
    }
    // Up to it, both stay below the fatal count.
    assert forall|t: u64| t <= alpha implies i2.total_misses_at(t) < CARE_MISS_LIMIT
        && i.total_misses_at(t) < CARE_MISS_LIMIT by {
        let awt = spec_awake_ms(t);
        lemma_awake_ms_monotone(t, alpha);
        lemma_overdue_monotone(awt, awa, hz);
        lemma_overdue_monotone(awt, awa, mz);
        lemma_total_misses_monotone(i1, t, alpha);
        match i2.sick_since_ms {
            Some(since) => {
                lemma_overdue_monotone(awt, awa, since as int);
            },
            None => {},
        }
        if m.sick_since_ms is None && ax.poop() < SICK_POOP && bx.poop() >= SICK_POOP {
            lemma_onset_after(age0, alpha, beta, target);
            lemma_later_illness_uncounted(i1, i, alpha, t);
        }
    }
}

/// A pet that dies before the first of two looks dies the same way, at the
/// same age, when looked at only once, later.
proof fn lemma_dead_at_first_step(m: PetModel, a: u64, b: u64)
    requires
        m.wf(),
        m.outcome is None,
        m.charged_within_owed(),
        a <= b,
        m.aged_to(a).with_illness(m.age_ms).total_misses_at(m.aged_to(a).age_ms)
            >= CARE_MISS_LIMIT,
    ensures
        m.aged_to(b).with_illness(m.age_ms).with_death(m.age_ms) == m.aged_to(a).with_illness(
            m.age_ms,
        ).with_death(m.age_ms),
{
    let age0 = m.age_ms;
    let ax = m.aged_to(a);
    let bx = m.aged_to(b);
    let alpha = ax.age_ms;
    let beta = bx.age_ms;
    let i1 = ax.with_illness(age0);
    let i = bx.with_illness(age0);
    lemma_illness_on_the_way(m, alpha, b);
    assert(m.aged_to(alpha) == ax);
    let f = first_age(alpha, i1.fatal_from(age0));
    lemma_first_age(alpha, i1.fatal_from(age0), 0);
    lemma_total_misses_monotone(i, alpha, beta);
    assert(is_first(i.fatal_from(age0), f)) by {
        assert(i.total_misses_at(f) == i1.total_misses_at(f));
        assert forall|x: u64| x < f implies !#[trigger] i.fatal_from(age0)(x) by {
            assert(!i1.fatal_from(age0)(x));
            assert(i.total_misses_at(x) == i1.total_misses_at(x));
        }
    }
    lemma_first_age(beta, i.fatal_from(age0), f);
    lemma_awake_ms_monotone(f, alpha);
    assert(m.sick_since_ms is None ==> m.sick_misses == 0);
    let dx = i1.with_death(age0);
    let di = i.with_death(age0);
    assert(dx.age_ms == di.age_ms);
    assert(dx.sick_since_ms == di.sick_since_ms);
}

/// A pet still alive after the first of two looks ends up, after the second,
/// as it would after one look -- the scolding flag aside, and that too when no
/// scolding was pending.
proof fn lemma_alive_after_first_step(m: PetModel, a: u64, b: u64)
    requires
        m.wf(),
        m.outcome is None,
        m.charged_within_owed(),
        a <= b,
        m.aged_to(a).with_illness(m.age_ms).total_misses_at(m.aged_to(a).age_ms)
            < CARE_MISS_LIMIT,
        m.aged_to(a).age_ms < LIFESPAN_MS,
    ensures
        same_but_scolding(m.advanced(a).advanced(b), m.advanced(b)),
        !m.scolded_this_alert ==> m.advanced(a).advanced(b) == m.advanced(b),
{
    let ax = m.aged_to(a);
    let i1 = ax.with_illness(m.age_ms);
    let s1 = i1.settled();
    let i2 = s1.aged_to(b).with_illness(s1.age_ms);
    let i = m.aged_to(b).with_illness(m.age_ms);
    lemma_second_step_alike(m, a, b);
    assert(i1.with_death(m.age_ms) == i1);
    assert(m.advanced(a) == s1);
    lemma_death_alike(i2, i, ax.age_ms, s1.age_ms, m.age_ms);
    lemma_settle_alike(i2.with_death(s1.age_ms), i.with_death(m.age_ms));
    assert(i2.with_death(s1.age_ms).scolded_this_alert == i2.scolded_this_alert);
    assert(i.with_death(m.age_ms).scolded_this_alert == i.scolded_this_alert);
    assert(!m.scolded_this_alert ==> !s1.scolded_this_alert);
}

/// A pet advanced to `a` and then to `b` ends up as the same pet advanced to
/// `b` at once -- a blackout between two looks changes nothing -- save that a
/// scolding given before the first look may be forgotten at it when the pet
/// stopped calling by then. With no scolding pending, the two agree exactly.
///
/// This holds for every pet that has not been charged for more misses than
/// it has run up, as no pet made by the constructor, the actions and advancing
/// ever has. One restored with more charged than owed counts differently: the
/// first step charges nothing for that source and remembers what it has run
/// up, the single step charges only the excess.
#[verifier::spinoff_prover]
#[verifier::rlimit(40)]
pub proof fn lemma_advance_in_two_steps(m: PetModel, a: u64, b: u64)
    requires
        m.wf(),
        m.charged_within_owed(),
        a <= b,
    ensures
        same_but_scolding(m.advanced(a).advanced(b), m.advanced(b)),
        !m.scolded_this_alert ==> m.advanced(a).advanced(b) == m.advanced(b),
{
    if m.outcome is None {
        let ax = m.aged_to(a);
        let i1 = ax.with_illness(m.age_ms);
        if ax.age_ms == LIFESPAN_MS {
            assert(ax == m.aged_to(b));
        } else if i1.total_misses_at(ax.age_ms) >= CARE_MISS_LIMIT {
            lemma_dead_at_first_step(m, a, b);
        } else {
            lemma_alive_after_first_step(m, a, b);
        }
    }
}

/// A fresh egg is up to date, with nothing owed yet, and its outcome agrees
/// with its count and age.
pub proof fn lemma_new_pet_up_to_date(inherited: u8)
    ensures
        spec_new_pet(inherited).wf(),
        spec_new_pet(inherited).up_to_date(),
        spec_new_pet(inherited).outcome_consistent(),
{
    lemma_awake_ms_monotone(0, STAGE_BABY_MS);
    let k = min_int(inherited as int, 4);
    assert(0 <= k * 180_000 <= 720_000) by (nonlinear_arith)
        requires
            0 <= k <= 4,
    ;
}

/// Every action leaves an up-to-date pet up to date: answering a call
/// re-anchors its meter with nothing owed, and nothing else touches what is
/// owed.
pub proof fn lemma_actions_keep_up_to_date(m: PetModel, won: bool)
    requires
        m.wf(),
        m.up_to_date(),
    ensures
        m.after_meal().1.up_to_date(),
        m.after_snack().1.up_to_date(),
        m.after_clean().1.up_to_date(),
        m.after_medicine().1.up_to_date(),
        m.after_scold().1.up_to_date(),
        m.after_play(won).1.up_to_date(),
{
    lemma_awake_ms_monotone(m.age_ms, m.age_ms);
}

/// A scolding lands once per call: right after one has landed, another is
/// refused.
pub proof fn lemma_scold_once(m: PetModel)
    requires
        m.after_scold().0 is Ok,
    ensures
        m.after_scold().1.after_scold().0 == Err::<(), Refusal>(Refusal::Nothing),
{
}

/// Settling twice at the same age charges nothing twice.
pub proof fn lemma_settled_idempotent(m: PetModel)
    ensures
        m.settled().settled() == m.settled(),
{
    let s1 = m.settled();
    let aw = m.awake();
    assert(spec_overdue(aw, m.hunger_zero()) <= 255);
    assert(spec_overdue(aw, m.mood_zero()) <= 255);
    assert(m.sick_overdue(aw) <= 255);
    assert(s1.total_misses_at(s1.age_ms) == m.total_misses_at(m.age_ms));
}

/// Advancing to an age a second time changes nothing: every miss charged on
/// the way is remembered, so none is charged twice.
pub proof fn lemma_advance_idempotent(m: PetModel, age_ms: u64)
    requires
        m.wf(),
    ensures
        m.advanced(age_ms).advanced(age_ms) == m.advanced(age_ms),
{
    if m.outcome is None {
        let aged = m.aged_to(age_ms);
        let ill = aged.with_illness(m.age_ms);
        let dead = ill.with_death(m.age_ms);
        let s1 = dead.settled();
        lemma_settled_idempotent(dead);
        if s1.outcome is None && s1.age_ms < LIFESPAN_MS {
            assert(dead == ill);
            assert(s1.aged_to(age_ms) == s1);
            assert(s1.poop() == aged.poop());
            assert(s1.with_illness(s1.age_ms) == s1);
            let aw = s1.awake();
            assert(spec_overdue(aw, ill.hunger_zero()) <= 255);
            assert(spec_overdue(aw, ill.mood_zero()) <= 255);
            assert(ill.sick_overdue(aw) <= 255);
            assert(s1.total_misses_at(s1.age_ms) == ill.total_misses_at(ill.age_ms));
            assert(s1.with_death(s1.age_ms) == s1);
        }
    }
}

/// Time alone never refills a meter: with no action in between, hunger and
/// mood after an advance are no higher than before, and stay within their
/// scale.
pub proof fn lemma_meters_only_fall(m: PetModel, age_ms: u64)
    requires
        m.wf(),
    ensures
        0 <= m.advanced(age_ms).hunger() <= m.hunger() <= METER_MAX,
        0 <= m.advanced(age_ms).mood() <= m.mood() <= METER_MAX,
{
    let n = m.advanced(age_ms);
    lemma_advance_moves_forward(m, age_ms);
    lemma_awake_ms_monotone(m.age_ms, n.age_ms);
    let w0 = m.awake();
    let w1 = n.awake();
    assert(n.hunger_at_anchor == m.hunger_at_anchor && n.hunger_anchor_ms == m.hunger_anchor_ms
        && n.hunger_period_ms == m.hunger_period_ms);
    assert(n.mood_at_anchor == m.mood_at_anchor && n.mood_anchor_ms == m.mood_anchor_ms
        && n.mood_period_ms == m.mood_period_ms);
    vstd::arithmetic::div_mod::lemma_div_is_ordered(
        sat_sub(w0, m.hunger_anchor_ms as int),
        sat_sub(w1, m.hunger_anchor_ms as int),
        m.hunger_period_ms as int,
    );
    vstd::arithmetic::div_mod::lemma_div_is_ordered(
        sat_sub(w0, m.mood_anchor_ms as int),
        sat_sub(w1, m.mood_anchor_ms as int),
        m.mood_period_ms as int,
    );
}

/// Droppings only pile up with time, never beyond what the screen holds, and
/// an egg makes none.
pub proof fn lemma_droppings_pile_up(m: PetModel, age_ms: u64)
    requires
        m.wf(),
    ensures
        m.poop() <= m.advanced(age_ms).poop() <= POOP_MAX,
        m.stage() == Stage::Egg ==> m.poop() == 0,
{
    let n = m.advanced(age_ms);
    lemma_advance_moves_forward(m, age_ms);
    lemma_poop_clock_monotone(m.age_ms, n.age_ms);
    assert(n.poop_cleaned_ms == m.poop_cleaned_ms);
    vstd::arithmetic::div_mod::lemma_div_is_ordered(
        sat_sub(spec_poop_clock(m.age_ms), m.poop_cleaned_ms as int),
        sat_sub(spec_poop_clock(n.age_ms), m.poop_cleaned_ms as int),
        POOP_PERIOD_MS as int,
    );
}

/// Advanced to an age on the way to `age_ms` before the first fatal miss, a
/// pet is still alive.
proof fn lemma_alive_before_fatal_miss(m: PetModel, age_ms: u64, x: u64)
    requires
        m.wf(),
        m.outcome is None,
        m.age_ms <= x,
        m.aged_to(age_ms).with_illness(m.age_ms).total_misses_at(m.aged_to(age_ms).age_ms)
            >= CARE_MISS_LIMIT,
        x < first_age(
            m.aged_to(age_ms).age_ms,
            m.aged_to(age_ms).with_illness(m.age_ms).fatal_from(m.age_ms),
        ),
    ensures
        m.advanced(x).outcome is None,
{
    let age0 = m.age_ms;
    let ax = m.aged_to(age_ms);
    let alpha = ax.age_ms;
    let ia = ax.with_illness(age0);
    let pa = ia.fatal_from(age0);
    lemma_first_age(alpha, pa, 0);
    lemma_illness_on_the_way(m, x, age_ms);
    let ix = m.aged_to(x).with_illness(age0);
    assert(!pa(x));
    assert(ix.total_misses_at(x) == ia.total_misses_at(x));
    assert(ix.with_death(age0) == ix);
}

/// Advanced to the age of the first fatal miss on the way to `age_ms`, a pet
/// dies right there.
proof fn lemma_dead_at_fatal_miss(m: PetModel, age_ms: u64)
    requires
        m.wf(),
        m.outcome is None,
        m.aged_to(age_ms).with_illness(m.age_ms).total_misses_at(m.aged_to(age_ms).age_ms)
            >= CARE_MISS_LIMIT,
    ensures
        ({
            let f = first_age(
                m.aged_to(age_ms).age_ms,
                m.aged_to(age_ms).with_illness(m.age_ms).fatal_from(m.age_ms),
            );
            &&& m.advanced(f).outcome == Some(Outcome::CareFailure)
            &&& m.advanced(f).age_ms == f
        }),
{
    let age0 = m.age_ms;
    let ax = m.aged_to(age_ms);
    let alpha = ax.age_ms;
    let ia = ax.with_illness(age0);
    let pa = ia.fatal_from(age0);
    lemma_first_age(alpha, pa, 0);
    let f = first_age(alpha, pa);
    lemma_illness_on_the_way(m, f, age_ms);
    let i_f = m.aged_to(f).with_illness(age0);
    let pf = i_f.fatal_from(age0);
    assert(is_first(pf, f)) by {
        assert(i_f.total_misses_at(f) == ia.total_misses_at(f));
        assert forall|b: u64| b < f implies !#[trigger] pf(b) by {
            if age0 <= b {
                assert(!pa(b));
                assert(i_f.total_misses_at(b) == ia.total_misses_at(b));
            }
        }
    }
    lemma_first_age(f, pf, f);
}

/// At the age a pet had reached, the next step counts the misses it counted
/// already: an illness the step finds begins no earlier, and has run up
/// nothing there.
proof fn lemma_nothing_new_at_start(m: PetModel, age_ms: u64)
    requires
        m.wf(),
        m.outcome is None,
    ensures
        m.aged_to(age_ms).with_illness(m.age_ms).total_misses_at(m.age_ms) == m.total_misses_at(
            m.age_ms,
        ),
{
    let age0 = m.age_ms;
    let ax = m.aged_to(age_ms);
    let alpha = ax.age_ms;
    if m.sick_since_ms is None && ax.poop() >= SICK_POOP {
        let target = m.poop_cleaned_ms + SICK_POOP * POOP_PERIOD_MS;
        lemma_poop_means_clock(ax);
        lemma_first_age(alpha, poop_reached_from(age0, target), 0);
        let o = first_age(alpha, poop_reached_from(age0, target));
        lemma_awake_ms_monotone(age0, o);
    }
}

/// A pet that dies of neglect while advancing dies at the earliest age the
/// fatal miss lands, never later: advanced to any earlier age on the way it
/// is still alive, and advanced to that age it dies there, having run up the
/// fatal count. It dies strictly after the age it had reached unless it
/// already counted the fatal number of misses there, and then right there.
#[verifier::spinoff_prover]
pub proof fn lemma_death_dated_earliest(m: PetModel, age_ms: u64)
    requires
        m.wf(),
        m.outcome is None,
        m.advanced(age_ms).outcome == Some(Outcome::CareFailure),
    ensures
        m.advanced(age_ms).care_miss >= CARE_MISS_LIMIT,
        m.age_ms <= m.advanced(age_ms).age_ms,
        (m.age_ms < m.advanced(age_ms).age_ms) == (m.total_misses_at(m.age_ms) < CARE_MISS_LIMIT),
        forall|x: u64|
            m.age_ms <= x < m.advanced(age_ms).age_ms ==> (#[trigger] m.advanced(x)).outcome
                is None,
        m.advanced(m.advanced(age_ms).age_ms).outcome == Some(Outcome::CareFailure),
        m.advanced(m.advanced(age_ms).age_ms).age_ms == m.advanced(age_ms).age_ms,
{
    let age0 = m.age_ms;
    let ax = m.aged_to(age_ms);
    let alpha = ax.age_ms;
    let ia = ax.with_illness(age0);
    let pa = ia.fatal_from(age0);
    assert(ia.total_misses_at(alpha) >= CARE_MISS_LIMIT);
    lemma_first_age(alpha, pa, 0);
    let f = first_age(alpha, pa);
    let dead = ia.with_death(age0);
    assert(dead.age_ms == f);
    assert(dead.total_misses_at(f) == ia.total_misses_at(f)) by {
        lemma_awake_ms_monotone(f, f);
    }
    assert(m.advanced(age_ms).age_ms == f);
    assert forall|x: u64| age0 <= x < f implies (#[trigger] m.advanced(x)).outcome is None by {
        lemma_alive_before_fatal_miss(m, age_ms, x);
    }
    lemma_dead_at_fatal_miss(m, age_ms);
    lemma_nothing_new_at_start(m, age_ms);
    if m.total_misses_at(age0) >= CARE_MISS_LIMIT {
        assert(is_first(pa, age0));
        lemma_first_age(alpha, pa, age0);
    }
}

/// Sweeping takes away whole droppings only and carries the part-made one
/// over, so sweeping early never delays the next dropping: advanced to the
/// same age, a swept pet has exactly the droppings it was swept of fewer than
/// an unswept one would (while the screen has not filled up).
pub proof fn lemma_sweep_carries_fraction(m: PetModel, age_ms: u64)
    requires
        m.wf(),
        m.after_clean().0 is Ok,
        m.advanced(age_ms).outcome != Some(Outcome::CareFailure),
        m.after_clean().1.advanced(age_ms).outcome != Some(Outcome::CareFailure),
        m.advanced(age_ms).poop() < POOP_MAX,
    ensures
        m.after_clean().1.advanced(age_ms).poop() == m.advanced(age_ms).poop() - m.poop(),
{
    let c = m.after_clean().1;
    let n = m.advanced(age_ms);
    let nc = c.advanced(age_ms);
    lemma_advance_moves_forward(m, age_ms);
    lemma_advance_moves_forward(c, age_ms);
    assert(n.age_ms == nc.age_ms);
    lemma_poop_clock_monotone(m.age_ms, n.age_ms);
    let p = POOP_PERIOD_MS as int;
    let c0 = spec_poop_clock(m.age_ms);
    let c1 = spec_poop_clock(n.age_ms);
    let cleaned = m.poop_cleaned_ms as int;
    let k = (c0 - cleaned) / p;
    assert(c0 - cleaned >= p) by (nonlinear_arith)
        requires
            sat_sub(c0, cleaned) / p >= 1,
            p == 3_600_000,
    ;
    assert(c.poop_cleaned_ms == cleaned + k * p);
    assert(nc.poop_cleaned_ms == c.poop_cleaned_ms);
    assert(n.poop_cleaned_ms == m.poop_cleaned_ms);
    let q = (c1 - cleaned) / p;
    let r = (c1 - cleaned) % p;
    vstd::arithmetic::div_mod::lemma_fundamental_div_mod(c1 - cleaned, p);
    vstd::arithmetic::div_mod::lemma_div_is_ordered(c0 - cleaned, c1 - cleaned, p);
    assert(k * p <= c0 - cleaned) by (nonlinear_arith)
        requires
            k == (c0 - cleaned) / p,
            p > 0,
            c0 - cleaned >= 0,
    ;
    assert(c1 - cleaned - k * p == (q - k) * p + r) by (nonlinear_arith)
        requires
            c1 - cleaned == p * q + r,
    ;
    vstd::arithmetic::div_mod::lemma_fundamental_div_mod_converse(
        c1 - cleaned - k * p,
        p,
        q - k,
        r,
    );
    assert(k >= 0) by (nonlinear_arith)
        requires
            k == (c0 - cleaned) / p,
            p > 0,
            c0 - cleaned >= 0,
    ;
}

/// How a generation stands always agrees with its count of care misses and
/// its age, whatever is done to the pet: a fresh egg starts that way, and
/// advancing and every action keep it so. In particular a pet is dead of
/// neglect exactly when its misses have reached the fatal count.
pub proof fn lemma_outcome_stays_consistent(m: PetModel, age_ms: u64, won: bool)
    requires
        m.wf(),
        m.outcome_consistent(),
    ensures
        m.advanced(age_ms).outcome_consistent(),
        m.after_meal().1.outcome_consistent(),
        m.after_snack().1.outcome_consistent(),
        m.after_clean().1.outcome_consistent(),
        m.after_medicine().1.outcome_consistent(),
        m.after_scold().1.outcome_consistent(),
        m.after_play(won).1.outcome_consistent(),
        (m.advanced(age_ms).outcome == Some(Outcome::CareFailure)) == (m.advanced(
            age_ms,
        ).care_miss >= CARE_MISS_LIMIT),
{
    if m.outcome is None {
        let ia = m.aged_to(age_ms).with_illness(m.age_ms);
        let alpha = ia.age_ms;
        if ia.total_misses_at(alpha) >= CARE_MISS_LIMIT {
            lemma_first_age(alpha, ia.fatal_from(m.age_ms), 0);
            let f = first_age(alpha, ia.fatal_from(m.age_ms));
            let dead = ia.with_death(m.age_ms);
            assert(dead.total_misses_at(f) == ia.total_misses_at(f)) by {
                lemma_awake_ms_monotone(f, f);
            }
        }
    }
}

/// The poop clock runs with awake time at each stage's own speed: not at all
/// in the egg, twice as fast as awake time from the hatch until the teen
/// stage, and as fast as awake time from then on, stopping at the lifespan.
/// So a teen or an adult makes one dropping per awake `POOP_PERIOD_MS`, and a
/// baby or a child two.
pub proof fn lemma_poop_clock_speeds(a: u64)
    ensures
        a <= STAGE_BABY_MS ==> spec_poop_clock(a) == 0,
        STAGE_BABY_MS <= a <= STAGE_TEEN_MS ==> spec_poop_clock(a) == 2 * (spec_awake_ms(a)
            - spec_awake_ms(STAGE_BABY_MS)),
        STAGE_TEEN_MS <= a <= STAGE_ADULT_MS ==> spec_poop_clock(a) - spec_poop_clock(
            STAGE_TEEN_MS,
        ) == spec_awake_ms(a) - spec_awake_ms(STAGE_TEEN_MS),
        STAGE_ADULT_MS <= a <= LIFESPAN_MS ==> spec_poop_clock(a) - spec_poop_clock(
            STAGE_ADULT_MS,
        ) == spec_awake_ms(a) - spec_awake_ms(STAGE_ADULT_MS),
        LIFESPAN_MS <= a ==> spec_poop_clock(a) == spec_poop_clock(LIFESPAN_MS),
{
}

/// A round of the guessing game cheers the pet up by two pips when won and by
/// one when lost, up to a full meter; hunger is untouched; and the pet is a
/// gram lighter, but never below `WEIGHT_MIN`. Only an egg or a sleeping pet
/// turns it down.
pub proof fn lemma_play_cheers_up(m: PetModel, won: bool)
    requires
        m.wf(),
        m.refusal() is None,
    ensures
        m.after_play(won).0 is Ok,
        m.after_play(true).1.mood() == min_int(m.mood() + 2, METER_MAX as int),
        m.after_play(false).1.mood() == min_int(m.mood() + 1, METER_MAX as int),
        m.mood() < METER_MAX - 1 ==> m.after_play(true).1.mood() > m.after_play(false).1.mood(),
        m.after_play(won).1.hunger() == m.hunger(),
        m.after_play(won).1.weight == (if m.weight > WEIGHT_MIN {
            m.weight - 1
        } else {
            WEIGHT_MIN as int
        }),
{
    lemma_awake_ms_monotone(m.age_ms, m.age_ms);
}

/// Feeding: a meal raises hunger by one pip and adds a gram, a snack raises
/// mood by one pip and adds two, both up to `WEIGHT_MAX`; either is turned
/// down, changing nothing, when its meter is already full.
pub proof fn lemma_feeding(m: PetModel)
    requires
        m.wf(),
        m.refusal() is None,
    ensures
        m.hunger() < METER_MAX ==> m.after_meal().0 is Ok && m.after_meal().1.hunger() == m.hunger()
            + 1 && m.after_meal().1.mood() == m.mood() && m.after_meal().1.weight == min_int(
            m.weight + 1,
            WEIGHT_MAX as int,
        ),
        m.hunger() == METER_MAX ==> m.after_meal() == (Err::<(), Refusal>(Refusal::Full), m),
        m.mood() < METER_MAX ==> m.after_snack().0 is Ok && m.after_snack().1.mood() == m.mood()
            + 1 && m.after_snack().1.hunger() == m.hunger() && m.after_snack().1.weight
            == min_int(m.weight + 2, WEIGHT_MAX as int),
        m.mood() == METER_MAX ==> m.after_snack() == (Err::<(), Refusal>(Refusal::Full), m),
{
    lemma_awake_ms_monotone(m.age_ms, m.age_ms);
}

/// Every action is turned down, changing nothing, while the pet is an egg or
/// asleep.
pub proof fn lemma_eggs_and_sleepers_refuse(m: PetModel, won: bool)
    requires
        m.age_ms < STAGE_BABY_MS || m.asleep(),
    ensures
        ({
            let why = if m.age_ms < STAGE_BABY_MS {
                Refusal::Unhatched
            } else {
                Refusal::Asleep
            };
            &&& m.after_meal() == (Err::<(), Refusal>(why), m)
            &&& m.after_snack() == (Err::<(), Refusal>(why), m)
            &&& m.after_clean() == (Err::<(), Refusal>(why), m)
            &&& m.after_medicine() == (Err::<(), Refusal>(why), m)
            &&& m.after_scold() == (Err::<(), Refusal>(why), m)
            &&& m.after_play(won) == (Err::<(), Refusal>(why), m)
        }),
{
}

/// A sweep is turned down when there is nothing to sweep, and otherwise
/// leaves no dropping on the floor; medicine is turned down for a healthy pet
/// and otherwise leaves it healthy. Neither touches the meters or the weight.
pub proof fn lemma_clean_and_medicine(m: PetModel)
    requires
        m.wf(),
        m.refusal() is None,
    ensures
        m.poop() == 0 ==> m.after_clean() == (Err::<(), Refusal>(Refusal::Nothing), m),
        m.poop() > 0 ==> m.after_clean().0 is Ok && m.after_clean().1.poop() == 0,
        m.after_clean().1.hunger() == m.hunger() && m.after_clean().1.mood() == m.mood()
            && m.after_clean().1.weight == m.weight,
        !m.sick() ==> m.after_medicine() == (Err::<(), Refusal>(Refusal::Healthy), m),
        m.sick() ==> m.after_medicine().0 is Ok && !m.after_medicine().1.sick(),
        m.after_medicine().1.hunger() == m.hunger() && m.after_medicine().1.mood() == m.mood()
            && m.after_medicine().1.weight == m.weight,
{
    if m.poop() > 0 {
        let c0 = spec_poop_clock(m.age_ms);
        let cleaned = m.poop_cleaned_ms as int;
        let p = POOP_PERIOD_MS as int;
        lemma_poop_clock_monotone(m.age_ms, m.age_ms);
        assert(c0 - cleaned >= p) by (nonlinear_arith)
            requires
                sat_sub(c0, cleaned) / p >= 1,
                p == 3_600_000,
        ;
        let k = (c0 - cleaned) / p;
        vstd::arithmetic::div_mod::lemma_fundamental_div_mod(c0 - cleaned, p);
        let r = (c0 - cleaned) % p;
        assert(c0 - (cleaned + k * p) == r) by (nonlinear_arith)
            requires
                c0 - cleaned == p * k + r,
        ;
        assert(r / p == 0) by (nonlinear_arith)
            requires
                0 <= r < p,
        ;
    }
}

/// A scolding lands only on a pet that is calling and has not been scolded
/// during this call, and then raises discipline by one, up to its maximum.
/// Scolding a pet that is not calling is turned down and changes nothing.
pub proof fn lemma_scold_only_when_calling(m: PetModel)
    ensures
        m.after_scold().0 is Ok ==> m.alert() && !m.scolded_this_alert && m.refusal() is None,
        m.after_scold().0 is Ok ==> m.after_scold().1.discipline == min_int(
            m.discipline + 1,
            DISCIPLINE_MAX as int,
        ) && m.after_scold().1.scolded_this_alert,
        m.refusal() is None && !m.alert() ==> m.after_scold() == (Err::<(), Refusal>(
            Refusal::Nothing,
        ), m),
        m.refusal() is None && m.alert() && !m.scolded_this_alert ==> m.after_scold().0 is Ok,
{
}

/// A meter loses one pip for every period of awake time past its anchor, down
/// to empty: a pet one more hunger period awake than another, with the same
/// anchors, is one pip hungrier, unless already empty; likewise for mood with
/// its own, longer period. A new pet's periods are half an hour for hunger
/// and three quarters for mood, each widened by three minutes per point of
/// inherited discipline, up to four.
pub proof fn lemma_meters_lose_a_pip_per_period(m: PetModel, later: PetModel, inherited: u8)
    requires
        m.wf(),
        later == (PetModel { age_ms: later.age_ms, ..m }),
    ensures
        m.hunger_anchor_ms <= m.awake() && later.awake() == m.awake() + m.hunger_period_ms
            ==> later.hunger() == (if m.hunger() > 0 {
            m.hunger() - 1
        } else {
            0
        }),
        m.mood_anchor_ms <= m.awake() && later.awake() == m.awake() + m.mood_period_ms
            ==> later.mood() == (if m.mood() > 0 {
            m.mood() - 1
        } else {
            0
        }),
        spec_new_pet(inherited).hunger_period_ms == 30 * 60 * 1000 + min_int(
            inherited as int,
            4,
        ) * (3 * 60 * 1000),
        spec_new_pet(inherited).mood_period_ms == 45 * 60 * 1000 + min_int(
            inherited as int,
            4,
        ) * (3 * 60 * 1000),
{
    let k = min_int(inherited as int, 4);
    assert(0 <= k * 180_000 <= 720_000) by (nonlinear_arith)
        requires
            0 <= k <= 4,
    ;
    let hp = m.hunger_period_ms as int;
    let he = m.awake() - m.hunger_anchor_ms;
    if he >= 0 {
        vstd::arithmetic::div_mod::lemma_div_plus_one(he, hp);
        assert((hp + he) / hp == he / hp + 1);
    }
    let mp = m.mood_period_ms as int;
    let me = m.awake() - m.mood_anchor_ms;
    if me >= 0 {
        vstd::arithmetic::div_mod::lemma_div_plus_one(me, mp);
        assert((mp + me) / mp == me / mp + 1);
    }
}

} // verus!
