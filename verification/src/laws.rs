//! What holds of the planet across its handlers: a sunray is never wasted on
//! a planet that lacks a rocket, an asteroid is survived exactly when the
//! planet is prepared for it (and a run of asteroids is deflected exactly as
//! long as the planet's rocket and charged cells last), sunrays from a fresh
//! planet charge it one cell at a time, and serving explorers never costs
//! the planet its emergency rocket.
use crate::model::{
    after_asteroid, after_generate, after_sunray, asteroid_answered, can_survive_asteroid,
    carbon_served, count_charged, generate_refusal, sunray_stores_carbon, lemma_count_bound, lemma_count_full,
    lemma_count_positive, lemma_count_update, lemma_position_of, position_of, PlanetView,
};
use crate::types::GenerateRefusal;
use vstd::prelude::*;

verus! {

/// The planet after `k` sunrays in a row.
pub open spec fn after_sunrays(v: PlanetView, carbon_recipe: bool, k: nat) -> PlanetView
    decreases k,
{
    if k == 0 {
        v
    } else {
        after_sunray(after_sunrays(v, carbon_recipe, (k - 1) as nat), carbon_recipe)
    }
}

/// On a planet that may have a rocket and has a cell, every sunray leaves a
/// rocket ready, so the next asteroid is survived.
pub proof fn sunray_readies_rocket(v: PlanetView, carbon_recipe: bool)
    requires
        v.rocket_allowed,
        v.cells.len() > 0,
    ensures
        after_sunray(v, carbon_recipe).rocket,
        asteroid_answered(after_sunray(v, carbon_recipe)),
{
}

/// A sunray takes nothing away: the cells stay as many, no charge is lost, a
/// ready rocket stays ready; and a planet that has its rocket gains one
/// charge whenever a cell is uncharged.
pub proof fn sunray_takes_nothing(v: PlanetView, carbon_recipe: bool)
    ensures
        after_sunray(v, carbon_recipe).cells.len() == v.cells.len(),
        after_sunray(v, carbon_recipe).rocket_allowed == v.rocket_allowed,
        v.rocket ==> after_sunray(v, carbon_recipe).rocket,
        count_charged(after_sunray(v, carbon_recipe).cells) >= count_charged(v.cells),
        v.rocket && v.cells.contains(false) ==> count_charged(after_sunray(v, carbon_recipe).cells) == count_charged(
            v.cells,
        ) + 1,
{
    lemma_position_of(v.cells, false);
    lemma_position_of(v.cells, true);
    if let Some(e) = position_of(v.cells, false) {
        lemma_count_update(v.cells, e, true);
    }
}

/// A sunray that finds the rocket ready and every cell charged is kept as
/// Carbon: the cells stay all charged, and the next Carbon request is served
/// from the storage without touching them.
pub proof fn surplus_sunray_serves_carbon(v: PlanetView, carbon_recipe: bool, stock: nat)
    requires
        sunray_stores_carbon(v, carbon_recipe),
    ensures
        after_sunray(v, carbon_recipe) == v,
        !v.cells.contains(false),
        generate_refusal(after_sunray(v, carbon_recipe), stock + 1, carbon_recipe, true) is None,
{
    lemma_position_of(v.cells, false);
}

/// An asteroid is answered with a rocket exactly when the planet can survive
/// it, and afterwards no rocket is left.
pub proof fn asteroid_answered_iff_survivable(v: PlanetView)
    ensures
        asteroid_answered(v) == can_survive_asteroid(v),
        !after_asteroid(v).rocket,
        after_asteroid(v).cells.len() == v.cells.len(),
{
    lemma_position_of(v.cells, true);
}

/// The first cell holding `value` is `f`.
pub open spec fn first_with(cells: Seq<bool>, value: bool, f: int) -> bool {
    0 <= f < cells.len() && cells[f] == value && forall|j: int| 0 <= j < f ==> cells[j] != value
}

/// What a sunray does, for every planet and generator:
/// - with a rocket ready and an uncharged cell, it charges the first
///   uncharged cell and nothing else;
/// - with a rocket ready and every cell charged, it is kept as Carbon exactly
///   when the generator knows Carbon, and the cells stay as they were;
/// - without a rocket, on a planet that may have one and has cells, a rocket
///   is built and the charges stay as they were;
/// - on a planet that may not have a rocket, it charges the first uncharged
///   cell, if any, and never builds a rocket.
pub proof fn sunray_answers(v: PlanetView, carbon_recipe: bool)
    ensures
        after_sunray(v, carbon_recipe).rocket_allowed == v.rocket_allowed,
        v.rocket ==> after_sunray(v, carbon_recipe).rocket,
        v.rocket && v.cells.contains(false) ==> !sunray_stores_carbon(v, carbon_recipe) && exists|f: int|
            first_with(v.cells, false, f) && after_sunray(v, carbon_recipe).cells == v.cells.update(f, true),
        v.rocket && !v.cells.contains(false) ==> {
            &&& after_sunray(v, carbon_recipe) == v
            &&& sunray_stores_carbon(v, carbon_recipe) <==> (carbon_recipe && v.cells.len() > 0)
        },
        !v.rocket && v.rocket_allowed && v.cells.len() > 0 ==> after_sunray(v, carbon_recipe) == (
        PlanetView { cells: v.cells, rocket: true, rocket_allowed: true }),
        !v.rocket ==> !sunray_stores_carbon(v, carbon_recipe),
        !v.rocket_allowed && !v.rocket ==> {
            &&& !after_sunray(v, carbon_recipe).rocket
            &&& v.cells.contains(false) ==> exists|f: int|
                first_with(v.cells, false, f) && after_sunray(v, carbon_recipe).cells == v.cells.update(f, true)
            &&& !v.cells.contains(false) ==> after_sunray(v, carbon_recipe) == v
        },
{
    lemma_position_of(v.cells, false);
    lemma_position_of(v.cells, true);
    if v.cells.len() > 0 {
        assert(v.cells.contains(v.cells[0]));
    }
}

/// What an asteroid does, for every planet: a ready rocket is launched and
/// the cells stay as they were; without one, where a rocket is allowed, the
/// first charged cell is spent on a rocket that is launched at once; where
/// the planet is not saved, nothing changes.
pub proof fn asteroid_answers(v: PlanetView)
    ensures
        v.rocket ==> asteroid_answered(v) && after_asteroid(v) == (PlanetView {
            cells: v.cells,
            rocket: false,
            rocket_allowed: v.rocket_allowed,
        }),
        !v.rocket && v.rocket_allowed && v.cells.contains(true) ==> asteroid_answered(v) && exists|f: int|
            first_with(v.cells, true, f) && after_asteroid(v) == (PlanetView {
                cells: v.cells.update(f, false),
                rocket: false,
                rocket_allowed: true,
            }),
        !asteroid_answered(v) ==> after_asteroid(v) == v,
        !v.rocket && !(v.rocket_allowed && v.cells.contains(true)) ==> !asteroid_answered(v),
{
    lemma_position_of(v.cells, true);
    if !v.rocket && v.rocket_allowed && v.cells.contains(true) {
        let f = position_of(v.cells, true)->0;
        assert(first_with(v.cells, true, f));
        assert(after_asteroid(v) == (PlanetView { cells: v.cells.update(f, false), rocket: false, rocket_allowed: true }));
    }
}

/// What an explorer's request for a basic resource gets, for every planet,
/// storage and generator:
/// - a kind other than Carbon is always refused as unsupported, and nothing
///   of the planet changes;
/// - a Carbon request is always served while Carbon is stored;
/// - with an empty storage it is served exactly when the generator knows
///   Carbon and a charged cell can be spared: with a rocket ready any charged
///   cell will do, without one the planet needs two (it refuses to spend its
///   last charge for the emergency rocket, and says so);
/// - a request served from a cell discharges the first charged cell and
///   nothing else, one charge less in all.
pub proof fn generate_answers(v: PlanetView, stock: nat, carbon_recipe: bool)
    ensures
        generate_refusal(v, stock, carbon_recipe, false) == Some(GenerateRefusal::Unsupported),
        after_generate(v, carbon_recipe, false) == v,
        stock > 0 ==> generate_refusal(v, stock, carbon_recipe, true) is None,
        generate_refusal(v, 0, carbon_recipe, true) is None <==> carbon_recipe && (if v.rocket {
            v.cells.contains(true)
        } else {
            count_charged(v.cells) >= 2
        }),
        generate_refusal(v, 0, carbon_recipe, true) == Some(GenerateRefusal::KeepingEmergencyCells)
            <==> !v.rocket && count_charged(v.cells) < 2,
        generate_refusal(v, 0, carbon_recipe, true) is None ==> {
            let after = after_generate(v, carbon_recipe, true);
            &&& after.rocket == v.rocket
            &&& after.rocket_allowed == v.rocket_allowed
            &&& after.cells.len() == v.cells.len()
            &&& count_charged(after.cells) + 1 == count_charged(v.cells)
            &&& exists|f: int|
                0 <= f < v.cells.len() && v.cells[f] && (forall|j: int| 0 <= j < f ==> !v.cells[j])
                    && after.cells == v.cells.update(f, false)
        },
        generate_refusal(v, 0, carbon_recipe, true) is Some ==> after_generate(v, carbon_recipe, true) == v,
{
    lemma_position_of(v.cells, true);
    lemma_count_positive(v.cells);
    if let Some(f) = position_of(v.cells, true) {
        lemma_count_update(v.cells, f, false);
    }
}

/// Generating a resource for an explorer never leaves the planet unable to
/// survive an asteroid it could have survived, and a served request spends
/// exactly one charge.
pub proof fn generate_keeps_emergency_rocket(v: PlanetView, carbon_recipe: bool, asked_carbon: bool)
    ensures
        can_survive_asteroid(v) ==> can_survive_asteroid(after_generate(v, carbon_recipe, asked_carbon)),
        after_generate(v, carbon_recipe, asked_carbon).rocket == v.rocket,
        carbon_served(v, carbon_recipe, asked_carbon) ==> count_charged(
            after_generate(v, carbon_recipe, asked_carbon).cells,
        ) + 1 == count_charged(v.cells),
{
    lemma_position_of(v.cells, true);
    if carbon_served(v, carbon_recipe, asked_carbon) {
        let f = position_of(v.cells, true)->0;
        let after = after_generate(v, carbon_recipe, asked_carbon);
        lemma_count_update(v.cells, f, false);
        lemma_count_positive(after.cells);
    }
}

/// Sunrays in a row fill a planet that may have a rocket: after one more
/// sunray than it has cells, the planet has its rocket and every cell is
/// charged.
pub proof fn sunrays_fill_planet(v: PlanetView, carbon_recipe: bool)
    requires
        v.rocket_allowed,
        v.cells.len() > 0,
    ensures
        after_sunrays(v, carbon_recipe, v.cells.len() + 1).rocket,
        !after_sunrays(v, carbon_recipe, v.cells.len() + 1).cells.contains(false),
        count_charged(after_sunrays(v, carbon_recipe, v.cells.len() + 1).cells) == v.cells.len(),
{
    let n = v.cells.len();
    sunrays_charge_steadily(v, carbon_recipe, n + 1);
    let last = after_sunrays(v, carbon_recipe, n + 1);
    lemma_count_bound(last.cells);
    lemma_count_full(last.cells);
}

/// Sunrays in a row on a planet that may have a rocket: after `k >= 1` of
/// them the planet has its rocket, its cells are as many as before, and at
/// least `min(k - 1, cells)` of them are charged.
pub proof fn sunrays_charge_steadily(v: PlanetView, carbon_recipe: bool, k: nat)
    requires
        v.rocket_allowed,
        v.cells.len() > 0,
        k >= 1,
    ensures
        after_sunrays(v, carbon_recipe, k).rocket,
        after_sunrays(v, carbon_recipe, k).rocket_allowed,
        after_sunrays(v, carbon_recipe, k).cells.len() == v.cells.len(),
        count_charged(after_sunrays(v, carbon_recipe, k).cells) >= if k - 1 <= v.cells.len() {
            (k - 1) as nat
        } else {
            v.cells.len()
        },
    decreases k,
{
    if k > 1 {
        let prev = after_sunrays(v, carbon_recipe, (k - 1) as nat);
        sunrays_charge_steadily(v, carbon_recipe, (k - 1) as nat);
        sunray_takes_nothing(prev, carbon_recipe);
        lemma_count_full(prev.cells);
        lemma_count_bound(prev.cells);
    } else {
        assert(after_sunrays(v, carbon_recipe, 0) == v);
        assert(after_sunrays(v, carbon_recipe, 1) == after_sunray(v, carbon_recipe));
        sunray_takes_nothing(v, carbon_recipe);
    }
}


/// A fresh planet: no rocket and no charged cell.
pub open spec fn is_fresh(v: PlanetView) -> bool {
    !v.rocket && !v.cells.contains(true)
}

/// Sunrays in a row on a fresh planet that may have a rocket and has cells:
/// after `k >= 1` of them the rocket is ready and exactly `min(k - 1, cells)`
/// cells are charged.
pub proof fn sunrays_from_fresh(v: PlanetView, carbon_recipe: bool, k: nat)
    requires
        is_fresh(v),
        v.rocket_allowed,
        v.cells.len() > 0,
        k >= 1,
    ensures
        after_sunrays(v, carbon_recipe, k).rocket,
        after_sunrays(v, carbon_recipe, k).cells.len() == v.cells.len(),
        count_charged(after_sunrays(v, carbon_recipe, k).cells) == if k - 1 <= v.cells.len() {
            (k - 1) as nat
        } else {
            v.cells.len()
        },
    decreases k,
{
    if k > 1 {
        let prev = after_sunrays(v, carbon_recipe, (k - 1) as nat);
        sunrays_from_fresh(v, carbon_recipe, (k - 1) as nat);
        sunrays_charge_steadily(v, carbon_recipe, (k - 1) as nat);
        sunray_takes_nothing(prev, carbon_recipe);
        lemma_count_full(prev.cells);
        lemma_count_bound(prev.cells);
        lemma_position_of(prev.cells, false);
        lemma_count_full(after_sunray(prev, carbon_recipe).cells);
        lemma_count_bound(after_sunray(prev, carbon_recipe).cells);
    } else {
        assert(after_sunrays(v, carbon_recipe, 0) == v);
        assert(after_sunrays(v, carbon_recipe, 1) == after_sunray(v, carbon_recipe));
        lemma_count_positive(v.cells);
    }
}

/// The planet after `j` asteroids in a row.
pub open spec fn after_asteroids(v: PlanetView, j: nat) -> PlanetView
    decreases j,
{
    if j == 0 {
        v
    } else {
        after_asteroid(after_asteroids(v, (j - 1) as nat))
    }
}

/// How many asteroids in a row the planet can deflect: its ready rocket and
/// one per charged cell.
pub open spec fn asteroid_reserve(v: PlanetView) -> nat {
    (if v.rocket {
        1nat
    } else {
        0nat
    }) + count_charged(v.cells)
}

/// One asteroid on a planet that may have a rocket uses up exactly one unit
/// of its reserve, if it has any; with none, the asteroid changes nothing.
pub proof fn asteroid_spends_one(v: PlanetView)
    requires
        v.rocket_allowed,
    ensures
        asteroid_answered(v) <==> asteroid_reserve(v) > 0,
        after_asteroid(v).rocket_allowed,
        asteroid_reserve(v) > 0 ==> asteroid_reserve(after_asteroid(v)) + 1 == asteroid_reserve(v),
        asteroid_reserve(v) == 0 ==> after_asteroid(v) == v,
{
    lemma_position_of(v.cells, true);
    lemma_count_positive(v.cells);
    if !v.rocket {
        if let Some(f) = position_of(v.cells, true) {
            lemma_count_update(v.cells, f, false);
        }
    }
}

/// Asteroids in a row on a planet that may have a rocket: the `j`-th one is
/// deflected exactly when `j` is below the planet's reserve (its ready rocket
/// plus its charged cells).
pub proof fn asteroids_in_a_row(v: PlanetView, j: nat)
    requires
        v.rocket_allowed,
    ensures
        asteroid_answered(after_asteroids(v, j)) <==> j < asteroid_reserve(v),
        after_asteroids(v, j).rocket_allowed,
        asteroid_reserve(after_asteroids(v, j)) == if j <= asteroid_reserve(v) {
            (asteroid_reserve(v) - j) as nat
        } else {
            0nat
        },
    decreases j,
{
    if j > 0 {
        let prev = after_asteroids(v, (j - 1) as nat);
        asteroids_in_a_row(v, (j - 1) as nat);
        asteroid_spends_one(prev);
        asteroid_spends_one(after_asteroid(prev));
    } else {
        asteroid_spends_one(v);
    }
}

} // verus!
