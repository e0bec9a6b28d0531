//! The mathematical model of a planet: its energy cells as a sequence of
//! charge flags, whether a rocket stands ready, and whether the planet type
//! allows a rocket at all. Every handler of the planet is specified as a
//! function from one such view to the next.
use crate::types::{BasicKind, ComplexKind, GenerateRefusal, ResourceKind};
use vstd::prelude::*;

verus! {

/// What the handlers read of a planet's state.
#[verifier::ext_equal]
pub struct PlanetView {
    /// `cells[i]` holds when the i-th energy cell is charged.
    pub cells: Seq<bool>,
    /// A rocket is built and ready to launch.
    pub rocket: bool,
    /// The planet type allows storing a rocket.
    pub rocket_allowed: bool,
}

/// The index of the first cell whose charge flag is `value`, if there is one.
pub open spec fn position_of(cells: Seq<bool>, value: bool) -> Option<int>
    decreases cells.len(),
{
    if cells.len() == 0 {
        None
    } else if cells[0] == value {
        Some(0)
    } else {
        match position_of(cells.drop_first(), value) {
            Some(i) => Some(i + 1),
            None => None,
        }
    }
}

/// The number of charged cells.
pub open spec fn count_charged(cells: Seq<bool>) -> nat
    decreases cells.len(),
{
    if cells.len() == 0 {
        0
    } else {
        count_charged(cells.drop_last()) + if cells.last() {
            1nat
        } else {
            0nat
        }
    }
}

/// The planet survives an asteroid: it has a rocket, or it may build one and
/// has a charged cell to build it from.
pub open spec fn can_survive_asteroid(v: PlanetView) -> bool {
    v.rocket || (v.rocket_allowed && v.cells.contains(true))
}

/// The planet with the first uncharged cell charged, if there is one.
pub open spec fn charge_first_empty(v: PlanetView) -> PlanetView {
    match position_of(v.cells, false) {
        Some(e) => PlanetView { cells: v.cells.update(e, true), rocket: v.rocket, rocket_allowed: v.rocket_allowed },
        None => v,
    }
}

/// A sunray reaches a planet whose rocket is ready and whose cells are all
/// charged (there is at least one), and the generator knows Carbon: the
/// sunray is turned into Carbon for the storage.
pub open spec fn sunray_stores_carbon(v: PlanetView, carbon_recipe: bool) -> bool {
    &&& v.rocket
    &&& position_of(v.cells, false) is None
    &&& position_of(v.cells, true) is Some
    &&& carbon_recipe
}

/// The planet after a sunray. Without a rocket (and where one is allowed and a
/// cell exists) the sunray ends up as a rocket and the charges stay as they
/// were; where it is stored as Carbon the charges stay as they were too;
/// otherwise it charges the first uncharged cell, if any.
pub open spec fn after_sunray(v: PlanetView, carbon_recipe: bool) -> PlanetView {
    if !v.rocket && v.rocket_allowed && v.cells.len() > 0 {
        PlanetView { cells: v.cells, rocket: true, rocket_allowed: v.rocket_allowed }
    } else if sunray_stores_carbon(v, carbon_recipe) {
        v
    } else {
        charge_first_empty(v)
    }
}

/// A rocket is handed out when an asteroid comes.
pub open spec fn asteroid_answered(v: PlanetView) -> bool {
    v.rocket || (v.rocket_allowed && position_of(v.cells, true) is Some)
}

/// The planet after an asteroid: a ready rocket is used; otherwise the first
/// charged cell (where a rocket is allowed) is spent on a rocket that is used
/// at once.
pub open spec fn after_asteroid(v: PlanetView) -> PlanetView {
    if v.rocket {
        PlanetView { cells: v.cells, rocket: false, rocket_allowed: v.rocket_allowed }
    } else {
        match position_of(v.cells, true) {
            Some(f) => if v.rocket_allowed {
                PlanetView { cells: v.cells.update(f, false), rocket: false, rocket_allowed: v.rocket_allowed }
            } else {
                v
            },
            None => v,
        }
    }
}

/// A request for Carbon is served: Carbon was asked for, the planet keeps
/// what it needs for an emergency rocket (it has a rocket or two charged
/// cells), a charged cell exists and the generator knows the recipe.
pub open spec fn carbon_served(v: PlanetView, carbon_recipe: bool, asked_carbon: bool) -> bool {
    &&& asked_carbon
    &&& (v.rocket || count_charged(v.cells) >= 2)
    &&& position_of(v.cells, true) is Some
    &&& carbon_recipe
}

/// Why a request for a basic resource is refused, if it is: only Carbon is
/// made; stored Carbon is handed out first; otherwise a charged cell is spent,
/// but only where the planet keeps what it needs for an emergency rocket.
pub open spec fn generate_refusal(v: PlanetView, stock: nat, carbon_recipe: bool, asked_carbon: bool) -> Option<
    GenerateRefusal,
> {
    if !asked_carbon {
        Some(GenerateRefusal::Unsupported)
    } else if stock > 0 {
        None
    } else if !v.rocket && count_charged(v.cells) < 2 {
        Some(GenerateRefusal::KeepingEmergencyCells)
    } else if carbon_served(v, carbon_recipe, asked_carbon) {
        None
    } else {
        Some(GenerateRefusal::NoCarbon)
    }
}

/// The kinds of the two ingredients of a complex resource, in recipe order.
pub open spec fn ingredient_kinds(k: ComplexKind) -> (ResourceKind, ResourceKind) {
    match k {
        ComplexKind::Water => (ResourceKind::Basic(BasicKind::Hydrogen), ResourceKind::Basic(BasicKind::Oxygen)),
        ComplexKind::Diamond => (ResourceKind::Basic(BasicKind::Carbon), ResourceKind::Basic(BasicKind::Carbon)),
        ComplexKind::Life => (ResourceKind::Complex(ComplexKind::Water), ResourceKind::Basic(BasicKind::Carbon)),
        ComplexKind::Robot => (ResourceKind::Basic(BasicKind::Silicon), ResourceKind::Complex(ComplexKind::Life)),
        ComplexKind::Dolphin => (ResourceKind::Complex(ComplexKind::Water), ResourceKind::Complex(ComplexKind::Life)),
        ComplexKind::AIPartner => (ResourceKind::Complex(ComplexKind::Robot), ResourceKind::Complex(ComplexKind::Diamond)),
    }
}

/// The planet after a request to generate a resource from its cells (the
/// storage being empty): the first charged cell is spent where the request
/// is served.
pub open spec fn after_generate(v: PlanetView, carbon_recipe: bool, asked_carbon: bool) -> PlanetView {
    if carbon_served(v, carbon_recipe, asked_carbon) {
        PlanetView {
            cells: v.cells.update(position_of(v.cells, true)->0, false),
            rocket: v.rocket,
            rocket_allowed: v.rocket_allowed,
        }
    } else {
        v
    }
}

/// `position_of` finds the first cell with the given flag.
pub proof fn lemma_position_of(cells: Seq<bool>, value: bool)
    ensures
        match position_of(cells, value) {
            Some(i) => {
                &&& 0 <= i < cells.len()
                &&& cells[i] == value
                &&& forall|j: int| 0 <= j < i ==> cells[j] != value
            },
            None => forall|j: int| 0 <= j < cells.len() ==> cells[j] != value,
        },
        position_of(cells, value) is Some <==> cells.contains(value),
    decreases cells.len(),
{
    if cells.len() > 0 && cells[0] != value {
        let rest = cells.drop_first();
        lemma_position_of(rest, value);
        assert forall|j: int| 1 <= j < cells.len() implies cells[j] == rest[j - 1] by {}
        if rest.contains(value) {
            let k = choose|k: int| 0 <= k < rest.len() && rest[k] == value;
            assert(cells[k + 1] == value);
        }
        if cells.contains(value) {
            let k = choose|k: int| 0 <= k < cells.len() && cells[k] == value;
            assert(rest[k - 1] == value);
        }
    } else if cells.len() > 0 {
        assert(cells[0] == value);
    }
}

/// The charge count never exceeds the number of cells.
pub proof fn lemma_count_bound(cells: Seq<bool>)
    ensures
        count_charged(cells) <= cells.len(),
    decreases cells.len(),
{
    if cells.len() > 0 {
        lemma_count_bound(cells.drop_last());
    }
}

/// The charge count is positive exactly when some cell is charged.
pub proof fn lemma_count_positive(cells: Seq<bool>)
    ensures
        count_charged(cells) > 0 <==> cells.contains(true),
    decreases cells.len(),
{
    if cells.len() > 0 {
        let init = cells.drop_last();
        lemma_count_positive(init);
        if init.contains(true) {
            let k = choose|k: int| 0 <= k < init.len() && init[k] == true;
            assert(cells[k] == true);
        }
        if cells.contains(true) && !cells.last() {
            let k = choose|k: int| 0 <= k < cells.len() && cells[k] == true;
            assert(k < cells.len() - 1);
            assert(init[k] == true);
        }
        if cells.last() {
            assert(cells[cells.len() - 1] == true);
        }
    }
}

/// The charge count is full exactly when no cell is uncharged.
pub proof fn lemma_count_full(cells: Seq<bool>)
    ensures
        count_charged(cells) == cells.len() <==> !cells.contains(false),
    decreases cells.len(),
{
    if cells.len() > 0 {
        let init = cells.drop_last();
        lemma_count_full(init);
        lemma_count_bound(init);
        if init.contains(false) {
            let k = choose|k: int| 0 <= k < init.len() && init[k] == false;
            assert(cells[k] == false);
        }
        if cells.contains(false) && cells.last() {
            let k = choose|k: int| 0 <= k < cells.len() && cells[k] == false;
            assert(k < cells.len() - 1);
            assert(init[k] == false);
        }
        if !cells.last() {
            assert(cells[cells.len() - 1] == false);
        }
    }
}

/// Setting one flag changes the charge count by the difference it makes.
pub proof fn lemma_count_update(cells: Seq<bool>, i: int, b: bool)
    requires
        0 <= i < cells.len(),
    ensures
        count_charged(cells.update(i, b)) + (if cells[i] { 1int } else { 0int }) == count_charged(cells) + (
        if b {
            1int
        } else {
            0int
        }),
    decreases cells.len(),
{
    let u = cells.update(i, b);
    if i == cells.len() - 1 {
        assert(u.drop_last() =~= cells.drop_last());
    } else {
        lemma_count_update(cells.drop_last(), i, b);
        assert(u.drop_last() =~= cells.drop_last().update(i, b));
    }
}

/// Counting a prefix one cell further adds that cell's charge.
pub proof fn lemma_count_take_step(cells: Seq<bool>, i: int)
    requires
        0 <= i < cells.len(),
    ensures
        count_charged(cells.take(i + 1)) == count_charged(cells.take(i)) + if cells[i] {
            1nat
        } else {
            0nat
        },
{
    assert(cells.take(i + 1).drop_last() =~= cells.take(i));
}

} // verus!
