//! The planet machinery of `common_game` as the handlers see it: its types,
//! names for what they hold, and one wrapper per method that the handlers
//! call. Each contract below restates what the crate's source does.
use crate::model::{count_charged, ingredient_kinds, position_of};
use crate::types::{BasicKind, ComplexKind, ResourceKind, StateSummary};
use common_game::components::energy_cell::EnergyCell;
use common_game::components::planet::PlanetState;
use common_game::components::resource::{
    BasicResource, Carbon, ComplexResource, ComplexResourceRequest, GenericResource, Generator,
};
use common_game::components::resource::GenericResource::{BasicResources, ComplexResources};
use common_game::components::rocket::Rocket;
use common_game::components::sunray::Sunray;
use vstd::prelude::*;

verus! {

#[verifier::external_type_specification]
#[verifier::external_body]
pub struct ExPlanetState(PlanetState);

#[verifier::external_type_specification]
#[verifier::external_body]
pub struct ExEnergyCell(EnergyCell);

#[verifier::external_type_specification]
#[verifier::external_body]
pub struct ExSunray(Sunray);

#[verifier::external_type_specification]
#[verifier::external_body]
pub struct ExRocket(Rocket);

#[verifier::external_type_specification]
#[verifier::external_body]
pub struct ExGenerator(Generator);

#[verifier::external_type_specification]
#[verifier::external_body]
pub struct ExCarbon(Carbon);

#[verifier::external_type_specification]
#[verifier::external_body]
pub struct ExComplexResourceRequest(ComplexResourceRequest);

#[verifier::external_type_specification]
#[verifier::external_body]
pub struct ExGenericResource(GenericResource);

#[verifier::external_type_specification]
#[verifier::external_body]
pub struct ExComplexResource(ComplexResource);

/// The charge of each energy cell of a planet, in the order of its cell vector.
pub uninterp spec fn cell_charges(state: PlanetState) -> Seq<bool>;

/// A rocket is stored in the planet state.
pub uninterp spec fn rocket_ready(state: PlanetState) -> bool;

/// The planet type allows a rocket (fixed when the state was made).
pub uninterp spec fn rocket_allowed(state: PlanetState) -> bool;

/// The planet's id (fixed when the state was made).
pub uninterp spec fn planet_id(state: PlanetState) -> u32;

/// An energy cell holds a charge.
pub uninterp spec fn cell_charged(cell: EnergyCell) -> bool;

/// The basic resources a generator has a recipe for, each `BasicResourceType`
/// variant taken as the `BasicKind` variant of the same name.
pub uninterp spec fn generator_recipes(generator: Generator) -> Set<BasicKind>;

/// The kind of complex resource a combination request asks for (its variant).
pub uninterp spec fn request_kind(msg: ComplexResourceRequest) -> ComplexKind;

/// The kind of a resource: the variant of `GenericResource` and of the basic
/// or complex resource inside it.
pub uninterp spec fn resource_kind(r: GenericResource) -> ResourceKind;

/// `PlanetState::has_rocket`: whether a rocket is stored.
#[verifier::external_body]
pub(crate) fn has_rocket(state: &PlanetState) -> (r: bool)
    ensures
        r == rocket_ready(*state),
{
    state.has_rocket()
}

/// `PlanetState::cells_count`: the length of the cell vector.
#[verifier::external_body]
pub(crate) fn cells_count(state: &PlanetState) -> (n: usize)
    ensures
        n == cell_charges(*state).len(),
{
    state.cells_count()
}

/// `PlanetState::cell`: the i-th cell (the source indexes the vector, so `i`
/// must be in bounds).
#[verifier::external_body]
pub(crate) fn cell(state: &PlanetState, i: usize) -> (c: &EnergyCell)
    requires
        i < cell_charges(*state).len(),
    ensures
        cell_charged(*c) == cell_charges(*state)[i as int],
{
    state.cell(i)
}

/// `PlanetState::cell_mut`: the i-th cell, borrowed mutably; whatever the
/// borrow leaves in the cell is the planet's i-th charge afterwards, nothing
/// else of the planet changes, and a cell left as it was leaves the planet as
/// it was.
#[verifier::external_body]
pub(crate) fn cell_mut(state: &mut PlanetState, i: usize) -> (c: &mut EnergyCell)
    requires
        i < cell_charges(*old(state)).len(),
    ensures
        cell_charged(*c) == cell_charges(*old(state))[i as int],
        cell_charges(*final(state)) == cell_charges(*old(state)).update(
            i as int,
            cell_charged(*final(c)),
        ),
        rocket_ready(*final(state)) == rocket_ready(*old(state)),
        rocket_allowed(*final(state)) == rocket_allowed(*old(state)),
        planet_id(*final(state)) == planet_id(*old(state)),
        *final(c) == *c ==> *final(state) == *old(state),
{
    state.cell_mut(i)
}

/// `EnergyCell::is_charged`.
#[verifier::external_body]
pub(crate) fn is_charged(c: &EnergyCell) -> (r: bool)
    ensures
        r == cell_charged(*c),
{
    c.is_charged()
}

/// `EnergyCell::charge`: the cell is charged afterwards (a charged cell
/// stays charged and the sunray is lost).
#[verifier::external_body]
pub(crate) fn charge(c: &mut EnergyCell, sunray: Sunray)
    ensures
        cell_charged(*final(c)),
{
    c.charge(sunray)
}

/// `PlanetState::empty_cell`, of which only the index is kept: the position
/// of the first uncharged cell. The state is not changed.
#[verifier::external_body]
pub(crate) fn empty_cell(state: &mut PlanetState) -> (r: Option<usize>)
    ensures
        *final(state) == *old(state),
        match r {
            Some(i) => position_of(cell_charges(*old(state)), false) == Some(i as int),
            None => position_of(cell_charges(*old(state)), false) is None,
        },
{
    state.empty_cell().map(|(_, i)| i)
}

/// `PlanetState::full_cell`, of which only the index is kept: the position
/// of the first charged cell. The state is not changed.
#[verifier::external_body]
pub(crate) fn full_cell(state: &mut PlanetState) -> (r: Option<usize>)
    ensures
        *final(state) == *old(state),
        match r {
            Some(i) => position_of(cell_charges(*old(state)), true) == Some(i as int),
            None => position_of(cell_charges(*old(state)), true) is None,
        },
{
    state.full_cell().map(|(_, i)| i)
}

/// `PlanetState::build_rocket`: where rockets are allowed, none is stored yet
/// and the i-th cell is charged, that cell is discharged into a stored
/// rocket; otherwise an error is returned and the state is left as it was.
#[verifier::external_body]
pub(crate) fn build_rocket(state: &mut PlanetState, i: usize) -> (r: Result<(), String>)
    requires
        i < cell_charges(*old(state)).len(),
    ensures
        r is Ok <==> (rocket_allowed(*old(state)) && !rocket_ready(*old(state)) && cell_charges(
            *old(state),
        )[i as int]),
        r is Ok ==> {
            &&& cell_charges(*final(state)) == cell_charges(*old(state)).update(i as int, false)
            &&& rocket_ready(*final(state))
            &&& rocket_allowed(*final(state)) == rocket_allowed(*old(state))
            &&& planet_id(*final(state)) == planet_id(*old(state))
        },
        r is Err ==> *final(state) == *old(state),
{
    state.build_rocket(i)
}

/// `PlanetState::take_rocket`: hands out the stored rocket, if any, and
/// leaves none behind; the cells are untouched, and without a rocket nothing
/// changes.
#[verifier::external_body]
pub(crate) fn take_rocket(state: &mut PlanetState) -> (r: Option<Rocket>)
    ensures
        r is Some <==> rocket_ready(*old(state)),
        !rocket_ready(*final(state)),
        cell_charges(*final(state)) == cell_charges(*old(state)),
        rocket_allowed(*final(state)) == rocket_allowed(*old(state)),
        planet_id(*final(state)) == planet_id(*old(state)),
        !rocket_ready(*old(state)) ==> *final(state) == *old(state),
{
    state.take_rocket()
}

/// `PlanetState::to_dummy`: the charge of every cell, the number of charged
/// cells and whether a rocket is stored.
#[verifier::external_body]
pub(crate) fn to_dummy(state: &PlanetState) -> (s: StateSummary)
    ensures
        s.energy_cells@ == cell_charges(*state),
        s.charged_cells_count == count_charged(cell_charges(*state)),
        s.has_rocket == rocket_ready(*state),
{
    let d = state.to_dummy();
    StateSummary {
        energy_cells: d.energy_cells,
        charged_cells_count: d.charged_cells_count,
        has_rocket: d.has_rocket,
    }
}

/// `Generator::make_carbon`: with a Carbon recipe and a charged cell, the
/// cell is discharged into Carbon; otherwise an error is returned and the
/// cell is left as it was.
#[verifier::external_body]
pub(crate) fn make_carbon(generator: &Generator, c: &mut EnergyCell) -> (r: Result<Carbon, String>)
    ensures
        r is Ok <==> (generator_recipes(*generator).contains(BasicKind::Carbon) && cell_charged(
            *old(c),
        )),
        cell_charged(*final(c)) == (cell_charged(*old(c)) && !(r is Ok)),
        r is Err ==> *final(c) == *old(c),
{
    generator.make_carbon(c)
}

/// The two ingredients of a combination request, each moved into a generic
/// resource, in the order the request holds them: their kinds are the
/// recipe's ingredient kinds for the requested resource.
#[verifier::external_body]
pub(crate) fn request_ingredients(msg: ComplexResourceRequest) -> (r: (GenericResource, GenericResource))
    ensures
        (resource_kind(r.0), resource_kind(r.1)) == ingredient_kinds(request_kind(msg)),
{
    match msg {
        ComplexResourceRequest::Water(h, o) => (BasicResources(BasicResource::Hydrogen(h)), BasicResources(BasicResource::Oxygen(o))),
        ComplexResourceRequest::Diamond(c1, c2) => (BasicResources(BasicResource::Carbon(c1)), BasicResources(BasicResource::Carbon(c2))),
        ComplexResourceRequest::Life(w, c) => (ComplexResources(ComplexResource::Water(w)), BasicResources(BasicResource::Carbon(c))),
        ComplexResourceRequest::Robot(s, l) => (BasicResources(BasicResource::Silicon(s)), ComplexResources(ComplexResource::Life(l))),
        ComplexResourceRequest::Dolphin(w, l) => (ComplexResources(ComplexResource::Water(w)), ComplexResources(ComplexResource::Life(l))),
        ComplexResourceRequest::AIPartner(r, d) => (ComplexResources(ComplexResource::Robot(r)), ComplexResources(ComplexResource::Diamond(d))),
    }
}

} // verus!
