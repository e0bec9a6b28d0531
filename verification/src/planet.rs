//! Carbonium, an industrial planet of type A that generates Carbon and
//! combines nothing. Its handlers decide what becomes of each sunray,
//! asteroid and explorer request: the first priority is always to keep a
//! rocket for the next asteroid; sunrays that find the planet full are kept
//! as Carbon in a storage, from which Carbon requests are served first.
use crate::model::{
    after_asteroid, after_generate, after_sunray, asteroid_answered, can_survive_asteroid,
    carbon_served, count_charged, generate_refusal, ingredient_kinds, lemma_count_take_step,
    lemma_position_of, position_of, sunray_stores_carbon, PlanetView,
};
use crate::laws::generate_keeps_emergency_rocket;
use crate::outside::{
    build_rocket, cell, cell_charges, cell_mut, cells_count, charge, empty_cell, full_cell,
    generator_recipes, has_rocket, is_charged, make_carbon, planet_id, request_ingredients,
    request_kind, resource_kind, rocket_allowed, rocket_ready, take_rocket, to_dummy,
};
use crate::types::{
    BasicKind, ComplexKind, ExplorerRequest, ExplorerResponse, GenerateRefusal, PlanetKind,
    StateSummary, SunrayOutcome,
};
use common_game::components::planet::PlanetState;
use common_game::components::resource::{
    Carbon, ComplexResource, ComplexResourceRequest, GenericResource, Generator,
};
use common_game::components::rocket::Rocket;
use common_game::components::sunray::Sunray;
use vstd::prelude::*;

verus! {

/// The model of a planet state.
pub open spec fn view_of(state: PlanetState) -> PlanetView {
    PlanetView {
        cells: cell_charges(state),
        rocket: rocket_ready(state),
        rocket_allowed: rocket_allowed(state),
    }
}

/// The generator knows how to make Carbon.
pub open spec fn makes_carbon(generator: Generator) -> bool {
    generator_recipes(generator).contains(BasicKind::Carbon)
}

/// The outcome that the sunray handler reports for a planet.
pub open spec fn sunray_outcome(v: PlanetView, carbon_recipe: bool) -> SunrayOutcome {
    if v.rocket {
        if position_of(v.cells, false) is Some {
            SunrayOutcome::ChargedCell
        } else if sunray_stores_carbon(v, carbon_recipe) {
            SunrayOutcome::StoredCarbon
        } else {
            SunrayOutcome::NothingToCharge
        }
    } else if position_of(v.cells, false) is Some {
        SunrayOutcome::ChargedThenBuiltRocket
    } else if v.rocket_allowed && position_of(v.cells, true) is Some {
        SunrayOutcome::BuiltRocketThenCharged
    } else {
        SunrayOutcome::Failed
    }
}

/// Carbonium's planet type: A (five cells, a rocket allowed).
pub fn planet_kind() -> (k: PlanetKind)
    ensures
        k == PlanetKind::A,
{
    PlanetKind::A
}

/// The basic resources Carbonium generates: Carbon alone.
pub fn basic_resources() -> (r: Vec<BasicKind>)
    ensures
        r@ == seq![BasicKind::Carbon],
{
    vec![BasicKind::Carbon]
}

/// The complex resources Carbonium combines: none.
pub fn complex_resources() -> (r: Vec<ComplexKind>)
    ensures
        r@ == Seq::<ComplexKind>::empty(),
{
    Vec::new()
}

/// Charges the i-th cell with a sunray.
fn charge_cell_at(state: &mut PlanetState, i: usize, sunray: Sunray)
    requires
        i < cell_charges(*old(state)).len(),
    ensures
        cell_charges(*final(state)) == cell_charges(*old(state)).update(i as int, true),
        rocket_ready(*final(state)) == rocket_ready(*old(state)),
        rocket_allowed(*final(state)) == rocket_allowed(*old(state)),
        planet_id(*final(state)) == planet_id(*old(state)),
{
    let c = cell_mut(state, i);
    charge(c, sunray);
}

/// Handles an asteroid. A ready rocket is launched; without one, a rocket is
/// built from the first charged cell and launched. `None` means the planet is
/// lost, and then the state is left as it was.
pub fn handle_asteroid(state: &mut PlanetState) -> (r: Option<Rocket>)
    ensures
        r is Some == asteroid_answered(view_of(*old(state))),
        view_of(*final(state)) == after_asteroid(view_of(*old(state))),
        planet_id(*final(state)) == planet_id(*old(state)),
        r is None ==> *final(state) == *old(state),
{
    let ghost v = view_of(*state);
    proof {
        lemma_position_of(v.cells, true);
    }
    if has_rocket(state) {
        take_rocket(state)
    } else {
        match full_cell(state) {
            Some(i) => {
                let _ = build_rocket(state, i);
                take_rocket(state)
            },
            None => None,
        }
    }
}

/// Answers the orchestrator's request for the planet's internal state.
pub fn handle_internal_state_req(state: &PlanetState) -> (s: StateSummary)
    ensures
        s.energy_cells@ == cell_charges(*state),
        s.charged_cells_count == count_charged(cell_charges(*state)),
        s.has_rocket == rocket_ready(*state),
{
    to_dummy(state)
}

/// Refuses a combination: Carbonium combines nothing, and both ingredients
/// are handed back in the order of the request.
pub fn combine_resource(msg: ComplexResourceRequest) -> (r: Result<
    ComplexResource,
    (String, GenericResource, GenericResource),
>)
    ensures
        r matches Err((reason, first, second)) && reason@ == "Not supported"@ && (
        resource_kind(first),
        resource_kind(second),
        ) == ingredient_kinds(request_kind(msg)),
{
    let (first, second) = request_ingredients(msg);
    Err(("Not supported".to_owned(), first, second))
}

/// The number of charged cells, for an explorer.
pub fn available_energy_cells(state: &PlanetState) -> (n: u32)
    requires
        count_charged(cell_charges(*state)) <= u32::MAX,
    ensures
        n == count_charged(cell_charges(*state)),
{
    let ghost cells = cell_charges(*state);
    let len = cells_count(state);
    let mut charged: u32 = 0;
    let mut i: usize = 0;
    while i < len
        invariant
            len == cells.len(),
            cells == cell_charges(*state),
            count_charged(cells) <= u32::MAX,
            i <= len,
            charged == count_charged(cells.take(i as int)),
        decreases len - i,
    {
        proof {
            lemma_count_take_step(cells, i as int);
            lemma_count_take_monotone(cells, (i + 1) as int, len as int);
            assert(cells.take(len as int) =~= cells);
        }
        if is_charged(cell(state, i)) {
            charged = charged + 1;
        }
        i = i + 1;
    }
    proof {
        assert(cells.take(len as int) =~= cells);
    }
    charged
}

/// Counting a longer prefix never gives fewer charged cells.
proof fn lemma_count_take_monotone(cells: Seq<bool>, i: int, j: int)
    requires
        0 <= i <= j <= cells.len(),
    ensures
        count_charged(cells.take(i)) <= count_charged(cells.take(j)),
    decreases j - i,
{
    if i < j {
        lemma_count_take_step(cells, i);
        lemma_count_take_monotone(cells, i + 1, j);
    }
}

/// The Carbonium AI: its storage of Carbon made from surplus sunrays.
pub struct Carbonium {
    pub storage: Vec<Carbon>,
}

impl Carbonium {
    /// A Carbonium AI with an empty storage.
    pub fn new() -> (ai: Carbonium)
        ensures
            ai.storage@.len() == 0,
    {
        Carbonium { storage: Vec::new() }
    }

    /// Handles a sunray. With a rocket ready, the sunray charges the first
    /// uncharged cell; where every cell is charged, the first cell is turned
    /// into Carbon for the storage and the sunray charges it again. Without a
    /// rocket, the sunray goes into one: it charges the first uncharged cell
    /// and a rocket is built from that cell, or, where every cell is charged,
    /// a rocket is built from the first cell and the sunray charges it again.
    /// Where the sunray is of no use, nothing changes.
    pub fn handle_sunray(&mut self, state: &mut PlanetState, generator: &Generator, sunray: Sunray) -> (outcome:
        SunrayOutcome)
        ensures
            view_of(*final(state)) == after_sunray(view_of(*old(state)), makes_carbon(*generator)),
            outcome == sunray_outcome(view_of(*old(state)), makes_carbon(*generator)),
            final(self).storage@.len() == old(self).storage@.len() + if sunray_stores_carbon(
                view_of(*old(state)),
                makes_carbon(*generator),
            ) {
                1int
            } else {
                0int
            },
            !sunray_stores_carbon(view_of(*old(state)), makes_carbon(*generator)) ==> final(self).storage@
                == old(self).storage@,
            planet_id(*final(state)) == planet_id(*old(state)),
            (outcome == SunrayOutcome::NothingToCharge || outcome == SunrayOutcome::Failed)
                ==> *final(state) == *old(state),
    {
        let ghost v = view_of(*state);
        proof {
            lemma_position_of(v.cells, false);
            lemma_position_of(v.cells, true);
        }
        if has_rocket(state) {
            match empty_cell(state) {
                Some(i) => {
                    charge_cell_at(state, i, sunray);
                    SunrayOutcome::ChargedCell
                },
                None => match full_cell(state) {
                    Some(i) => {
                        let c = cell_mut(state, i);
                        match make_carbon(generator, c) {
                            Ok(carbon) => {
                                self.storage.push(carbon);
                                charge_cell_at(state, i, sunray);
                                assert(cell_charges(*state) =~= v.cells);
                                SunrayOutcome::StoredCarbon
                            },
                            Err(_) => SunrayOutcome::NothingToCharge,
                        }
                    },
                    None => SunrayOutcome::NothingToCharge,
                },
            }
        } else {
            match empty_cell(state) {
                Some(i) => {
                    charge_cell_at(state, i, sunray);
                    let _ = build_rocket(state, i);
                    proof {
                        if v.rocket_allowed {
                            assert(cell_charges(*state) =~= v.cells);
                        }
                    }
                    SunrayOutcome::ChargedThenBuiltRocket
                },
                None => {
                    match full_cell(state) {
                        Some(i) => {
                            let _ = build_rocket(state, i);
                            let ghost spent = cell_charges(*state);
                            proof {
                                lemma_position_of(spent, false);
                            }
                            match empty_cell(state) {
                                Some(j) => {
                                    assert(j == i);
                                    charge_cell_at(state, j, sunray);
                                    assert(cell_charges(*state) =~= v.cells);
                                    SunrayOutcome::BuiltRocketThenCharged
                                },
                                None => SunrayOutcome::Failed,
                            }
                        },
                        None => SunrayOutcome::Failed,
                    }
                },
            }
        }
    }

    /// Generates the requested basic resource for an explorer. Only Carbon is
    /// made. Stored Carbon is handed out first, leaving the planet as it was.
    /// Otherwise a charged cell is spent (the first one), but only where the
    /// planet keeps enough for an emergency rocket: without a rocket, at least
    /// two cells must be charged. A refused request changes nothing.
    pub fn generate_resource(&mut self, state: &mut PlanetState, generator: &Generator, resource: BasicKind) -> (r:
        Result<Carbon, GenerateRefusal>)
        ensures
            match r {
                Ok(_) => generate_refusal(
                    view_of(*old(state)),
                    old(self).storage@.len(),
                    makes_carbon(*generator),
                    resource == BasicKind::Carbon,
                ) is None,
                Err(e) => generate_refusal(
                    view_of(*old(state)),
                    old(self).storage@.len(),
                    makes_carbon(*generator),
                    resource == BasicKind::Carbon,
                ) == Some(e),
            },
            resource == BasicKind::Carbon && old(self).storage@.len() > 0 ==> {
                &&& final(self).storage@ == old(self).storage@.drop_last()
                &&& *final(state) == *old(state)
            },
            !(resource == BasicKind::Carbon && old(self).storage@.len() > 0) ==> {
                &&& final(self).storage@ == old(self).storage@
                &&& view_of(*final(state)) == after_generate(
                    view_of(*old(state)),
                    makes_carbon(*generator),
                    resource == BasicKind::Carbon,
                )
                &&& planet_id(*final(state)) == planet_id(*old(state))
                &&& r is Err ==> *final(state) == *old(state)
            },
    {
        let ghost v = view_of(*state);
        proof {
            lemma_position_of(v.cells, true);
        }
        match resource {
            BasicKind::Carbon => {},
            _ => {
                return Err(GenerateRefusal::Unsupported);
            },
        }
        if let Some(carbon) = self.storage.pop() {
            return Ok(carbon);
        }
        if !has_rocket(state) && to_dummy(state).charged_cells_count < 2 {
            return Err(GenerateRefusal::KeepingEmergencyCells);
        }
        match full_cell(state) {
            Some(i) => {
                let c = cell_mut(state, i);
                match make_carbon(generator, c) {
                    Ok(carbon) => Ok(carbon),
                    Err(_) => Err(GenerateRefusal::NoCarbon),
                }
            },
            None => Err(GenerateRefusal::NoCarbon),
        }
    }

    /// Handles a message from an explorer and returns the answer. No request
    /// leaves the planet unable to survive an asteroid it could survive.
    pub fn handle_explorer_msg(
        &mut self,
        state: &mut PlanetState,
        generator: &Generator,
        msg: ExplorerRequest,
    ) -> (r: ExplorerResponse)
        requires
            msg is AvailableEnergyCellRequest ==> count_charged(cell_charges(*old(state))) <= u32::MAX,
        ensures
            can_survive_asteroid(view_of(*old(state))) ==> can_survive_asteroid(view_of(*final(state))),
            planet_id(*final(state)) == planet_id(*old(state)),
            match msg {
                ExplorerRequest::SupportedResourceRequest { .. } => {
                    &&& r matches ExplorerResponse::SupportedResourceResponse { resource_list }
                        && resource_list@ == seq![BasicKind::Carbon]
                    &&& *final(state) == *old(state)
                    &&& final(self).storage@ == old(self).storage@
                },
                ExplorerRequest::SupportedCombinationRequest { .. } => {
                    &&& r matches ExplorerResponse::SupportedCombinationResponse { combination_list }
                        && combination_list@ == Seq::<ComplexKind>::empty()
                    &&& *final(state) == *old(state)
                    &&& final(self).storage@ == old(self).storage@
                },
                ExplorerRequest::GenerateResourceRequest { resource, .. } => {
                    let v = view_of(*old(state));
                    let stock = old(self).storage@.len();
                    let asked = resource == BasicKind::Carbon;
                    &&& r matches ExplorerResponse::GenerateResourceResponse { resource: made }
                        && match made {
                        Ok(_) => generate_refusal(v, stock, makes_carbon(*generator), asked) is None,
                        Err(e) => generate_refusal(v, stock, makes_carbon(*generator), asked) == Some(e),
                    }
                    &&& asked && stock > 0 ==> {
                        &&& final(self).storage@ == old(self).storage@.drop_last()
                        &&& *final(state) == *old(state)
                    }
                    &&& !(asked && stock > 0) ==> {
                        &&& final(self).storage@ == old(self).storage@
                        &&& view_of(*final(state)) == after_generate(v, makes_carbon(*generator), asked)
                        &&& (r matches ExplorerResponse::GenerateResourceResponse { resource: Err(_) }
                            ==> *final(state) == *old(state))
                    }
                },
                ExplorerRequest::CombineResourceRequest { msg: request, .. } => {
                    &&& r matches ExplorerResponse::CombineResourceResponse {
                        complex_response: Err((reason, first, second)),
                    } && reason@ == "Not supported"@ && (resource_kind(first), resource_kind(second))
                        == ingredient_kinds(request_kind(request))
                    &&& *final(state) == *old(state)
                    &&& final(self).storage@ == old(self).storage@
                },
                ExplorerRequest::AvailableEnergyCellRequest { .. } => {
                    &&& r matches ExplorerResponse::AvailableEnergyCellResponse { available_cells }
                        && available_cells == count_charged(cell_charges(*old(state)))
                    &&& *final(state) == *old(state)
                    &&& final(self).storage@ == old(self).storage@
                },
            },
    {
        proof {
            generate_keeps_emergency_rocket(
                view_of(*state),
                makes_carbon(*generator),
                msg matches ExplorerRequest::GenerateResourceRequest { resource, .. } && resource
                    == BasicKind::Carbon,
            );
        }
        match msg {
            ExplorerRequest::SupportedResourceRequest { .. } => {
                ExplorerResponse::SupportedResourceResponse { resource_list: basic_resources() }
            },
            ExplorerRequest::SupportedCombinationRequest { .. } => {
                ExplorerResponse::SupportedCombinationResponse { combination_list: complex_resources() }
            },
            ExplorerRequest::GenerateResourceRequest { resource, .. } => {
                ExplorerResponse::GenerateResourceResponse {
                    resource: self.generate_resource(state, generator, resource),
                }
            },
            ExplorerRequest::CombineResourceRequest { msg, .. } => {
                ExplorerResponse::CombineResourceResponse { complex_response: combine_resource(msg) }
            },
            ExplorerRequest::AvailableEnergyCellRequest { .. } => {
                ExplorerResponse::AvailableEnergyCellResponse {
                    available_cells: available_energy_cells(state),
                }
            },
        }
    }
}

} // verus!
