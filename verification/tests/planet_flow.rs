use carbonium::planet::{handle_asteroid, handle_internal_state_req, Carbonium};
use carbonium::types::{BasicKind, ExplorerRequest, ExplorerResponse, GenerateRefusal, SunrayOutcome};
use common_game::components::forge::Forge;
use common_game::components::planet::{
    DummyPlanetState, Planet, PlanetAI, PlanetState, PlanetType,
};
use common_game::components::resource::{
    BasicResource, BasicResourceType, Combinator, ComplexResourceRequest, ComplexResourceType,
    GenericResource, Generator,
};
use common_game::components::rocket::Rocket;
use common_game::components::sunray::Sunray;
use common_game::protocols::orchestrator_planet::{OrchestratorToPlanet, PlanetToOrchestrator};
use common_game::protocols::planet_explorer::{ExplorerToPlanet, PlanetToExplorer};
use crossbeam_channel::{unbounded, Receiver, Sender};
use std::collections::HashSet;
use std::sync::{Arc, Mutex, OnceLock};

static FORGE: OnceLock<Forge> = OnceLock::new();

fn forge() -> &'static Forge {
    FORGE.get_or_init(|| Forge::new().unwrap())
}

/// A planet AI that hands every event to the library's handlers and records
/// what became of each sunray and of each refused generate request.
struct LibraryAi {
    ai: Carbonium,
    outcomes: Arc<Mutex<Vec<SunrayOutcome>>>,
    refusals: Arc<Mutex<Vec<GenerateRefusal>>>,
}

fn kind_of(t: BasicResourceType) -> BasicKind {
    match t {
        BasicResourceType::Oxygen => BasicKind::Oxygen,
        BasicResourceType::Hydrogen => BasicKind::Hydrogen,
        BasicResourceType::Carbon => BasicKind::Carbon,
        BasicResourceType::Silicon => BasicKind::Silicon,
    }
}

fn type_of(k: BasicKind) -> BasicResourceType {
    match k {
        BasicKind::Oxygen => BasicResourceType::Oxygen,
        BasicKind::Hydrogen => BasicResourceType::Hydrogen,
        BasicKind::Carbon => BasicResourceType::Carbon,
        BasicKind::Silicon => BasicResourceType::Silicon,
    }
}

impl PlanetAI for LibraryAi {
    fn handle_sunray(&mut self, state: &mut PlanetState, generator: &Generator, _: &Combinator, sunray: Sunray) {
        let outcome = self.ai.handle_sunray(state, generator, sunray);
        self.outcomes.lock().unwrap().push(outcome);
    }

    fn handle_asteroid(&mut self, state: &mut PlanetState, _: &Generator, _: &Combinator) -> Option<Rocket> {
        handle_asteroid(state)
    }

    fn handle_internal_state_req(
        &mut self,
        state: &mut PlanetState,
        _: &Generator,
        _: &Combinator,
    ) -> DummyPlanetState {
        let s = handle_internal_state_req(state);
        DummyPlanetState {
            energy_cells: s.energy_cells,
            charged_cells_count: s.charged_cells_count,
            has_rocket: s.has_rocket,
        }
    }

    fn handle_explorer_msg(
        &mut self,
        state: &mut PlanetState,
        generator: &Generator,
        _: &Combinator,
        msg: ExplorerToPlanet,
    ) -> Option<PlanetToExplorer> {
        let request = match msg {
            ExplorerToPlanet::SupportedResourceRequest { explorer_id } => {
                ExplorerRequest::SupportedResourceRequest { explorer_id }
            }
            ExplorerToPlanet::SupportedCombinationRequest { explorer_id } => {
                ExplorerRequest::SupportedCombinationRequest { explorer_id }
            }
            ExplorerToPlanet::GenerateResourceRequest { explorer_id, resource } => {
                ExplorerRequest::GenerateResourceRequest { explorer_id, resource: kind_of(resource) }
            }
            ExplorerToPlanet::CombineResourceRequest { explorer_id, msg } => {
                ExplorerRequest::CombineResourceRequest { explorer_id, msg }
            }
            ExplorerToPlanet::AvailableEnergyCellRequest { explorer_id } => {
                ExplorerRequest::AvailableEnergyCellRequest { explorer_id }
            }
        };
        Some(match self.ai.handle_explorer_msg(state, generator, request) {
            ExplorerResponse::SupportedResourceResponse { resource_list } => {
                PlanetToExplorer::SupportedResourceResponse {
                    resource_list: resource_list.into_iter().map(type_of).collect(),
                }
            }
            ExplorerResponse::SupportedCombinationResponse { combination_list } => {
                assert!(combination_list.is_empty());
                PlanetToExplorer::SupportedCombinationResponse { combination_list: HashSet::new() }
            }
            ExplorerResponse::GenerateResourceResponse { resource } => {
                if let Err(e) = &resource {
                    self.refusals.lock().unwrap().push(*e);
                }
                PlanetToExplorer::GenerateResourceResponse { resource: resource.ok().map(BasicResource::Carbon) }
            }
            ExplorerResponse::CombineResourceResponse { complex_response } => {
                PlanetToExplorer::CombineResourceResponse { complex_response }
            }
            ExplorerResponse::AvailableEnergyCellResponse { available_cells } => {
                PlanetToExplorer::AvailableEnergyCellResponse { available_cells }
            }
        })
    }
}

/// A type A planet driven by the library, fed message by message on one thread.
struct Harness {
    planet: Planet,
    to_planet: Sender<OrchestratorToPlanet>,
    from_planet: Receiver<PlanetToOrchestrator>,
    explorers: Sender<ExplorerToPlanet>,
    outcomes: Arc<Mutex<Vec<SunrayOutcome>>>,
    refusals: Arc<Mutex<Vec<GenerateRefusal>>>,
}

impl Harness {
    fn new() -> Harness {
        Harness::of_type(PlanetType::A)
    }

    fn of_type(planet_type: PlanetType) -> Harness {
        let outcomes = Arc::new(Mutex::new(Vec::new()));
        let refusals = Arc::new(Mutex::new(Vec::new()));
        let (to_planet, rx_orchestrator) = unbounded();
        let (tx_orchestrator, from_planet) = unbounded();
        let (explorers, rx_explorer) = unbounded();
        let planet = Planet::new(
            0,
            planet_type,
            Box::new(LibraryAi { ai: Carbonium::new(), outcomes: outcomes.clone(), refusals: refusals.clone() }),
            vec![BasicResourceType::Carbon],
            vec![],
            (rx_orchestrator, tx_orchestrator),
            rx_explorer,
        )
        .unwrap();
        Harness { planet, to_planet, from_planet, explorers, outcomes, refusals }
    }

    /// Starts the planet, hands it the messages, kills it, and returns its
    /// answers to the messages.
    fn orchestrate(&mut self, msgs: Vec<OrchestratorToPlanet>) -> Vec<PlanetToOrchestrator> {
        self.to_planet.send(OrchestratorToPlanet::StartPlanetAI).unwrap();
        for m in msgs {
            self.to_planet.send(m).unwrap();
        }
        self.to_planet.send(OrchestratorToPlanet::KillPlanet).unwrap();
        assert!(self.planet.run().is_ok());
        let mut answers: Vec<PlanetToOrchestrator> = self.from_planet.try_iter().collect();
        assert!(matches!(answers.remove(0), PlanetToOrchestrator::StartPlanetAIResult { planet_id: 0 }));
        assert!(matches!(answers.pop(), Some(PlanetToOrchestrator::KillPlanetResult { planet_id: 0 })));
        answers
    }

    fn sunrays(&mut self, n: usize) {
        let msgs = (0..n).map(|_| OrchestratorToPlanet::Sunray(forge().generate_sunray())).collect();
        for a in self.orchestrate(msgs) {
            assert!(matches!(a, PlanetToOrchestrator::SunrayAck { planet_id: 0 }));
        }
    }

    fn sunray_outcomes(&self) -> Vec<SunrayOutcome> {
        self.outcomes.lock().unwrap().drain(..).collect()
    }

    fn refusals(&self) -> Vec<GenerateRefusal> {
        self.refusals.lock().unwrap().drain(..).collect()
    }

    fn asteroid(&mut self) -> Option<Rocket> {
        let mut answers = self.orchestrate(vec![OrchestratorToPlanet::Asteroid(forge().generate_asteroid())]);
        assert_eq!(answers.len(), 1);
        match answers.remove(0) {
            PlanetToOrchestrator::AsteroidAck { planet_id: 0, rocket } => rocket,
            _ => panic!("Unexpected response from planet."),
        }
    }

    fn state(&mut self) -> DummyPlanetState {
        let mut answers = self.orchestrate(vec![OrchestratorToPlanet::InternalStateRequest]);
        assert_eq!(answers.len(), 1);
        match answers.remove(0) {
            PlanetToOrchestrator::InternalStateResponse { planet_id: 0, planet_state } => planet_state,
            _ => panic!("Unexpected response from planet."),
        }
    }

    /// Lands explorer 0 and hands the planet its requests; a last request
    /// from explorer 1, whose channel is closed, stops the planet.
    fn explore(&mut self, requests: Vec<ExplorerToPlanet>) -> Vec<PlanetToExplorer> {
        let (tx0, rx0) = unbounded();
        let (tx1, rx1) = unbounded();
        drop(rx1);
        self.to_planet.send(OrchestratorToPlanet::StartPlanetAI).unwrap();
        self.to_planet
            .send(OrchestratorToPlanet::IncomingExplorerRequest { explorer_id: 0, new_sender: tx0 })
            .unwrap();
        self.to_planet
            .send(OrchestratorToPlanet::IncomingExplorerRequest { explorer_id: 1, new_sender: tx1 })
            .unwrap();
        for r in requests {
            self.explorers.send(r).unwrap();
        }
        self.explorers.send(ExplorerToPlanet::SupportedResourceRequest { explorer_id: 1 }).unwrap();
        assert!(self.planet.run().is_err());
        let answers: Vec<PlanetToOrchestrator> = self.from_planet.try_iter().collect();
        assert_eq!(answers.len(), 3);
        assert!(matches!(
            answers[1],
            PlanetToOrchestrator::IncomingExplorerResponse { planet_id: 0, explorer_id: 0, res: Ok(()) }
        ));
        rx0.try_iter().collect()
    }

    fn explore_one(&mut self, request: ExplorerToPlanet) -> PlanetToExplorer {
        let mut answers = self.explore(vec![request]);
        assert_eq!(answers.len(), 1);
        answers.remove(0)
    }
}

fn generate(resource: BasicResourceType) -> ExplorerToPlanet {
    ExplorerToPlanet::GenerateResourceRequest { explorer_id: 0, resource }
}

#[test]
fn orchestrator_to_planet_state_request() {
    let mut h = Harness::new();
    let s = h.state();
    assert!(!s.has_rocket && s.charged_cells_count == 0, "The planet should be empty.");
    assert_eq!(s.energy_cells, vec![false; 5]);
}

#[test]
fn first_sunray_builds_rocket() {
    let mut h = Harness::new();
    h.sunrays(1);
    let s = h.state();
    assert!(
        s.has_rocket && s.charged_cells_count == 0,
        "The first sunray received should be used to build a Rocket."
    );
}

#[test]
fn sunrays_fill_every_cell() {
    let mut h = Harness::new();
    h.sunrays(6);
    let s = h.state();
    assert!(s.has_rocket);
    assert_eq!(s.charged_cells_count, s.energy_cells.len());
    assert_eq!(s.energy_cells, vec![true; 5]);
    // A full planet with a rocket keeps the sunray as Carbon and stays full.
    h.sunrays(1);
    let s = h.state();
    assert!(s.has_rocket && s.charged_cells_count == 5);
}

#[test]
fn sunray_charges_first_empty_cell() {
    let mut h = Harness::new();
    h.sunrays(3);
    let s = h.state();
    assert!(s.has_rocket);
    assert_eq!(s.energy_cells, vec![true, true, false, false, false]);
}

#[test]
fn generating_spends_first_charged_cell() {
    let mut h = Harness::new();
    h.sunrays(4);
    let answer = h.explore_one(generate(BasicResourceType::Carbon));
    assert!(matches!(
        answer,
        PlanetToExplorer::GenerateResourceResponse { resource: Some(BasicResource::Carbon(_)) }
    ));
    let s = h.state();
    assert!(s.has_rocket);
    assert_eq!(s.energy_cells, vec![false, true, true, false, false]);
    assert_eq!(s.charged_cells_count, 2);
}

#[test]
fn sunray_without_rocket_on_full_planet_builds_rocket() {
    let mut h = Harness::new();
    h.sunrays(6);
    assert!(h.asteroid().is_some());
    // No rocket, every cell charged: a rocket is built and the cell recharged.
    h.sunrays(1);
    let s = h.state();
    assert!(s.has_rocket && s.charged_cells_count == 5);
}

#[test]
fn explorer_to_planet_supported_basic_resources() {
    let mut h = Harness::new();
    let answer = h.explore_one(ExplorerToPlanet::SupportedResourceRequest { explorer_id: 0 });
    if let PlanetToExplorer::SupportedResourceResponse { resource_list } = answer {
        assert_eq!(resource_list, HashSet::from([BasicResourceType::Carbon]), "Only Carbon is supported.");
    } else {
        panic!("Unexpected response from planet.");
    }
}

#[test]
fn explorer_to_planet_supported_combinations() {
    let mut h = Harness::new();
    let answer = h.explore_one(ExplorerToPlanet::SupportedCombinationRequest { explorer_id: 0 });
    if let PlanetToExplorer::SupportedCombinationResponse { combination_list } = answer {
        assert_eq!(combination_list, HashSet::<ComplexResourceType>::new(), "No ComplexResource is supported.");
    } else {
        panic!("Unexpected response from planet.");
    }
}

#[test]
fn explorer_to_planet_generate_resource() {
    let mut h = Harness::new();
    let answer = h.explore_one(generate(BasicResourceType::Carbon));
    assert!(matches!(answer, PlanetToExplorer::GenerateResourceResponse { resource: None }));

    h.sunrays(2);

    let answer = h.explore_one(generate(BasicResourceType::Carbon));
    assert!(matches!(
        answer,
        PlanetToExplorer::GenerateResourceResponse { resource: Some(BasicResource::Carbon(_)) }
    ));

    let others = [BasicResourceType::Hydrogen, BasicResourceType::Silicon, BasicResourceType::Oxygen];
    let answers = h.explore(others.into_iter().map(generate).collect());
    assert_eq!(answers.len(), 3);
    for a in answers {
        assert!(matches!(a, PlanetToExplorer::GenerateResourceResponse { resource: None }));
    }
}

#[test]
fn generate_keeps_cell_for_emergency_rocket() {
    let mut h = Harness::new();
    h.sunrays(6);
    assert!(h.asteroid().is_some());
    // No rocket and five charged cells: four Carbons may be made, then the
    // planet keeps its last charged cell.
    let answers = h.explore((0..5).map(|_| generate(BasicResourceType::Carbon)).collect());
    let made: Vec<bool> = answers
        .iter()
        .map(|a| matches!(a, PlanetToExplorer::GenerateResourceResponse { resource: Some(_) }))
        .collect();
    assert_eq!(made, vec![true, true, true, true, false]);
    let s = h.state();
    assert!(!s.has_rocket);
    assert_eq!(s.charged_cells_count, 1);
    assert!(h.asteroid().is_some(), "The last cell still builds a rocket.");
}

#[test]
fn explorer_to_planet_combine_resource() {
    let mut h = Harness::new();
    h.sunrays(3);
    let answers = h.explore(vec![generate(BasicResourceType::Carbon), generate(BasicResourceType::Carbon)]);
    let mut carbons = Vec::new();
    for a in answers {
        if let PlanetToExplorer::GenerateResourceResponse { resource: Some(BasicResource::Carbon(c)) } = a {
            carbons.push(c);
        }
    }
    assert_eq!(carbons.len(), 2);
    let answer = h.explore_one(ExplorerToPlanet::CombineResourceRequest {
        explorer_id: 0,
        msg: ComplexResourceRequest::Diamond(carbons.pop().unwrap(), carbons.pop().unwrap()),
    });
    match answer {
        PlanetToExplorer::CombineResourceResponse {
            complex_response:
                Err((
                    reason,
                    GenericResource::BasicResources(BasicResource::Carbon(_)),
                    GenericResource::BasicResources(BasicResource::Carbon(_)),
                )),
        } => assert_eq!(reason, "Not supported"),
        _ => panic!("Unexpected response from planet."),
    }
}

#[test]
fn explorer_to_planet_available_energy_cells() {
    let mut h = Harness::new();
    h.sunrays(3);
    let answer = h.explore_one(ExplorerToPlanet::AvailableEnergyCellRequest { explorer_id: 0 });
    assert!(matches!(answer, PlanetToExplorer::AvailableEnergyCellResponse { available_cells: 2 }));
}

#[test]
fn orchestrator_to_planet_asteroid() {
    let mut h = Harness::new();
    h.sunrays(2);
    // First the ready Rocket is used, then one is built on the fly.
    assert!(h.asteroid().is_some());
    assert!(h.asteroid().is_some());
    assert!(h.asteroid().is_none());
    let s = h.state();
    assert!(!s.has_rocket && s.charged_cells_count == 0);
}

#[test]
fn asteroid_on_empty_planet_is_fatal() {
    let mut h = Harness::new();
    assert!(h.asteroid().is_none());
}

#[test]
fn sunray_outcomes_follow_the_planet() {
    let mut h = Harness::new();
    h.sunrays(7);
    let mut expected = vec![SunrayOutcome::ChargedThenBuiltRocket];
    expected.extend([SunrayOutcome::ChargedCell; 5]);
    expected.push(SunrayOutcome::StoredCarbon);
    assert_eq!(h.sunray_outcomes(), expected);
    assert!(h.asteroid().is_some());
    h.sunrays(1);
    assert_eq!(h.sunray_outcomes(), vec![SunrayOutcome::BuiltRocketThenCharged]);
}

#[test]
fn planet_without_rockets_keeps_its_charge() {
    // Type B: one cell, no rocket allowed.
    let mut h = Harness::of_type(PlanetType::B);
    h.sunrays(2);
    assert_eq!(
        h.sunray_outcomes(),
        vec![SunrayOutcome::ChargedThenBuiltRocket, SunrayOutcome::Failed]
    );
    let s = h.state();
    assert!(!s.has_rocket);
    assert_eq!(s.energy_cells, vec![true]);
    assert!(h.asteroid().is_none());
    assert_eq!(h.state().energy_cells, vec![true]);
}

#[test]
fn carbonium_ai_initial_state() {
    let ai = Carbonium::new();
    assert!(ai.storage.is_empty());
}

#[test]
fn orchestrator_to_planet_sunray() {
    let mut h = Harness::new();
    h.sunrays(1);
    let s = h.state();
    assert!(
        s.has_rocket && s.charged_cells_count == 0,
        "The first sunray received should be used to build a Rocket."
    );

    h.sunrays(5);
    let s = h.state();
    assert!(s.charged_cells_count == s.energy_cells.len(), "All EnergyCells should be charged.");

    h.sunrays(1);
    let answer = h.explore_one(generate(BasicResourceType::Carbon));
    assert!(matches!(
        answer,
        PlanetToExplorer::GenerateResourceResponse { resource: Some(BasicResource::Carbon(_)) }
    ));
    let s = h.state();
    assert!(
        s.charged_cells_count == s.energy_cells.len(),
        "All EnergyCells are still charged because there was Carbon in storage."
    );

    assert!(h.asteroid().is_some());

    h.sunrays(1);
    let s = h.state();
    assert!(
        s.has_rocket && s.charged_cells_count == s.energy_cells.len(),
        "The first sunray received should be used to build a Rocket."
    );
}

#[test]
fn stored_carbon_is_served_first() {
    let mut h = Harness::new();
    // Rocket, five charged cells, then two surplus sunrays: two stored Carbons.
    h.sunrays(8);
    let answers = h.explore((0..3).map(|_| generate(BasicResourceType::Carbon)).collect());
    for a in &answers {
        assert!(matches!(a, PlanetToExplorer::GenerateResourceResponse { resource: Some(_) }));
    }
    // The first two came from storage, the third from the first cell.
    let s = h.state();
    assert!(s.has_rocket);
    assert_eq!(s.energy_cells, vec![false, true, true, true, true]);
}

#[test]
fn generate_refusals_say_why() {
    let mut h = Harness::new();
    let answers = h.explore(vec![generate(BasicResourceType::Oxygen), generate(BasicResourceType::Carbon)]);
    assert_eq!(answers.len(), 2);
    assert_eq!(
        h.refusals(),
        vec![GenerateRefusal::Unsupported, GenerateRefusal::KeepingEmergencyCells]
    );
    h.sunrays(1);
    let answer = h.explore_one(generate(BasicResourceType::Carbon));
    assert!(matches!(answer, PlanetToExplorer::GenerateResourceResponse { resource: None }));
    assert_eq!(h.refusals(), vec![GenerateRefusal::NoCarbon]);
}

#[test]
fn sunrays_from_fresh_charge_one_cell_each() {
    let mut h = Harness::new();
    for k in 1..=7usize {
        h.sunrays(1);
        let s = h.state();
        assert!(s.has_rocket);
        assert_eq!(s.charged_cells_count, std::cmp::min(k - 1, 5));
    }
}

#[test]
fn asteroids_deflected_while_reserve_lasts() {
    let mut h = Harness::new();
    // Rocket plus three charged cells: four asteroids are deflected.
    h.sunrays(4);
    for _ in 0..4 {
        assert!(h.asteroid().is_some());
    }
    assert!(h.asteroid().is_none());
}
