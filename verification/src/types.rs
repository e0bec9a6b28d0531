//! The plain data that the planet's handlers take and give: resource kinds,
//! the state summary sent to the orchestrator, and explorer requests and
//! replies.
use common_game::components::resource::{Carbon, ComplexResource, ComplexResourceRequest, GenericResource};
use vstd::prelude::*;

verus! {

/// The kinds of basic resource a planet may generate.
#[derive(Clone, Copy, Debug, PartialEq, Eq, Structural, Hash)]
pub enum BasicKind {
    Oxygen,
    Hydrogen,
    Carbon,
    Silicon,
}

/// The kinds of complex resource a planet may combine.
#[derive(Clone, Copy, Debug, PartialEq, Eq, Structural, Hash)]
pub enum ComplexKind {
    Diamond,
    Water,
    Life,
    Robot,
    Dolphin,
    AIPartner,
}

/// The kind of any resource, basic or complex.
#[derive(Clone, Copy, Debug, PartialEq, Eq, Structural, Hash)]
pub enum ResourceKind {
    Basic(BasicKind),
    Complex(ComplexKind),
}

/// The planet types of the game, which fix a planet's cells, rocket and
/// recipes.
#[derive(Clone, Copy, Debug, PartialEq, Eq, Structural)]
pub enum PlanetKind {
    A,
    B,
    C,
    D,
}

/// Why a request to generate a basic resource was refused.
#[derive(Clone, Copy, Debug, PartialEq, Eq, Structural)]
pub enum GenerateRefusal {
    /// The planet makes no resource of the asked kind.
    Unsupported,
    /// Without a rocket the planet keeps its last charged cells for an
    /// emergency rocket.
    KeepingEmergencyCells,
    /// The storage is empty and no charged cell could be turned into Carbon.
    NoCarbon,
}

/// An overview of a planet's state: the charge of each cell, how many are
/// charged, and whether a rocket is ready.
pub struct StateSummary {
    pub energy_cells: Vec<bool>,
    pub charged_cells_count: usize,
    pub has_rocket: bool,
}

/// What the sunray handler did with a sunray.
#[derive(Clone, Copy, Debug, PartialEq, Eq, Structural)]
pub enum SunrayOutcome {
    /// A rocket was ready; the sunray charged the first uncharged cell.
    ChargedCell,
    /// A rocket was ready and every cell was charged: the first cell was
    /// turned into Carbon for the storage and the sunray charged it again.
    StoredCarbon,
    /// A rocket was ready, every cell was charged and no Carbon could be made:
    /// the sunray was lost.
    NothingToCharge,
    /// No rocket: the sunray charged the first uncharged cell, from which a
    /// rocket was then built where the planet type allows one.
    ChargedThenBuiltRocket,
    /// No rocket and no uncharged cell: a rocket was built from the first
    /// charged cell, which the sunray then charged again.
    BuiltRocketThenCharged,
    /// No rocket, and the sunray could be put to no use.
    Failed,
}

/// A message from an explorer to the planet.
pub enum ExplorerRequest {
    SupportedResourceRequest { explorer_id: u32 },
    SupportedCombinationRequest { explorer_id: u32 },
    GenerateResourceRequest { explorer_id: u32, resource: BasicKind },
    CombineResourceRequest { explorer_id: u32, msg: ComplexResourceRequest },
    AvailableEnergyCellRequest { explorer_id: u32 },
}

/// The planet's answer to an explorer.
pub enum ExplorerResponse {
    SupportedResourceResponse { resource_list: Vec<BasicKind> },
    SupportedCombinationResponse { combination_list: Vec<ComplexKind> },
    /// The Carbon handed to the explorer, or why there is none.
    GenerateResourceResponse { resource: Result<Carbon, GenerateRefusal> },
    CombineResourceResponse {
        complex_response: Result<ComplexResource, (String, GenericResource, GenericResource)>,
    },
    AvailableEnergyCellResponse { available_cells: u32 },
}

} // verus!
