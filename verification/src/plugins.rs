//! The closed set of interactive tools, and the fixed orders in which the
//! dispatcher offers an event to the tools that are not yet running.

use vstd::prelude::*;

verus! {

/// Every tool the editor knows. The dispatcher decides by kind alone; the
/// tool's own state lives with whoever runs its handlers.
#[derive(Clone, Copy, Debug, PartialEq, Eq, Hash, Structural)]
pub enum Plugin {
    // Tools that take over all input while they run.
    DisplayLogs,
    Warp,
    ABTestManager,
    ColorPicker,
    DrawNeighborhood,
    EditsManager,
    RoadEditor,
    ScenarioManager,
    StopSignEditor,
    TrafficSignalEditor,
    // Debug tools that take over all input while they run.
    ChokepointsFinder,
    OsmClassifier,
    Floodfiller,
    Validator,
    // Comparison tools: one at a time, but nothing below them is suppressed.
    DiffAll,
    DiffTrip,
    // Takes over all input while its query is typed, then coexists.
    Search,
    // Overlays that coexist with everything.
    ShowScore,
    Hider,
    // Observes the simulation every frame; takes over while replaying.
    TimeTravel,
    // Always present.
    SimControls,
    Layers,
    Follow,
    NeighborhoodSummary,
    ShowActivity,
    ShowAssociated,
    ShowRoute,
    TurnCycler,
    DebugObjects,
}

/// The priority level at which a tool is offered an event.
#[derive(Clone, Copy, Debug, PartialEq, Eq, Hash, Structural)]
pub enum Tier {
    /// Search while its query is being typed.
    SearchBlocking,
    /// The time-travel scrape.
    Scrape,
    /// The blocking-exclusive slot and the tools that may claim it.
    Blocking,
    /// The non-blocking-exclusive slot and the tools that may claim it.
    Nonblocking,
    /// Overlays that stack.
    Modal,
    /// Tools that see every event that reaches them.
    Ambient,
}

/// The capability of a tool through which it is handed an event.
#[derive(Clone, Copy, Debug, PartialEq, Eq, Hash, Structural)]
pub enum Handler {
    Blocking,
    BlockingWithPlugins,
    Nonblocking,
    Ambient,
    AmbientWithPlugins,
    /// Record the simulation's state, then say whether a replay is running.
    Scrape,
}

/// Tools tried, in this order, for the blocking-exclusive slot. Search is
/// among them although it is kept apart from the slot. The tools after `Warp`
/// edit the map and are offered only while no comparison map is loaded.
pub open spec fn blocking_factories() -> Seq<Plugin> {
    seq![
        Plugin::DisplayLogs,
        Plugin::Search,
        Plugin::Warp,
        Plugin::ABTestManager,
        Plugin::ColorPicker,
        Plugin::DrawNeighborhood,
        Plugin::EditsManager,
        Plugin::RoadEditor,
        Plugin::ScenarioManager,
        Plugin::StopSignEditor,
        Plugin::TrafficSignalEditor,
    ]
}

/// Debug tools tried, in this order, for the blocking-exclusive slot.
pub open spec fn debug_factories() -> Seq<Plugin> {
    seq![
        Plugin::ChokepointsFinder,
        Plugin::OsmClassifier,
        Plugin::Floodfiller,
        Plugin::Validator,
    ]
}

/// Tools tried, in this order, for the non-blocking-exclusive slot.
pub open spec fn nonblocking_factories() -> Seq<Plugin> {
    seq![Plugin::DiffAll, Plugin::DiffTrip]
}

/// The tools that are always present for a map, in the order they are served.
pub open spec fn ambient_plugins(enable_debug_controls: bool) -> Seq<Plugin> {
    let fixed = seq![
        Plugin::Follow,
        Plugin::NeighborhoodSummary,
        Plugin::ShowActivity,
        Plugin::ShowAssociated,
        Plugin::ShowRoute,
        Plugin::TurnCycler,
    ];
    if enable_debug_controls {
        fixed.push(Plugin::DebugObjects)
    } else {
        fixed
    }
}

/// The `i`-th tool tried for the blocking-exclusive slot, if there is one.
pub fn blocking_factory(i: usize) -> (r: Option<Plugin>)
    ensures
        r == (if i < blocking_factories().len() {
            Some(blocking_factories()[i as int])
        } else {
            None
        }),
{
    match i {
        0 => Some(Plugin::DisplayLogs),
        1 => Some(Plugin::Search),
        2 => Some(Plugin::Warp),
        3 => Some(Plugin::ABTestManager),
        4 => Some(Plugin::ColorPicker),
        5 => Some(Plugin::DrawNeighborhood),
        6 => Some(Plugin::EditsManager),
        7 => Some(Plugin::RoadEditor),
        8 => Some(Plugin::ScenarioManager),
        9 => Some(Plugin::StopSignEditor),
        10 => Some(Plugin::TrafficSignalEditor),
        _ => None,
    }
}

/// The `i`-th debug tool tried for the blocking-exclusive slot, if there is one.
pub fn debug_factory(i: usize) -> (r: Option<Plugin>)
    ensures
        r == (if i < debug_factories().len() {
            Some(debug_factories()[i as int])
        } else {
            None
        }),
{
    match i {
        0 => Some(Plugin::ChokepointsFinder),
        1 => Some(Plugin::OsmClassifier),
        2 => Some(Plugin::Floodfiller),
        3 => Some(Plugin::Validator),
        _ => None,
    }
}

/// The `i`-th tool tried for the non-blocking-exclusive slot, if there is one.
pub fn nonblocking_factory(i: usize) -> (r: Option<Plugin>)
    ensures
        r == (if i < nonblocking_factories().len() {
            Some(nonblocking_factories()[i as int])
        } else {
            None
        }),
{
    match i {
        0 => Some(Plugin::DiffAll),
        1 => Some(Plugin::DiffTrip),
        _ => None,
    }
}

} // verus!
