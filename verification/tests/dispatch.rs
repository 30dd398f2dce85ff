use editor::dispatch::{Action, Reply, SearchMode, Stage};
use editor::objects::{IntersectionID, TurnID, ID};
use editor::plugins::{blocking_factory, debug_factory, nonblocking_factory, Handler, Plugin, Tier};
use editor::state::{DefaultUIState, PerMapUI, PluginsPerMap, ShowObjects, UIState};

const QUIET: Reply = Reply { active: false, blocking: false };
const ACTIVE: Reply = Reply { active: true, blocking: false };
const TYPING: Reply = Reply { active: true, blocking: true };

fn create(plugin: Plugin, tier: Tier) -> Action {
    Action::Create { plugin, tier }
}

fn handle(plugin: Plugin, tier: Tier, handler: Handler) -> Action {
    Action::Handle { plugin, tier, handler }
}

fn scrape() -> Action {
    handle(Plugin::TimeTravel, Tier::Scrape, Handler::Scrape)
}

fn ambient(plugin: Plugin) -> Action {
    handle(plugin, Tier::Ambient, Handler::Ambient)
}

/// Runs one frame, asking `reply_for` what each piece of work reports.
fn run_frame(state: &mut DefaultUIState, reply_for: &dyn Fn(&Action) -> Reply) -> Vec<Action> {
    let mut trace = Vec::new();
    let mut action = state.event();
    while action != Action::Finished {
        trace.push(action);
        action = state.resume(reply_for(&action));
        assert!(trace.len() < 100, "a frame must end");
    }
    assert_eq!(state.stage(), Stage::Idle);
    trace
}

fn quiet_frame(state: &mut DefaultUIState) -> Vec<Action> {
    run_frame(state, &|_| QUIET)
}

/// A frame in which exactly the factory of `plugin` starts its tool.
fn start(state: &mut DefaultUIState, plugin: Plugin, reply: Reply) -> Vec<Action> {
    run_frame(state, &|action| match action {
        Action::Create { plugin: p, .. } if *p == plugin => reply,
        Action::Handle { .. } if *action != scrape() => ACTIVE,
        _ => QUIET,
    })
}

fn editing_factories() -> Vec<Action> {
    vec![
        create(Plugin::ABTestManager, Tier::Blocking),
        create(Plugin::ColorPicker, Tier::Blocking),
        create(Plugin::DrawNeighborhood, Tier::Blocking),
        create(Plugin::EditsManager, Tier::Blocking),
        create(Plugin::RoadEditor, Tier::Blocking),
        create(Plugin::ScenarioManager, Tier::Blocking),
        create(Plugin::StopSignEditor, Tier::Blocking),
        create(Plugin::TrafficSignalEditor, Tier::Blocking),
    ]
}

fn first_factories() -> Vec<Action> {
    vec![
        create(Plugin::DisplayLogs, Tier::Blocking),
        create(Plugin::Search, Tier::Blocking),
        create(Plugin::Warp, Tier::Blocking),
    ]
}

fn fixed_ambient() -> Vec<Action> {
    vec![
        handle(Plugin::SimControls, Tier::Ambient, Handler::AmbientWithPlugins),
        ambient(Plugin::Follow),
        ambient(Plugin::NeighborhoodSummary),
        ambient(Plugin::ShowActivity),
        ambient(Plugin::ShowAssociated),
        ambient(Plugin::ShowRoute),
        ambient(Plugin::TurnCycler),
    ]
}

fn below_exclusive(action: &Action) -> bool {
    matches!(
        action,
        Action::Handle { tier: Tier::Modal, .. }
            | Action::Handle { tier: Tier::Ambient, .. }
            | Action::Create { tier: Tier::Modal, .. }
            | Action::Create { tier: Tier::Ambient, .. }
    )
}

fn scrapes(trace: &[Action]) -> usize {
    trace.iter().filter(|a| **a == scrape()).count()
}

fn load_comparison(state: &mut DefaultUIState) {
    state.secondary = Some(PerMapUI::new(state.enable_debug_controls));
}

#[test]
fn new_state_is_empty() {
    let state = DefaultUIState::new(false);
    assert_eq!(state.exclusive_blocking_plugin(), None);
    assert_eq!(state.exclusive_nonblocking_plugin(), None);
    assert!(!state.show_score());
    assert_eq!(state.stage(), Stage::Idle);
    assert_eq!(state.pending(), Action::Finished);
    assert!(state.secondary.is_none());
    assert!(!state.enable_debug_controls);
    assert_eq!(state.primary.current_selection, None);
    assert_eq!(state.primary_plugins.search(), None);
    assert!(!state.primary_plugins.hider());
}

#[test]
fn ambient_plugins_are_the_fixed_list() {
    let plain = PluginsPerMap::new(false);
    assert_eq!(
        plain.ambient_plugins(),
        &vec![
            Plugin::Follow,
            Plugin::NeighborhoodSummary,
            Plugin::ShowActivity,
            Plugin::ShowAssociated,
            Plugin::ShowRoute,
            Plugin::TurnCycler,
        ]
    );
    let debug = PluginsPerMap::new(true);
    assert_eq!(debug.ambient_plugins().len(), 7);
    assert_eq!(debug.ambient_plugins()[6], Plugin::DebugObjects);
    assert_eq!(debug.ambient_plugins()[..6], plain.ambient_plugins()[..]);
}

#[test]
fn per_map_ui_starts_with_nothing_selected() {
    let (map, plugins) = PerMapUI::new(true);
    assert_eq!(map.current_selection, None);
    assert_eq!(plugins.search(), None);
    assert!(!plugins.hider());
    assert_eq!(plugins.ambient_plugins().len(), 7);
}

#[test]
fn factory_orders() {
    let blocking: Vec<Plugin> = (0..11).map(|i| blocking_factory(i).unwrap()).collect();
    assert_eq!(
        blocking,
        vec![
            Plugin::DisplayLogs,
            Plugin::Search,
            Plugin::Warp,
            Plugin::ABTestManager,
            Plugin::ColorPicker,
            Plugin::DrawNeighborhood,
            Plugin::EditsManager,
            Plugin::RoadEditor,
            Plugin::ScenarioManager,
            Plugin::StopSignEditor,
            Plugin::TrafficSignalEditor,
        ]
    );
    assert_eq!(blocking_factory(11), None);
    assert_eq!(blocking_factory(usize::MAX), None);
    let debug: Vec<Plugin> = (0..4).map(|i| debug_factory(i).unwrap()).collect();
    assert_eq!(
        debug,
        vec![
            Plugin::ChokepointsFinder,
            Plugin::OsmClassifier,
            Plugin::Floodfiller,
            Plugin::Validator,
        ]
    );
    assert_eq!(debug_factory(4), None);
    assert_eq!(nonblocking_factory(0), Some(Plugin::DiffAll));
    assert_eq!(nonblocking_factory(1), Some(Plugin::DiffTrip));
    assert_eq!(nonblocking_factory(2), None);
}

#[test]
fn quiet_frame_visits_every_tier_in_order() {
    let mut state = DefaultUIState::new(false);
    let mut expected = vec![scrape()];
    expected.extend(first_factories());
    expected.extend(editing_factories());
    expected.push(create(Plugin::ShowScore, Tier::Modal));
    expected.extend(fixed_ambient());
    assert_eq!(quiet_frame(&mut state), expected);
    assert_eq!(state.exclusive_blocking_plugin(), None);
    assert_eq!(state.exclusive_nonblocking_plugin(), None);
    assert!(!state.show_score());
}

#[test]
fn quiet_frame_with_debug_controls() {
    let mut state = DefaultUIState::new(true);
    let mut expected = vec![scrape()];
    expected.extend(first_factories());
    expected.extend(editing_factories());
    expected.extend(vec![
        create(Plugin::ChokepointsFinder, Tier::Blocking),
        create(Plugin::OsmClassifier, Tier::Blocking),
        create(Plugin::Floodfiller, Tier::Blocking),
        create(Plugin::Validator, Tier::Blocking),
    ]);
    expected.push(create(Plugin::ShowScore, Tier::Modal));
    expected.push(create(Plugin::Hider, Tier::Modal));
    expected.extend(fixed_ambient());
    expected.push(ambient(Plugin::DebugObjects));
    expected.push(ambient(Plugin::Layers));
    assert_eq!(quiet_frame(&mut state), expected);
}

#[test]
fn quiet_frame_while_comparing() {
    let mut state = DefaultUIState::new(false);
    load_comparison(&mut state);
    let mut expected = vec![scrape()];
    expected.extend(first_factories());
    expected.push(create(Plugin::DiffAll, Tier::Nonblocking));
    expected.push(create(Plugin::DiffTrip, Tier::Nonblocking));
    expected.push(create(Plugin::ShowScore, Tier::Modal));
    expected.extend(fixed_ambient());
    assert_eq!(quiet_frame(&mut state), expected);
}

#[test]
fn first_factory_that_starts_claims_the_slot_and_ends_the_frame() {
    let mut state = DefaultUIState::new(true);
    let trace = start(&mut state, Plugin::RoadEditor, ACTIVE);
    let mut expected = vec![scrape()];
    expected.extend(first_factories());
    expected.extend(editing_factories()[..5].to_vec());
    assert_eq!(trace, expected);
    assert_eq!(state.exclusive_blocking_plugin(), Some(Plugin::RoadEditor));
    assert_eq!(state.exclusive_nonblocking_plugin(), None);
}

#[test]
fn debug_factory_claims_the_slot() {
    let mut state = DefaultUIState::new(true);
    let trace = start(&mut state, Plugin::Floodfiller, ACTIVE);
    assert_eq!(trace.len(), 1 + 11 + 3);
    assert_eq!(trace[14], create(Plugin::Floodfiller, Tier::Blocking));
    assert_eq!(state.exclusive_blocking_plugin(), Some(Plugin::Floodfiller));
}

#[test]
fn debug_factories_are_not_tried_without_debug_controls() {
    let mut state = DefaultUIState::new(false);
    let trace = start(&mut state, Plugin::Floodfiller, ACTIVE);
    assert!(!trace.contains(&create(Plugin::Floodfiller, Tier::Blocking)));
    assert!(!trace.contains(&create(Plugin::Hider, Tier::Modal)));
    assert!(!trace.contains(&ambient(Plugin::Layers)));
    assert_eq!(state.exclusive_blocking_plugin(), None);
}

#[test]
fn occupied_blocking_slot_gets_the_event_alone() {
    let mut state = DefaultUIState::new(true);
    start(&mut state, Plugin::Warp, ACTIVE);
    let trace = run_frame(&mut state, &|a| if *a == scrape() { QUIET } else { ACTIVE });
    assert_eq!(
        trace,
        vec![scrape(), handle(Plugin::Warp, Tier::Blocking, Handler::BlockingWithPlugins)]
    );
    assert_eq!(state.exclusive_blocking_plugin(), Some(Plugin::Warp));
}

#[test]
fn tier_precedence_on_concrete_frames() {
    for debug in [false, true] {
        for comparing in [false, true] {
            for i in 0..11 {
                let plugin = blocking_factory(i).unwrap();
                if plugin == Plugin::Search {
                    continue;
                }
                let mut state = DefaultUIState::new(debug);
                if comparing {
                    load_comparison(&mut state);
                }
                let claiming = start(&mut state, plugin, ACTIVE);
                if comparing && i >= 3 {
                    assert_eq!(state.exclusive_blocking_plugin(), None);
                    continue;
                }
                assert_eq!(state.exclusive_blocking_plugin(), Some(plugin));
                assert!(!claiming.iter().any(below_exclusive));
                let staying = run_frame(&mut state, &|a| if *a == scrape() { QUIET } else { ACTIVE });
                assert!(!staying.iter().any(below_exclusive));
                let leaving = quiet_frame(&mut state);
                assert!(!leaving.iter().any(below_exclusive));
                assert_eq!(state.exclusive_blocking_plugin(), None);
            }
        }
    }
}

#[test]
fn cancelled_blocking_editor_frees_the_slot_for_the_next_frame() {
    let mut state = DefaultUIState::new(false);
    start(&mut state, Plugin::StopSignEditor, ACTIVE);
    assert_eq!(state.exclusive_blocking_plugin(), Some(Plugin::StopSignEditor));
    assert_eq!(state.turn_icon_editor(), Some(Plugin::StopSignEditor));

    // The user cancels: the editor reports that it is done.
    let trace = quiet_frame(&mut state);
    assert_eq!(
        trace,
        vec![
            scrape(),
            handle(Plugin::StopSignEditor, Tier::Blocking, Handler::BlockingWithPlugins),
        ]
    );
    assert_eq!(state.exclusive_blocking_plugin(), None);
    assert_eq!(state.turn_icon_editor(), None);

    // The next event reaches the lower tiers again.
    let next = quiet_frame(&mut state);
    assert!(next.contains(&create(Plugin::ShowScore, Tier::Modal)));
    assert!(next.contains(&ambient(Plugin::Follow)));
    assert!(next.contains(&ambient(Plugin::TurnCycler)));
    assert_eq!(next.len(), 1 + 11 + 1 + 7);
}

#[test]
fn at_most_one_slot_is_claimed_per_frame() {
    // Every factory is eager: the blocking slot wins and the frame ends.
    let mut state = DefaultUIState::new(true);
    load_comparison(&mut state);
    let trace = run_frame(&mut state, &|a| if *a == scrape() { QUIET } else { ACTIVE });
    assert_eq!(trace, vec![scrape(), create(Plugin::DisplayLogs, Tier::Blocking)]);
    assert_eq!(state.exclusive_blocking_plugin(), Some(Plugin::DisplayLogs));
    assert_eq!(state.exclusive_nonblocking_plugin(), None);

    // No blocking tool starts: the non-blocking slot may be claimed.
    let mut state = DefaultUIState::new(true);
    load_comparison(&mut state);
    let trace = start(&mut state, Plugin::DiffTrip, ACTIVE);
    assert_eq!(state.exclusive_blocking_plugin(), None);
    assert_eq!(state.exclusive_nonblocking_plugin(), Some(Plugin::DiffTrip));
    assert!(trace.contains(&create(Plugin::DiffAll, Tier::Nonblocking)));
    // The lower tiers are still served in that frame.
    assert!(trace.contains(&ambient(Plugin::Follow)));
}

#[test]
fn nonblocking_slot_does_not_suppress_lower_tiers() {
    let mut state = DefaultUIState::new(false);
    load_comparison(&mut state);
    start(&mut state, Plugin::DiffAll, ACTIVE);
    assert_eq!(state.exclusive_nonblocking_plugin(), Some(Plugin::DiffAll));
    let trace = run_frame(&mut state, &|a| match a {
        Action::Handle { plugin: Plugin::DiffAll, .. } => ACTIVE,
        _ => QUIET,
    });
    let mut expected = vec![scrape()];
    expected.extend(first_factories());
    expected.push(handle(Plugin::DiffAll, Tier::Nonblocking, Handler::Blocking));
    expected.push(create(Plugin::ShowScore, Tier::Modal));
    expected.extend(fixed_ambient());
    assert_eq!(trace, expected);
    assert_eq!(state.exclusive_nonblocking_plugin(), Some(Plugin::DiffAll));

    // When it reports that it is done, the slot is emptied.
    let trace = quiet_frame(&mut state);
    assert!(trace.contains(&handle(Plugin::DiffAll, Tier::Nonblocking, Handler::Blocking)));
    assert_eq!(state.exclusive_nonblocking_plugin(), None);
}

#[test]
fn nonblocking_factories_need_a_comparison_map() {
    let mut state = DefaultUIState::new(false);
    let trace = start(&mut state, Plugin::DiffAll, ACTIVE);
    assert!(!trace.contains(&create(Plugin::DiffAll, Tier::Nonblocking)));
    assert_eq!(state.exclusive_nonblocking_plugin(), None);
}

#[test]
fn scrape_runs_exactly_once_in_every_frame_without_blocking_search() {
    for debug in [false, true] {
        let mut state = DefaultUIState::new(debug);
        assert_eq!(scrapes(&quiet_frame(&mut state)), 1);
        assert_eq!(scrapes(&start(&mut state, Plugin::ShowScore, ACTIVE)), 1);
        assert_eq!(scrapes(&start(&mut state, Plugin::Hider, ACTIVE)), 1);
        assert_eq!(scrapes(&start(&mut state, Plugin::ColorPicker, ACTIVE)), 1);
        let held = run_frame(&mut state, &|a| if *a == scrape() { QUIET } else { ACTIVE });
        assert_eq!(scrapes(&held), 1);
        assert_eq!(held[0], scrape());
        let replaying = run_frame(&mut state, &|_| ACTIVE);
        assert_eq!(replaying, vec![scrape()]);
    }
}

#[test]
fn active_time_travel_preempts_even_the_blocking_slot() {
    let mut state = DefaultUIState::new(false);
    start(&mut state, Plugin::Warp, ACTIVE);
    let trace = run_frame(&mut state, &|_| ACTIVE);
    assert_eq!(trace, vec![scrape()]);
    assert_eq!(state.exclusive_blocking_plugin(), Some(Plugin::Warp));
}

#[test]
fn blocking_search_is_served_alone_and_before_the_scrape() {
    let mut state = DefaultUIState::new(true);
    let trace = start(&mut state, Plugin::Search, TYPING);
    assert_eq!(
        trace,
        vec![
            scrape(),
            create(Plugin::DisplayLogs, Tier::Blocking),
            create(Plugin::Search, Tier::Blocking),
        ]
    );
    assert_eq!(state.primary_plugins.search(), Some(SearchMode::Blocking));
    assert_eq!(state.exclusive_blocking_plugin(), None);

    let typing = run_frame(&mut state, &|_| TYPING);
    assert_eq!(
        typing,
        vec![handle(Plugin::Search, Tier::SearchBlocking, Handler::Blocking)]
    );
    assert_eq!(scrapes(&typing), 0);
    assert_eq!(state.primary_plugins.search(), Some(SearchMode::Blocking));

    // The query is confirmed: search now stacks with the overlays.
    let confirmed = run_frame(&mut state, &|_| ACTIVE);
    assert_eq!(confirmed.len(), 1);
    assert_eq!(state.primary_plugins.search(), Some(SearchMode::Stackable));
}

#[test]
fn blocking_search_that_finishes_is_torn_down() {
    let mut state = DefaultUIState::new(false);
    start(&mut state, Plugin::Search, TYPING);
    let trace = quiet_frame(&mut state);
    assert_eq!(
        trace,
        vec![handle(Plugin::Search, Tier::SearchBlocking, Handler::Blocking)]
    );
    assert_eq!(state.primary_plugins.search(), None);
}

#[test]
fn stackable_search_short_circuits_the_ambient_tier() {
    let mut state = DefaultUIState::new(true);
    start(&mut state, Plugin::Search, ACTIVE);
    assert_eq!(state.primary_plugins.search(), Some(SearchMode::Stackable));
    // A search that starts in its stackable sub-mode lets the frame go on, and
    // is handed the event in the modal tier of the same frame.
    let trace = run_frame(&mut state, &|a| match a {
        Action::Handle { plugin: Plugin::Search, .. } => ACTIVE,
        _ => QUIET,
    });
    let mut expected = vec![scrape()];
    expected.extend(first_factories());
    expected.extend(editing_factories());
    expected.extend(vec![
        create(Plugin::ChokepointsFinder, Tier::Blocking),
        create(Plugin::OsmClassifier, Tier::Blocking),
        create(Plugin::Floodfiller, Tier::Blocking),
        create(Plugin::Validator, Tier::Blocking),
    ]);
    expected.push(create(Plugin::ShowScore, Tier::Modal));
    expected.push(handle(Plugin::Search, Tier::Modal, Handler::Blocking));
    assert_eq!(trace, expected);
    assert_eq!(state.primary_plugins.search(), Some(SearchMode::Stackable));

    // Done: it is torn down, and the frame still ends there.
    let trace = quiet_frame(&mut state);
    assert_eq!(trace.last(), Some(&handle(Plugin::Search, Tier::Modal, Handler::Blocking)));
    assert_eq!(state.primary_plugins.search(), None);
}

#[test]
fn stackable_search_started_in_a_frame_is_served_in_that_frame() {
    let mut state = DefaultUIState::new(false);
    let trace = start(&mut state, Plugin::Search, ACTIVE);
    assert_eq!(trace.last(), Some(&handle(Plugin::Search, Tier::Modal, Handler::Blocking)));
    assert!(!trace.iter().any(|a| matches!(a, Action::Handle { tier: Tier::Ambient, .. })));
}

#[test]
fn overlays_start_and_stop_on_their_own() {
    let mut state = DefaultUIState::new(true);
    start(&mut state, Plugin::ShowScore, ACTIVE);
    assert!(state.show_score());
    start(&mut state, Plugin::Hider, ACTIVE);
    assert!(state.primary_plugins.hider());
    assert!(state.show_score());

    let trace = run_frame(&mut state, &|a| match a {
        Action::Handle { plugin: Plugin::ShowScore, .. } => QUIET,
        Action::Handle { plugin: Plugin::Hider, .. } => ACTIVE,
        _ => QUIET,
    });
    assert!(trace.contains(&handle(Plugin::ShowScore, Tier::Modal, Handler::Nonblocking)));
    assert!(trace.contains(&handle(Plugin::Hider, Tier::Modal, Handler::Nonblocking)));
    assert!(!trace.contains(&create(Plugin::ShowScore, Tier::Modal)));
    assert!(!trace.contains(&create(Plugin::Hider, Tier::Modal)));
    assert!(trace.contains(&ambient(Plugin::Layers)));
    assert!(!state.show_score());
    assert!(state.primary_plugins.hider());

    quiet_frame(&mut state);
    assert!(!state.primary_plugins.hider());
}

#[test]
fn event_restarts_a_frame_and_resume_is_idle_between_frames() {
    let mut state = DefaultUIState::new(false);
    assert_eq!(state.resume(ACTIVE), Action::Finished);
    assert_eq!(state.stage(), Stage::Idle);
    assert_eq!(state.exclusive_blocking_plugin(), None);

    assert_eq!(state.event(), scrape());
    assert_eq!(state.stage(), Stage::TimeTravel);
    assert_eq!(state.pending(), scrape());
    assert_eq!(state.resume(QUIET), create(Plugin::DisplayLogs, Tier::Blocking));
    assert_eq!(state.stage(), Stage::BlockingFactory(0));
    assert_eq!(state.resume(QUIET), create(Plugin::Search, Tier::Blocking));
    // A new event abandons the frame under way.
    assert_eq!(state.event(), scrape());
    assert_eq!(state.stage(), Stage::TimeTravel);
}

#[test]
fn state_traits_give_access_to_the_state() {
    let mut state = DefaultUIState::new(true);
    assert!(state.get_state().enable_debug_controls);
    state.mut_state().primary.current_selection = Some(ID::Car(3));
    assert_eq!(state.primary.current_selection, Some(ID::Car(3)));
}

#[test]
fn draw_order_follows_the_tiers() {
    let mut state = DefaultUIState::new(true);
    let mut expected = vec![
        Plugin::SimControls,
        Plugin::Follow,
        Plugin::NeighborhoodSummary,
        Plugin::ShowActivity,
        Plugin::ShowAssociated,
        Plugin::ShowRoute,
        Plugin::TurnCycler,
        Plugin::DebugObjects,
    ];
    assert_eq!(state.draw(), expected);

    start(&mut state, Plugin::ShowScore, ACTIVE);
    expected.insert(0, Plugin::ShowScore);
    assert_eq!(state.draw(), expected);

    load_comparison(&mut state);
    start(&mut state, Plugin::DiffTrip, ACTIVE);
    expected.insert(0, Plugin::DiffTrip);
    assert_eq!(state.draw(), expected);

    start(&mut state, Plugin::Search, ACTIVE);
    expected.insert(0, Plugin::Search);
    assert_eq!(state.draw(), expected);
}

#[test]
fn blocking_tools_hide_what_is_below_them() {
    let mut state = DefaultUIState::new(false);
    start(&mut state, Plugin::ShowScore, ACTIVE);
    start(&mut state, Plugin::Warp, ACTIVE);
    assert_eq!(state.draw(), vec![Plugin::Warp]);

    let mut state = DefaultUIState::new(false);
    start(&mut state, Plugin::Search, ACTIVE);
    run_frame(&mut state, &|a| match a {
        Action::Create { plugin: Plugin::Warp, .. } => ACTIVE,
        _ => QUIET,
    });
    assert_eq!(state.exclusive_blocking_plugin(), Some(Plugin::Warp));
    assert_eq!(state.primary_plugins.search(), Some(SearchMode::Stackable));
    assert_eq!(state.draw(), vec![Plugin::Search, Plugin::Warp]);

    let mut state = DefaultUIState::new(false);
    start(&mut state, Plugin::ShowScore, ACTIVE);
    start(&mut state, Plugin::Search, TYPING);
    assert_eq!(state.draw(), vec![Plugin::Search]);
}

#[test]
fn color_obj_highlights_the_selection_first() {
    let mut state = DefaultUIState::new(false);
    state.primary.current_selection = Some(ID::Building(4));
    let never = |_: Plugin| -> Option<u32> { panic!("no tool is asked about the selection") };
    assert_eq!(state.color_obj(ID::Building(4), 7u32, never), Some(7));
    let none = |_: Plugin| -> Option<u32> { None };
    assert_eq!(state.color_obj(ID::Building(5), 7u32, none), None);
    assert_eq!(state.color_obj(ID::Car(4), 7u32, none), None);
}

#[test]
fn color_obj_does_not_highlight_a_selected_turn() {
    let mut state = DefaultUIState::new(false);
    let turn = ID::Turn(TurnID { parent: IntersectionID(1), src: 2, dst: 3 });
    state.primary.current_selection = Some(turn);
    assert_eq!(state.color_obj(turn, 7u32, |_| None), None);
    assert_eq!(
        state.color_obj(turn, 7u32, |p| if p == Plugin::TurnCycler { Some(9) } else { None }),
        Some(9)
    );
}

#[test]
fn color_obj_takes_the_first_answer_in_order() {
    let mut state = DefaultUIState::new(true);
    assert_eq!(
        state.color_sources(),
        vec![
            Plugin::Follow,
            Plugin::NeighborhoodSummary,
            Plugin::ShowActivity,
            Plugin::ShowAssociated,
            Plugin::ShowRoute,
            Plugin::TurnCycler,
            Plugin::DebugObjects,
        ]
    );
    let id = ID::Lane(11);
    let by_kind = |p: Plugin| match p {
        Plugin::Search => Some("search"),
        Plugin::RoadEditor => Some("editor"),
        Plugin::ShowRoute => Some("route"),
        Plugin::TurnCycler => Some("cycler"),
        _ => None,
    };
    assert_eq!(state.color_obj(id, "selected", by_kind), Some("route"));

    start(&mut state, Plugin::RoadEditor, ACTIVE);
    assert_eq!(state.color_sources()[0], Plugin::RoadEditor);
    assert_eq!(state.color_obj(id, "selected", by_kind), Some("editor"));

    let mut state = DefaultUIState::new(true);
    start(&mut state, Plugin::Search, ACTIVE);
    run_frame(&mut state, &|a| match a {
        Action::Create { plugin: Plugin::RoadEditor, .. } => ACTIVE,
        _ => QUIET,
    });
    assert_eq!(state.color_sources()[..2], [Plugin::Search, Plugin::RoadEditor]);
    assert_eq!(state.color_obj(id, "selected", by_kind), Some("search"));
}

#[test]
fn color_obj_falls_through_a_blocking_tool_without_an_answer() {
    let mut state = DefaultUIState::new(false);
    start(&mut state, Plugin::Warp, ACTIVE);
    let asked = std::cell::RefCell::new(Vec::new());
    let answer = state.color_obj(ID::Road(1), 0u8, |p| {
        asked.borrow_mut().push(p);
        if p == Plugin::ShowActivity {
            Some(5)
        } else {
            None
        }
    });
    assert_eq!(answer, Some(5));
    assert_eq!(
        asked.into_inner(),
        vec![Plugin::Warp, Plugin::Follow, Plugin::NeighborhoodSummary, Plugin::ShowActivity]
    );
}

#[test]
fn show_icons_for_defers_to_the_sign_and_signal_editors() {
    let here = IntersectionID(3);
    for editor in [Plugin::StopSignEditor, Plugin::TrafficSignalEditor] {
        let mut state = DefaultUIState::new(false);
        start(&mut state, editor, ACTIVE);
        assert_eq!(state.turn_icon_editor(), Some(editor));
        assert!(state.show_icons_for(here, true, false));
        assert!(!state.show_icons_for(here, false, true));
    }
    let mut state = DefaultUIState::new(false);
    start(&mut state, Plugin::RoadEditor, ACTIVE);
    assert_eq!(state.turn_icon_editor(), None);
    assert!(state.show_icons_for(here, false, true));
    assert!(!state.show_icons_for(here, true, false));
}

#[test]
fn show_icons_for_a_selected_turn_of_the_intersection() {
    let mut state = DefaultUIState::new(false);
    let here = IntersectionID(3);
    assert!(!state.show_icons_for(here, false, false));
    assert!(state.show_icons_for(here, false, true));
    state.primary.current_selection = Some(ID::Turn(TurnID { parent: here, src: 0, dst: 1 }));
    assert!(state.show_icons_for(here, false, false));
    assert!(!state.show_icons_for(IntersectionID(4), false, false));
    state.primary.current_selection = Some(ID::Intersection(here));
    assert!(!state.show_icons_for(here, false, false));
}

#[test]
fn show_asks_the_hider_only_while_it_runs() {
    let mut state = DefaultUIState::new(true);
    let obj = ID::Parcel(9);
    assert!(state.show(obj, false, true));
    assert!(!state.show(obj, true, false));
    start(&mut state, Plugin::Hider, ACTIVE);
    assert!(!state.show(obj, false, true));
    assert!(state.show(obj, true, true));
    assert!(!state.show(obj, true, false));
}

#[test]
fn id_knows_turns() {
    let turn = ID::Turn(TurnID { parent: IntersectionID(1), src: 2, dst: 3 });
    assert!(turn.is_turn());
    assert!(!ID::Intersection(IntersectionID(1)).is_turn());
    assert!(!ID::Trip(0).is_turn());
}
