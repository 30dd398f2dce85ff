//! The editor's state between frames, and the entry points through which a
//! host drives one frame: `event` opens it, `resume` carries each report back.

use crate::dispatch::{Action, Reply, SearchMode, Stage, UIModel, FIRST_EDITING_FACTORY};
use crate::objects::{IntersectionID, ID};
use crate::plugins::{
    ambient_plugins, blocking_factory, debug_factory, nonblocking_factory, Handler, Plugin, Tier,
};
use vstd::prelude::*;

verus! {

/// What a host must offer to be driven frame by frame.
pub trait UIState {
    fn get_state(&self) -> &DefaultUIState;

    fn mut_state(&mut self) -> &mut DefaultUIState;

    /// A new input event has arrived: the first piece of work of its frame.
    fn event(&mut self) -> Action;

    /// The tools to render, top tier first.
    fn draw(&self) -> Vec<Plugin>;
}

/// What the renderer asks before it shows an object.
pub trait ShowObjects {
    /// Whether the turn icons of an intersection are shown. `editor_shows` is
    /// the answer of the sign or signal editor, which counts only while one of
    /// them holds the blocking slot; `all_turn_icons` is the layer toggle.
    fn show_icons_for(&self, id: IntersectionID, editor_shows: bool, all_turn_icons: bool) -> bool;

    /// Whether an object is shown. `hider_shows` is the answer of the hiding
    /// overlay, which counts only while it runs; `layer_shows` is the answer
    /// of the layer toggles.
    fn show(&self, obj: ID, hider_shows: bool, layer_shows: bool) -> bool;
}

/// The state that belongs to one loaded map.
pub struct PerMapUI {
    pub current_selection: Option<ID>,
}

/// The tools whose lifetime is that of one loaded map.
pub struct PluginsPerMap {
    hider: bool,
    search: Option<SearchMode>,
    ambient_plugins: Vec<Plugin>,
}

/// What the dispatcher reads of a map's tools.
pub struct PluginsModel {
    pub hider: bool,
    pub search: Option<SearchMode>,
    pub ambient: Seq<Plugin>,
}

pub struct DefaultUIState {
    pub primary: PerMapUI,
    pub primary_plugins: PluginsPerMap,
    /// Populated while a comparison map is loaded.
    pub secondary: Option<(PerMapUI, PluginsPerMap)>,
    exclusive_blocking_plugin: Option<Plugin>,
    exclusive_nonblocking_plugin: Option<Plugin>,
    show_score: bool,
    pub enable_debug_controls: bool,
    stage: Stage,
}

impl View for PluginsPerMap {
    type V = PluginsModel;

    closed spec fn view(&self) -> PluginsModel {
        PluginsModel { hider: self.hider, search: self.search, ambient: self.ambient_plugins@ }
    }
}

impl View for DefaultUIState {
    type V = UIModel;

    closed spec fn view(&self) -> UIModel {
        UIModel {
            search: self.primary_plugins.search,
            hider: self.primary_plugins.hider,
            ambient: self.primary_plugins.ambient_plugins@,
            blocking: self.exclusive_blocking_plugin,
            nonblocking: self.exclusive_nonblocking_plugin,
            show_score: self.show_score,
            comparing: self.secondary is Some,
            debug: self.enable_debug_controls,
            stage: self.stage,
        }
    }
}

impl PluginsModel {
    /// The tools of a map that has just been loaded.
    pub open spec fn fresh(enable_debug_controls: bool) -> PluginsModel {
        PluginsModel {
            hider: false,
            search: None,
            ambient: ambient_plugins(enable_debug_controls),
        }
    }
}

impl UIModel {
    /// The dispatcher of an editor that has just started.
    pub open spec fn fresh(enable_debug_controls: bool) -> UIModel {
        UIModel {
            search: None,
            hider: false,
            ambient: ambient_plugins(enable_debug_controls),
            blocking: None,
            nonblocking: None,
            show_score: false,
            comparing: false,
            debug: enable_debug_controls,
            stage: Stage::Idle,
        }
    }
}

impl PerMapUI {
    /// The state of a map that has just been loaded: nothing is selected, and
    /// its tools are the fixed always-present set.
    pub fn new(enable_debug_controls: bool) -> (r: (PerMapUI, PluginsPerMap))
        ensures
            r.0.current_selection is None,
            r.1@ == PluginsModel::fresh(enable_debug_controls),
    {
        let state = PerMapUI { current_selection: None };
        let plugins = PluginsPerMap::new(enable_debug_controls);
        (state, plugins)
    }
}

impl PluginsPerMap {
    /// No overlay runs, search is closed, and the always-present tools are
    /// the fixed list, with the object debugger last if debug tools are on.
    pub fn new(enable_debug_controls: bool) -> (p: PluginsPerMap)
        ensures
            p@ == PluginsModel::fresh(enable_debug_controls),
    {
        let mut ambient: Vec<Plugin> = Vec::new();
        ambient.push(Plugin::Follow);
        ambient.push(Plugin::NeighborhoodSummary);
        ambient.push(Plugin::ShowActivity);
        ambient.push(Plugin::ShowAssociated);
        ambient.push(Plugin::ShowRoute);
        ambient.push(Plugin::TurnCycler);
        if enable_debug_controls {
            ambient.push(Plugin::DebugObjects);
        }
        assert(ambient@ =~= ambient_plugins(enable_debug_controls));
        PluginsPerMap { hider: false, search: None, ambient_plugins: ambient }
    }

    /// Whether the object-hiding overlay runs.
    pub fn hider(&self) -> (r: bool)
        ensures
            r == self@.hider,
    {
        self.hider
    }

    /// The search tool's sub-mode, if it runs.
    pub fn search(&self) -> (r: Option<SearchMode>)
        ensures
            r == self@.search,
    {
        self.search
    }

    /// The always-present tools, in serving order.
    pub fn ambient_plugins(&self) -> (r: &Vec<Plugin>)
        ensures
            r@ == self@.ambient,
    {
        &self.ambient_plugins
    }
}

/// The dispatcher's knowledge gathered in one place, so that a step is a
/// function from one value to the next.
#[derive(Clone, Copy)]
struct Snapshot<'a> {
    search: Option<SearchMode>,
    hider: bool,
    ambient: &'a Vec<Plugin>,
    blocking: Option<Plugin>,
    nonblocking: Option<Plugin>,
    show_score: bool,
    comparing: bool,
    debug: bool,
    stage: Stage,
}

impl<'a> View for Snapshot<'a> {
    type V = UIModel;

    closed spec fn view(&self) -> UIModel {
        UIModel {
            search: self.search,
            hider: self.hider,
            ambient: self.ambient@,
            blocking: self.blocking,
            nonblocking: self.nonblocking,
            show_score: self.show_score,
            comparing: self.comparing,
            debug: self.debug,
            stage: self.stage,
        }
    }
}

fn search_mode(reply: Reply) -> (r: SearchMode)
    ensures
        r == reply.search_mode(),
{
    if reply.blocking {
        SearchMode::Blocking
    } else {
        SearchMode::Stackable
    }
}

fn is_blocking(search: Option<SearchMode>) -> (r: bool)
    ensures
        r == (search == Some(SearchMode::Blocking)),
{
    match search {
        Some(SearchMode::Blocking) => true,
        _ => false,
    }
}

fn is_stackable(search: Option<SearchMode>) -> (r: bool)
    ensures
        r == (search == Some(SearchMode::Stackable)),
{
    match search {
        Some(SearchMode::Stackable) => true,
        _ => false,
    }
}

impl<'a> Snapshot<'a> {
    fn at(self, stage: Stage) -> (r: Self)
        ensures
            r@ == self@.at(stage),
            r.ambient == self.ambient,
    {
        Snapshot { stage, ..self }
    }

    fn pending(&self) -> (a: Action)
        ensures
            a == self@.pending(),
    {
        match self.stage {
            Stage::Idle => Action::Finished,
            Stage::SearchBlocking => Action::Handle {
                plugin: Plugin::Search,
                tier: Tier::SearchBlocking,
                handler: Handler::Blocking,
            },
            Stage::TimeTravel => Action::Handle {
                plugin: Plugin::TimeTravel,
                tier: Tier::Scrape,
                handler: Handler::Scrape,
            },
            Stage::BlockingSlot => match self.blocking {
                Some(plugin) => Action::Handle {
                    plugin,
                    tier: Tier::Blocking,
                    handler: Handler::BlockingWithPlugins,
                },
                None => Action::Finished,
            },
            Stage::BlockingFactory(i) => match blocking_factory(i) {
                Some(plugin) => Action::Create { plugin, tier: Tier::Blocking },
                None => Action::Finished,
            },
            Stage::DebugFactory(i) => match debug_factory(i) {
                Some(plugin) => Action::Create { plugin, tier: Tier::Blocking },
                None => Action::Finished,
            },
            Stage::NonblockingSlot => match self.nonblocking {
                Some(plugin) => Action::Handle {
                    plugin,
                    tier: Tier::Nonblocking,
                    handler: Handler::Blocking,
                },
                None => Action::Finished,
            },
            Stage::NonblockingFactory(i) => match nonblocking_factory(i) {
                Some(plugin) => Action::Create { plugin, tier: Tier::Nonblocking },
                None => Action::Finished,
            },
            Stage::ShowScore => Action::Handle {
                plugin: Plugin::ShowScore,
                tier: Tier::Modal,
                handler: Handler::Nonblocking,
            },
            Stage::ShowScoreFactory => Action::Create {
                plugin: Plugin::ShowScore,
                tier: Tier::Modal,
            },
            Stage::SearchModal => Action::Handle {
                plugin: Plugin::Search,
                tier: Tier::Modal,
                handler: Handler::Blocking,
            },
            Stage::Hider => Action::Handle {
                plugin: Plugin::Hider,
                tier: Tier::Modal,
                handler: Handler::Nonblocking,
            },
            Stage::HiderFactory => Action::Create { plugin: Plugin::Hider, tier: Tier::Modal },
            Stage::SimControls => Action::Handle {
                plugin: Plugin::SimControls,
                tier: Tier::Ambient,
                handler: Handler::AmbientWithPlugins,
            },
            Stage::Ambient(i) => if i < self.ambient.len() {
                Action::Handle {
                    plugin: self.ambient[i],
                    tier: Tier::Ambient,
                    handler: Handler::Ambient,
                }
            } else {
                Action::Finished
            },
            Stage::Layers => Action::Handle {
                plugin: Plugin::Layers,
                tier: Tier::Ambient,
                handler: Handler::Ambient,
            },
        }
    }

    fn begin(self) -> (r: Self)
        ensures
            r@ == self@.begin(),
            r.ambient == self.ambient,
    {
        if is_blocking(self.search) {
            self.at(Stage::SearchBlocking)
        } else {
            self.at(Stage::TimeTravel)
        }
    }

    fn search_handled(self, reply: Reply) -> (r: Self)
        ensures
            r@ == self@.search_handled(reply),
            r.ambient == self.ambient,
    {
        let search = if reply.active {
            Some(search_mode(reply))
        } else {
            None
        };
        Snapshot { search, stage: Stage::Idle, ..self }
    }

    fn enter_blocking_factory(self, i: usize) -> (r: Self)
        ensures
            r@ == self@.enter_blocking_factory(i as int),
            r.ambient == self.ambient,
    {
        if blocking_factory(i).is_none() || (i == FIRST_EDITING_FACTORY && self.comparing) {
            self.after_blocking_scan()
        } else {
            self.at(Stage::BlockingFactory(i))
        }
    }

    fn after_blocking_scan(self) -> (r: Self)
        ensures
            r@ == self@.after_blocking_scan(),
            r.ambient == self.ambient,
    {
        if is_blocking(self.search) || self.blocking.is_some() {
            self.at(Stage::Idle)
        } else if self.debug {
            self.at(Stage::DebugFactory(0))
        } else {
            self.enter_nonblocking()
        }
    }

    fn claim_blocking(self, plugin: Plugin, reply: Reply) -> (r: Self)
        ensures
            r@ == self@.claim_blocking(plugin, reply),
            r.ambient == self.ambient,
    {
        if plugin == Plugin::Search {
            Snapshot { search: Some(search_mode(reply)), ..self }
        } else {
            Snapshot { blocking: Some(plugin), ..self }
        }
    }

    fn enter_debug_factory(self, i: usize) -> (r: Self)
        ensures
            r@ == self@.enter_debug_factory(i as int),
            r.ambient == self.ambient,
    {
        if debug_factory(i).is_none() {
            self.enter_nonblocking()
        } else {
            self.at(Stage::DebugFactory(i))
        }
    }

    fn enter_nonblocking(self) -> (r: Self)
        ensures
            r@ == self@.enter_nonblocking(),
            r.ambient == self.ambient,
    {
        if self.nonblocking.is_some() {
            self.at(Stage::NonblockingSlot)
        } else if self.comparing {
            self.at(Stage::NonblockingFactory(0))
        } else {
            self.enter_modal()
        }
    }

    fn enter_nonblocking_factory(self, i: usize) -> (r: Self)
        ensures
            r@ == self@.enter_nonblocking_factory(i as int),
            r.ambient == self.ambient,
    {
        if nonblocking_factory(i).is_none() {
            self.enter_modal()
        } else {
            self.at(Stage::NonblockingFactory(i))
        }
    }

    fn enter_modal(self) -> (r: Self)
        ensures
            r@ == self@.enter_modal(),
            r.ambient == self.ambient,
    {
        if self.show_score {
            self.at(Stage::ShowScore)
        } else {
            self.at(Stage::ShowScoreFactory)
        }
    }

    fn enter_search_modal(self) -> (r: Self)
        ensures
            r@ == self@.enter_search_modal(),
            r.ambient == self.ambient,
    {
        if is_stackable(self.search) {
            self.at(Stage::SearchModal)
        } else {
            self.enter_hider()
        }
    }

    fn enter_hider(self) -> (r: Self)
        ensures
            r@ == self@.enter_hider(),
            r.ambient == self.ambient,
    {
        if self.hider {
            self.at(Stage::Hider)
        } else if self.debug {
            self.at(Stage::HiderFactory)
        } else {
            self.at(Stage::SimControls)
        }
    }

    fn enter_ambient(self, i: usize) -> (r: Self)
        ensures
            r@ == self@.enter_ambient(i as int),
            r.ambient == self.ambient,
    {
        if i < self.ambient.len() {
            self.at(Stage::Ambient(i))
        } else if self.debug {
            self.at(Stage::Layers)
        } else {
            self.at(Stage::Idle)
        }
    }

    fn step(self, reply: Reply) -> (r: Self)
        ensures
            r@ == self@.step(reply),
            r.ambient == self.ambient,
    {
        match self.stage {
            Stage::Idle => self,
            Stage::SearchBlocking => self.search_handled(reply),
            Stage::TimeTravel => if reply.active {
                self.at(Stage::Idle)
            } else if self.blocking.is_some() {
                self.at(Stage::BlockingSlot)
            } else {
                self.enter_blocking_factory(0)
            },
            Stage::BlockingSlot => {
                let blocking = if reply.active {
                    self.blocking
                } else {
                    None
                };
                Snapshot { blocking, stage: Stage::Idle, ..self }
            },
            Stage::BlockingFactory(i) => match blocking_factory(i) {
                None => self.at(Stage::Idle),
                Some(plugin) => if reply.active {
                    self.claim_blocking(plugin, reply).after_blocking_scan()
                } else {
                    self.enter_blocking_factory(i + 1)
                },
            },
            Stage::DebugFactory(i) => match debug_factory(i) {
                None => self.at(Stage::Idle),
                Some(plugin) => if reply.active {
                    Snapshot { blocking: Some(plugin), stage: Stage::Idle, ..self }
                } else {
                    self.enter_debug_factory(i + 1)
                },
            },
            Stage::NonblockingSlot => {
                let nonblocking = if reply.active {
                    self.nonblocking
                } else {
                    None
                };
                Snapshot { nonblocking, ..self }.enter_modal()
            },
            Stage::NonblockingFactory(i) => match nonblocking_factory(i) {
                None => self.at(Stage::Idle),
                Some(plugin) => if reply.active {
                    Snapshot { nonblocking: Some(plugin), ..self }.enter_modal()
                } else {
                    self.enter_nonblocking_factory(i + 1)
                },
            },
            Stage::ShowScore => Snapshot { show_score: reply.active, ..self }.enter_search_modal(),
            Stage::ShowScoreFactory => Snapshot {
                show_score: reply.active,
                ..self
            }.enter_search_modal(),
            Stage::SearchModal => self.search_handled(reply),
            Stage::Hider => Snapshot { hider: reply.active, ..self }.at(Stage::SimControls),
            Stage::HiderFactory => Snapshot { hider: reply.active, ..self }.at(Stage::SimControls),
            Stage::SimControls => self.enter_ambient(0),
            Stage::Ambient(i) => if i >= self.ambient.len() {
                self.at(Stage::Idle)
            } else {
                self.enter_ambient(i + 1)
            },
            Stage::Layers => self.at(Stage::Idle),
        }
    }
}

/// Whether `answer` is what comes of asking `sources` in turn and taking the
/// first colour given: some tool gave it and every tool before it gave none,
/// or there is no answer and every tool gave none.
pub open spec fn first_answer<C, F: Fn(Plugin) -> Option<C>>(
    sources: Seq<Plugin>,
    color_for: F,
    answer: Option<C>,
) -> bool {
    if answer is Some {
        exists|k: int|
            0 <= k < sources.len() && color_for.ensures((#[trigger] sources[k],), answer)
                && forall|j: int|
                0 <= j < k ==> color_for.ensures((#[trigger] sources[j],), None)
    } else {
        forall|j: int| 0 <= j < sources.len() ==> color_for.ensures((#[trigger] sources[j],), None)
    }
}

impl DefaultUIState {
    /// An editor that has just started on its first map: every slot is empty,
    /// no overlay runs, and no frame is under way.
    pub fn new(enable_debug_controls: bool) -> (state: DefaultUIState)
        ensures
            state@ == UIModel::fresh(enable_debug_controls),
            state.selection() is None,
    {
        let (primary, primary_plugins) = PerMapUI::new(enable_debug_controls);
        DefaultUIState {
            primary,
            primary_plugins,
            secondary: None,
            exclusive_blocking_plugin: None,
            exclusive_nonblocking_plugin: None,
            show_score: false,
            enable_debug_controls,
            stage: Stage::Idle,
        }
    }

    /// Whether `other` holds the same maps, selections and settings; only the
    /// dispatcher's own knowledge may differ.
    pub closed spec fn same_maps(&self, other: &DefaultUIState) -> bool {
        &&& self.primary == other.primary
        &&& self.secondary == other.secondary
        &&& self.enable_debug_controls == other.enable_debug_controls
    }

    /// What is selected on the active map.
    pub closed spec fn selection(&self) -> Option<ID> {
        self.primary.current_selection
    }

    /// The selection is highlighted, unless it is a turn.
    pub open spec fn highlights(&self, id: ID) -> bool {
        !(id is Turn) && self.selection() == Some(id)
    }

    fn snapshot(&self) -> (s: Snapshot<'_>)
        ensures
            s@ == self@,
            s.ambient == &self.primary_plugins.ambient_plugins,
    {
        Snapshot {
            search: self.primary_plugins.search,
            hider: self.primary_plugins.hider,
            ambient: &self.primary_plugins.ambient_plugins,
            blocking: self.exclusive_blocking_plugin,
            nonblocking: self.exclusive_nonblocking_plugin,
            show_score: self.show_score,
            comparing: self.secondary.is_some(),
            debug: self.enable_debug_controls,
            stage: self.stage,
        }
    }

    /// The tools that are asked for an object's colour, in the order asked:
    /// search, the blocking slot's tool, then the always-present tools.
    pub fn color_sources(&self) -> (sources: Vec<Plugin>)
        ensures
            sources@ == self@.color_sources(),
    {
        let mut sources: Vec<Plugin> = Vec::new();
        if self.primary_plugins.search.is_some() {
            sources.push(Plugin::Search);
        }
        if let Some(plugin) = self.exclusive_blocking_plugin {
            sources.push(plugin);
        }
        let ghost head = sources@;
        let n = self.primary_plugins.ambient_plugins.len();
        let mut i: usize = 0;
        while i < n
            invariant
                i <= n,
                n == self.primary_plugins.ambient_plugins@.len(),
                sources@ == head + self.primary_plugins.ambient_plugins@.take(i as int),
            decreases n - i,
        {
            sources.push(self.primary_plugins.ambient_plugins[i]);
            i = i + 1;
        }
        assert(self.primary_plugins.ambient_plugins@.take(n as int)
            == self.primary_plugins.ambient_plugins@);
        sources
    }

    /// The colour in which an object is drawn, if any tool has one for it.
    /// The highlighted selection gets `selected`. Otherwise `color_for` is
    /// put to the tools of `color_sources` in turn, and the first colour
    /// that one of them gives is the answer.
    pub fn color_obj<C, F: Fn(Plugin) -> Option<C>>(
        &self,
        id: ID,
        selected: C,
        color_for: F,
    ) -> (color: Option<C>)
        requires
            forall|plugin: Plugin| color_for.requires((plugin,)),
        ensures
            self.highlights(id) ==> color == Some(selected),
            !self.highlights(id) ==> first_answer(self@.color_sources(), color_for, color),
    {
        if !id.is_turn() {
            if let Some(current) = self.primary.current_selection {
                if current == id {
                    return Some(selected);
                }
            }
        }
        let sources = self.color_sources();
        let mut i: usize = 0;
        while i < sources.len()
            invariant
                i <= sources.len(),
                !self.highlights(id),
                sources@ == self@.color_sources(),
                forall|plugin: Plugin| color_for.requires((plugin,)),
                forall|j: int| 0 <= j < i ==> color_for.ensures((#[trigger] sources@[j],), None),
            decreases sources.len() - i,
        {
            let answer = color_for(sources[i]);
            if answer.is_some() {
                assert(0 <= i < sources@.len() && color_for.ensures((sources@[i as int],), answer));
                return answer;
            }
            i = i + 1;
        }
        None
    }

    /// The sign or signal editor, while it holds the blocking slot: it alone
    /// decides which turn icons are shown.
    pub fn turn_icon_editor(&self) -> (editor: Option<Plugin>)
        ensures
            editor == self@.turn_icon_editor(),
    {
        match self.exclusive_blocking_plugin {
            Some(Plugin::StopSignEditor) => Some(Plugin::StopSignEditor),
            Some(Plugin::TrafficSignalEditor) => Some(Plugin::TrafficSignalEditor),
            _ => None,
        }
    }

    /// The host has done the work it was last asked for and reports `reply`:
    /// the dispatcher takes note and names the next piece of work. Outside a
    /// frame the reply is not looked at.
    pub fn resume(&mut self, reply: Reply) -> (a: Action)
        ensures
            final(self)@ == old(self)@.step(reply),
            a == final(self)@.pending(),
            final(self).same_maps(old(self)),
    {
        let next = self.snapshot().step(reply);
        let action = next.pending();
        let search = next.search;
        let hider = next.hider;
        let blocking = next.blocking;
        let nonblocking = next.nonblocking;
        let show_score = next.show_score;
        let stage = next.stage;
        self.primary_plugins.search = search;
        self.primary_plugins.hider = hider;
        self.exclusive_blocking_plugin = blocking;
        self.exclusive_nonblocking_plugin = nonblocking;
        self.show_score = show_score;
        self.stage = stage;
        action
    }

    /// The work the dispatcher is waiting on; `Finished` between frames.
    pub fn pending(&self) -> (a: Action)
        ensures
            a == self@.pending(),
    {
        self.snapshot().pending()
    }

    /// The tool in the blocking-exclusive slot.
    pub fn exclusive_blocking_plugin(&self) -> (r: Option<Plugin>)
        ensures
            r == self@.blocking,
    {
        self.exclusive_blocking_plugin
    }

    /// The tool in the non-blocking-exclusive slot.
    pub fn exclusive_nonblocking_plugin(&self) -> (r: Option<Plugin>)
        ensures
            r == self@.nonblocking,
    {
        self.exclusive_nonblocking_plugin
    }

    /// Whether the score overlay runs.
    pub fn show_score(&self) -> (r: bool)
        ensures
            r == self@.show_score,
    {
        self.show_score
    }

    /// Where in the frame the dispatcher stands.
    pub fn stage(&self) -> (r: Stage)
        ensures
            r == self@.stage,
    {
        self.stage
    }
}

impl UIState for DefaultUIState {
    fn get_state(&self) -> (r: &DefaultUIState)
        ensures
            r == self,
    {
        self
    }

    fn mut_state(&mut self) -> (r: &mut DefaultUIState)
        ensures
            *r == *old(self),
            *final(self) == *final(r),
    {
        self
    }

    /// Opens a frame. Search in its blocking sub-mode is served alone;
    /// otherwise the time-travel scrape comes first. A frame that was still
    /// under way is abandoned.
    fn event(&mut self) -> (a: Action)
        ensures
            final(self)@ == old(self)@.begin(),
            a == final(self)@.pending(),
            final(self).same_maps(old(self)),
    {
        let next = self.snapshot().begin();
        let action = next.pending();
        let stage = next.stage;
        self.stage = stage;
        action
    }

    fn draw(&self) -> (order: Vec<Plugin>)
        ensures
            order@ == self@.draw_order(),
    {
        let mut order: Vec<Plugin> = Vec::new();
        if self.primary_plugins.search.is_some() {
            order.push(Plugin::Search);
            if is_blocking(self.primary_plugins.search) {
                return order;
            }
        }
        if let Some(plugin) = self.exclusive_blocking_plugin {
            order.push(plugin);
            return order;
        }
        if let Some(plugin) = self.exclusive_nonblocking_plugin {
            order.push(plugin);
        }
        if self.show_score {
            order.push(Plugin::ShowScore);
        }
        order.push(Plugin::SimControls);
        let ghost head = order@;
        let n = self.primary_plugins.ambient_plugins.len();
        let mut i: usize = 0;
        while i < n
            invariant
                i <= n,
                n == self.primary_plugins.ambient_plugins@.len(),
                order@ == head + self.primary_plugins.ambient_plugins@.take(i as int),
            decreases n - i,
        {
            order.push(self.primary_plugins.ambient_plugins[i]);
            i = i + 1;
        }
        assert(self.primary_plugins.ambient_plugins@.take(n as int)
            == self.primary_plugins.ambient_plugins@);
        order
    }
}

impl ShowObjects for DefaultUIState {
    /// While the sign or signal editor holds the blocking slot, its answer
    /// stands. Otherwise the icons are shown if the layer toggle says so, or
    /// if a turn of this intersection is selected.
    fn show_icons_for(&self, id: IntersectionID, editor_shows: bool, all_turn_icons: bool) -> (r:
        bool)
        ensures
            r == (if self@.turn_icon_editor() is Some {
                editor_shows
            } else {
                all_turn_icons || (self.selection() matches Some(s) && s.turn_parent() == Some(id))
            }),
    {
        if self.turn_icon_editor().is_some() {
            return editor_shows;
        }
        all_turn_icons || match self.primary.current_selection {
            Some(ID::Turn(t)) => t.parent == id,
            _ => false,
        }
    }

    /// An object is shown if the layer toggles show it and the hiding
    /// overlay, while it runs, does not hide it.
    fn show(&self, obj: ID, hider_shows: bool, layer_shows: bool) -> (r: bool)
        ensures
            r == ((self@.hider ==> hider_shows) && layer_shows),
    {
        if self.primary_plugins.hider {
            if !hider_shows {
                return false;
            }
        }
        layer_shows
    }
}

} // verus!
