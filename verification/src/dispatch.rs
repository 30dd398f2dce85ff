//! The dispatcher's decisions, as mathematics.
//!
//! A frame is a dialogue. The dispatcher names one piece of outside work (hand
//! the event to a tool, or try a tool's factory against it), the host does it
//! and reports back, and the dispatcher names the next, until the frame is
//! over. `UIModel` is what the dispatcher knows between two such steps;
//! `begin` and `step` are the whole of its policy.

use crate::plugins::{
    blocking_factories, debug_factories, nonblocking_factories, Handler, Plugin, Tier,
};
use vstd::prelude::*;

verus! {

/// How the search tool currently relates to the other tools.
#[derive(Clone, Copy, Debug, PartialEq, Eq, Hash, Structural)]
pub enum SearchMode {
    /// Its query is being typed: it alone is handed events.
    Blocking,
    /// Its results are shown: it stacks with the other overlays.
    Stackable,
}

/// What the host reports after doing the work the dispatcher asked for.
#[derive(Clone, Copy, Debug, PartialEq, Eq, Hash, Structural)]
pub struct Reply {
    /// A handler: the tool is still running. A factory: the tool started.
    /// The scrape: a replay is running.
    pub active: bool,
    /// For the search tool only: it is now in its blocking sub-mode.
    pub blocking: bool,
}

/// One piece of outside work.
#[derive(Clone, Copy, Debug, PartialEq, Eq, Hash, Structural)]
pub enum Action {
    /// Hand the frame's event to a running tool.
    Handle { plugin: Plugin, tier: Tier, handler: Handler },
    /// Offer the frame's event to a tool that is not running.
    Create { plugin: Plugin, tier: Tier },
    /// Nothing more this frame.
    Finished,
}

/// The point of the frame at which the dispatcher waits for a reply.
#[derive(Clone, Copy, Debug, PartialEq, Eq, Hash, Structural)]
pub enum Stage {
    /// Between frames.
    Idle,
    SearchBlocking,
    TimeTravel,
    BlockingSlot,
    /// Waiting for the factory at this position of `blocking_factories`.
    BlockingFactory(usize),
    /// Waiting for the factory at this position of `debug_factories`.
    DebugFactory(usize),
    NonblockingSlot,
    /// Waiting for the factory at this position of `nonblocking_factories`.
    NonblockingFactory(usize),
    ShowScore,
    ShowScoreFactory,
    SearchModal,
    Hider,
    HiderFactory,
    SimControls,
    /// Waiting for the ambient tool at this position of the map's list.
    Ambient(usize),
    Layers,
}

/// Position in `blocking_factories` of the first tool that is offered only
/// while no comparison map is loaded.
pub const FIRST_EDITING_FACTORY: usize = 3;

/// Everything the dispatcher's decisions depend on.
pub struct UIModel {
    /// The search tool, if it is running, and its sub-mode as last reported.
    pub search: Option<SearchMode>,
    /// Whether the object-hiding overlay is running.
    pub hider: bool,
    /// The map's always-present tools, in serving order.
    pub ambient: Seq<Plugin>,
    /// The blocking-exclusive slot.
    pub blocking: Option<Plugin>,
    /// The non-blocking-exclusive slot.
    pub nonblocking: Option<Plugin>,
    /// Whether the score overlay is running.
    pub show_score: bool,
    /// Whether a comparison map is loaded.
    pub comparing: bool,
    /// Whether the debug tools are offered.
    pub debug: bool,
    pub stage: Stage,
}

impl Reply {
    /// The sub-mode that a reply from the search tool reports.
    pub open spec fn search_mode(self) -> SearchMode {
        if self.blocking {
            SearchMode::Blocking
        } else {
            SearchMode::Stackable
        }
    }
}

impl Action {
    /// The tier at which this work is done; `None` once the frame is over.
    pub open spec fn tier(self) -> Option<Tier> {
        match self {
            Action::Handle { tier, .. } => Some(tier),
            Action::Create { tier, .. } => Some(tier),
            Action::Finished => None,
        }
    }

    /// Whether this work offers the event to a stackable overlay or to an
    /// always-present tool.
    pub open spec fn is_below_exclusive(self) -> bool {
        self.tier() == Some(Tier::Modal) || self.tier() == Some(Tier::Ambient)
    }

    /// Whether this work is the time-travel scrape.
    pub open spec fn is_scrape(self) -> bool {
        self.tier() == Some(Tier::Scrape)
    }
}

impl UIModel {
    pub open spec fn at(self, stage: Stage) -> UIModel {
        UIModel { stage, ..self }
    }

    /// The work the dispatcher is waiting on.
    pub open spec fn pending(self) -> Action {
        match self.stage {
            Stage::Idle => Action::Finished,
            Stage::SearchBlocking => Action::Handle {
                plugin: Plugin::Search,
                tier: Tier::SearchBlocking,
                handler: Handler::Blocking,
            },
            Stage::TimeTravel => Action::Handle {
                plugin: Plugin::TimeTravel,
                tier: Tier::Scrape,
                handler: Handler::Scrape,
            },
            Stage::BlockingSlot => match self.blocking {
                Some(plugin) => Action::Handle {
                    plugin,
                    tier: Tier::Blocking,
                    handler: Handler::BlockingWithPlugins,
                },
                None => Action::Finished,
            },
            Stage::BlockingFactory(i) => if i < blocking_factories().len() {
                Action::Create { plugin: blocking_factories()[i as int], tier: Tier::Blocking }
            } else {
                Action::Finished
            },
            Stage::DebugFactory(i) => if i < debug_factories().len() {
                Action::Create { plugin: debug_factories()[i as int], tier: Tier::Blocking }
            } else {
                Action::Finished
            },
            Stage::NonblockingSlot => match self.nonblocking {
                Some(plugin) => Action::Handle {
                    plugin,
                    tier: Tier::Nonblocking,
                    handler: Handler::Blocking,
                },
                None => Action::Finished,
            },
            Stage::NonblockingFactory(i) => if i < nonblocking_factories().len() {
                Action::Create {
                    plugin: nonblocking_factories()[i as int],
                    tier: Tier::Nonblocking,
                }
            } else {
                Action::Finished
            },
            Stage::ShowScore => Action::Handle {
                plugin: Plugin::ShowScore,
                tier: Tier::Modal,
                handler: Handler::Nonblocking,
            },
            Stage::ShowScoreFactory => Action::Create {
                plugin: Plugin::ShowScore,
                tier: Tier::Modal,
            },
            Stage::SearchModal => Action::Handle {
                plugin: Plugin::Search,
                tier: Tier::Modal,
                handler: Handler::Blocking,
            },
            Stage::Hider => Action::Handle {
                plugin: Plugin::Hider,
                tier: Tier::Modal,
                handler: Handler::Nonblocking,
            },
            Stage::HiderFactory => Action::Create { plugin: Plugin::Hider, tier: Tier::Modal },
            Stage::SimControls => Action::Handle {
                plugin: Plugin::SimControls,
                tier: Tier::Ambient,
                handler: Handler::AmbientWithPlugins,
            },
            Stage::Ambient(i) => if i < self.ambient.len() {
                Action::Handle {
                    plugin: self.ambient[i as int],
                    tier: Tier::Ambient,
                    handler: Handler::Ambient,
                }
            } else {
                Action::Finished
            },
            Stage::Layers => Action::Handle {
                plugin: Plugin::Layers,
                tier: Tier::Ambient,
                handler: Handler::Ambient,
            },
        }
    }

    /// A new event arrives. Search in its blocking sub-mode is served alone;
    /// otherwise the frame opens with the time-travel scrape.
    pub open spec fn begin(self) -> UIModel {
        if self.search == Some(SearchMode::Blocking) {
            self.at(Stage::SearchBlocking)
        } else {
            self.at(Stage::TimeTravel)
        }
    }

    /// The search tool has handled the event: it is gone if it says so, and
    /// otherwise in the sub-mode it reports.
    pub open spec fn search_handled(self, reply: Reply) -> UIModel {
        UIModel {
            search: if reply.active {
                Some(reply.search_mode())
            } else {
                None
            },
            stage: Stage::Idle,
            ..self
        }
    }

    /// Offer the event to the blocking factory at position `i`, or move on
    /// when the list is exhausted or the editing tools are not on offer.
    pub open spec fn enter_blocking_factory(self, i: int) -> UIModel {
        if i >= blocking_factories().len() || (i == FIRST_EDITING_FACTORY && self.comparing) {
            self.after_blocking_scan()
        } else {
            self.at(Stage::BlockingFactory(i as usize))
        }
    }

    /// The scan of the blocking factories is over. The frame ends here if
    /// search is typing or the slot is taken.
    pub open spec fn after_blocking_scan(self) -> UIModel {
        if self.search == Some(SearchMode::Blocking) || self.blocking is Some {
            self.at(Stage::Idle)
        } else if self.debug {
            self.at(Stage::DebugFactory(0))
        } else {
            self.enter_nonblocking()
        }
    }

    /// A blocking factory started its tool: search is kept apart, every other
    /// tool takes the slot.
    pub open spec fn claim_blocking(self, plugin: Plugin, reply: Reply) -> UIModel {
        if plugin == Plugin::Search {
            UIModel { search: Some(reply.search_mode()), ..self }
        } else {
            UIModel { blocking: Some(plugin), ..self }
        }
    }

    pub open spec fn enter_debug_factory(self, i: int) -> UIModel {
        if i >= debug_factories().len() {
            self.enter_nonblocking()
        } else {
            self.at(Stage::DebugFactory(i as usize))
        }
    }

    /// The non-blocking-exclusive tier: serve the slot's tool, or, with a
    /// comparison map loaded, look for one.
    pub open spec fn enter_nonblocking(self) -> UIModel {
        if self.nonblocking is Some {
            self.at(Stage::NonblockingSlot)
        } else if self.comparing {
            self.at(Stage::NonblockingFactory(0))
        } else {
            self.enter_modal()
        }
    }

    pub open spec fn enter_nonblocking_factory(self, i: int) -> UIModel {
        if i >= nonblocking_factories().len() {
            self.enter_modal()
        } else {
            self.at(Stage::NonblockingFactory(i as usize))
        }
    }

    /// The stackable overlays, the score overlay first.
    pub open spec fn enter_modal(self) -> UIModel {
        if self.show_score {
            self.at(Stage::ShowScore)
        } else {
            self.at(Stage::ShowScoreFactory)
        }
    }

    pub open spec fn enter_search_modal(self) -> UIModel {
        if self.search == Some(SearchMode::Stackable) {
            self.at(Stage::SearchModal)
        } else {
            self.enter_hider()
        }
    }

    pub open spec fn enter_hider(self) -> UIModel {
        if self.hider {
            self.at(Stage::Hider)
        } else if self.debug {
            self.at(Stage::HiderFactory)
        } else {
            self.at(Stage::SimControls)
        }
    }

    /// Serve the ambient tool at position `i`; after the last, the layer
    /// toggles if the debug tools are on offer.
    pub open spec fn enter_ambient(self, i: int) -> UIModel {
        if i < self.ambient.len() {
            self.at(Stage::Ambient(i as usize))
        } else if self.debug {
            self.at(Stage::Layers)
        } else {
            self.at(Stage::Idle)
        }
    }

    /// The host has done the pending work and reports `reply`.
    pub open spec fn step(self, reply: Reply) -> UIModel {
        match self.stage {
            Stage::Idle => self,
            Stage::SearchBlocking => self.search_handled(reply),
            Stage::TimeTravel => if reply.active {
                self.at(Stage::Idle)
            } else if self.blocking is Some {
                self.at(Stage::BlockingSlot)
            } else {
                self.enter_blocking_factory(0)
            },
            Stage::BlockingSlot => UIModel {
                blocking: if reply.active {
                    self.blocking
                } else {
                    None
                },
                stage: Stage::Idle,
                ..self
            },
            Stage::BlockingFactory(i) => if i >= blocking_factories().len() {
                self.at(Stage::Idle)
            } else if reply.active {
                self.claim_blocking(blocking_factories()[i as int], reply).after_blocking_scan()
            } else {
                self.enter_blocking_factory(i + 1)
            },
            Stage::DebugFactory(i) => if i >= debug_factories().len() {
                self.at(Stage::Idle)
            } else if reply.active {
                UIModel { blocking: Some(debug_factories()[i as int]), stage: Stage::Idle, ..self }
            } else {
                self.enter_debug_factory(i + 1)
            },
            Stage::NonblockingSlot => UIModel {
                nonblocking: if reply.active {
                    self.nonblocking
                } else {
                    None
                },
                ..self
            }.enter_modal(),
            Stage::NonblockingFactory(i) => if i >= nonblocking_factories().len() {
                self.at(Stage::Idle)
            } else if reply.active {
                UIModel {
                    nonblocking: Some(nonblocking_factories()[i as int]),
                    ..self
                }.enter_modal()
            } else {
                self.enter_nonblocking_factory(i + 1)
            },
            Stage::ShowScore => UIModel { show_score: reply.active, ..self }.enter_search_modal(),
            Stage::ShowScoreFactory => UIModel {
                show_score: reply.active,
                ..self
            }.enter_search_modal(),
            Stage::SearchModal => self.search_handled(reply),
            Stage::Hider => UIModel { hider: reply.active, ..self }.at(Stage::SimControls),
            Stage::HiderFactory => UIModel { hider: reply.active, ..self }.at(Stage::SimControls),
            Stage::SimControls => self.enter_ambient(0),
            Stage::Ambient(i) => if i >= self.ambient.len() {
                self.at(Stage::Idle)
            } else {
                self.enter_ambient(i + 1)
            },
            Stage::Layers => self.at(Stage::Idle),
        }
    }

    /// Where the dispatcher stands, and the work it has asked for, after the
    /// host has answered with `replies` in this order. Replies that arrive
    /// once the frame is over are not looked at.
    pub open spec fn run(self, replies: Seq<Reply>) -> (UIModel, Seq<Action>)
        decreases replies.len(),
    {
        if self.stage is Idle || replies.len() == 0 {
            (self, Seq::empty())
        } else {
            let (end, trace) = self.step(replies[0]).run(replies.skip(1));
            (end, seq![self.pending()] + trace)
        }
    }

    /// One frame: a new event, then `replies`.
    pub open spec fn frame(self, replies: Seq<Reply>) -> (UIModel, Seq<Action>) {
        self.begin().run(replies)
    }

    /// What is rendered, top tier first. Search in its blocking sub-mode and
    /// the blocking slot's tool each hide everything below them.
    pub open spec fn draw_order(self) -> Seq<Plugin> {
        let search = if self.search is Some {
            seq![Plugin::Search]
        } else {
            Seq::empty()
        };
        if self.search == Some(SearchMode::Blocking) {
            search
        } else if self.blocking is Some {
            search.push(self.blocking->0)
        } else {
            let exclusive = if self.nonblocking is Some {
                search.push(self.nonblocking->0)
            } else {
                search
            };
            let modal = if self.show_score {
                exclusive.push(Plugin::ShowScore)
            } else {
                exclusive
            };
            modal.push(Plugin::SimControls) + self.ambient
        }
    }

    /// The sign or signal editor, while it holds the blocking slot.
    pub open spec fn turn_icon_editor(self) -> Option<Plugin> {
        if self.blocking == Some(Plugin::StopSignEditor) || self.blocking == Some(
            Plugin::TrafficSignalEditor,
        ) {
            self.blocking
        } else {
            None
        }
    }

    /// The tools that are asked for an object's colour, in the order asked.
    pub open spec fn color_sources(self) -> Seq<Plugin> {
        let search = if self.search is Some {
            seq![Plugin::Search]
        } else {
            Seq::empty()
        };
        let exclusive = if self.blocking is Some {
            search.push(self.blocking->0)
        } else {
            search
        };
        exclusive + self.ambient
    }
}

} // verus!
