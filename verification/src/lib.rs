//! The per-frame core of an interactive map editor: a priority-tiered
//! dispatcher that decides which tool is handed each input event, and a
//! wizard that asks a sequence of typed questions across frames.

pub mod answer;
pub mod dispatch;
pub mod dispatch_laws;
pub mod input;
pub mod objects;
pub mod plugins;
pub mod state;
pub mod wizard;
pub mod wizard_laws;
