//! Commands, events and the state machine of a player.
pub mod command;
pub mod event;
pub mod state;

pub use command::PlayerCommand;
pub use event::PlayerEvent;
pub use state::{InvalidTransition, PlayerState, StateAction};
