//! Subscribing a component to terminal input: a broadcast that grants each
//! component instance one event stream, once, and a hook that attaches to that
//! stream after the component's first commit and, on every poll, hands all
//! buffered events to the component's handler in arrival order.

pub mod broadcast;
pub mod channel;
pub mod event;
pub mod hook;
pub mod lemmas;

pub use broadcast::TerminalEventBroadcast;
pub use channel::NextEvent;
pub use event::{KeyCode, KeyEvent, KeyEventKind, KeyModifiers, TerminalEvent};
pub use hook::{Change, EventHandler, Hooks, Stage, UseTerminalEvents, UseTerminalEventsImpl};
