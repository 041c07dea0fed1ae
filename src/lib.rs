//! Session-state control agent: snapshots and diffs of the target application's
//! key-value store, the account switch sequence, debounced window-state
//! persistence and the user settings that govern them.
pub mod account;
pub mod backup;
pub mod monitor;
pub mod paths;
pub mod process;
pub mod sanitizer;
pub mod settings;
pub mod snapshot;
pub mod state;
pub mod text;
pub mod tray;
pub mod window;
