//! Decision logic of a desktop organiser: the commands it exchanges with
//! its second instance, the handoff protocol that carries them, the
//! debounce that decides when the window lets clicks through, the plans
//! for restoring managed shortcuts and for registering the desktop menu.

pub mod command;
pub mod desktop;
pub mod handoff;
pub mod interaction;
pub mod paths;
pub mod powershell;
pub mod registry;
pub mod restore;
pub mod text;
