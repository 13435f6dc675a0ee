//! Modal command interpreter and viewport state machine for browsing and
//! filling a small catalog of series from single-line, vim-style commands.

pub mod app;
pub mod bounds;
pub mod decimal;
pub mod keybinds;
pub mod printer;
pub mod scan;
pub mod series;
pub mod session;
pub mod term;
pub mod user;
