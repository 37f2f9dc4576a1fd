//! Settings, menu and save-file naming of the SDL front end, and the input
//! decisions of the desktop debugger.
pub mod config;
pub mod menu;
pub mod saves;
pub mod debugger;
