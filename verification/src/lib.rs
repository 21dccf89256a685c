//! Host-side state of an emulated Windows process.
pub mod caret;
pub mod clipboard;
pub mod controls;
pub mod cpu;
pub mod d3d9;
pub mod dispatch;
pub mod display;
pub mod dll_state;
pub mod edit;
pub mod edit_control;
pub mod edit_proc;
pub mod font;
pub mod handlers;
pub mod handles;
pub mod heap;
pub mod input;
pub mod kernel;
pub mod laws;
pub mod layout;
pub mod lines;
pub mod menus;
pub mod messages;
pub mod present;
pub mod process;
pub mod registry;
pub mod resources;
pub mod state;
pub mod subsystems;
pub mod text;
pub mod user32;
pub mod window;
pub mod winmm;
