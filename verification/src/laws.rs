//! What the operations are for, stated over what goes in and what comes out.
pub mod memory;
pub mod mirror;
pub mod queries;
pub mod scrolling;
pub mod selection;
pub mod services;
pub mod state;
pub mod timers;
pub mod typing;
pub mod delivery;
pub mod editing;
pub mod faults;
pub mod handles;
pub mod hits;
pub mod calls;
pub mod caret;
pub mod controls;
pub mod creation;
