//! Runs of the desktop application, told to the phone while they go on.
pub mod controller;
pub mod state;
pub mod translate;
