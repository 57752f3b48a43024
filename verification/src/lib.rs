//! Decision logic of a seeding client for Battlefield community servers: which
//! launcher command lines to run, how the seeding commands of the backend turn into
//! local actions, how broadcast messages rotate and when the message window is open.

pub mod text;
pub mod clock;
pub mod structs;
pub mod actions;
pub mod functions;
