//! Verified core of the Athena LED controller: the line protocol of the
//! control port and the state machine that chooses what the screen shows.

pub mod text;
pub mod control;
pub mod states;
