//! A falling-block puzzle engine: the playfield, the falling piece with its
//! rotation kicks, the seven-piece bag, the hold slot, T-spin classification,
//! scoring, and the per-frame state machine that ties them together.

pub mod gameplay;
pub mod utility;
