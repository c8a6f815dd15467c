//! The gameplay simulation.

pub mod block;
pub mod controller;
pub mod field;
pub mod game_manager;
pub mod game_renderer_sender;
pub mod gameplay_manager;
pub mod key_input;
pub mod score_calculator;
pub mod t_spin_checker;
