//! Pieces: their shapes, the falling piece, the hold slot and the bag.

pub mod block_datas;
pub mod control_block;
pub mod hold_block;
pub mod next_blocks;
