//! What the session asks of whoever draws it.

use vstd::prelude::*;
use crate::gameplay::game_manager::GameManager;

verus! {

/// Something that shows the session. It gets a read-only look at the
/// session after every frame.
pub trait GameRendererSender: Send {
    /// Shows the session as it is now.
    fn game_sender(&self, game: &GameManager);
}

} // verus!
