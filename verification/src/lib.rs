//! Slot-based item storage: stacks, fixed-capacity containers, a registry that
//! owns the containers on behalf of their owners, and the command protocol
//! through which every mutation is requested and reported. Beside it stand
//! the item kinds and the small states that a front end keeps.

pub mod drag;
pub mod game_state;
pub mod inventory;
pub mod item;
