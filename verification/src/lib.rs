//! Request handlers of a game server: combat packs, inventory listings and
//! weapon equipment, over a model of the player and the game world.
pub mod search;
pub mod protocol;
pub mod data;
pub mod player;
pub mod random;
pub mod combat;
pub mod inventory;
pub mod weapon;
