//! Game logic of a small networked board game in the style of Monopoly:
//! a server keeps the players and their places on a square board of forty
//! fields, rolls the dice and tells every client what the board looks
//! like from its seat; a client keeps its own player and works out where
//! on the screen each field lies.

pub mod api;
pub mod client;
mod rng;
pub mod server;
pub mod ui;
