//! The state of the client's drawing thread and how messages change it.

use vstd::prelude::*;
use crate::api::BoardState;

verus! {

/// Messages sent to the drawing thread.
pub enum RenderMessage {
    /// The board as it now stands.
    Game(BoardState),
    /// The faces of the dice to show.
    Dice((u16, u16)),
}

/// What the drawing thread holds: whether the board must be drawn again,
/// the board, and the dice waiting to be shown.
pub struct Ui {
    pub update: bool,
    pub game: BoardState,
    pub dice: Option<(u16, u16)>,
}

/// Takes in a message: a new board replaces the old one and must be drawn;
/// dice wait to be shown.
pub fn handle_render_message(ui: &mut Ui, message: RenderMessage)
    ensures
        match message {
            RenderMessage::Game(game) => {
                &&& final(ui).game == game
                &&& final(ui).update
                &&& final(ui).dice == old(ui).dice
            },
            RenderMessage::Dice(dice) => {
                &&& final(ui).dice == Some(dice)
                &&& final(ui).game == old(ui).game
                &&& final(ui).update == old(ui).update
            },
        },
{
    match message {
        RenderMessage::Game(game) => {
            ui.game = game;
            ui.update = true;
        },
        RenderMessage::Dice(dice) => ui.dice = Some(dice),
    }
}

} // verus!
