//! The messages that the server and the clients exchange, and the values
//! that they carry.

use vstd::prelude::*;

verus! {

/// What a message says of one player: its name, the field it stands on
/// and the character that draws it on the board.
pub struct PlayerInfo {
    pub name: Seq<char>,
    pub position: u16,
    pub icon: char,
}

/// What a board update says: the player that receives it, every other
/// player, and whose turn it is.
pub struct BoardStateInfo {
    pub player: PlayerInfo,
    pub players: Seq<PlayerInfo>,
    pub turn: u16,
}

/// Messages sent from the server to a client.
#[derive(Debug)]
pub enum ServerMessage {
    /// The board as the receiving player sees it.
    Update(BoardState),
    /// The game begins; the client may draw the board.
    GameStarting,
    /// It is the receiving player's turn, and the dice showed these faces.
    YourTurn(u16, u16),
}

/// Messages sent from a client to the server.
#[derive(Debug)]
pub enum ClientMessage {
    /// A player asks to join the game.
    Connect(ConnectionInfo),
    /// The player has seen the dice of its turn.
    RolledDice,
}

/// The board as one player sees it; sent to each player after every
/// event of the game.
#[derive(Debug)]
pub struct BoardState {
    pub player: PlayerMain,
    pub players: Vec<PlayerOther>,
    pub turn: u16,
}

/// An opponent of the player that receives the board.
#[derive(Debug)]
pub struct PlayerOther {
    pub name: String,
    pub position: u16,
    pub icon: char,
}

/// The player that receives the board.
#[derive(Debug)]
pub struct PlayerMain {
    pub name: String,
    pub position: u16,
    pub icon: char,
}

/// What a player sends to join a game.
#[derive(Debug)]
pub struct ConnectionInfo {
    pub name: String,
    pub icon: char,
}

impl View for PlayerOther {
    type V = PlayerInfo;

    open spec fn view(&self) -> PlayerInfo {
        PlayerInfo { name: self.name@, position: self.position, icon: self.icon }
    }
}

impl View for PlayerMain {
    type V = PlayerInfo;

    open spec fn view(&self) -> PlayerInfo {
        PlayerInfo { name: self.name@, position: self.position, icon: self.icon }
    }
}

impl View for BoardState {
    type V = BoardStateInfo;

    open spec fn view(&self) -> BoardStateInfo {
        BoardStateInfo {
            player: self.player@,
            players: self.players@.map_values(|p: PlayerOther| p@),
            turn: self.turn,
        }
    }
}

} // verus!
