//! The server side of the board: the players of a game, whose turn it is,
//! the dice, and the board that each player is shown.

use vstd::prelude::*;
use rand::rngs::ThreadRng;
use crate::api::{BoardState, BoardStateInfo, PlayerInfo, PlayerMain, PlayerOther, ServerMessage};
use crate::rng::{gen_range_inclusive, new_thread_rng, shuffle_vec};

verus! {

broadcast use vstd::seq_lib::group_to_multiset_ensures;

/// Number of fields on the board; a position is taken modulo this number.
pub const FIELD_COUNT: u16 = 40;

/// Why a request to the game was refused.
#[derive(Debug)]
pub enum Error {
    TooManyPlayers,
    /// The game already holds as many players as it was made for.
    GameFull,
}

/// The phases of a game.
pub enum GameState {
    Preparing,
    PreThrow,
    CubeThrow,
}

/// A player on the server: its place on the board, its name, the character
/// that draws it, and the connection to its client (of any type `S`).
pub struct Player<S> {
    position: u16,
    name: String,
    icon: char,
    pub stream: S,
}

impl<S> View for Player<S> {
    type V = PlayerInfo;

    closed spec fn view(&self) -> PlayerInfo {
        PlayerInfo { name: self.name@, position: self.position, icon: self.icon }
    }
}

impl<S> Player<S> {
    /// The connection to the player's client.
    pub closed spec fn spec_stream(&self) -> S {
        self.stream
    }

    /// Moves the player `steps` fields on, around the board.
    pub fn move_steps(&mut self, steps: u16)
        requires
            old(self)@.position + steps <= u16::MAX,
        ensures
            final(self)@.position == (old(self)@.position + steps) % (FIELD_COUNT as int),
            final(self)@.position < FIELD_COUNT,
            final(self)@.name == old(self)@.name,
            final(self)@.icon == old(self)@.icon,
            final(self).spec_stream() == old(self).spec_stream(),
    {
        self.position = (self.position + steps) % FIELD_COUNT;
    }

    /// Puts the player on the field `field_number`.
    pub fn move_to(&mut self, field_number: u16)
        ensures
            final(self)@ == (PlayerInfo { position: field_number, ..old(self)@ }),
            final(self).spec_stream() == old(self).spec_stream(),
    {
        self.position = field_number;
    }

    /// A new player named `name`, drawn as `icon`, on the first field.
    pub fn create(name: &str, icon: char, stream: S) -> (player: Self)
        ensures
            player@ == (PlayerInfo { name: name@, position: 0, icon }),
            player.spec_stream() == stream,
    {
        Player { position: 0, name: name.to_owned(), icon, stream }
    }

    /// Lets the player make its decisions; a player has none to make yet.
    pub fn control(&self) {
    }

    /// The field that the player stands on.
    pub fn position(&self) -> (position: u16)
        ensures
            position == self@.position,
    {
        self.position
    }
}

impl<'a, S> From<&'a Player<S>> for PlayerMain {
    fn from(player: &'a Player<S>) -> (main: PlayerMain)
        ensures
            main@ == player@,
    {
        PlayerMain { name: player.name.clone(), position: player.position, icon: player.icon }
    }
}

impl<'a, S> vstd::std_specs::convert::FromSpecImpl<&'a Player<S>> for PlayerMain {
    open spec fn obeys_from_spec() -> bool {
        true
    }

    closed spec fn from_spec(player: &'a Player<S>) -> PlayerMain {
        PlayerMain { name: player.name, position: player.position, icon: player.icon }
    }
}

impl<'a, S> From<&'a Player<S>> for PlayerOther {
    fn from(player: &'a Player<S>) -> (other: PlayerOther)
        ensures
            other@ == player@,
    {
        PlayerOther { name: player.name.clone(), position: player.position, icon: player.icon }
    }
}

impl<'a, S> vstd::std_specs::convert::FromSpecImpl<&'a Player<S>> for PlayerOther {
    open spec fn obeys_from_spec() -> bool {
        true
    }

    closed spec fn from_spec(player: &'a Player<S>) -> PlayerOther {
        PlayerOther { name: player.name, position: player.position, icon: player.icon }
    }
}

/// Rolls two six-sided dice.
pub fn roll_dice(rng: &mut ThreadRng) -> (cubes: (u16, u16))
    ensures
        1 <= cubes.0 <= 6,
        1 <= cubes.1 <= 6,
{
    (gen_range_inclusive(rng, 1, 6), gen_range_inclusive(rng, 1, 6))
}

/// What proofs see of a game: its players in seat order, how many there
/// are, how many it admits, and whose turn it is.
pub struct GameInfo<S> {
    pub players: Seq<Player<S>>,
    pub player_count: u16,
    pub player_max: u16,
    pub player_turn: u16,
}

/// A game on the server.
pub struct Game<S> {
    players: Vec<Player<S>>,
    player_count: u16,
    player_max: u16,
    player_turn: u16,
    rng: ThreadRng,
}

impl<S> View for Game<S> {
    type V = GameInfo<S>;

    closed spec fn view(&self) -> GameInfo<S> {
        GameInfo {
            players: self.players@,
            player_count: self.player_count,
            player_max: self.player_max,
            player_turn: self.player_turn,
        }
    }
}

/// The seat that has the turn after seat `t` at a table of `n` seats: the
/// next one, and after the last the first.
pub open spec fn next_seat(t: int, n: int) -> int {
    (t + 1) % n
}

/// The seat that has the turn `k` turns after seat `t` had it.
pub open spec fn seat_after(t: int, n: int, k: nat) -> int
    decreases k,
{
    if k == 0 {
        t
    } else {
        next_seat(seat_after(t, n, (k - 1) as nat), n)
    }
}

/// The players of `players` as a message shows them.
pub open spec fn infos<S>(players: Seq<Player<S>>) -> Seq<PlayerInfo> {
    players.map_values(|p: Player<S>| p@)
}

/// The opponents that the player in seat `id` is shown: every other player,
/// where the last seat takes the place of seat `id`.
pub open spec fn opponents<S>(players: Seq<Player<S>>, id: int) -> Seq<PlayerInfo> {
    infos(players).update(id, infos(players).last()).drop_last()
}

/// The board that the player in seat `id` of the game `g` is shown.
pub open spec fn board_for<S>(g: GameInfo<S>, id: int) -> BoardStateInfo {
    BoardStateInfo {
        player: g.players[id]@,
        players: opponents(g.players, id),
        turn: g.player_turn,
    }
}

impl<S> Game<S> {
    /// The game keeps count of its players, holds no more than it admits,
    /// and its turn names one of its players (or is 0 while it has none).
    pub open spec fn wf(&self) -> bool {
        &&& self@.players.len() == self@.player_count
        &&& self@.player_count <= self@.player_max
        &&& (self@.player_turn < self@.player_count || self@.player_turn == 0)
    }

    /// A game without players that admits `player_max` of them.
    pub fn create(player_max: u16) -> (game: Self)
        ensures
            game.wf(),
            game@.players == Seq::<Player<S>>::empty(),
            game@.player_count == 0,
            game@.player_max == player_max,
            game@.player_turn == 0,
    {
        let players: Vec<Player<S>> = Vec::with_capacity(player_max as usize);
        Game { players, player_count: 0, player_max, player_turn: 0, rng: new_thread_rng() }
    }

    /// Seats `player` after the players already in the game, unless the
    /// game is full.
    pub fn add(&mut self, player: Player<S>) -> (r: Result<(), Error>)
        ensures
            old(self).wf() ==> final(self).wf(),
            old(self)@.player_count < old(self)@.player_max ==> {
                &&& r is Ok
                &&& final(self)@.players == old(self)@.players.push(player)
                &&& final(self)@.player_count == old(self)@.player_count + 1
                &&& final(self)@.player_max == old(self)@.player_max
                &&& final(self)@.player_turn == old(self)@.player_turn
            },
            old(self)@.player_count >= old(self)@.player_max ==> {
                &&& r matches Err(Error::GameFull)
                &&& final(self)@ == old(self)@
            },
    {
        if self.player_count < self.player_max {
            self.players.push(player);
            self.player_count += 1;
            Ok(())
        } else {
            Err(Error::GameFull)
        }
    }

    /// Starts the game: the players take their seats in a random order.
    pub fn start(&mut self) -> (r: Result<(), Error>)
        ensures
            r is Ok,
            old(self).wf() ==> final(self).wf(),
            final(self)@.players.to_multiset() == old(self)@.players.to_multiset(),
            final(self)@.player_count == old(self)@.player_count,
            final(self)@.player_max == old(self)@.player_max,
            final(self)@.player_turn == old(self)@.player_turn,
    {
        shuffle_vec(&mut self.players, &mut self.rng);
        Ok(())
    }

    /// The number of players in the game.
    pub fn get_player_number(&self) -> (n: u16)
        ensures
            n == self@.player_count,
    {
        self.player_count
    }

    /// The seat whose turn it is.
    pub fn get_player_turn(&self) -> (t: u16)
        ensures
            t == self@.player_turn,
    {
        self.player_turn
    }

    /// The number of players that the game admits.
    pub fn get_player_max(&self) -> (n: u16)
        ensures
            n == self@.player_max,
    {
        self.player_max
    }

    /// Rolls the dice for the player whose turn it is; the game itself
    /// stays as it is.
    pub fn roll_turn_dice(&mut self) -> (cubes: (u16, u16))
        ensures
            1 <= cubes.0 <= 6,
            1 <= cubes.1 <= 6,
            final(self)@ == old(self)@,
    {
        roll_dice(&mut self.rng)
    }

    /// The board that the player in seat `player_id` is shown: that player,
    /// the others (where the last seat takes the place of `player_id`), and
    /// whose turn it is.
    pub fn boardstate(&self, player_id: u16) -> (board: BoardState)
        requires
            (player_id as int) < self@.players.len(),
        ensures
            board@ == board_for(self@, player_id as int),
            board@.player == self@.players[player_id as int]@,
            board@.turn == self@.player_turn,
            board@.players.len() + 1 == self@.players.len(),
    {
        let mut players: Vec<PlayerOther> = Vec::new();
        let mut i: usize = 0;
        while i < self.players.len()
            invariant
                i <= self.players@.len(),
                players@.len() == i,
                forall|j: int| 0 <= j < i ==> (#[trigger] players@[j])@ == self.players@[j]@,
            decreases self.players@.len() - i,
        {
            players.push(PlayerOther::from(&self.players[i]));
            i += 1;
        }
        let ghost all = players@;
        assert(all.map_values(|p: PlayerOther| p@) =~= infos(self@.players));
        players.swap_remove(player_id as usize);
        let board = BoardState {
            player: PlayerMain::from(&self.players[player_id as usize]),
            players,
            turn: self.player_turn,
        };
        assert(board@.players =~= opponents(self@.players, player_id as int));
        board
    }

    /// The board update for every player, in seat order.
    pub fn board_updates(&self) -> (messages: Vec<ServerMessage>)
        requires
            self@.player_count <= self@.players.len(),
        ensures
            messages@.len() == self@.player_count,
            forall|i: int|
                0 <= i < messages@.len() ==> (#[trigger] messages@[i] matches ServerMessage::Update(b)
                    && b@ == board_for(self@, i) && b@.turn == self@.player_turn
                    && b@.player == self@.players[i]@),
    {
        let mut messages: Vec<ServerMessage> = Vec::new();
        let mut id: u16 = 0;
        while id < self.player_count
            invariant
                self@.player_count <= self@.players.len(),
                id <= self@.player_count,
                messages@.len() == id,
                forall|i: int|
                    0 <= i < id ==> (#[trigger] messages@[i] matches ServerMessage::Update(b)
                        && b@ == board_for(self@, i)),
            decreases self@.player_count - id,
        {
            messages.push(ServerMessage::Update(self.boardstate(id)));
            id += 1;
        }
        messages
    }

    /// Plays out the turn of the current player once the dice have shown
    /// `cube1` and `cube2`: the player moves on by their sum, every player
    /// gets the board as it now stands (with the turn still the mover's),
    /// and the turn passes to the next seat, after the last to the first.
    pub fn turn(&mut self, cube1: u16, cube2: u16) -> (updates: Vec<ServerMessage>)
        requires
            0 < old(self)@.player_count <= old(self)@.players.len(),
            old(self)@.player_turn < old(self)@.players.len(),
            old(self)@.player_turn < u16::MAX,
            old(self)@.players[old(self)@.player_turn as int]@.position + cube1 + cube2 <= u16::MAX,
        ensures
            old(self).wf() ==> final(self).wf(),
            ({
                let t = old(self)@.player_turn as int;
                let mover = old(self)@.players[t];
                let moved = final(self)@.players[t];
                &&& final(self)@.players.len() == old(self)@.players.len()
                &&& forall|i: int|
                    0 <= i < old(self)@.players.len() && i != t ==> final(self)@.players[i]
                        == old(self)@.players[i]
                &&& moved@ == (PlayerInfo {
                    position: ((mover@.position + cube1 + cube2) % (FIELD_COUNT as int)) as u16,
                    ..mover@
                })
                &&& moved.spec_stream() == mover.spec_stream()
            }),
            final(self)@.player_count == old(self)@.player_count,
            final(self)@.player_max == old(self)@.player_max,
            final(self)@.player_turn == next_seat(
                old(self)@.player_turn as int,
                old(self)@.player_count as int,
            ),
            updates@.len() == old(self)@.player_count,
            forall|i: int|
                0 <= i < updates@.len() ==> (#[trigger] updates@[i] matches ServerMessage::Update(b)
                    && b@ == board_for(
                    GameInfo { player_turn: old(self)@.player_turn, ..final(self)@ },
                    i,
                ) && b@.turn == old(self)@.player_turn && b@.player == final(self)@.players[i]@),
    {
        let t = self.player_turn as usize;
        self.players[t].move_steps(cube1 + cube2);
        let updates = self.board_updates();
        self.player_turn = (self.player_turn + 1) % self.player_count;
        updates
    }

    /// The players of the game, for changes that the game does not check.
    pub fn get_players_mut(&mut self) -> (players: &mut Vec<Player<S>>)
        ensures
            players@ == old(self)@.players,
            final(self)@ == (GameInfo { players: final(players)@, ..old(self)@ }),
    {
        &mut self.players
    }

    /// The player in seat `id`, for changes to it.
    pub fn get_player_mut(&mut self, id: u16) -> (player: &mut Player<S>)
        requires
            (id as int) < old(self)@.players.len(),
        ensures
            *player == old(self)@.players[id as int],
            final(self)@ == (GameInfo {
                players: old(self)@.players.update(id as int, *final(player)),
                ..old(self)@
            }),
    {
        &mut self.players[id as usize]
    }
}


/// The board that any player is shown names that player and says whose
/// turn it is in the game.
pub proof fn lemma_board_shows_current_turn<S>(g: GameInfo<S>, id: int)
    requires
        0 <= id < g.players.len(),
    ensures
        board_for(g, id).turn == g.player_turn,
        board_for(g, id).player == g.players[id]@,
{
}

/// Every player of a game appears on the board that the player in seat `id`
/// is shown exactly once: as the player itself or as one of its opponents.
pub proof fn lemma_board_shows_each_player_once<S>(players: Seq<Player<S>>, id: int)
    requires
        0 <= id < players.len(),
    ensures
        opponents(players, id).push(players[id]@).to_multiset() == infos(players).to_multiset(),
        opponents(players, id).len() + 1 == players.len(),
{
    broadcast use vstd::multiset::group_multiset_axioms;

    let s = infos(players);
    let n = s.len() - 1;
    let u = s.update(id, s.last());
    assert(u.to_multiset() == s.to_multiset().insert(s.last()).remove(s[id]));
    assert(u.drop_last() =~= u.remove(n));
    assert(u[n] == s.last());
    assert(u.drop_last().to_multiset() == u.to_multiset().remove(s.last()));
    assert(opponents(players, id).push(players[id]@).to_multiset() =~= s.to_multiset());
}


/// Turns go round the table in seat order: `k` turns after seat `t` had the
/// turn, seat `(t + k) % n` has it; so within `n` turns every seat has had
/// one, and after `n` turns the turn is back at seat `t`.
pub proof fn lemma_turns_go_round(t: int, n: int, k: nat)
    requires
        0 <= t < n,
    ensures
        seat_after(t, n, k) == (t + k) % n,
        seat_after(t, n, n as nat) == t,
{
    lemma_seat_after_is_mod(t, n, k);
    lemma_turns_back(t, n);
}

proof fn lemma_turns_back(t: int, n: int)
    requires
        0 <= t < n,
    ensures
        seat_after(t, n, n as nat) == t,
{
    lemma_seat_after_is_mod(t, n, n as nat);
    vstd::arithmetic::div_mod::lemma_add_mod_noop_right(t, n, n);
    vstd::arithmetic::div_mod::lemma_mod_self_0(n);
    vstd::arithmetic::div_mod::lemma_small_mod(t as nat, n as nat);
}

proof fn lemma_seat_after_is_mod(t: int, n: int, k: nat)
    requires
        0 <= t < n,
    ensures
        seat_after(t, n, k) == (t + k) % n,
    decreases k,
{
    if k == 0 {
        vstd::arithmetic::div_mod::lemma_small_mod(t as nat, n as nat);
    } else {
        lemma_seat_after_is_mod(t, n, (k - 1) as nat);
        vstd::arithmetic::div_mod::lemma_add_mod_noop_right(1, t + k - 1, n);
    }
}

} // verus!
