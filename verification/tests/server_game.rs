use monopoly::api::{BoardState, ServerMessage};
use monopoly::server::{roll_dice, Error, Game, Player};

fn game_with(names: &[&str], max: u16) -> Game<u32> {
    let mut game: Game<u32> = Game::create(max);
    for (i, name) in names.iter().enumerate() {
        let icon = name.chars().next().unwrap();
        game.add(Player::create(name, icon, i as u32)).unwrap();
    }
    game
}

fn names_of(board: &BoardState) -> Vec<String> {
    board.players.iter().map(|p| p.name.clone()).collect()
}

#[test]
fn create_makes_an_empty_game() {
    let game: Game<u32> = Game::create(4);
    assert_eq!(game.get_player_number(), 0);
    assert_eq!(game.get_player_max(), 4);
}

#[test]
fn add_seats_players_until_full() {
    let mut game: Game<u32> = Game::create(2);
    assert!(game.add(Player::create("ann", 'a', 0)).is_ok());
    assert!(game.add(Player::create("bob", 'b', 1)).is_ok());
    assert_eq!(game.get_player_number(), 2);
    match game.add(Player::create("cid", 'c', 2)) {
        Err(Error::GameFull) => (),
        other => panic!("expected GameFull, got {:?}", other),
    }
    assert_eq!(game.get_player_number(), 2);
}

#[test]
fn a_game_for_no_players_is_full_from_the_start() {
    let mut game: Game<u32> = Game::create(0);
    assert!(matches!(game.add(Player::create("ann", 'a', 0)), Err(Error::GameFull)));
    assert_eq!(game.get_player_number(), 0);
}

#[test]
fn new_player_stands_on_the_first_field() {
    let player = Player::create("ann", 'a', 7u32);
    assert_eq!(player.position(), 0);
    assert_eq!(player.stream, 7);
}

#[test]
fn move_steps_wraps_around_the_board() {
    let mut player = Player::create("ann", 'a', 0u32);
    player.move_steps(12);
    assert_eq!(player.position(), 12);
    player.move_steps(30);
    assert_eq!(player.position(), 2);
    player.move_steps(38);
    assert_eq!(player.position(), 0);
}

#[test]
fn move_to_puts_the_player_anywhere() {
    let mut player = Player::create("ann", 'a', 0u32);
    player.move_to(39);
    assert_eq!(player.position(), 39);
    player.move_steps(3);
    assert_eq!(player.position(), 2);
}

#[test]
fn dice_show_one_to_six_and_vary() {
    let mut rng = rand::thread_rng();
    let mut seen = [false; 7];
    for _ in 0..500 {
        let (a, b) = roll_dice(&mut rng);
        assert!((1..=6).contains(&a));
        assert!((1..=6).contains(&b));
        seen[a as usize] = true;
        seen[b as usize] = true;
    }
    assert!(seen[1..].iter().all(|s| *s));
}

#[test]
fn roll_turn_dice_leaves_the_game_as_it_is() {
    let mut game = game_with(&["ann", "bob"], 2);
    let (a, b) = game.roll_turn_dice();
    assert!((1..=6).contains(&a) && (1..=6).contains(&b));
    assert_eq!(game.get_player_number(), 2);
    assert_eq!(game.boardstate(0).turn, 0);
}

#[test]
fn start_keeps_every_player() {
    let names = ["a", "b", "c", "d", "e", "f", "g", "h", "i", "j"];
    let mut game = game_with(&names, 10);
    let mut reordered = false;
    for _ in 0..5 {
        assert!(game.start().is_ok());
        assert_eq!(game.get_player_number(), 10);
        let board = game.boardstate(0);
        let mut all = names_of(&board);
        all.push(board.player.name.clone());
        all.sort();
        assert_eq!(all, names.iter().map(|s| s.to_string()).collect::<Vec<_>>());
        let order: Vec<String> = (0..10u16).map(|i| game.boardstate(i).player.name).collect();
        if order != names.iter().map(|s| s.to_string()).collect::<Vec<_>>() {
            reordered = true;
        }
    }
    assert!(reordered);
}

#[test]
fn boardstate_moves_the_last_seat_into_the_gap() {
    let game = game_with(&["ann", "bob", "cid", "dan"], 4);
    let board = game.boardstate(1);
    assert_eq!(board.player.name, "bob");
    assert_eq!(board.player.icon, 'b');
    assert_eq!(board.player.position, 0);
    assert_eq!(names_of(&board), vec!["ann", "dan", "cid"]);
    assert_eq!(board.turn, 0);
    let last = game.boardstate(3);
    assert_eq!(last.player.name, "dan");
    assert_eq!(names_of(&last), vec!["ann", "bob", "cid"]);
}

#[test]
fn boardstate_of_a_lone_player_has_no_opponents() {
    let game = game_with(&["ann"], 1);
    let board = game.boardstate(0);
    assert_eq!(board.player.name, "ann");
    assert!(board.players.is_empty());
}

#[test]
fn board_updates_address_each_seat() {
    let game = game_with(&["ann", "bob", "cid"], 3);
    let updates = game.board_updates();
    assert_eq!(updates.len(), 3);
    for (i, message) in updates.iter().enumerate() {
        match message {
            ServerMessage::Update(board) => {
                assert_eq!(board.player.name, ["ann", "bob", "cid"][i]);
                assert_eq!(board.players.len(), 2);
            }
            other => panic!("expected an update, got {:?}", other),
        }
    }
}

#[test]
fn turn_moves_the_current_player_and_passes_on() {
    let mut game = game_with(&["ann", "bob", "cid"], 3);
    let updates = game.turn(3, 4);
    assert_eq!(updates.len(), 3);
    match &updates[1] {
        ServerMessage::Update(board) => {
            assert_eq!(board.turn, 0);
            assert_eq!(board.player.name, "bob");
            assert_eq!(board.players[0].name, "ann");
            assert_eq!(board.players[0].position, 7);
        }
        other => panic!("expected an update, got {:?}", other),
    }
    assert_eq!(game.boardstate(0).player.position, 7);
    assert_eq!(game.boardstate(0).turn, 1);
    game.turn(6, 6);
    assert_eq!(game.boardstate(1).player.position, 12);
    game.turn(1, 1);
    assert_eq!(game.boardstate(2).player.position, 2);
    assert_eq!(game.boardstate(2).turn, 0);
    game.turn(6, 6);
    game.turn(6, 6);
    assert_eq!(game.boardstate(0).player.position, 19);
    assert_eq!(game.boardstate(0).turn, 2);
}

#[test]
fn turn_wraps_past_the_last_field() {
    let mut game = game_with(&["ann"], 1);
    game.get_player_mut(0).move_to(38);
    game.turn(2, 3);
    assert_eq!(game.boardstate(0).player.position, 3);
    assert_eq!(game.boardstate(0).turn, 0);
}

#[test]
fn mutable_access_reaches_the_players() {
    let mut game = game_with(&["ann", "bob"], 2);
    game.get_player_mut(1).stream = 99;
    assert_eq!(game.get_players_mut()[1].stream, 99);
    assert_eq!(game.get_players_mut().len(), 2);
    game.get_players_mut()[0].move_to(5);
    assert_eq!(game.boardstate(0).player.position, 5);
    game.get_player_mut(0).control();
}

#[test]
fn turns_go_round_the_table() {
    let mut game = game_with(&["ann", "bob", "cid", "dan"], 4);
    let mut seats = Vec::new();
    for _ in 0..8 {
        seats.push(game.get_player_turn());
        game.turn(1, 1);
    }
    assert_eq!(seats, vec![0, 1, 2, 3, 0, 1, 2, 3]);
    assert_eq!(game.get_player_turn(), 0);
}

#[test]
fn every_board_shows_each_player_once() {
    let names = ["ann", "bob", "cid", "dan", "eve"];
    let game = game_with(&names, 5);
    for id in 0..5u16 {
        let board = game.boardstate(id);
        assert_eq!(board.players.len(), 4);
        let mut all = names_of(&board);
        all.push(board.player.name.clone());
        all.sort();
        assert_eq!(all, names.to_vec());
    }
}
