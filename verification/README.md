# monopoly

The logic of a small networked board game in the style of Monopoly, written
in Verus with its contracts proved.

- `src/api.rs`: the messages between server and clients and what they carry.
- `src/server.rs`: the game on the server: seating players, the dice, the
  turn, and the board each player is shown; with the laws that every board
  shows each player once and that turns go round the table.
- `src/client.rs`: the client's own player and the geometry of the board on
  the screen; with the laws that every field has its own cell on the border
  and that the blocks fit the area.
- `src/ui.rs`: the state of the client's drawing thread.
- `src/rng.rs`: the random source, from the `rand` crate.
- `app/`: the programs around the library: sockets, `bincode` on the wire,
  the terminal with `tui` and `crossterm`.
