# chess_multiplayer

The logic of a two-player chess client, verified with Verus.

- `src/message.rs`: the one-byte message kinds and how bytes are read as them.
- `src/chess_communicator.rs`: reading a five-byte frame as a move.
- `src/link.rs`: how received frames are judged, what the relay between the
  game and the socket writes and forwards, how connection requests are
  answered, and which role a player takes.
- `src/chess_controller.rs`: the board controller as a state machine: what the
  board shows, the selection, the highlighted squares and castling offers, and
  what each click asks the game to do.
- `src/laws.rs`: properties that span several calls.
- `app/`: the sockets, threads and window events around the library.
