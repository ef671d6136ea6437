# music_player

The verified core of a small music player window and its web front.

- `src/graphic_playlist.rs`: the scrolling playlist widget. Its state is
  described by `PlaylistView`; every operation (laying out, scrolling,
  selecting the current music, highlighting the row under the mouse,
  removing a row, choosing the rows to draw) is specified as a
  transformation of that view, and the laws of the widget are proof
  functions over it.
- `src/graphic_handler.rs`: the decisions of the player window: what each
  event asks for, what one turn of the play loop does, where the widgets
  stand in a window, and the line that marks the listener's position.
- `src/server.rs`: the bodies the web and TCP servers answer with.
- `app/`: the servers themselves (actix-web and `std::net`).

Rendering with SFML and playing sound with FMOD are left to the program
that drives the library: it draws the rows `draw` returns with the labels,
positions and colours the widget gives, and performs the commands `decide`
returns.
