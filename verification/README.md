# kart_race

The game logic of a two-player kart race on a fixed track, written in Verus
and verified: the title menu, the controls card, the start countdown, lap
counting with a checkpoint, spin-outs on ice, muting, pausing and the victory
screen.

The game runs as a frame-by-frame state machine (`src/game.rs`). Each frame
the host passes the keys pressed to `Game::start_frame`; when a race update is
due it moves the cars, measures for each whether it touched ice and whether it
stands in the checkpoint or goal area, and passes that to
`Game::finish_race_frame`. Both calls return the actions to carry out, in
order: pictures to draw (with their animation frames) and sounds to play or
stop. Their contracts state the next state and the action list exactly.

- `src/frames.rs`: animation clocks (which picture to show at a tick).
- `src/menu.rs`: the Start/Quit selection of the title menu.
- `src/racer.rs`: one racer's laps, checkpoint and spin-out.
- `src/game.rs`: the state machine, its model and its step functions.
- `src/laws.rs`: properties proved over the step functions.
- `app/`: the macroquad program: asset loading, keyboard, the car physics
  (all `f32`), drawing and audio.
