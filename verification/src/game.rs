//! The game as a frame-by-frame state machine.
//!
//! Each frame the host reads the keys pressed in that frame and calls
//! `Game::start_frame`. When the returned state says that a race update is
//! due, the host moves the cars (the physics is its own business), measures
//! where each car ended up, and hands that to `Game::finish_race_frame`.
//! Both calls answer with the actions the host performs, in order: what to
//! draw and which sounds to start or stop.

use vstd::prelude::*;
use crate::frames::{
    advance_tick, background_frame, background_frame_of, car_frame, car_frame_of,
    countdown_frame, countdown_frame_of, next_tick, title_frame, title_frame_of, victory_frame,
    victory_frame_of,
};
use crate::menu::{
    cursor_after, cursor_valid, menu_choice, menu_choice_of, move_cursor, MenuChoice, QUIT_IDLE,
    START_IDLE,
};
use crate::racer::{lap_event_of, racer_after, CarSample, LapEvent, Racer, SPIN_OUT_FRAMES};

verus! {

/// Racers in a race.
pub const RACERS: usize = 2;
/// Frames the controls screen must have been shown before Enter leaves it.
pub const CONTROLS_MIN_FRAMES: u32 = 50;
/// Frames of the start countdown.
pub const COUNTDOWN_LENGTH: usize = 204;

/// The screen the game is on.
#[derive(Clone, Copy, Debug, PartialEq, Eq, Structural)]
pub enum Screen {
    /// The title menu.
    Title,
    /// The controls card shown before a race.
    Controls,
    /// The race, with its start countdown.
    Race,
    /// The pause card, or the victory screen once a car has won.
    Paused,
}

/// The keys pressed during one frame.
#[derive(Clone, Copy, Debug, PartialEq, Eq, Structural)]
pub struct FrameInput {
    /// Left arrow: selects Start on the title menu.
    pub left: bool,
    /// Right arrow: selects Quit on the title menu.
    pub right: bool,
    /// Enter: confirms on the menus.
    pub enter: bool,
    /// P: pauses and resumes.
    pub pause: bool,
    /// Q: leaves a paused race for the title menu.
    pub quit: bool,
    /// M: mutes or unmutes the race music.
    pub mute: bool,
    /// I: sends every car into a spin-out.
    pub spin: bool,
}

/// What the host does for the game, in order.
#[derive(Clone, Copy, Debug, PartialEq, Eq, Structural)]
pub enum Action {
    /// Start the title music, looping.
    PlayTitleMusic,
    /// Stop the title music.
    StopTitleMusic,
    /// Play the countdown jingle once.
    PlayCountdownJingle,
    /// Start the race music, looping.
    PlayRaceMusic,
    /// Stop the race music.
    StopRaceMusic,
    /// Start the victory music, looping.
    PlayVictoryMusic,
    /// Stop the victory music.
    StopVictoryMusic,
    /// Set the race music's volume to silent (`muted`) or full.
    SetRaceMusicVolume { muted: bool },
    /// Leave the program.
    Exit,
    /// Draw the title menu: background picture, the title, and the two
    /// button cards, with the navigation hint.
    DrawTitle { background: usize, start_card: usize, quit_card: usize },
    /// Draw the title background with the controls card over it.
    DrawControls { background: usize },
    /// Draw the track with both cars, with the pause hint.
    DrawTrack { background: usize, car_frame: usize },
    /// Draw the track with both cars under a pause, without any hint.
    DrawPausedTrack { background: usize, car_frame: usize },
    /// Draw a countdown digit picture over the track.
    DrawCountdown { digit: usize },
    /// Draw a racer's lap counter.
    DrawLapLabel { racer: usize, lap: usize },
    /// Draw the "final lap" notice of a racer.
    DrawFinalLapNotice { racer: usize },
    /// Draw the pause card.
    DrawPauseCard,
    /// Draw a victory picture and the name of the winner.
    DrawVictory { frame: usize, winner: usize },
    /// Put both cars back on the starting grid, at rest.
    ResetCars,
}

/// The state of the game, as the contracts speak of it.
#[verifier::ext_equal]
pub struct GameView {
    pub screen: Screen,
    /// Title card shown for the Start button.
    pub start_card: usize,
    /// Title card shown for the Quit button.
    pub quit_card: usize,
    /// Ticks of the title background animation.
    pub title_counter: usize,
    /// Frames the controls screen has been shown, over the whole session.
    pub controls_timer: u32,
    /// Whether the next race frame runs the start countdown.
    pub countdown_pending: bool,
    /// Frames of the running countdown already shown.
    pub countdown_timer: usize,
    /// Ticks of the track and car animations.
    pub sprite_counter: usize,
    /// The racers, by index.
    pub racers: Seq<Racer>,
    /// Racers that have won, in order of winning, over the whole session.
    pub winners: Seq<usize>,
    /// Whether a car won during the current race frame or pause.
    pub win_state: bool,
    /// Whether the race-screen mute key last muted the music.
    pub music_muted: bool,
    /// Whether the title music is to be started on the next title frame.
    pub title_music_due: bool,
    /// Whether the race music is to be started on the next race update.
    pub race_music_due: bool,
    /// Whether the victory music is to be started on the next victory frame.
    pub victory_music_due: bool,
    /// Whether `start_frame` has left a race update for this frame.
    pub race_update_due: bool,
    /// Whether the current pause shows the victory screen.
    pub pause_for_win: bool,
    /// Ticks of the victory animation in the current pause.
    pub victory_counter: usize,
    /// Whether the mute key of the current pause last muted the music.
    pub pause_muted: bool,
}

/// A well-formed state: two valid racers, a menu showing one of its three
/// card pairs, a countdown within its length that is back at zero whenever
/// none is armed (so every countdown starts from its first frame), winners
/// that are racers, a recorded winner whenever a win is being shown, no
/// countdown armed during a pause, and a race update left only on a race
/// frame after the countdown.
pub open spec fn wf(g: GameView) -> bool {
    &&& g.racers.len() == RACERS
    &&& forall|k: int| 0 <= k < RACERS ==> (#[trigger] g.racers[k]).valid()
    &&& cursor_valid(g.start_card, g.quit_card)
    &&& g.countdown_timer < COUNTDOWN_LENGTH
    &&& forall|k: int| 0 <= k < g.winners.len() ==> #[trigger] g.winners[k] < RACERS
    &&& g.win_state ==> g.winners.len() > 0
    &&& g.pause_for_win ==> g.winners.len() > 0
    &&& g.race_update_due ==> (g.screen == Screen::Race && !g.countdown_pending)
    &&& !g.countdown_pending ==> g.countdown_timer == 0
    &&& g.screen == Screen::Paused ==> !g.countdown_pending
}

/// The state when the program starts: title menu with nothing selected, both
/// cars on the grid, every music due, the countdown armed.
pub open spec fn initial_view() -> GameView {
    GameView {
        screen: Screen::Title,
        start_card: START_IDLE,
        quit_card: QUIT_IDLE,
        title_counter: 0,
        controls_timer: 0,
        countdown_pending: true,
        countdown_timer: 0,
        sprite_counter: 0,
        racers: seq![
            Racer { lap: 1, can_lap: false, spinning_out: 0 },
            Racer { lap: 1, can_lap: false, spinning_out: 0 },
        ],
        winners: seq![],
        win_state: false,
        music_muted: false,
        title_music_due: true,
        race_music_due: true,
        victory_music_due: true,
        race_update_due: false,
        pause_for_win: false,
        victory_counter: 0,
        pause_muted: false,
    }
}

/// The controls timer after one more frame (it stops at its largest value).
pub open spec fn controls_tick(t: u32) -> u32 {
    if t == u32::MAX {
        t
    } else {
        (t + 1) as u32
    }
}

/// Drawing the track at the sprite tick `sprite_counter`.
pub open spec fn track_action(sprite_counter: usize) -> Action {
    Action::DrawTrack {
        background: background_frame_of(sprite_counter),
        car_frame: car_frame_of(sprite_counter),
    }
}

/// Drawing the track under a pause at the sprite tick `sprite_counter`.
pub open spec fn paused_track_action(sprite_counter: usize) -> Action {
    Action::DrawPausedTrack {
        background: background_frame_of(sprite_counter),
        car_frame: car_frame_of(sprite_counter),
    }
}

/// One frame on the controls screen: draw it, count the frame, and leave
/// for the race when Enter is pressed once the card has been shown for
/// `CONTROLS_MIN_FRAMES` frames in all.
pub open spec fn controls_step(g: GameView, input: FrameInput) -> (GameView, Seq<Action>) {
    let t = controls_tick(g.controls_timer);
    let acts = seq![Action::DrawControls { background: title_frame_of(g.title_counter) }];
    let g1 = GameView { title_counter: next_tick(g.title_counter), controls_timer: t, ..g };
    if input.enter && t >= CONTROLS_MIN_FRAMES {
        (GameView { screen: Screen::Race, ..g1 }, acts.push(Action::StopTitleMusic))
    } else {
        (g1, acts)
    }
}

/// One frame on the title menu: start the title music if due, move the
/// selection, draw, and act on Enter: Start goes to the controls screen
/// within the same frame, Quit leaves the program.
pub open spec fn title_step(g: GameView, input: FrameInput) -> (GameView, Seq<Action>) {
    let music: Seq<Action> = if g.title_music_due { seq![Action::PlayTitleMusic] } else { seq![] };
    let cards = cursor_after(g.start_card, g.quit_card, input.left, input.right);
    let acts = music.push(
        Action::DrawTitle {
            background: title_frame_of(g.title_counter),
            start_card: cards.0,
            quit_card: cards.1,
        },
    );
    let g1 = GameView {
        title_music_due: false,
        start_card: cards.0,
        quit_card: cards.1,
        title_counter: next_tick(g.title_counter),
        ..g
    };
    match menu_choice_of(cards.0, cards.1, input.enter) {
        MenuChoice::StartGame => {
            let next = controls_step(GameView { screen: Screen::Controls, ..g1 }, input);
            (next.0, acts + next.1)
        },
        MenuChoice::Quit => (g1, acts.push(Action::Exit)),
        MenuChoice::Stay => (g1, acts),
    }
}

/// Starts the race music if it is due, and leaves the race update due.
pub open spec fn race_music_step(g: GameView) -> (GameView, Seq<Action>) {
    if g.race_music_due {
        (GameView { race_music_due: false, race_update_due: true, ..g }, seq![Action::PlayRaceMusic])
    } else {
        (GameView { race_update_due: true, ..g }, seq![])
    }
}

/// The first half of a race frame. During the countdown: draw the track and
/// the digit (the first countdown frame also plays the jingle); the frame
/// that completes `COUNTDOWN_LENGTH` countdown frames goes on into the race.
/// In the race: draw the track. Going into the race starts the race music
/// if due and leaves the race update due.
pub open spec fn race_start_step(g: GameView) -> (GameView, Seq<Action>) {
    let track = track_action(g.sprite_counter);
    if g.countdown_pending {
        let t = g.countdown_timer;
        let opening: Seq<Action> = if t == 0 {
            seq![track, Action::PlayCountdownJingle]
        } else {
            seq![]
        };
        let acts = opening + seq![track, Action::DrawCountdown { digit: countdown_frame_of(t) }];
        if t + 1 == COUNTDOWN_LENGTH {
            let next = race_music_step(
                GameView { countdown_pending: false, countdown_timer: 0, ..g },
            );
            (next.0, acts + next.1)
        } else {
            (GameView { countdown_timer: (t + 1) as usize, ..g }, acts)
        }
    } else {
        let next = race_music_step(g);
        (next.0, seq![track] + next.1)
    }
}

/// The race update of racer `k`: draw its lap counter as it was, advance
/// its spin-out and lap count with the measured `s`, record it as a winner
/// if it won, show the final-lap notice if due, and tick the sprites.
pub open spec fn car_step(g: GameView, k: int, s: CarSample) -> (GameView, Seq<Action>) {
    let r = g.racers[k];
    let e = lap_event_of(r.lap, r.can_lap, s.at_checkpoint, s.at_goal);
    let label = seq![Action::DrawLapLabel { racer: k as usize, lap: r.lap }];
    let acts = if e == LapEvent::FinalLapNotice {
        label.push(Action::DrawFinalLapNotice { racer: k as usize })
    } else {
        label
    };
    let won = e == LapEvent::Won;
    (
        GameView {
            racers: g.racers.update(k, racer_after(r, s)),
            winners: if won { g.winners.push(k as usize) } else { g.winners },
            win_state: g.win_state || won,
            sprite_counter: next_tick(g.sprite_counter),
            ..g
        },
        acts,
    )
}

/// The race updates of the first `n` racers, in order.
pub open spec fn cars_step(g: GameView, samples: Seq<CarSample>, n: nat) -> (GameView, Seq<Action>)
    decreases n,
{
    if n == 0 {
        (g, seq![])
    } else {
        let before = cars_step(g, samples, (n - 1) as nat);
        let next = car_step(before.0, n - 1, samples[n - 1]);
        (next.0, before.1 + next.1)
    }
}

/// Every racer sent into a full spin-out.
pub open spec fn all_spinning(racers: Seq<Racer>) -> Seq<Racer> {
    racers.map_values(|r: Racer| Racer { spinning_out: SPIN_OUT_FRAMES, ..r })
}

/// One frame of the pause: draw the track (without the race's pause hint); on the victory screen start the
/// victory music if due (stopping the race music) and draw the victory
/// picture with the first winner, else draw the pause card; toggle the
/// pause's mute on M; tick the sprites.
pub open spec fn pause_draw_step(g: GameView, input: FrameInput) -> (GameView, Seq<Action>) {
    let track = seq![paused_track_action(g.sprite_counter)];
    let music: Seq<Action> = if g.pause_for_win && g.victory_music_due {
        seq![Action::StopRaceMusic, Action::PlayVictoryMusic]
    } else {
        seq![]
    };
    let card = if g.pause_for_win {
        Action::DrawVictory { frame: victory_frame_of(g.victory_counter), winner: g.winners[0] }
    } else {
        Action::DrawPauseCard
    };
    let mute: Seq<Action> = if input.mute {
        seq![Action::SetRaceMusicVolume { muted: !g.pause_muted }]
    } else {
        seq![]
    };
    (
        GameView {
            victory_music_due: if g.pause_for_win { false } else { g.victory_music_due },
            pause_muted: if input.mute { !g.pause_muted } else { g.pause_muted },
            sprite_counter: next_tick(g.sprite_counter),
            ..g
        },
        track + music + seq![card] + mute,
    )
}

/// The second half of a race frame, once the host has moved the cars and
/// measured them: the racers' updates in order; M toggles the race mute;
/// I sends every car into a spin-out; P, or a win, opens the pause (on the
/// victory screen after a win) and draws its first frame.
pub open spec fn race_finish_step(g: GameView, input: FrameInput, samples: Seq<CarSample>) -> (GameView, Seq<Action>) {
    let cars = cars_step(g, samples, RACERS as nat);
    let g1 = cars.0;
    let mute: Seq<Action> = if input.mute {
        seq![Action::SetRaceMusicVolume { muted: !g1.music_muted }]
    } else {
        seq![]
    };
    let g2 = GameView {
        music_muted: if input.mute { !g1.music_muted } else { g1.music_muted },
        racers: if input.spin { all_spinning(g1.racers) } else { g1.racers },
        race_update_due: false,
        ..g1
    };
    if input.pause || g2.win_state {
        let paused = pause_draw_step(
            GameView {
                screen: Screen::Paused,
                pause_for_win: g2.win_state,
                victory_counter: 0,
                pause_muted: g2.music_muted,
                ..g2
            },
            input,
        );
        (paused.0, cars.1 + mute + paused.1)
    } else {
        (g2, cars.1 + mute)
    }
}

/// Every racer back on lap 1 (the checkpoint and spin-out are kept).
pub open spec fn laps_reset(racers: Seq<Racer>) -> Seq<Racer> {
    racers.map_values(|r: Racer| Racer { lap: 1, ..r })
}

/// Leaving the pause for the title menu: laps back to 1, countdown armed,
/// every music due again; the winners are kept.
pub open spec fn back_to_title(g: GameView) -> GameView {
    GameView {
        screen: Screen::Title,
        racers: laps_reset(g.racers),
        win_state: false,
        countdown_pending: true,
        race_music_due: true,
        title_music_due: true,
        victory_music_due: true,
        ..g
    }
}

/// Resuming the race from the pause: no countdown, no music restarted.
pub open spec fn resumed(g: GameView) -> GameView {
    GameView {
        screen: Screen::Race,
        win_state: false,
        countdown_pending: false,
        race_music_due: false,
        title_music_due: false,
        victory_music_due: true,
        ..g
    }
}

/// A frame while paused: P resumes the race and Q leaves for the title menu
/// (both only on the pause card); Enter leaves the victory screen for the
/// title menu; otherwise the victory animation ticks and the pause is drawn.
pub open spec fn paused_step(g: GameView, input: FrameInput) -> (GameView, Seq<Action>) {
    if input.pause && !g.pause_for_win {
        (resumed(g), seq![])
    } else if input.quit && !g.pause_for_win {
        (back_to_title(g), seq![Action::ResetCars, Action::StopRaceMusic])
    } else if input.enter && g.pause_for_win {
        (
            back_to_title(g),
            seq![Action::ResetCars, Action::StopRaceMusic, Action::StopVictoryMusic],
        )
    } else {
        pause_draw_step(GameView { victory_counter: next_tick(g.victory_counter), ..g }, input)
    }
}

/// The start of a frame, by screen.
pub open spec fn frame_start_step(g: GameView, input: FrameInput) -> (GameView, Seq<Action>) {
    match g.screen {
        Screen::Title => title_step(g, input),
        Screen::Controls => controls_step(g, input),
        Screen::Race => race_start_step(g),
        Screen::Paused => paused_step(g, input),
    }
}

/// The game state between frames.
pub struct Game {
    screen: Screen,
    start_card: usize,
    quit_card: usize,
    title_counter: usize,
    controls_timer: u32,
    countdown_pending: bool,
    countdown_timer: usize,
    sprite_counter: usize,
    racers: Vec<Racer>,
    winners: Vec<usize>,
    win_state: bool,
    music_muted: bool,
    title_music_due: bool,
    race_music_due: bool,
    victory_music_due: bool,
    race_update_due: bool,
    pause_for_win: bool,
    victory_counter: usize,
    pause_muted: bool,
}

impl View for Game {
    type V = GameView;

    closed spec fn view(&self) -> GameView {
        GameView {
            screen: self.screen,
            start_card: self.start_card,
            quit_card: self.quit_card,
            title_counter: self.title_counter,
            controls_timer: self.controls_timer,
            countdown_pending: self.countdown_pending,
            countdown_timer: self.countdown_timer,
            sprite_counter: self.sprite_counter,
            racers: self.racers@,
            winners: self.winners@,
            win_state: self.win_state,
            music_muted: self.music_muted,
            title_music_due: self.title_music_due,
            race_music_due: self.race_music_due,
            victory_music_due: self.victory_music_due,
            race_update_due: self.race_update_due,
            pause_for_win: self.pause_for_win,
            victory_counter: self.victory_counter,
            pause_muted: self.pause_muted,
        }
    }
}

impl Game {
    /// The game as the program starts it (see `initial_view`).
    pub fn new() -> (g: Game)
        ensures
            g@ == initial_view(),
            wf(g@),
    {
        let mut racers: Vec<Racer> = Vec::new();
        racers.push(Racer::new());
        racers.push(Racer::new());
        let g = Game {
            screen: Screen::Title,
            start_card: START_IDLE,
            quit_card: QUIT_IDLE,
            title_counter: 0,
            controls_timer: 0,
            countdown_pending: true,
            countdown_timer: 0,
            sprite_counter: 0,
            racers,
            winners: Vec::new(),
            win_state: false,
            music_muted: false,
            title_music_due: true,
            race_music_due: true,
            victory_music_due: true,
            race_update_due: false,
            pause_for_win: false,
            victory_counter: 0,
            pause_muted: false,
        };
        assert(g@.racers =~= initial_view().racers);
        assert(g@.winners =~= initial_view().winners);
        g
    }

    fn run_controls(&mut self, input: FrameInput, acts: &mut Vec<Action>)
        requires
            wf(old(self)@),
            !old(self)@.race_update_due,
        ensures
            final(self)@ == controls_step(old(self)@, input).0,
            final(acts)@ == old(acts)@ + controls_step(old(self)@, input).1,
            wf(final(self)@),
    {
        let ghost a0 = acts@;
        acts.push(Action::DrawControls { background: title_frame(self.title_counter) });
        self.title_counter = advance_tick(self.title_counter);
        self.controls_timer = if self.controls_timer == u32::MAX {
            self.controls_timer
        } else {
            self.controls_timer + 1
        };
        if input.enter && self.controls_timer >= CONTROLS_MIN_FRAMES {
            self.screen = Screen::Race;
            acts.push(Action::StopTitleMusic);
        }
        assert(acts@ =~= a0 + controls_step(old(self)@, input).1);
    }

    #[verifier::rlimit(50)]
    fn run_title(&mut self, input: FrameInput, acts: &mut Vec<Action>)
        requires
            wf(old(self)@),
            !old(self)@.race_update_due,
        ensures
            final(self)@ == title_step(old(self)@, input).0,
            final(acts)@ == old(acts)@ + title_step(old(self)@, input).1,
            wf(final(self)@),
    {
        let ghost a0 = acts@;
        let ghost g0 = self@;
        if self.title_music_due {
            acts.push(Action::PlayTitleMusic);
        }
        let cards = move_cursor(self.start_card, self.quit_card, input.left, input.right);
        acts.push(
            Action::DrawTitle {
                background: title_frame(self.title_counter),
                start_card: cards.0,
                quit_card: cards.1,
            },
        );
        self.title_music_due = false;
        self.start_card = cards.0;
        self.quit_card = cards.1;
        self.title_counter = advance_tick(self.title_counter);
        let ghost g1 = GameView {
            title_music_due: false,
            start_card: cards.0,
            quit_card: cards.1,
            title_counter: next_tick(g0.title_counter),
            ..g0
        };
        let ghost a1 = acts@;
        assert(self@ == g1);
        assert(a1 =~= a0 + (if g0.title_music_due { seq![Action::PlayTitleMusic] } else { seq![] }).push(
            Action::DrawTitle {
                background: title_frame_of(g0.title_counter),
                start_card: cards.0,
                quit_card: cards.1,
            },
        ));
        let choice = menu_choice(cards.0, cards.1, input.enter);
        if choice == MenuChoice::StartGame {
            self.screen = Screen::Controls;
            self.run_controls(input, acts);
            assert(acts@ =~= a1 + controls_step(GameView { screen: Screen::Controls, ..g1 }, input).1);
        } else if choice == MenuChoice::Quit {
            acts.push(Action::Exit);
        }
        assert(acts@ =~= a0 + title_step(g0, input).1);
    }

    fn run_race_music(&mut self, acts: &mut Vec<Action>)
        requires
            wf(old(self)@),
            old(self)@.screen == Screen::Race,
            !old(self)@.countdown_pending,
        ensures
            final(self)@ == race_music_step(old(self)@).0,
            final(acts)@ == old(acts)@ + race_music_step(old(self)@).1,
            wf(final(self)@),
    {
        let ghost a0 = acts@;
        if self.race_music_due {
            self.race_music_due = false;
            acts.push(Action::PlayRaceMusic);
        }
        self.race_update_due = true;
        assert(acts@ =~= a0 + race_music_step(old(self)@).1);
    }

    fn run_race_start(&mut self, acts: &mut Vec<Action>)
        requires
            wf(old(self)@),
            old(self)@.screen == Screen::Race,
            !old(self)@.race_update_due,
        ensures
            final(self)@ == race_start_step(old(self)@).0,
            final(acts)@ == old(acts)@ + race_start_step(old(self)@).1,
            wf(final(self)@),
    {
        let ghost a0 = acts@;
        let track = Action::DrawTrack {
            background: background_frame(self.sprite_counter),
            car_frame: car_frame(self.sprite_counter),
        };
        if self.countdown_pending {
            let t = self.countdown_timer;
            if t == 0 {
                acts.push(track);
                acts.push(Action::PlayCountdownJingle);
            }
            acts.push(track);
            acts.push(Action::DrawCountdown { digit: countdown_frame(t) });
            if t + 1 == COUNTDOWN_LENGTH {
                self.countdown_pending = false;
                self.countdown_timer = 0;
                self.run_race_music(acts);
            } else {
                self.countdown_timer = t + 1;
            }
        } else {
            acts.push(track);
            self.run_race_music(acts);
        }
        assert(acts@ =~= a0 + race_start_step(old(self)@).1);
    }

    fn run_car(&mut self, k: usize, s: CarSample, acts: &mut Vec<Action>)
        requires
            wf(old(self)@),
            k < RACERS,
            old(self)@.race_update_due,
        ensures
            final(self)@ == car_step(old(self)@, k as int, s).0,
            final(acts)@ == old(acts)@ + car_step(old(self)@, k as int, s).1,
            wf(final(self)@),
            final(self)@.race_update_due,
    {
        let ghost a0 = acts@;
        let r = self.racers[k];
        acts.push(Action::DrawLapLabel { racer: k, lap: r.lap });
        let (r2, e) = r.advance(s);
        self.racers.set(k, r2);
        match e {
            LapEvent::Won => {
                self.winners.push(k);
                self.win_state = true;
            },
            LapEvent::FinalLapNotice => {
                acts.push(Action::DrawFinalLapNotice { racer: k });
            },
            _ => {},
        }
        self.sprite_counter = advance_tick(self.sprite_counter);
        assert(acts@ =~= a0 + car_step(old(self)@, k as int, s).1);
        assert(self@.racers =~= car_step(old(self)@, k as int, s).0.racers);
        assert(self@.winners =~= car_step(old(self)@, k as int, s).0.winners);
        assert forall|j: int| 0 <= j < RACERS implies (#[trigger] self@.racers[j]).valid() by {
            if j != k {
                assert(self@.racers[j] == old(self)@.racers[j]);
            }
        }
    }

    fn run_pause_draw(&mut self, input: FrameInput, acts: &mut Vec<Action>)
        requires
            wf(old(self)@),
        ensures
            final(self)@ == pause_draw_step(old(self)@, input).0,
            final(acts)@ == old(acts)@ + pause_draw_step(old(self)@, input).1,
            wf(final(self)@),
    {
        let ghost a0 = acts@;
        acts.push(
            Action::DrawPausedTrack {
                background: background_frame(self.sprite_counter),
                car_frame: car_frame(self.sprite_counter),
            },
        );
        if self.pause_for_win {
            if self.victory_music_due {
                acts.push(Action::StopRaceMusic);
                acts.push(Action::PlayVictoryMusic);
            }
            self.victory_music_due = false;
            acts.push(
                Action::DrawVictory {
                    frame: victory_frame(self.victory_counter),
                    winner: self.winners[0],
                },
            );
        } else {
            acts.push(Action::DrawPauseCard);
        }
        if input.mute {
            self.pause_muted = !self.pause_muted;
            acts.push(Action::SetRaceMusicVolume { muted: self.pause_muted });
        }
        self.sprite_counter = advance_tick(self.sprite_counter);
        assert(acts@ =~= a0 + pause_draw_step(old(self)@, input).1);
    }

    fn reset_to_title(&mut self)
        requires
            wf(old(self)@),
            !old(self)@.race_update_due,
        ensures
            final(self)@ == back_to_title(old(self)@),
            wf(final(self)@),
    {
        let r0 = self.racers[0];
        self.racers.set(0, Racer { lap: 1, ..r0 });
        let r1 = self.racers[1];
        self.racers.set(1, Racer { lap: 1, ..r1 });
        self.screen = Screen::Title;
        self.win_state = false;
        self.countdown_pending = true;
        self.race_music_due = true;
        self.title_music_due = true;
        self.victory_music_due = true;
        assert(self@.racers =~= laps_reset(old(self)@.racers));
        assert forall|j: int| 0 <= j < RACERS implies (#[trigger] self@.racers[j]).valid() by {
            assert(self@.racers[j] == Racer { lap: 1, ..old(self)@.racers[j] });
            assert(old(self)@.racers[j].valid());
        }
    }

    fn run_paused(&mut self, input: FrameInput, acts: &mut Vec<Action>)
        requires
            wf(old(self)@),
            old(self)@.screen == Screen::Paused,
            !old(self)@.race_update_due,
        ensures
            final(self)@ == paused_step(old(self)@, input).0,
            final(acts)@ == old(acts)@ + paused_step(old(self)@, input).1,
            wf(final(self)@),
    {
        let ghost a0 = acts@;
        if input.pause && !self.pause_for_win {
            self.screen = Screen::Race;
            self.win_state = false;
            self.countdown_pending = false;
            self.race_music_due = false;
            self.title_music_due = false;
            self.victory_music_due = true;
            assert(self@.racers == old(self)@.racers);
            assert(self@.winners == old(self)@.winners);
        } else if input.quit && !self.pause_for_win {
            self.reset_to_title();
            acts.push(Action::ResetCars);
            acts.push(Action::StopRaceMusic);
        } else if input.enter && self.pause_for_win {
            self.reset_to_title();
            acts.push(Action::ResetCars);
            acts.push(Action::StopRaceMusic);
            acts.push(Action::StopVictoryMusic);
        } else {
            self.victory_counter = advance_tick(self.victory_counter);
            assert(self@.racers == old(self)@.racers);
            assert(self@.winners == old(self)@.winners);
            self.run_pause_draw(input, acts);
        }
        assert(acts@ =~= a0 + paused_step(old(self)@, input).1);
    }

    /// The screen the game is on.
    pub fn screen(&self) -> (s: Screen)
        ensures
            s == self@.screen,
    {
        self.screen
    }

    /// The title cards shown for the Start and the Quit buttons.
    pub fn menu_cards(&self) -> (cards: (usize, usize))
        ensures
            cards == (self@.start_card, self@.quit_card),
    {
        (self.start_card, self.quit_card)
    }

    /// Racer `k` as the race logic keeps it.
    pub fn racer(&self, k: usize) -> (r: Racer)
        requires
            wf(self@),
            k < RACERS,
        ensures
            r == self@.racers[k as int],
    {
        self.racers[k]
    }

    /// Whether racer `k` is spinning out: the host then spins the car
    /// instead of reading its driver's keys.
    pub fn is_spinning(&self, k: usize) -> (b: bool)
        requires
            wf(self@),
            k < RACERS,
        ensures
            b == (self@.racers[k as int].spinning_out > 0),
    {
        self.racers[k].is_spinning()
    }

    /// Whether the host is to move the cars and call `finish_race_frame`
    /// before this frame ends.
    pub fn race_update_due(&self) -> (b: bool)
        ensures
            b == self@.race_update_due,
    {
        self.race_update_due
    }

    /// Whether the next race frame runs the start countdown.
    pub fn countdown_pending(&self) -> (b: bool)
        ensures
            b == self@.countdown_pending,
    {
        self.countdown_pending
    }

    /// Frames of the running countdown already shown.
    pub fn countdown_timer(&self) -> (t: usize)
        ensures
            t == self@.countdown_timer,
    {
        self.countdown_timer
    }

    /// Frames the controls screen has been shown in this session.
    pub fn controls_timer(&self) -> (t: u32)
        ensures
            t == self@.controls_timer,
    {
        self.controls_timer
    }

    /// Ticks of the track and car animations.
    pub fn sprite_counter(&self) -> (c: usize)
        ensures
            c == self@.sprite_counter,
    {
        self.sprite_counter
    }

    /// Whether the race-screen mute key last muted the music.
    pub fn music_muted(&self) -> (b: bool)
        ensures
            b == self@.music_muted,
    {
        self.music_muted
    }

    /// Whether the current pause is the victory screen.
    pub fn showing_victory(&self) -> (b: bool)
        ensures
            b == self@.pause_for_win,
    {
        self.pause_for_win
    }

    /// The number of wins recorded in this session.
    pub fn winner_count(&self) -> (n: usize)
        ensures
            n == self@.winners.len(),
    {
        self.winners.len()
    }

    /// The racer that won the `i`-th recorded win of this session.
    pub fn winner(&self, i: usize) -> (k: usize)
        requires
            i < self@.winners.len(),
        ensures
            k == self@.winners[i as int],
    {
        self.winners[i]
    }

    /// Runs the start of a frame with the keys pressed in it (see
    /// `frame_start_step`) and returns the actions to perform, in order.
    /// Afterwards `race_update_due` tells whether the host is to move the
    /// cars and call `finish_race_frame` before the frame ends.
    pub fn start_frame(&mut self, input: FrameInput) -> (actions: Vec<Action>)
        requires
            wf(old(self)@),
            !old(self)@.race_update_due,
        ensures
            final(self)@ == frame_start_step(old(self)@, input).0,
            actions@ == frame_start_step(old(self)@, input).1,
            wf(final(self)@),
    {
        let mut acts: Vec<Action> = Vec::new();
        match self.screen {
            Screen::Title => self.run_title(input, &mut acts),
            Screen::Controls => self.run_controls(input, &mut acts),
            Screen::Race => self.run_race_start(&mut acts),
            Screen::Paused => self.run_paused(input, &mut acts),
        }
        assert(acts@ =~= frame_start_step(old(self)@, input).1);
        acts
    }

    /// Runs the race update of a frame (see `race_finish_step`), given where
    /// each car ended up after the host moved it (`samples[k]` for racer
    /// `k`), and returns the actions to perform, in order.
    pub fn finish_race_frame(&mut self, input: FrameInput, samples: &Vec<CarSample>) -> (actions: Vec<Action>)
        requires
            wf(old(self)@),
            old(self)@.race_update_due,
            samples@.len() == RACERS,
        ensures
            final(self)@ == race_finish_step(old(self)@, input, samples@).0,
            actions@ == race_finish_step(old(self)@, input, samples@).1,
            wf(final(self)@),
            !final(self)@.race_update_due,
    {
        let ghost g0 = self@;
        let mut acts: Vec<Action> = Vec::new();
        let mut k: usize = 0;
        while k < RACERS
            invariant
                0 <= k <= RACERS,
                samples@.len() == RACERS,
                wf(self@),
                self@.race_update_due,
                self@ == cars_step(g0, samples@, k as nat).0,
                acts@ == cars_step(g0, samples@, k as nat).1,
            decreases RACERS - k,
        {
            self.run_car(k, samples[k], &mut acts);
            k = k + 1;
        }
        if input.mute {
            self.music_muted = !self.music_muted;
            acts.push(Action::SetRaceMusicVolume { muted: self.music_muted });
        }
        if input.spin {
            let ghost before = self@.racers;
            let r0 = self.racers[0];
            self.racers.set(0, Racer { spinning_out: SPIN_OUT_FRAMES, ..r0 });
            let r1 = self.racers[1];
            self.racers.set(1, Racer { spinning_out: SPIN_OUT_FRAMES, ..r1 });
            assert(self@.racers =~= all_spinning(before));
            assert forall|j: int| 0 <= j < RACERS implies (#[trigger] self@.racers[j]).valid() by {
                assert(self@.racers[j] == Racer { spinning_out: SPIN_OUT_FRAMES, ..before[j] });
                assert(before[j].valid());
            }
        }
        self.race_update_due = false;
        if input.pause || self.win_state {
            self.screen = Screen::Paused;
            self.pause_for_win = self.win_state;
            self.victory_counter = 0;
            self.pause_muted = self.music_muted;
            self.run_pause_draw(input, &mut acts);
        }
        assert(acts@ =~= race_finish_step(g0, input, samples@).1);
        acts
    }
}

} // verus!
