use kart_race::game::{Action, FrameInput, Game, Screen};
use kart_race::racer::{CarSample, Racer};

fn no_keys() -> FrameInput {
    FrameInput { left: false, right: false, enter: false, pause: false, quit: false, mute: false, spin: false }
}

fn idle() -> CarSample {
    CarSample { hit_ice: false, at_checkpoint: false, at_goal: false }
}

/// Title -> Start -> controls shown long enough -> race screen with countdown armed.
fn to_race(g: &mut Game) {
    g.start_frame(FrameInput { left: true, enter: true, ..no_keys() });
    while g.screen() == Screen::Controls {
        g.start_frame(FrameInput { enter: true, ..no_keys() });
    }
    assert_eq!(g.screen(), Screen::Race);
}

/// Runs the countdown until the first race update is due.
fn through_countdown(g: &mut Game) {
    while !g.race_update_due() {
        g.start_frame(no_keys());
    }
}

/// One full race frame with the given samples.
fn race_frame(g: &mut Game, input: FrameInput, samples: [CarSample; 2]) -> (Vec<Action>, Vec<Action>) {
    let a = g.start_frame(input);
    assert!(g.race_update_due());
    let b = g.finish_race_frame(input, &samples.to_vec());
    (a, b)
}

#[test]
fn first_title_frame_plays_music_once() {
    let mut g = Game::new();
    assert_eq!(g.screen(), Screen::Title);
    assert_eq!(g.menu_cards(), (2, 4));
    let a = g.start_frame(no_keys());
    assert_eq!(
        a,
        vec![Action::PlayTitleMusic, Action::DrawTitle { background: 0, start_card: 2, quit_card: 4 }]
    );
    let a = g.start_frame(no_keys());
    assert_eq!(a, vec![Action::DrawTitle { background: 0, start_card: 2, quit_card: 4 }]);
}

#[test]
fn quit_from_title_exits() {
    let mut g = Game::new();
    g.start_frame(FrameInput { right: true, ..no_keys() });
    assert_eq!(g.menu_cards(), (2, 3));
    let a = g.start_frame(FrameInput { enter: true, ..no_keys() });
    assert_eq!(a.last(), Some(&Action::Exit));
    assert_eq!(g.screen(), Screen::Title);
}

#[test]
fn enter_without_selection_stays() {
    let mut g = Game::new();
    let a = g.start_frame(FrameInput { enter: true, ..no_keys() });
    assert!(!a.contains(&Action::Exit));
    assert_eq!(g.screen(), Screen::Title);
}

#[test]
fn controls_card_needs_fifty_frames() {
    let mut g = Game::new();
    let a = g.start_frame(FrameInput { left: true, enter: true, ..no_keys() });
    assert_eq!(
        a,
        vec![
            Action::PlayTitleMusic,
            Action::DrawTitle { background: 0, start_card: 1, quit_card: 4 },
            Action::DrawControls { background: 0 },
        ]
    );
    assert_eq!(g.screen(), Screen::Controls);
    assert_eq!(g.controls_timer(), 1);
    for _ in 0..48 {
        g.start_frame(FrameInput { enter: true, ..no_keys() });
        assert_eq!(g.screen(), Screen::Controls);
    }
    assert_eq!(g.controls_timer(), 49);
    let a = g.start_frame(FrameInput { enter: true, ..no_keys() });
    assert_eq!(g.controls_timer(), 50);
    assert_eq!(a.last(), Some(&Action::StopTitleMusic));
    assert_eq!(g.screen(), Screen::Race);
}

#[test]
fn countdown_lasts_204_frames() {
    let mut g = Game::new();
    to_race(&mut g);
    let a = g.start_frame(no_keys());
    assert_eq!(
        a,
        vec![
            Action::DrawTrack { background: 0, car_frame: 0 },
            Action::PlayCountdownJingle,
            Action::DrawTrack { background: 0, car_frame: 0 },
            Action::DrawCountdown { digit: 0 },
        ]
    );
    let mut frames = 1;
    let mut digits = vec![0usize];
    while !g.race_update_due() {
        let a = g.start_frame(no_keys());
        frames += 1;
        for act in a {
            if let Action::DrawCountdown { digit } = act {
                digits.push(digit);
            }
            assert_ne!(act, Action::PlayCountdownJingle);
        }
    }
    assert_eq!(frames, 204);
    assert_eq!(digits.len(), 204);
    assert_eq!(digits.iter().filter(|d| **d == 0).count(), 68);
    assert_eq!(digits.iter().filter(|d| **d == 1).count(), 68);
    assert_eq!(digits.iter().filter(|d| **d == 2).count(), 68);
    assert!(!g.countdown_pending());
}

#[test]
fn last_countdown_frame_starts_race_music() {
    let mut g = Game::new();
    to_race(&mut g);
    for _ in 0..203 {
        g.start_frame(no_keys());
    }
    let a = g.start_frame(no_keys());
    assert_eq!(
        a,
        vec![
            Action::DrawTrack { background: 0, car_frame: 0 },
            Action::DrawCountdown { digit: 2 },
            Action::PlayRaceMusic,
        ]
    );
    assert!(g.race_update_due());
}

#[test]
fn race_frame_draws_labels_and_ticks_sprites() {
    let mut g = Game::new();
    to_race(&mut g);
    through_countdown(&mut g);
    let b = g.finish_race_frame(no_keys(), &vec![idle(), idle()]);
    assert_eq!(
        b,
        vec![Action::DrawLapLabel { racer: 0, lap: 1 }, Action::DrawLapLabel { racer: 1, lap: 1 }]
    );
    assert_eq!(g.sprite_counter(), 2);
    let (a, _) = race_frame(&mut g, no_keys(), [idle(), idle()]);
    assert_eq!(a, vec![Action::DrawTrack { background: 0, car_frame: 0 }]);
    assert_eq!(g.sprite_counter(), 4);
}

#[test]
fn laps_count_only_after_checkpoint() {
    let mut g = Game::new();
    to_race(&mut g);
    through_countdown(&mut g);
    let goal = CarSample { at_goal: true, ..idle() };
    let cp = CarSample { at_checkpoint: true, ..idle() };
    g.finish_race_frame(no_keys(), &vec![goal, idle()]);
    assert_eq!(g.racer(0).lap, 1);
    race_frame(&mut g, no_keys(), [cp, idle()]);
    assert!(g.racer(0).can_lap);
    race_frame(&mut g, no_keys(), [goal, idle()]);
    assert_eq!(g.racer(0), Racer { lap: 2, can_lap: false, spinning_out: 0 });
    race_frame(&mut g, no_keys(), [goal, idle()]);
    assert_eq!(g.racer(0).lap, 2);
}

#[test]
fn final_lap_notice_and_win() {
    let mut g = Game::new();
    to_race(&mut g);
    through_countdown(&mut g);
    let goal = CarSample { at_goal: true, ..idle() };
    let cp = CarSample { at_checkpoint: true, ..idle() };
    g.finish_race_frame(no_keys(), &vec![idle(), cp]);
    race_frame(&mut g, no_keys(), [idle(), goal]);
    race_frame(&mut g, no_keys(), [idle(), cp]);
    race_frame(&mut g, no_keys(), [idle(), goal]);
    assert_eq!(g.racer(1).lap, 3);
    let (_, b) = race_frame(&mut g, no_keys(), [idle(), goal]);
    assert!(b.contains(&Action::DrawFinalLapNotice { racer: 1 }));
    assert_eq!(g.screen(), Screen::Race);
    race_frame(&mut g, no_keys(), [idle(), cp]);
    let (_, b) = race_frame(&mut g, no_keys(), [idle(), goal]);
    assert_eq!(g.winner_count(), 1);
    assert_eq!(g.winner(0), 1);
    assert_eq!(g.screen(), Screen::Paused);
    assert!(g.showing_victory());
    assert_eq!(g.racer(1).lap, 3);
    let n = b.len();
    assert_eq!(b[n - 3], Action::StopRaceMusic);
    assert_eq!(b[n - 2], Action::PlayVictoryMusic);
    assert_eq!(b[n - 1], Action::DrawVictory { frame: 0, winner: 1 });
}

fn win_with_racer_zero(g: &mut Game) {
    let goal = CarSample { at_goal: true, ..idle() };
    let cp = CarSample { at_checkpoint: true, ..idle() };
    if !g.race_update_due() {
        g.start_frame(no_keys());
    }
    g.finish_race_frame(no_keys(), &vec![cp, idle()]);
    for _ in 0..2 {
        race_frame(g, no_keys(), [goal, idle()]);
        race_frame(g, no_keys(), [cp, idle()]);
    }
    race_frame(g, no_keys(), [goal, idle()]);
    assert_eq!(g.screen(), Screen::Paused);
}

#[test]
fn victory_screen_animates_and_enter_returns_to_title() {
    let mut g = Game::new();
    to_race(&mut g);
    through_countdown(&mut g);
    win_with_racer_zero(&mut g);
    for k in 1..6 {
        let a = g.start_frame(FrameInput { pause: true, quit: true, ..no_keys() });
        assert_eq!(g.screen(), Screen::Paused);
        assert!(!a.contains(&Action::PlayVictoryMusic));
        assert_eq!(a.last(), Some(&Action::DrawVictory { frame: k / 5, winner: 0 }));
    }
    let a = g.start_frame(FrameInput { enter: true, ..no_keys() });
    assert_eq!(a, vec![Action::ResetCars, Action::StopRaceMusic, Action::StopVictoryMusic]);
    assert_eq!(g.screen(), Screen::Title);
    assert_eq!(g.racer(0).lap, 1);
    assert_eq!(g.racer(1).lap, 1);
    assert!(g.countdown_pending());
    assert_eq!(g.winner_count(), 1);
    let a = g.start_frame(no_keys());
    assert_eq!(a[0], Action::PlayTitleMusic);
}

#[test]
fn first_winner_is_kept_across_races() {
    let mut g = Game::new();
    to_race(&mut g);
    through_countdown(&mut g);
    win_with_racer_zero(&mut g);
    g.start_frame(FrameInput { enter: true, ..no_keys() });
    to_race(&mut g);
    through_countdown(&mut g);
    let goal = CarSample { at_goal: true, ..idle() };
    let cp = CarSample { at_checkpoint: true, ..idle() };
    g.finish_race_frame(no_keys(), &vec![idle(), cp]);
    for _ in 0..2 {
        race_frame(&mut g, no_keys(), [idle(), goal]);
        race_frame(&mut g, no_keys(), [idle(), cp]);
    }
    let (_, b) = race_frame(&mut g, no_keys(), [idle(), goal]);
    assert_eq!(g.winner_count(), 2);
    assert_eq!(g.winner(1), 1);
    assert_eq!(b.last(), Some(&Action::DrawVictory { frame: 0, winner: 0 }));
}

#[test]
fn pause_and_resume() {
    let mut g = Game::new();
    to_race(&mut g);
    through_countdown(&mut g);
    let b = g.finish_race_frame(FrameInput { pause: true, ..no_keys() }, &vec![idle(), idle()]);
    assert_eq!(g.screen(), Screen::Paused);
    assert!(!g.showing_victory());
    assert_eq!(b.last(), Some(&Action::DrawPauseCard));
    let counter = g.sprite_counter();
    let a = g.start_frame(no_keys());
    assert_eq!(a.last(), Some(&Action::DrawPauseCard));
    assert_eq!(g.sprite_counter(), counter + 1);
    let a = g.start_frame(FrameInput { pause: true, ..no_keys() });
    assert!(a.is_empty());
    assert_eq!(g.screen(), Screen::Race);
    assert!(!g.countdown_pending());
    let a = g.start_frame(no_keys());
    assert_eq!(a, vec![Action::DrawTrack { background: 0, car_frame: 0 }]);
}

#[test]
fn quit_from_pause_resets_race() {
    let mut g = Game::new();
    to_race(&mut g);
    through_countdown(&mut g);
    let cp = CarSample { at_checkpoint: true, ..idle() };
    let goal = CarSample { at_goal: true, ..idle() };
    g.finish_race_frame(no_keys(), &vec![cp, idle()]);
    race_frame(&mut g, FrameInput { pause: true, ..no_keys() }, [goal, idle()]);
    assert_eq!(g.racer(0).lap, 2);
    let a = g.start_frame(FrameInput { quit: true, ..no_keys() });
    assert_eq!(a, vec![Action::ResetCars, Action::StopRaceMusic]);
    assert_eq!(g.screen(), Screen::Title);
    assert_eq!(g.racer(0).lap, 1);
    assert!(g.countdown_pending());
}

#[test]
fn enter_does_not_leave_pause_card() {
    let mut g = Game::new();
    to_race(&mut g);
    through_countdown(&mut g);
    g.finish_race_frame(FrameInput { pause: true, ..no_keys() }, &vec![idle(), idle()]);
    g.start_frame(FrameInput { enter: true, ..no_keys() });
    assert_eq!(g.screen(), Screen::Paused);
}

#[test]
fn mute_toggles_race_music() {
    let mut g = Game::new();
    to_race(&mut g);
    through_countdown(&mut g);
    let m = FrameInput { mute: true, ..no_keys() };
    let b = g.finish_race_frame(m, &vec![idle(), idle()]);
    assert_eq!(b.last(), Some(&Action::SetRaceMusicVolume { muted: true }));
    assert!(g.music_muted());
    let (_, b) = race_frame(&mut g, m, [idle(), idle()]);
    assert_eq!(b.last(), Some(&Action::SetRaceMusicVolume { muted: false }));
    assert!(!g.music_muted());
}

#[test]
fn pause_mute_does_not_change_race_mute() {
    let mut g = Game::new();
    to_race(&mut g);
    through_countdown(&mut g);
    g.finish_race_frame(FrameInput { pause: true, ..no_keys() }, &vec![idle(), idle()]);
    let a = g.start_frame(FrameInput { mute: true, ..no_keys() });
    assert_eq!(a.last(), Some(&Action::SetRaceMusicVolume { muted: true }));
    g.start_frame(FrameInput { pause: true, ..no_keys() });
    assert!(!g.music_muted());
    let (_, b) = race_frame(&mut g, FrameInput { mute: true, ..no_keys() }, [idle(), idle()]);
    assert_eq!(b.last(), Some(&Action::SetRaceMusicVolume { muted: true }));
}

#[test]
fn spin_key_and_ice() {
    let mut g = Game::new();
    to_race(&mut g);
    through_countdown(&mut g);
    let ice = CarSample { hit_ice: true, ..idle() };
    g.finish_race_frame(no_keys(), &vec![ice, idle()]);
    assert_eq!(g.racer(0).spinning_out, 40);
    assert!(g.is_spinning(0));
    assert!(!g.is_spinning(1));
    race_frame(&mut g, no_keys(), [ice, idle()]);
    assert_eq!(g.racer(0).spinning_out, 39);
    race_frame(&mut g, FrameInput { spin: true, ..no_keys() }, [idle(), idle()]);
    assert_eq!(g.racer(0).spinning_out, 40);
    assert_eq!(g.racer(1).spinning_out, 40);
    for _ in 0..40 {
        race_frame(&mut g, no_keys(), [idle(), idle()]);
    }
    assert!(!g.is_spinning(0));
    assert!(!g.is_spinning(1));
}

#[test]
fn laps_never_exceed_three() {
    let mut g = Game::new();
    to_race(&mut g);
    through_countdown(&mut g);
    let goal = CarSample { at_goal: true, ..idle() };
    let cp = CarSample { at_checkpoint: true, ..idle() };
    g.finish_race_frame(no_keys(), &vec![idle(), cp]);
    for _ in 0..10 {
        if g.screen() != Screen::Race {
            break;
        }
        race_frame(&mut g, no_keys(), [goal, goal]);
        assert!(g.racer(0).lap <= 3 && g.racer(1).lap <= 3);
        if g.screen() != Screen::Race {
            break;
        }
        race_frame(&mut g, no_keys(), [cp, cp]);
    }
    assert!(g.racer(1).lap <= 3);
    assert_eq!(g.screen(), Screen::Paused);
}

fn in_range(a: &Action) -> bool {
    match *a {
        Action::DrawTitle { background, start_card, quit_card } => {
            background < 99 && (start_card, quit_card) != (1, 3) && (1..=2).contains(&start_card) && (3..=4).contains(&quit_card)
        }
        Action::DrawControls { background } => background < 99,
        Action::DrawTrack { background, car_frame } => background < 22 && car_frame < 4,
        Action::DrawPausedTrack { background, car_frame } => background < 22 && car_frame < 4,
        Action::DrawCountdown { digit } => digit < 3,
        Action::DrawLapLabel { racer, lap } => racer < 2 && (1..=3).contains(&lap),
        Action::DrawFinalLapNotice { racer } => racer < 2,
        Action::DrawVictory { frame, winner } => frame < 31 && winner < 2,
        _ => true,
    }
}

#[test]
fn long_session_draws_only_existing_pictures() {
    let mut g = Game::new();
    let goal = CarSample { at_goal: true, ..idle() };
    let cp = CarSample { at_checkpoint: true, hit_ice: true, ..idle() };
    for frame in 0..5000u32 {
        let input = FrameInput {
            left: frame % 7 == 0,
            right: frame % 11 == 0,
            enter: frame % 13 == 0,
            pause: frame % 97 == 0,
            quit: frame % 389 == 0,
            mute: frame % 17 == 0,
            spin: frame % 301 == 0,
        };
        let a = g.start_frame(input);
        assert!(!a.contains(&Action::Exit) || g.screen() == Screen::Title);
        if a.contains(&Action::Exit) {
            break;
        }
        assert!(a.iter().all(in_range));
        if g.race_update_due() {
            let s = if frame % 3 == 0 { [cp, goal] } else { [goal, cp] };
            let b = g.finish_race_frame(input, &s.to_vec());
            assert!(b.iter().all(in_range));
        }
        assert!(g.racer(0).lap >= 1 && g.racer(0).lap <= 3);
        assert!(g.racer(1).lap >= 1 && g.racer(1).lap <= 3);
        assert!(g.racer(0).spinning_out <= 40 && g.racer(1).spinning_out <= 40);
    }
}

#[test]
fn pause_frames_draw_track_without_hint() {
    let mut g = Game::new();
    to_race(&mut g);
    through_countdown(&mut g);
    let b = g.finish_race_frame(FrameInput { pause: true, ..no_keys() }, &vec![idle(), idle()]);
    assert_eq!(
        b,
        vec![
            Action::DrawLapLabel { racer: 0, lap: 1 },
            Action::DrawLapLabel { racer: 1, lap: 1 },
            Action::DrawPausedTrack { background: 0, car_frame: 0 },
            Action::DrawPauseCard,
        ]
    );
    let a = g.start_frame(no_keys());
    assert_eq!(
        a,
        vec![Action::DrawPausedTrack { background: 0, car_frame: 0 }, Action::DrawPauseCard]
    );
}
