use kart_race::frames::{
    advance_tick, background_frame, car_frame, countdown_frame, title_frame, victory_frame,
};
use kart_race::menu::{menu_choice, move_cursor, MenuChoice};
use kart_race::racer::{lap_event, spin_tick, CarSample, LapEvent, Racer};

#[test]
fn title_frame_advances_every_twelve_ticks() {
    assert_eq!(title_frame(0), 0);
    assert_eq!(title_frame(11), 0);
    assert_eq!(title_frame(12), 1);
    assert_eq!(title_frame(12 * 98), 98);
    assert_eq!(title_frame(12 * 99), 0);
}

#[test]
fn track_and_car_frames() {
    assert_eq!(background_frame(4), 0);
    assert_eq!(background_frame(5), 1);
    assert_eq!(background_frame(5 * 22), 0);
    assert_eq!(background_frame(5 * 23 + 3), 1);
    assert_eq!(car_frame(19), 0);
    assert_eq!(car_frame(20), 1);
    assert_eq!(car_frame(79), 3);
    assert_eq!(car_frame(80), 0);
}

#[test]
fn countdown_and_victory_frames() {
    assert_eq!(countdown_frame(0), 0);
    assert_eq!(countdown_frame(67), 0);
    assert_eq!(countdown_frame(68), 1);
    assert_eq!(countdown_frame(136), 2);
    assert_eq!(countdown_frame(203), 2);
    assert_eq!(victory_frame(4), 0);
    assert_eq!(victory_frame(5), 1);
    assert_eq!(victory_frame(5 * 30), 30);
    assert_eq!(victory_frame(5 * 31), 0);
}

#[test]
fn ticks_wrap_at_the_top() {
    assert_eq!(advance_tick(0), 1);
    assert_eq!(advance_tick(41), 42);
    assert_eq!(advance_tick(usize::MAX), 0);
}

#[test]
fn cursor_moves_with_arrows() {
    assert_eq!(move_cursor(2, 4, false, false), (2, 4));
    assert_eq!(move_cursor(2, 4, true, false), (1, 4));
    assert_eq!(move_cursor(2, 4, false, true), (2, 3));
    assert_eq!(move_cursor(1, 4, false, true), (2, 3));
    assert_eq!(move_cursor(2, 3, true, true), (1, 4));
}

#[test]
fn enter_on_menu() {
    assert_eq!(menu_choice(1, 4, true), MenuChoice::StartGame);
    assert_eq!(menu_choice(2, 3, true), MenuChoice::Quit);
    assert_eq!(menu_choice(2, 4, true), MenuChoice::Stay);
    assert_eq!(menu_choice(1, 4, false), MenuChoice::Stay);
    assert_eq!(menu_choice(2, 3, false), MenuChoice::Stay);
}

#[test]
fn lap_events_in_priority_order() {
    assert_eq!(lap_event(1, false, true, true), LapEvent::Checkpoint);
    assert_eq!(lap_event(3, true, false, true), LapEvent::Won);
    assert_eq!(lap_event(2, true, false, true), LapEvent::NewLap);
    assert_eq!(lap_event(3, false, false, true), LapEvent::FinalLapNotice);
    assert_eq!(lap_event(1, false, false, true), LapEvent::Nothing);
    assert_eq!(lap_event(3, true, false, false), LapEvent::Nothing);
}

#[test]
fn spin_out_clock() {
    assert_eq!(spin_tick(0, false), 0);
    assert_eq!(spin_tick(0, true), 40);
    assert_eq!(spin_tick(40, true), 39);
    assert_eq!(spin_tick(1, false), 0);
}

#[test]
fn racer_advances() {
    let r = Racer::new();
    assert_eq!(r, Racer { lap: 1, can_lap: false, spinning_out: 0 });
    assert!(!r.is_spinning());
    let s = CarSample { hit_ice: true, at_checkpoint: true, at_goal: false };
    let (r, e) = r.advance(s);
    assert_eq!(e, LapEvent::Checkpoint);
    assert_eq!(r, Racer { lap: 1, can_lap: true, spinning_out: 40 });
    assert!(r.is_spinning());
    let s = CarSample { hit_ice: false, at_checkpoint: false, at_goal: true };
    let (r, e) = r.advance(s);
    assert_eq!(e, LapEvent::NewLap);
    assert_eq!(r, Racer { lap: 2, can_lap: false, spinning_out: 39 });
}
