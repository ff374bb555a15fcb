//! Properties of the game that hold over every state and every input, or
//! over several frames, proved from the step functions of `game`.

use vstd::prelude::*;
use crate::frames::{
    background_frame_of, car_frame_of, countdown_frame_of, next_tick, title_frame_of,
    victory_frame_of, BACKGROUND_FRAMES, BACKGROUND_TICKS,
    CAR_FRAMES, CAR_TICKS, COUNTDOWN_FRAMES, COUNTDOWN_TICKS, TITLE_FRAMES, VICTORY_FRAMES,
};
use crate::game::{
    car_step, cars_step, frame_start_step, initial_view, race_finish_step, race_start_step, wf, Action,
    FrameInput, GameView, Screen, CONTROLS_MIN_FRAMES, COUNTDOWN_LENGTH, RACERS,
};
use crate::menu::{
    cursor_after, cursor_valid, menu_choice_of, MenuChoice, QUIT_IDLE, QUIT_SELECTED,
    START_IDLE, START_SELECTED,
};
use crate::racer::{
    lap_event_of, racer_after, CarSample, LapEvent, Racer, RACE_LAPS, SPIN_OUT_FRAMES,
};

verus! {

/// The state after `n` race frames from `g`, each stopped before its race
/// update (the frames of a countdown).
pub open spec fn race_starts(g: GameView, n: nat) -> GameView
    decreases n,
{
    if n == 0 {
        g
    } else {
        race_start_step(race_starts(g, (n - 1) as nat)).0
    }
}

/// The countdown lasts exactly `COUNTDOWN_LENGTH` frames: from an armed
/// countdown, each of the first `COUNTDOWN_LENGTH - 1` frames only counts
/// (no race update, the countdown still running), and the next frame ends the
/// countdown and runs the first race update.
pub proof fn law_countdown_length(g: GameView, n: nat)
    requires
        wf(g),
        g.screen == Screen::Race,
        g.countdown_pending,
        g.countdown_timer == 0,
        !g.race_update_due,
        n <= 204,
    ensures
        n < 204 ==> {
            &&& race_starts(g, n).screen == Screen::Race
            &&& race_starts(g, n).countdown_pending
            &&& race_starts(g, n).countdown_timer == n
            &&& !race_starts(g, n).race_update_due
        },
        n == 204 ==> {
            &&& race_starts(g, n).screen == Screen::Race
            &&& !race_starts(g, n).countdown_pending
            &&& race_starts(g, n).countdown_timer == 0
            &&& race_starts(g, n).race_update_due
        },
    decreases n,
{
    if n > 0 {
        law_countdown_length(g, (n - 1) as nat);
    }
}

/// The countdown shows its three digits for `COUNTDOWN_TICKS` frames each,
/// in order: during countdown frame `t` the digit picture is `t / 68`.
pub proof fn law_countdown_digits(t: usize)
    requires
        t < COUNTDOWN_LENGTH,
    ensures
        countdown_frame_of(t) == t / COUNTDOWN_TICKS,
        t < COUNTDOWN_TICKS ==> countdown_frame_of(t) == 0,
        COUNTDOWN_TICKS <= t < 2 * COUNTDOWN_TICKS ==> countdown_frame_of(t) == 1,
        2 * COUNTDOWN_TICKS <= t ==> countdown_frame_of(t) == COUNTDOWN_FRAMES - 1,
{
}

/// The controls card cannot be skipped: a frame leaves the controls screen
/// only for the race, only when Enter is pressed, and only once the card has
/// been shown for `CONTROLS_MIN_FRAMES` frames in all; the count never goes
/// down.
pub proof fn law_controls_gate(g: GameView, input: FrameInput)
    requires
        wf(g),
        g.screen == Screen::Controls,
        !g.race_update_due,
    ensures
        ({
            let (next, acts) = frame_start_step(g, input);
            &&& next.screen == Screen::Controls || next.screen == Screen::Race
            &&& next.controls_timer >= g.controls_timer
            &&& g.controls_timer < u32::MAX ==> next.controls_timer == g.controls_timer + 1
            &&& next.screen == Screen::Race ==> input.enter && next.controls_timer >= 50
            &&& input.enter && next.controls_timer >= 50 ==> next.screen == Screen::Race
                && acts.last() == Action::StopTitleMusic
            &&& acts[0] == Action::DrawControls { background: (g.title_counter / 12) % 99 }
        }),
{
}

/// Whether racer `k` wins in a race frame where the physics measured `s`.
pub open spec fn wins(g: GameView, k: int, s: CarSample) -> bool {
    lap_event_of(g.racers[k].lap, g.racers[k].can_lap, s.at_checkpoint, s.at_goal) == LapEvent::Won
}

/// The final-lap notice racer `k` gets in a race frame, if any.
pub open spec fn notice_for(g: GameView, k: int, s: CarSample) -> Seq<Action> {
    if !s.at_checkpoint && s.at_goal && !g.racers[k].can_lap && g.racers[k].lap == RACE_LAPS {
        seq![Action::DrawFinalLapNotice { racer: k as usize }]
    } else {
        seq![]
    }
}

/// The two racers' updates of a race frame, in closed form: each racer moves
/// by its own sample alone, and winners are recorded in racer order.
proof fn lemma_cars_step(g: GameView, samples: Seq<CarSample>)
    requires
        wf(g),
        samples.len() == RACERS,
    ensures
        cars_step(g, samples, RACERS as nat).0 == (GameView {
            racers: seq![racer_after(g.racers[0], samples[0]), racer_after(g.racers[1], samples[1])],
            winners: g.winners + (if wins(g, 0, samples[0]) { seq![0usize] } else { seq![] }) + (
            if wins(g, 1, samples[1]) {
                seq![1usize]
            } else {
                seq![]
            }),
            win_state: g.win_state || wins(g, 0, samples[0]) || wins(g, 1, samples[1]),
            sprite_counter: next_tick(next_tick(g.sprite_counter)),
            ..g
        }),
        forall|i: int|
            0 <= i < cars_step(g, samples, RACERS as nat).1.len() ==> action_in_range(
                #[trigger] cars_step(g, samples, RACERS as nat).1[i],
            ),
        cars_step(g, samples, RACERS as nat).1 == seq![
            Action::DrawLapLabel { racer: 0, lap: g.racers[0].lap },
        ] + notice_for(g, 0, samples[0]) + seq![
            Action::DrawLapLabel { racer: 1, lap: g.racers[1].lap },
        ] + notice_for(g, 1, samples[1]),
{
    reveal_with_fuel(cars_step, 3);
    let c1 = car_step(g, 0, samples[0]).0;
    assert(c1.racers[1] == g.racers[1]);
    let acts = cars_step(g, samples, RACERS as nat).1;
    assert(acts == car_step(g, 0, samples[0]).1 + car_step(c1, 1, samples[1]).1);
    assert(acts =~= seq![Action::DrawLapLabel { racer: 0, lap: g.racers[0].lap }] + notice_for(
        g,
        0,
        samples[0],
    ) + seq![Action::DrawLapLabel { racer: 1, lap: g.racers[1].lap }] + notice_for(
        g,
        1,
        samples[1],
    ));
    assert forall|i: int| 0 <= i < acts.len() implies action_in_range(#[trigger] acts[i]) by {
        assert(g.racers[0].valid());
        assert(g.racers[1].valid());
    }
    let c2 = car_step(c1, 1, samples[1]).0;
    assert(c2.racers =~= seq![racer_after(g.racers[0], samples[0]), racer_after(g.racers[1], samples[1])]);
    assert(c2.winners =~= g.winners + (if wins(g, 0, samples[0]) { seq![0usize] } else { seq![] }) + (
    if wins(g, 1, samples[1]) {
        seq![1usize]
    } else {
        seq![]
    }));
}

/// A lap counts only when the car crosses the goal after passing the
/// checkpoint, before its last lap; counting it disarms the checkpoint. In
/// one race frame a racer's lap goes up by at most one, and passing the
/// checkpoint arms the next lap.
pub proof fn law_lap_counting(g: GameView, input: FrameInput, samples: Seq<CarSample>, k: int)
    requires
        wf(g),
        g.race_update_due,
        samples.len() == RACERS,
        0 <= k < RACERS,
    ensures
        ({
            let r = g.racers[k];
            let next = race_finish_step(g, input, samples).0.racers[k];
            &&& next.lap == r.lap || next.lap == r.lap + 1
            &&& next.lap == r.lap + 1 ==> {
                &&& r.can_lap
                &&& samples[k].at_goal
                &&& !samples[k].at_checkpoint
                &&& r.lap < RACE_LAPS
                &&& !next.can_lap
            }
            &&& samples[k].at_checkpoint ==> next.can_lap
        }),
{
    lemma_cars_step(g, samples);
}

/// A win is recorded only for a racer on the last lap that had passed the
/// checkpoint and is on the goal; earlier wins are kept; and a win ends the
/// frame on the victory screen.
pub proof fn law_win_needs_last_lap(g: GameView, input: FrameInput, samples: Seq<CarSample>)
    requires
        wf(g),
        g.race_update_due,
        samples.len() == RACERS,
    ensures
        ({
            let next = race_finish_step(g, input, samples).0;
            &&& next.winners.len() >= g.winners.len()
            &&& next.winners.subrange(0, g.winners.len() as int) == g.winners
            &&& forall|j: int|
                g.winners.len() <= j < next.winners.len() ==> {
                    let k = #[trigger] next.winners[j] as int;
                    &&& 0 <= k < RACERS
                    &&& g.racers[k].lap == RACE_LAPS
                    &&& g.racers[k].can_lap
                    &&& samples[k].at_goal
                    &&& !samples[k].at_checkpoint
                }
            &&& next.winners.len() > g.winners.len() ==> next.screen == Screen::Paused
                && next.pause_for_win
            &&& forall|i: int, j: int|
                g.winners.len() <= i < j < next.winners.len() ==> #[trigger] next.winners[i]
                    != #[trigger] next.winners[j]
        }),
{
    lemma_cars_step(g, samples);
    let next = race_finish_step(g, input, samples).0;
    assert(next.winners.subrange(0, g.winners.len() as int) =~= g.winners);
}

/// A spin-out lasts: each race frame counts a racer's spin-out down by one,
/// a racer in control starts a full spin-out on ice, and the spin key sends
/// every racer into a full spin-out.
pub proof fn law_spin_out(g: GameView, input: FrameInput, samples: Seq<CarSample>, k: int)
    requires
        wf(g),
        g.race_update_due,
        samples.len() == RACERS,
        0 <= k < RACERS,
    ensures
        ({
            let before = g.racers[k].spinning_out;
            let after = race_finish_step(g, input, samples).0.racers[k].spinning_out;
            &&& input.spin ==> after == SPIN_OUT_FRAMES
            &&& !input.spin && before > 0 ==> after == before - 1
            &&& !input.spin && before == 0 && samples[k].hit_ice ==> after == SPIN_OUT_FRAMES
            &&& !input.spin && before == 0 && !samples[k].hit_ice ==> after == 0
        }),
{
    lemma_cars_step(g, samples);
}

/// Resuming from the pause card (P) goes back to the race as it was: same
/// racers, winners and animations, no countdown and no sound.
pub proof fn law_resume_keeps_race(g: GameView, input: FrameInput)
    requires
        wf(g),
        g.screen == Screen::Paused,
        !g.race_update_due,
        !g.pause_for_win,
        input.pause,
    ensures
        ({
            let (next, acts) = frame_start_step(g, input);
            &&& next.screen == Screen::Race
            &&& !next.countdown_pending
            &&& next.racers == g.racers
            &&& next.winners == g.winners
            &&& next.sprite_counter == g.sprite_counter
            &&& !next.race_music_due && !next.title_music_due && next.victory_music_due
            &&& acts.len() == 0
        }),
{
}

/// Leaving a pause for the title menu (Q on the pause card, Enter on the
/// victory screen) puts the cars back on the grid at lap 1, stops the race
/// music, re-arms the countdown and every music, and keeps the winners.
pub proof fn law_leaving_pause_resets(g: GameView, input: FrameInput)
    requires
        wf(g),
        g.screen == Screen::Paused,
        !g.race_update_due,
        (input.quit && !input.pause && !g.pause_for_win) || (input.enter && g.pause_for_win),
    ensures
        ({
            let (next, acts) = frame_start_step(g, input);
            &&& next.screen == Screen::Title
            &&& next.racers.len() == RACERS
            &&& forall|k: int| 0 <= k < RACERS ==> (#[trigger] next.racers[k]).lap == 1
            &&& forall|k: int| 0 <= k < RACERS ==> (#[trigger] next.racers[k]).can_lap
                == g.racers[k].can_lap && next.racers[k].spinning_out == g.racers[k].spinning_out
            &&& next.countdown_pending
            &&& next.title_music_due && next.race_music_due && next.victory_music_due
            &&& !next.win_state
            &&& next.winners == g.winners
            &&& acts[0] == Action::ResetCars
            &&& acts[1] == Action::StopRaceMusic
        }),
{
}

/// While paused, a frame without a leaving key changes nothing of the race:
/// the screen stays paused and the racers and winners are kept.
pub proof fn law_pause_holds_race(g: GameView, input: FrameInput)
    requires
        wf(g),
        g.screen == Screen::Paused,
        !g.race_update_due,
        !(input.pause && !g.pause_for_win),
        !(input.quit && !g.pause_for_win),
        !(input.enter && g.pause_for_win),
    ensures
        ({
            let next = frame_start_step(g, input).0;
            &&& next.screen == Screen::Paused
            &&& next.racers == g.racers
            &&& next.winners == g.winners
            &&& next.pause_for_win == g.pause_for_win
        }),
{
}

/// The victory screen always names the first winner of the session, and
/// its animation advances one tick per frame.
pub proof fn law_victory_shows_first_winner(g: GameView, input: FrameInput)
    requires
        wf(g),
        g.screen == Screen::Paused,
        g.pause_for_win,
        !g.race_update_due,
        !input.enter,
    ensures
        ({
            let (next, acts) = frame_start_step(g, input);
            &&& next.victory_counter == next_tick(g.victory_counter)
            &&& acts.contains(
                Action::DrawVictory {
                    frame: victory_frame_of(next_tick(g.victory_counter)),
                    winner: g.winners[0],
                },
            )
        }),
{
    let acts = frame_start_step(g, input).1;
    assert(acts[1] == Action::DrawVictory {
        frame: victory_frame_of(next_tick(g.victory_counter)),
        winner: g.winners[0],
    } || acts[3] == Action::DrawVictory {
        frame: victory_frame_of(next_tick(g.victory_counter)),
        winner: g.winners[0],
    });
}

/// Whether an action only names pictures and racers that exist: animation
/// frames within their animations, menu cards among the four button cards,
/// racers among the racers, laps within the race.
pub open spec fn action_in_range(a: Action) -> bool {
    match a {
        Action::DrawTitle { background, start_card, quit_card } => background < TITLE_FRAMES
            && cursor_valid(start_card, quit_card),
        Action::DrawControls { background } => background < TITLE_FRAMES,
        Action::DrawTrack { background, car_frame } => background < BACKGROUND_FRAMES && car_frame
            < CAR_FRAMES,
        Action::DrawPausedTrack { background, car_frame } => background < BACKGROUND_FRAMES
            && car_frame < CAR_FRAMES,
        Action::DrawCountdown { digit } => digit < COUNTDOWN_FRAMES,
        Action::DrawLapLabel { racer, lap } => racer < RACERS && 1 <= lap <= RACE_LAPS,
        Action::DrawFinalLapNotice { racer } => racer < RACERS,
        Action::DrawVictory { frame, winner } => frame < VICTORY_FRAMES && winner < RACERS,
        _ => true,
    }
}

/// Every action of the start of a frame names existing pictures and racers.
pub proof fn law_frame_start_in_range(g: GameView, input: FrameInput)
    requires
        wf(g),
        !g.race_update_due,
    ensures
        forall|i: int|
            0 <= i < frame_start_step(g, input).1.len() ==> action_in_range(
                #[trigger] frame_start_step(g, input).1[i],
            ),
{
    let acts = frame_start_step(g, input).1;
    assert forall|i: int| 0 <= i < acts.len() implies action_in_range(#[trigger] acts[i]) by {
    }
}

/// Every action of a race update names existing pictures and racers.
pub proof fn law_race_finish_in_range(g: GameView, input: FrameInput, samples: Seq<CarSample>)
    requires
        wf(g),
        g.race_update_due,
        samples.len() == RACERS,
    ensures
        forall|i: int|
            0 <= i < race_finish_step(g, input, samples).1.len() ==> action_in_range(
                #[trigger] race_finish_step(g, input, samples).1[i],
            ),
{
    lemma_cars_step(g, samples);
    let acts = race_finish_step(g, input, samples).1;
    assert forall|i: int| 0 <= i < acts.len() implies action_in_range(#[trigger] acts[i]) by {
    }
}

/// On the title menu, Enter with Start selected leaves for the controls
/// screen (or, once the controls card has been seen long enough, for the
/// race); Enter with Quit selected asks to leave the program, as the last
/// action; otherwise the menu stays. The title music starts on the first
/// title frame after it became due, and only then.
pub proof fn law_title_menu(g: GameView, input: FrameInput)
    requires
        wf(g),
        g.screen == Screen::Title,
        !g.race_update_due,
    ensures
        ({
            let cards = cursor_after(g.start_card, g.quit_card, input.left, input.right);
            let (next, acts) = frame_start_step(g, input);
            &&& menu_choice_of(cards.0, cards.1, input.enter) == MenuChoice::Stay ==> next.screen
                == Screen::Title
            &&& menu_choice_of(cards.0, cards.1, input.enter) == MenuChoice::Quit ==> next.screen
                == Screen::Title && acts.last() == Action::Exit
            &&& menu_choice_of(cards.0, cards.1, input.enter) == MenuChoice::StartGame ==> (
            next.screen == Screen::Controls || next.screen == Screen::Race)
            &&& menu_choice_of(cards.0, cards.1, input.enter) != MenuChoice::Quit ==> forall|i: int|
                0 <= i < acts.len() ==> #[trigger] acts[i] != Action::Exit
            &&& (acts[0] == Action::PlayTitleMusic) == g.title_music_due
            &&& !next.title_music_due
        }),
{
    let acts = frame_start_step(g, input).1;
    assert forall|i: int| 0 <= i < acts.len() && menu_choice_of(
        cursor_after(g.start_card, g.quit_card, input.left, input.right).0,
        cursor_after(g.start_card, g.quit_card, input.left, input.right).1,
        input.enter,
    ) != MenuChoice::Quit implies #[trigger] acts[i] != Action::Exit by {}
}

/// Each press of the mute key during a race frame flips the race music
/// between silent and full and says so to the host; without it the setting
/// is kept.
pub proof fn law_race_mute(g: GameView, input: FrameInput, samples: Seq<CarSample>)
    requires
        wf(g),
        g.race_update_due,
        samples.len() == RACERS,
    ensures
        ({
            let (next, acts) = race_finish_step(g, input, samples);
            &&& input.mute ==> next.music_muted == !g.music_muted && acts.contains(
                Action::SetRaceMusicVolume { muted: !g.music_muted },
            )
            &&& !input.mute ==> next.music_muted == g.music_muted
        }),
{
    lemma_cars_step(g, samples);
    let cars = cars_step(g, samples, RACERS as nat);
    let acts = race_finish_step(g, input, samples).1;
    if input.mute {
        assert(acts[cars.1.len() as int] == Action::SetRaceMusicVolume { muted: !g.music_muted });
    }
}

/// One racer over one race frame, by what the car touched: the checkpoint
/// arms the next lap; away from the checkpoint and the goal nothing about
/// the laps changes; crossing the goal armed counts one lap and disarms,
/// except on the last lap where it wins; crossing it unarmed counts nothing
/// (with the final-lap notice on the last lap). A running spin-out loses
/// one frame; a car in control that touches ice starts a full one.
pub proof fn law_racer_frame(r: Racer, s: CarSample)
    requires
        r.valid(),
    ensures
        ({
            let n = racer_after(r, s);
            let e = lap_event_of(r.lap, r.can_lap, s.at_checkpoint, s.at_goal);
            &&& n.valid()
            &&& s.at_checkpoint ==> n.can_lap && n.lap == r.lap && e == LapEvent::Checkpoint
            &&& !s.at_checkpoint && !s.at_goal ==> n.can_lap == r.can_lap && n.lap == r.lap && e
                == LapEvent::Nothing
            &&& !s.at_checkpoint && s.at_goal && r.can_lap && r.lap < RACE_LAPS ==> n.lap == r.lap
                + 1 && !n.can_lap && e == LapEvent::NewLap
            &&& !s.at_checkpoint && s.at_goal && r.can_lap && r.lap == RACE_LAPS ==> n.lap == r.lap
                && n.can_lap && e == LapEvent::Won
            &&& !s.at_checkpoint && s.at_goal && !r.can_lap ==> n.lap == r.lap && !n.can_lap && e
                == (if r.lap == RACE_LAPS {
                LapEvent::FinalLapNotice
            } else {
                LapEvent::Nothing
            })
            &&& r.spinning_out > 0 ==> n.spinning_out == r.spinning_out - 1
            &&& r.spinning_out == 0 ==> n.spinning_out == (if s.hit_ice {
                SPIN_OUT_FRAMES
            } else {
                0
            })
        }),
{
}

/// An armed car keeps its checkpoint while it drives on, and its next goal
/// crossing counts the lap: from a car that passed the checkpoint, frames
/// away from both areas followed by a goal crossing count exactly one lap.
pub proof fn law_armed_car_counts_at_goal(r: Racer, drive_on: Seq<CarSample>, goal: CarSample)
    requires
        r.valid(),
        r.can_lap,
        r.lap < RACE_LAPS,
        forall|i: int| 0 <= i < drive_on.len() ==> !(#[trigger] drive_on[i]).at_checkpoint
            && !drive_on[i].at_goal,
        goal.at_goal,
        !goal.at_checkpoint,
    ensures
        racer_after(racer_run(r, drive_on), goal).lap == r.lap + 1,
        !racer_after(racer_run(r, drive_on), goal).can_lap,
{
    lemma_racer_run_keeps_laps(r, drive_on);
}

/// A racer after one race frame for each sample, in order.
pub open spec fn racer_run(r: Racer, samples: Seq<CarSample>) -> Racer
    decreases samples.len(),
{
    if samples.len() == 0 {
        r
    } else {
        racer_after(racer_run(r, samples.drop_last()), samples.last())
    }
}

proof fn lemma_racer_run_keeps_laps(r: Racer, drive_on: Seq<CarSample>)
    requires
        r.valid(),
        forall|i: int| 0 <= i < drive_on.len() ==> !(#[trigger] drive_on[i]).at_checkpoint
            && !drive_on[i].at_goal,
    ensures
        racer_run(r, drive_on).lap == r.lap,
        racer_run(r, drive_on).can_lap == r.can_lap,
        racer_run(r, drive_on).valid(),
    decreases drive_on.len(),
{
    if drive_on.len() > 0 {
        let rest = drive_on.drop_last();
        assert forall|i: int| 0 <= i < rest.len() implies !(#[trigger] rest[i]).at_checkpoint
            && !rest[i].at_goal by {
            assert(rest[i] == drive_on[i]);
        }
        lemma_racer_run_keeps_laps(r, rest);
        law_racer_frame(racer_run(r, rest), drive_on.last());
    }
}

/// Each racer's lap counter is drawn with its own lap as it stood at the
/// start of the race update: racer 0's first, racer 1's later, and no label
/// names another racer's lap.
pub proof fn law_lap_labels(g: GameView, input: FrameInput, samples: Seq<CarSample>)
    requires
        wf(g),
        g.race_update_due,
        samples.len() == RACERS,
    ensures
        ({
            let acts = race_finish_step(g, input, samples).1;
            &&& acts[0] == Action::DrawLapLabel { racer: 0, lap: g.racers[0].lap }
            &&& acts.contains(Action::DrawLapLabel { racer: 1, lap: g.racers[1].lap })
            &&& forall|i: int|
                0 <= i < acts.len() ==> match #[trigger] acts[i] {
                    Action::DrawLapLabel { racer, lap } => racer < RACERS && lap == g.racers[racer as int].lap,
                    _ => true,
                }
        }),
{
    lemma_cars_step(g, samples);
    let cars = cars_step(g, samples, RACERS as nat);
    let acts = race_finish_step(g, input, samples).1;
    let j: int = 1 + notice_for(g, 0, samples[0]).len() as int;
    assert(acts[j] == Action::DrawLapLabel { racer: 1, lap: g.racers[1].lap });
    assert forall|i: int| 0 <= i < acts.len() implies match #[trigger] acts[i] {
        Action::DrawLapLabel { racer, lap } => racer < RACERS && lap == g.racers[racer as int].lap,
        _ => true,
    } by {
        if i < cars.1.len() {
            assert(acts[i] == cars.1[i]);
        }
    }
}

/// The pause goes on from the race's mute setting: when a race frame opens
/// the pause, the pause's mute state is the race's (flipped once more if M
/// was pressed in that frame, as the pause reads the same key press); and M
/// on a later pause frame sets the volume opposite to that state. So after
/// the race was muted, the first M in the pause unmutes.
pub proof fn law_pause_keeps_race_mute(
    g: GameView,
    input: FrameInput,
    samples: Seq<CarSample>,
    next_input: FrameInput,
)
    requires
        wf(g),
        g.race_update_due,
        samples.len() == RACERS,
        next_input.mute,
        !next_input.pause,
        !next_input.quit,
        !next_input.enter,
    ensures
        ({
            let p = race_finish_step(g, input, samples).0;
            let after = frame_start_step(p, next_input);
            &&& p.screen == Screen::Paused ==> p.pause_muted == (if input.mute {
                !p.music_muted
            } else {
                p.music_muted
            })
            &&& p.screen == Screen::Paused && !input.mute ==> after.1.last()
                == Action::SetRaceMusicVolume { muted: !p.music_muted }
            &&& p.screen == Screen::Paused ==> after.0.pause_muted == !p.pause_muted
        }),
{
    lemma_cars_step(g, samples);
}

/// Every countdown starts from its first frame: a frame that arms the
/// countdown leaves its timer at zero, and so does the frame that ends one;
/// and a race frame before the countdown's first frame plays the jingle.
pub proof fn law_countdown_starts_from_zero(g: GameView, input: FrameInput)
    requires
        wf(g),
        !g.race_update_due,
    ensures
        ({
            let (next, acts) = frame_start_step(g, input);
            &&& !next.countdown_pending ==> next.countdown_timer == 0
            &&& !g.countdown_pending && next.countdown_pending ==> next.countdown_timer == 0
            &&& g.screen == Screen::Race && g.countdown_pending && g.countdown_timer == 0 ==> acts
                == seq![
                Action::DrawTrack {
                    background: (g.sprite_counter / BACKGROUND_TICKS) % BACKGROUND_FRAMES,
                    car_frame: (g.sprite_counter / CAR_TICKS) % CAR_FRAMES,
                },
                Action::PlayCountdownJingle,
                Action::DrawTrack {
                    background: (g.sprite_counter / BACKGROUND_TICKS) % BACKGROUND_FRAMES,
                    car_frame: (g.sprite_counter / CAR_TICKS) % CAR_FRAMES,
                },
                Action::DrawCountdown { digit: 0 },
            ]
        }),
{
}

/// Without an arrow key the menu selection stays as it was (so Left on one
/// frame and Enter on a later one starts the game); Left selects Start and
/// otherwise Right selects Quit.
pub proof fn law_menu_selection_persists(g: GameView, input: FrameInput)
    requires
        wf(g),
        g.screen == Screen::Title,
        !g.race_update_due,
    ensures
        ({
            let next = frame_start_step(g, input).0;
            &&& !input.left && !input.right ==> next.start_card == g.start_card && next.quit_card
                == g.quit_card
            &&& input.left ==> next.start_card == START_SELECTED && next.quit_card == QUIT_IDLE
            &&& !input.left && input.right ==> next.start_card == START_IDLE && next.quit_card
                == QUIT_SELECTED
            &&& input.enter && next.start_card == START_SELECTED ==> next.screen != Screen::Title
        }),
{
}

/// A racer that crosses the goal armed on its last lap is recorded as a
/// winner in that frame, and the frame ends on the victory screen.
pub proof fn law_win_is_recorded(g: GameView, input: FrameInput, samples: Seq<CarSample>, k: int)
    requires
        wf(g),
        g.race_update_due,
        samples.len() == RACERS,
        0 <= k < RACERS,
        g.racers[k].lap == RACE_LAPS,
        g.racers[k].can_lap,
        samples[k].at_goal,
        !samples[k].at_checkpoint,
    ensures
        ({
            let next = race_finish_step(g, input, samples).0;
            &&& next.winners.subrange(g.winners.len() as int, next.winners.len() as int).contains(
                k as usize,
            )
            &&& next.screen == Screen::Paused
            &&& next.pause_for_win
        }),
{
    lemma_cars_step(g, samples);
    let next = race_finish_step(g, input, samples).0;
    let sub = next.winners.subrange(g.winners.len() as int, next.winners.len() as int);
    if k == 0 {
        assert(sub[0] == 0usize);
    } else {
        assert(sub[sub.len() - 1] == 1usize);
    }
}

/// Each countdown frame shows the digit of its third of the countdown
/// (`t / 68` at countdown frame `t`) and counts one frame.
pub proof fn law_countdown_frame(g: GameView, input: FrameInput)
    requires
        wf(g),
        g.screen == Screen::Race,
        g.countdown_pending,
        !g.race_update_due,
    ensures
        ({
            let (next, acts) = frame_start_step(g, input);
            &&& acts.contains(Action::DrawCountdown { digit: (g.countdown_timer / 68) as usize })
            &&& g.countdown_timer + 1 < 204 ==> next.countdown_timer == g.countdown_timer + 1
                && next.countdown_pending && !next.race_update_due
            &&& g.countdown_timer + 1 == 204 ==> !next.countdown_pending && next.race_update_due
            &&& (acts.contains(Action::PlayCountdownJingle)) == (g.countdown_timer == 0)
        }),
{
    let acts = frame_start_step(g, input).1;
    let t = g.countdown_timer;
    if t == 0 {
        assert(acts[3] == Action::DrawCountdown { digit: 0 });
        assert(acts[1] == Action::PlayCountdownJingle);
    } else {
        assert(acts[1] == Action::DrawCountdown { digit: (t / 68) as usize });
        assert forall|i: int| 0 <= i < acts.len() implies acts[i] != Action::PlayCountdownJingle by {}
    }
}

/// One step of an animation clock of `frames` pictures shown `ticks` ticks
/// each: the picture changes exactly when the next tick is a multiple of
/// `ticks`, and then to the following picture, wrapping after the last.
proof fn lemma_clock_step(c: int, ticks: int, frames: int)
    requires
        c >= 0,
        ticks > 0,
        frames > 1,
    ensures
        ((c + 1) / ticks) % frames == if (c + 1) % ticks == 0 {
            ((c / ticks) % frames + 1) % frames
        } else {
            (c / ticks) % frames
        },
{
    let q = c / ticks;
    let r = c % ticks;
    assert(c == ticks * q + r && 0 <= r < ticks) by (nonlinear_arith)
        requires
            ticks > 0,
            q == c / ticks,
            r == c % ticks,
    ;
    if r + 1 == ticks {
        assert((c + 1) / ticks == q + 1 && (c + 1) % ticks == 0) by (nonlinear_arith)
            requires
                ticks > 0,
                c == ticks * q + r,
                r + 1 == ticks,
        ;
        vstd::arithmetic::div_mod::lemma_add_mod_noop(q, 1, frames);
        vstd::arithmetic::div_mod::lemma_small_mod(1nat, frames as nat);
        assert((q + 1) % frames == ((q % frames) + 1) % frames);
    } else {
        assert((c + 1) / ticks == q && (c + 1) % ticks == r + 1) by (nonlinear_arith)
            requires
                ticks > 0,
                c == ticks * q + r,
                0 <= r,
                r + 1 < ticks,
        ;
    }
}

/// The animations: the title background changes every 12 ticks through 99
/// pictures, the track background every 5 ticks through 22, the car every
/// 20 ticks through 4, and the victory picture every 5 ticks through 31;
/// each starts at its first picture.
pub proof fn law_animation_clocks(c: usize)
    requires
        c < usize::MAX,
    ensures
        title_frame_of(0) == 0 && background_frame_of(0) == 0 && car_frame_of(0) == 0
            && victory_frame_of(0) == 0,
        title_frame_of((c + 1) as usize) == if (c + 1) % 12 == 0 {
            (title_frame_of(c) + 1) % 99
        } else {
            title_frame_of(c) as int
        },
        background_frame_of((c + 1) as usize) == if (c + 1) % 5 == 0 {
            (background_frame_of(c) + 1) % 22
        } else {
            background_frame_of(c) as int
        },
        car_frame_of((c + 1) as usize) == if (c + 1) % 20 == 0 {
            (car_frame_of(c) + 1) % 4
        } else {
            car_frame_of(c) as int
        },
        victory_frame_of((c + 1) as usize) == if (c + 1) % 5 == 0 {
            (victory_frame_of(c) + 1) % 31
        } else {
            victory_frame_of(c) as int
        },
{
    lemma_clock_step(c as int, 12, 99);
    lemma_clock_step(c as int, 5, 22);
    lemma_clock_step(c as int, 20, 4);
    lemma_clock_step(c as int, 5, 31);
}

/// The track and car animations tick once per racer in each race update,
/// and once per pause frame.
pub proof fn law_sprite_ticks(g: GameView, input: FrameInput, samples: Seq<CarSample>)
    requires
        wf(g),
        g.race_update_due,
        samples.len() == RACERS,
        g.sprite_counter + 3 <= usize::MAX,
    ensures
        ({
            let next = race_finish_step(g, input, samples).0;
            &&& next.screen == Screen::Race ==> next.sprite_counter == g.sprite_counter + 2
            &&& next.screen == Screen::Paused ==> next.sprite_counter == g.sprite_counter + 3
        }),
{
    lemma_cars_step(g, samples);
}

/// A title frame draws the menu with the title picture of its tick and the
/// cards of the selection it ends with.
pub proof fn law_title_draws_selection(g: GameView, input: FrameInput)
    requires
        wf(g),
        g.screen == Screen::Title,
        !g.race_update_due,
    ensures
        ({
            let (next, acts) = frame_start_step(g, input);
            &&& acts.contains(
                Action::DrawTitle {
                    background: (g.title_counter / 12) % 99,
                    start_card: next.start_card,
                    quit_card: next.quit_card,
                },
            )
            &&& g.title_counter + 2 <= usize::MAX ==> next.title_counter == g.title_counter + (
            if next.screen == Screen::Title {
                1int
            } else {
                2
            })
        }),
{
    let (next, acts) = frame_start_step(g, input);
    let drawn = Action::DrawTitle {
        background: (g.title_counter / 12) % 99,
        start_card: next.start_card,
        quit_card: next.quit_card,
    };
    if g.title_music_due {
        assert(acts[1] == drawn);
    } else {
        assert(acts[0] == drawn);
    }
}

/// The game starts on the title menu with nothing selected, both racers on
/// lap 1 with the checkpoint not passed and in control, no winner, the
/// countdown armed from its first frame, every music due, nothing muted.
pub proof fn law_initial_state()
    ensures
        ({
            let g = initial_view();
            &&& wf(g)
            &&& g.screen == Screen::Title
            &&& g.start_card == 2 && g.quit_card == 4
            &&& forall|k: int| 0 <= k < 2 ==> #[trigger] g.racers[k] == (Racer {
                lap: 1,
                can_lap: false,
                spinning_out: 0,
            })
            &&& g.winners.len() == 0 && !g.win_state
            &&& g.countdown_pending && g.countdown_timer == 0
            &&& g.controls_timer == 0 && g.title_counter == 0 && g.sprite_counter == 0
            &&& g.title_music_due && g.race_music_due && g.victory_music_due
            &&& !g.music_muted && !g.race_update_due && !g.pause_for_win
        }),
{
}

/// The race music starts on the first race update after it became due, and
/// then no longer: a race frame plays it exactly when it is due.
pub proof fn law_race_music_once(g: GameView, input: FrameInput)
    requires
        wf(g),
        g.screen == Screen::Race,
        !g.countdown_pending,
        !g.race_update_due,
    ensures
        ({
            let (next, acts) = frame_start_step(g, input);
            &&& acts.contains(Action::PlayRaceMusic) == g.race_music_due
            &&& !next.race_music_due
            &&& next.race_update_due
        }),
{
    let acts = frame_start_step(g, input).1;
    if g.race_music_due {
        assert(acts[1] == Action::PlayRaceMusic);
    } else {
        assert forall|i: int| 0 <= i < acts.len() implies acts[i] != Action::PlayRaceMusic by {}
    }
}

/// The victory music starts (and the race music stops) on the first frame of
/// a victory screen only.
pub proof fn law_victory_music_once(g: GameView, input: FrameInput)
    requires
        wf(g),
        g.screen == Screen::Paused,
        g.pause_for_win,
        !g.race_update_due,
        !input.enter,
    ensures
        ({
            let (next, acts) = frame_start_step(g, input);
            &&& acts.contains(Action::PlayVictoryMusic) == g.victory_music_due
            &&& !next.victory_music_due
        }),
{
    let acts = frame_start_step(g, input).1;
    if g.victory_music_due {
        assert(acts[2] == Action::PlayVictoryMusic);
    } else {
        assert forall|i: int| 0 <= i < acts.len() implies acts[i] != Action::PlayVictoryMusic by {}
    }
}

/// P in a race frame opens the pause: the pause card when no car won in
/// that frame or before, the victory screen otherwise; without P or a win
/// the race goes on.
pub proof fn law_pause_key_opens_pause(g: GameView, input: FrameInput, samples: Seq<CarSample>)
    requires
        wf(g),
        g.race_update_due,
        samples.len() == RACERS,
    ensures
        ({
            let next = race_finish_step(g, input, samples).0;
            &&& input.pause ==> next.screen == Screen::Paused
            &&& next.screen == Screen::Paused ==> next.pause_for_win == next.win_state
            &&& !input.pause && !next.win_state ==> next.screen == Screen::Race
            &&& next.screen == Screen::Paused ==> next.victory_counter == 0
        }),
{
    lemma_cars_step(g, samples);
}

} // verus!
