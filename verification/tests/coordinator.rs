use nes_core::pacing::{batch_budget, pacing_delay, BATCH_CYCLES, PICTURE_TICKS_PER_CYCLE};
use nes_core::{Action, Event, State, NES};

/// Drives a started coordinator through one whole batch and returns the
/// processor cycles, audio ticks and picture ticks that it asked for.
fn run_batch(nes: &mut NES, elapsed: u128) -> (u64, u64, u64, Option<u64>) {
    let mut cycles = 0u64;
    let mut audio_ticks = 0u64;
    let mut picture_ticks = 0u64;
    let mut action = nes.run(Event::Polled { shutdown: false });
    loop {
        match action {
            Some(Action::Cycle { audio, picture }) => {
                cycles += 1;
                if audio {
                    audio_ticks += 1;
                }
                picture_ticks += picture as u64;
                action = nes.run(Event::Done);
            }
            Some(Action::Measure) => break,
            other => panic!("unexpected action {:?}", other),
        }
    }
    let sleep = match nes.run(Event::Elapsed { nanos: elapsed }) {
        Some(Action::Pace { sleep }) => sleep,
        other => panic!("unexpected action {:?}", other),
    };
    assert_eq!(nes.run(Event::Done), Some(Action::Poll));
    (cycles, audio_ticks, picture_ticks, sleep)
}

fn started(batch: u64) -> NES {
    let mut nes = NES::new(batch);
    assert_eq!(nes.run(Event::Start), Some(Action::PowerOn));
    assert_eq!(nes.run(Event::Done), Some(Action::Poll));
    nes
}

#[test]
fn new_coordinator_is_idle() {
    let nes = NES::new(BATCH_CYCLES);
    assert_eq!(nes.state(), State::Idle);
}

#[test]
fn start_powers_on_and_then_polls() {
    let mut nes = NES::new(BATCH_CYCLES);
    assert_eq!(nes.run(Event::Start), Some(Action::PowerOn));
    assert_eq!(nes.state(), State::Running);
    assert_eq!(nes.run(Event::Done), Some(Action::Poll));
    assert_eq!(nes.state(), State::Running);
}

#[test]
fn idle_coordinator_refuses_everything_but_start() {
    let mut nes = NES::new(BATCH_CYCLES);
    assert_eq!(nes.run(Event::Done), None);
    assert_eq!(nes.run(Event::Polled { shutdown: false }), None);
    assert_eq!(nes.run(Event::Polled { shutdown: true }), None);
    assert_eq!(nes.run(Event::Elapsed { nanos: 5 }), None);
    assert_eq!(nes.state(), State::Idle);
    assert_eq!(nes.run(Event::Start), Some(Action::PowerOn));
}

#[test]
fn second_start_is_refused() {
    let mut nes = NES::new(BATCH_CYCLES);
    assert_eq!(nes.run(Event::Start), Some(Action::PowerOn));
    assert_eq!(nes.run(Event::Start), None);
    assert_eq!(nes.state(), State::Running);
    assert_eq!(nes.run(Event::Done), Some(Action::Poll));
}

#[test]
fn first_cycles_alternate_the_audio_tick() {
    let mut nes = started(4);
    assert_eq!(
        nes.run(Event::Polled { shutdown: false }),
        Some(Action::Cycle { audio: false, picture: 3 })
    );
    assert_eq!(nes.run(Event::Done), Some(Action::Cycle { audio: true, picture: 3 }));
    assert_eq!(nes.run(Event::Done), Some(Action::Cycle { audio: false, picture: 3 }));
    assert_eq!(nes.run(Event::Done), Some(Action::Cycle { audio: true, picture: 3 }));
    assert_eq!(nes.run(Event::Done), Some(Action::Measure));
}

#[test]
fn default_batch_has_fixed_tick_ratio() {
    let mut nes = started(BATCH_CYCLES);
    let (cycles, audio_ticks, picture_ticks, _) = run_batch(&mut nes, 0);
    assert_eq!(cycles, 2000);
    assert_eq!(audio_ticks, 1000);
    assert_eq!(picture_ticks, 6000);
}

#[test]
fn odd_batches_keep_the_ratio_across_batches() {
    let mut nes = started(7);
    let mut cycles = 0u64;
    let mut audio_ticks = 0u64;
    let mut picture_ticks = 0u64;
    for batches in 1..=9u64 {
        let (c, a, p, _) = run_batch(&mut nes, 0);
        assert_eq!(c, 7);
        cycles += c;
        audio_ticks += a;
        picture_ticks += p;
        assert_eq!(cycles, 7 * batches);
        assert_eq!(audio_ticks, cycles / 2);
        assert_eq!(picture_ticks, 3 * cycles);
    }
    assert_eq!(audio_ticks, 31);
    assert_eq!(picture_ticks, 189);
}

#[test]
fn single_cycle_batches_tick_audio_every_other_batch() {
    let mut nes = started(1);
    let ticks: Vec<u64> = (0..6).map(|_| run_batch(&mut nes, 0).1).collect();
    assert_eq!(ticks, vec![0, 1, 0, 1, 0, 1]);
}

#[test]
fn late_batch_skips_no_cycle() {
    let mut nes = started(10);
    let (cycles, _, _, sleep) = run_batch(&mut nes, 1_000_000_000);
    assert_eq!(cycles, 10);
    assert_eq!(sleep, None);
    let (cycles, audio_ticks, picture_ticks, _) = run_batch(&mut nes, 1_000_000_000);
    assert_eq!(cycles, 10);
    assert_eq!(audio_ticks, 5);
    assert_eq!(picture_ticks, 30);
}

#[test]
fn empty_batch_goes_straight_to_measuring() {
    let mut nes = started(0);
    assert_eq!(nes.run(Event::Polled { shutdown: false }), Some(Action::Measure));
    assert_eq!(nes.run(Event::Elapsed { nanos: 0 }), Some(Action::Pace { sleep: Some(0) }));
    assert_eq!(nes.run(Event::Done), Some(Action::Poll));
}

#[test]
fn early_batch_sleeps_for_the_rest_of_the_budget() {
    let mut nes = started(BATCH_CYCLES);
    let (_, _, _, sleep) = run_batch(&mut nes, 117_460);
    assert_eq!(sleep, Some(1_000_000));
}

#[test]
fn batch_on_budget_sleeps_zero() {
    let mut nes = started(BATCH_CYCLES);
    let (_, _, _, sleep) = run_batch(&mut nes, 1_117_460);
    assert_eq!(sleep, Some(0));
}

#[test]
fn batch_over_budget_does_not_sleep() {
    let mut nes = started(BATCH_CYCLES);
    let (_, _, _, sleep) = run_batch(&mut nes, 1_117_461);
    assert_eq!(sleep, None);
    let (_, _, _, sleep) = run_batch(&mut nes, u128::MAX);
    assert_eq!(sleep, None);
}

#[test]
fn running_coordinator_refuses_events_it_does_not_wait_for() {
    let mut nes = started(2);
    assert_eq!(nes.run(Event::Done), None);
    assert_eq!(nes.run(Event::Elapsed { nanos: 1 }), None);
    assert_eq!(
        nes.run(Event::Polled { shutdown: false }),
        Some(Action::Cycle { audio: false, picture: 3 })
    );
    assert_eq!(nes.run(Event::Polled { shutdown: true }), None);
    assert_eq!(nes.run(Event::Elapsed { nanos: 1 }), None);
    assert_eq!(nes.run(Event::Start), None);
    assert_eq!(nes.run(Event::Done), Some(Action::Cycle { audio: true, picture: 3 }));
    assert_eq!(nes.run(Event::Done), Some(Action::Measure));
    assert_eq!(nes.run(Event::Done), None);
    assert_eq!(nes.run(Event::Polled { shutdown: true }), None);
    assert_eq!(nes.run(Event::Elapsed { nanos: 1 }), Some(Action::Pace { sleep: Some(1116) }));
    assert_eq!(nes.run(Event::Elapsed { nanos: 1 }), None);
    assert_eq!(nes.run(Event::Done), Some(Action::Poll));
}

#[test]
fn refused_event_does_not_disturb_the_alternation() {
    let mut nes = started(3);
    assert_eq!(
        nes.run(Event::Polled { shutdown: false }),
        Some(Action::Cycle { audio: false, picture: 3 })
    );
    assert_eq!(nes.run(Event::Start), None);
    assert_eq!(nes.run(Event::Done), Some(Action::Cycle { audio: true, picture: 3 }));
    assert_eq!(nes.run(Event::Elapsed { nanos: 0 }), None);
    assert_eq!(nes.run(Event::Done), Some(Action::Cycle { audio: false, picture: 3 }));
    assert_eq!(nes.run(Event::Done), Some(Action::Measure));
}

#[test]
fn shutdown_at_first_poll_runs_no_cycle() {
    let mut nes = started(BATCH_CYCLES);
    assert_eq!(nes.run(Event::Polled { shutdown: true }), Some(Action::Release));
    assert_eq!(nes.state(), State::Stopping);
    assert_eq!(nes.run(Event::Done), Some(Action::Halt));
    assert_eq!(nes.state(), State::Stopped);
}

#[test]
fn shutdown_is_seen_at_the_next_poll() {
    let mut nes = started(5);
    let (cycles, _, _, _) = run_batch(&mut nes, 0);
    assert_eq!(cycles, 5);
    assert_eq!(nes.state(), State::Running);
    assert_eq!(nes.run(Event::Polled { shutdown: true }), Some(Action::Release));
    assert_eq!(nes.run(Event::Done), Some(Action::Halt));
}

#[test]
fn stopping_coordinator_waits_for_the_release_only() {
    let mut nes = started(5);
    assert_eq!(nes.run(Event::Polled { shutdown: true }), Some(Action::Release));
    assert_eq!(nes.run(Event::Start), None);
    assert_eq!(nes.run(Event::Polled { shutdown: false }), None);
    assert_eq!(nes.run(Event::Elapsed { nanos: 3 }), None);
    assert_eq!(nes.state(), State::Stopping);
    assert_eq!(nes.run(Event::Done), Some(Action::Halt));
}

#[test]
fn stopped_coordinator_refuses_everything() {
    let mut nes = started(5);
    nes.run(Event::Polled { shutdown: true });
    nes.run(Event::Done);
    assert_eq!(nes.run(Event::Start), None);
    assert_eq!(nes.run(Event::Done), None);
    assert_eq!(nes.run(Event::Polled { shutdown: false }), None);
    assert_eq!(nes.run(Event::Polled { shutdown: true }), None);
    assert_eq!(nes.run(Event::Elapsed { nanos: 0 }), None);
    assert_eq!(nes.state(), State::Stopped);
}

#[test]
fn budget_of_the_default_batch() {
    assert_eq!(batch_budget(BATCH_CYCLES), 1_117_460);
}

#[test]
fn budget_is_rounded_down() {
    assert_eq!(batch_budget(0), 0);
    assert_eq!(batch_budget(1), 558);
    assert_eq!(batch_budget(2), 1117);
    assert_eq!(batch_budget(1_789_773), 1_000_000_000);
    assert_eq!(batch_budget(1_789_772), 999_999_441);
}

#[test]
fn budget_is_capped_at_the_largest_value() {
    assert_eq!(batch_budget(u64::MAX), u64::MAX);
    assert_eq!(batch_budget(33_015_250_000_000_000), 18_446_613_062_103_406_409);
    assert_eq!(batch_budget(33_016_000_000_000_000), u64::MAX);
}

#[test]
fn pacing_delay_is_the_rest_of_the_budget() {
    assert_eq!(pacing_delay(1_117_460, 0), Some(1_117_460));
    assert_eq!(pacing_delay(1_117_460, 460), Some(1_117_000));
    assert_eq!(pacing_delay(1_117_460, 1_117_459), Some(1));
    assert_eq!(pacing_delay(1_117_460, 1_117_460), Some(0));
    assert_eq!(pacing_delay(1_117_460, 1_117_461), None);
    assert_eq!(pacing_delay(0, 0), Some(0));
    assert_eq!(pacing_delay(0, 1), None);
    assert_eq!(pacing_delay(u64::MAX, u64::MAX as u128 + 1), None);
    assert_eq!(pacing_delay(u64::MAX, 0), Some(u64::MAX));
}

#[test]
fn picture_unit_ticks_three_times_per_cycle() {
    assert_eq!(PICTURE_TICKS_PER_CYCLE, 3);
}
