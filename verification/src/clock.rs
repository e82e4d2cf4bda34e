use vstd::prelude::*;
use crate::pacing::{batch_budget_spec, pacing_delay_spec, PICTURE_TICKS_PER_CYCLE};

verus! {

/// The four states of the coordinator's life.
#[derive(Clone, Copy, Debug, PartialEq, Eq, Structural)]
pub enum State {
    /// Built, not yet started.
    Idle,
    /// The emulation loop is active.
    Running,
    /// The shutdown signal was seen; the audio output is being released.
    Stopping,
    /// Terminal.
    Stopped,
}

/// Where the coordinator stands: its state, and while it is running the
/// answer it waits for.
#[derive(Clone, Copy, Debug, PartialEq, Eq, Structural)]
pub enum Stage {
    /// Waiting for the explicit start.
    Idle,
    /// Waiting for the processor reset and the start of audio output.
    PoweringOn,
    /// Waiting for the outcome of the shutdown poll that opens a batch.
    Polling,
    /// Waiting for a processor cycle and its unit ticks to be carried out.
    Cycling,
    /// Waiting for the wall-clock time that the batch took.
    Timing,
    /// Waiting for the pause after the batch to end.
    Pacing,
    /// Waiting for the audio output to be released.
    Stopping,
    /// Terminal.
    Stopped,
}

impl Stage {
    /// The state that a stage belongs to.
    pub open spec fn state(self) -> State {
        match self {
            Stage::Idle => State::Idle,
            Stage::Stopping => State::Stopping,
            Stage::Stopped => State::Stopped,
            _ => State::Running,
        }
    }
}

/// What the driver of the loop reports to the coordinator.
#[derive(Clone, Copy, Debug, PartialEq, Eq)]
pub enum Event {
    /// The explicit start.
    Start,
    /// The action last asked for, one that yields no data, was carried out.
    Done,
    /// The shutdown signal was polled without blocking.
    Polled { shutdown: bool },
    /// The wall-clock time since the previous batch ended, in nanoseconds.
    Elapsed { nanos: u128 },
}

/// What the coordinator asks the driver of the loop to do next.
#[derive(Clone, Copy, Debug, PartialEq, Eq)]
pub enum Action {
    /// Reset the processor to its power-on state, start audio output and
    /// start the batch timer; answer with `Done`.
    PowerOn,
    /// Poll the shutdown signal without blocking; answer with `Polled`.
    Poll,
    /// Execute one processor cycle, then tick the audio unit once if `audio`
    /// is set, then tick the picture unit `picture` times; answer with `Done`.
    Cycle { audio: bool, picture: u8 },
    /// Read the batch timer; answer with `Elapsed`.
    Measure,
    /// Sleep for `sleep` nanoseconds if there are any, then restart the batch
    /// timer; answer with `Done`.
    Pace { sleep: Option<u64> },
    /// Release the audio output; answer with `Done`.
    Release,
    /// The loop is over.
    Halt,
}

/// Mathematical model of the coordinator.
pub struct Clock {
    /// Where the coordinator stands.
    pub stage: Stage,
    /// Processor cycles per batch.
    pub batch: nat,
    /// Processor cycles of the current batch that are still to be run.
    pub remaining: nat,
    /// Whether the next processor cycle coincides with an audio-unit tick.
    pub audio_due: bool,
    /// Processor cycles carried out since power-on.
    pub cycles: nat,
    /// Audio-unit ticks carried out since power-on.
    pub audio_ticks: nat,
    /// Picture-unit ticks carried out since power-on.
    pub picture_ticks: nat,
}

impl Clock {
    /// The coordinator as it is built: idle, with nothing run yet.
    pub open spec fn initial(batch: nat) -> Clock {
        Clock {
            stage: Stage::Idle,
            batch,
            remaining: 0,
            audio_due: false,
            cycles: 0,
            audio_ticks: 0,
            picture_ticks: 0,
        }
    }

    /// The same coordinator at another stage.
    pub open spec fn at(self, stage: Stage) -> Clock {
        Clock { stage, ..self }
    }

    /// Goes on with the batch: the next processor cycle while any is left,
    /// the measurement of the batch after the last.
    pub open spec fn proceed(self) -> (Clock, Action) {
        if self.remaining > 0 {
            (
                self.at(Stage::Cycling),
                Action::Cycle { audio: self.audio_due, picture: PICTURE_TICKS_PER_CYCLE },
            )
        } else {
            (self.at(Stage::Timing), Action::Measure)
        }
    }

    /// Books one processor cycle with its unit ticks and flips the audio flag.
    pub open spec fn cycled(self) -> Clock {
        Clock {
            remaining: (self.remaining - 1) as nat,
            audio_due: !self.audio_due,
            cycles: self.cycles + 1,
            audio_ticks: self.audio_ticks + if self.audio_due { 1nat } else { 0nat },
            picture_ticks: self.picture_ticks + PICTURE_TICKS_PER_CYCLE as nat,
            ..self
        }
    }

    /// The transition that `event` causes, with the action that it asks for,
    /// or `None` where the coordinator does not wait for that event.
    pub open spec fn step(self, event: Event) -> Option<(Clock, Action)> {
        match (self.stage, event) {
            (Stage::Idle, Event::Start) => Some((self.at(Stage::PoweringOn), Action::PowerOn)),
            (Stage::PoweringOn, Event::Done) => Some((self.at(Stage::Polling), Action::Poll)),
            (Stage::Polling, Event::Polled { shutdown }) => if shutdown {
                Some((self.at(Stage::Stopping), Action::Release))
            } else {
                Some((Clock { remaining: self.batch, ..self }).proceed())
            },
            (Stage::Cycling, Event::Done) => Some(self.cycled().proceed()),
            (Stage::Timing, Event::Elapsed { nanos }) => Some(
                (
                    self.at(Stage::Pacing),
                    Action::Pace {
                        sleep: pacing_delay_spec(batch_budget_spec(self.batch) as u64, nanos),
                    },
                ),
            ),
            (Stage::Pacing, Event::Done) => Some((self.at(Stage::Polling), Action::Poll)),
            (Stage::Stopping, Event::Done) => Some((self.at(Stage::Stopped), Action::Halt)),
            _ => None,
        }
    }

    /// What holds of the coordinator at every moment of a run.
    pub open spec fn wf(self) -> bool {
        &&& self.batch <= u64::MAX
        &&& self.remaining <= self.batch
        &&& self.stage == Stage::Cycling ==> self.remaining > 0
        &&& self.audio_due <==> self.cycles % 2 == 1
        &&& self.audio_ticks == self.cycles / 2
        &&& self.picture_ticks == 3 * self.cycles
    }

    /// The coordinator after `events`, taken one after the other. An event
    /// that is refused changes nothing.
    pub open spec fn after(self, events: Seq<Event>) -> Clock
        decreases events.len(),
    {
        if events.len() == 0 {
            self
        } else {
            let before = self.after(events.drop_last());
            match before.step(events.last()) {
                Some((next, _)) => next,
                None => before,
            }
        }
    }

    /// While the coordinator runs: the number of events that it accepts
    /// before it waits for the outcome of a shutdown poll again.
    pub open spec fn until_poll(self) -> nat {
        match self.stage {
            Stage::PoweringOn => 1,
            Stage::Cycling => self.remaining + 2,
            Stage::Timing => 2,
            Stage::Pacing => 1,
            _ => 0,
        }
    }
}

/// A transition keeps the coordinator well formed.
pub proof fn lemma_step_keeps_wf(clock: Clock, event: Event)
    requires
        clock.wf(),
    ensures
        clock.step(event) matches Some((next, _)) ==> next.wf(),
{
}

/// Whatever events arrive after power-on, and in whatever order, the picture
/// unit has ticked three times for every processor cycle and the audio unit
/// once for every second processor cycle: after `n` cycles there were `3 * n`
/// picture-unit ticks and `n / 2` audio-unit ticks, rounded down.
pub proof fn lemma_tick_ratio(batch: nat, events: Seq<Event>)
    requires
        batch <= u64::MAX,
    ensures
        ({
            let clock = Clock::initial(batch).after(events);
            &&& clock.wf()
            &&& clock.picture_ticks == 3 * clock.cycles
            &&& clock.audio_ticks == clock.cycles / 2
        }),
    decreases events.len(),
{
    if events.len() > 0 {
        lemma_tick_ratio(batch, events.drop_last());
        lemma_step_keeps_wf(Clock::initial(batch).after(events.drop_last()), events.last());
    }
}

/// Ticks are handed out with processor cycles and with nothing else: only the
/// completion of a cycle moves the counts, by one cycle, three picture-unit
/// ticks and the audio-unit tick that the cycle was asked with. Neither the
/// time that a batch took nor any other event adds, drops or repeats a tick.
pub proof fn lemma_ticks_follow_cycles(clock: Clock, event: Event)
    requires
        clock.wf(),
    ensures
        clock.step(event) matches Some((next, _)) ==> {
            if clock.stage == Stage::Cycling {
                &&& next.cycles == clock.cycles + 1
                &&& next.picture_ticks == clock.picture_ticks + 3
                &&& next.audio_ticks == clock.audio_ticks + if clock.audio_due { 1nat } else { 0nat }
                &&& next.audio_due == !clock.audio_due
            } else {
                &&& next.cycles == clock.cycles
                &&& next.picture_ticks == clock.picture_ticks
                &&& next.audio_ticks == clock.audio_ticks
                &&& next.audio_due == clock.audio_due
            }
        },
{
}

/// A cycle is booked as it was asked for: when the coordinator asks for a
/// processor cycle, it waits for that cycle alone, and the completion of the
/// cycle adds to the counts one cycle and exactly the ticks that the request
/// named.
pub proof fn lemma_cycle_is_booked_as_asked(clock: Clock, event: Event)
    requires
        clock.wf(),
    ensures
        clock.step(event) matches Some((asked, Action::Cycle { audio, picture })) ==> {
            &&& asked.stage == Stage::Cycling
            &&& picture == PICTURE_TICKS_PER_CYCLE
            &&& forall|other: Event| other != Event::Done ==> asked.step(other).is_none()
            &&& asked.step(Event::Done) matches Some((booked, _)) && {
                &&& booked.cycles == asked.cycles + 1
                &&& booked.audio_ticks == asked.audio_ticks + if audio { 1nat } else { 0nat }
                &&& booked.picture_ticks == asked.picture_ticks + picture
                &&& booked.remaining + 1 == asked.remaining
            }
        },
{
}

/// A batch is never cut short or stretched: a poll that finds no shutdown
/// signal opens a batch of exactly `batch` cycles, however long the batch
/// before it took.
pub proof fn lemma_batch_is_whole(clock: Clock)
    requires
        clock.wf(),
        clock.stage == Stage::Polling,
    ensures
        clock.step(Event::Polled { shutdown: false }) matches Some((next, action)) && {
            &&& next.remaining == clock.batch
            &&& clock.batch > 0 ==> next.stage == Stage::Cycling && action == (Action::Cycle {
                audio: clock.audio_due,
                picture: PICTURE_TICKS_PER_CYCLE,
            })
            &&& clock.batch == 0 ==> next.stage == Stage::Timing && action == Action::Measure
        },
{
}

/// The completions of `count` processor cycles, one after the other.
pub open spec fn completions(count: nat) -> Seq<Event> {
    Seq::new(count, |i: int| Event::Done)
}

/// Every batch runs all of its cycles: after a poll that finds no shutdown
/// signal, whenever it happens, the coordinator asks for one cycle after the
/// other until `batch` of them are completed, and only then for the
/// measurement. After `done` completions it has booked `done` cycles more
/// than before the poll, with three picture-unit ticks each.
pub proof fn lemma_batch_runs_every_cycle(clock: Clock, done: nat)
    requires
        clock.wf(),
        clock.stage == Stage::Polling,
        done <= clock.batch,
    ensures
        clock.step(Event::Polled { shutdown: false }) matches Some((opened, _)) && {
            let now = opened.after(completions(done));
            &&& now.wf()
            &&& now.batch == clock.batch
            &&& now.remaining + done == clock.batch
            &&& now.cycles == clock.cycles + done
            &&& now.picture_ticks == clock.picture_ticks + 3 * done
            &&& now.audio_ticks == (clock.cycles + done) / 2
            &&& now.stage == if done < clock.batch {
                Stage::Cycling
            } else {
                Stage::Timing
            }
        },
    decreases done,
{
    let opened = clock.step(Event::Polled { shutdown: false })->Some_0.0;
    if done > 0 {
        let earlier = (done - 1) as nat;
        lemma_batch_runs_every_cycle(clock, earlier);
        assert(completions(done).drop_last() =~= completions(earlier));
        assert(completions(done).last() == Event::Done);
        lemma_step_keeps_wf(opened.after(completions(earlier)), Event::Done);
    } else {
        assert(completions(0).len() == 0);
    }
}

/// The shutdown signal is polled once per batch: a running coordinator that
/// does not wait for the outcome of a poll comes one event closer to the next
/// poll with every event that it accepts, and is never further from it than
/// the cycles of one batch and two events more.
pub proof fn lemma_poll_once_per_batch(clock: Clock, event: Event)
    requires
        clock.wf(),
        clock.stage.state() == State::Running,
    ensures
        clock.until_poll() <= clock.batch + 2,
        clock.until_poll() == 0 <==> clock.stage == Stage::Polling,
        clock.stage != Stage::Polling ==> (clock.step(event) matches Some((next, action)) ==> {
            &&& next.stage.state() == State::Running
            &&& next.until_poll() + 1 == clock.until_poll()
            &&& next.stage == Stage::Polling <==> action == Action::Poll
        }),
{
}

/// A shutdown signal ends the loop at the poll that sees it: no further
/// processor cycle is asked for, the audio output is released, and the
/// coordinator stops for good.
pub proof fn lemma_shutdown(clock: Clock)
    requires
        clock.wf(),
        clock.stage == Stage::Polling,
    ensures
        clock.step(Event::Polled { shutdown: true }) == Some(
            (clock.at(Stage::Stopping), Action::Release),
        ),
        clock.at(Stage::Stopping).step(Event::Done) == Some(
            (clock.at(Stage::Stopped), Action::Halt),
        ),
        forall|event: Event| event != Event::Done ==> clock.at(Stage::Stopping).step(event).is_none(),
        forall|event: Event| clock.at(Stage::Stopped).step(event).is_none(),
        forall|events: Seq<Event>| #[trigger]
            clock.at(Stage::Stopped).after(events) == clock.at(Stage::Stopped),
{
    assert forall|events: Seq<Event>| #[trigger]
        clock.at(Stage::Stopped).after(events) == clock.at(Stage::Stopped) by {
        lemma_stopped_is_terminal(clock.at(Stage::Stopped), events);
    }
}

/// A stopped coordinator stays as it is, whatever events arrive.
pub proof fn lemma_stopped_is_terminal(clock: Clock, events: Seq<Event>)
    requires
        clock.stage == Stage::Stopped,
    ensures
        clock.after(events) == clock,
    decreases events.len(),
{
    if events.len() > 0 {
        lemma_stopped_is_terminal(clock, events.drop_last());
    }
}

/// Processor cycles are asked for while the coordinator runs, and in no other
/// state.
pub proof fn lemma_cycles_only_while_running(clock: Clock, event: Event)
    requires
        clock.wf(),
    ensures
        clock.step(event) matches Some((next, action)) ==> (action is Cycle <==> next.stage
            == Stage::Cycling),
        clock.step(event) matches Some((next, action)) ==> (action is Cycle ==> clock.stage.state()
            == State::Running),
{
}

} // verus!
