use vstd::prelude::*;
use crate::clock::{Action, Clock, Event, Stage, State};
use crate::pacing::{batch_budget, batch_budget_spec, pacing_delay, PICTURE_TICKS_PER_CYCLE};

verus! {

/// The clock coordinator of the console. It decides, event by event, what the
/// emulation loop does next: it keeps the processor, the audio unit and the
/// picture unit in their fixed cycle ratio, polls for shutdown once per batch
/// and paces each batch against its wall-clock budget.
pub struct NES {
    stage: Stage,
    batch: u64,
    budget: u64,
    remaining: u64,
    audio_due: bool,
    cycles: Ghost<nat>,
    audio_ticks: Ghost<nat>,
    picture_ticks: Ghost<nat>,
}

impl View for NES {
    type V = Clock;

    closed spec fn view(&self) -> Clock {
        Clock {
            stage: self.stage,
            batch: self.batch as nat,
            remaining: self.remaining as nat,
            audio_due: self.audio_due,
            cycles: self.cycles@,
            audio_ticks: self.audio_ticks@,
            picture_ticks: self.picture_ticks@,
        }
    }
}

impl NES {
    #[verifier::type_invariant]
    spec fn inv(&self) -> bool {
        &&& self@.wf()
        &&& self.budget == batch_budget_spec(self.batch as nat)
    }

    /// Builds an idle coordinator that runs batches of `batch` processor cycles.
    pub fn new(batch: u64) -> (nes: NES)
        ensures
            nes@ == Clock::initial(batch as nat),
    {
        NES {
            stage: Stage::Idle,
            batch,
            budget: batch_budget(batch),
            remaining: 0,
            audio_due: false,
            cycles: Ghost(0),
            audio_ticks: Ghost(0),
            picture_ticks: Ghost(0),
        }
    }

    /// The state of the coordinator.
    pub fn state(&self) -> (state: State)
        ensures
            self@.wf(),
            state == self@.stage.state(),
    {
        proof {
            use_type_invariant(self);
        }
        match self.stage {
            Stage::Idle => State::Idle,
            Stage::Stopping => State::Stopping,
            Stage::Stopped => State::Stopped,
            _ => State::Running,
        }
    }

    /// Goes on with a batch of which `remaining` cycles are left: the stage
    /// to enter and the action to ask for.
    fn upcoming(remaining: u64, audio_due: bool) -> (next: (Stage, Action))
        ensures
            remaining > 0 ==> next == (
                Stage::Cycling,
                Action::Cycle { audio: audio_due, picture: PICTURE_TICKS_PER_CYCLE },
            ),
            remaining == 0 ==> next == (Stage::Timing, Action::Measure),
    {
        if remaining > 0 {
            (Stage::Cycling, Action::Cycle { audio: audio_due, picture: PICTURE_TICKS_PER_CYCLE })
        } else {
            (Stage::Timing, Action::Measure)
        }
    }

    /// Moves to `stage` and leaves the rest as it is.
    fn enter(&mut self, stage: Stage)
        requires
            stage != Stage::Cycling,
        ensures
            final(self)@ == old(self)@.at(stage),
    {
        proof {
            use_type_invariant(&*self);
        }
        *self = NES { stage, ..*self };
    }

    /// Takes one event of the emulation loop and answers with the action that
    /// the loop carries out next. An event that the coordinator does not wait
    /// for is refused with `None` and changes nothing.
    pub fn run(&mut self, event: Event) -> (action: Option<Action>)
        ensures
            old(self)@.wf(),
            final(self)@.wf(),
            match old(self)@.step(event) {
                Some((next, act)) => final(self)@ == next && action == Some(act),
                None => final(self)@ == old(self)@ && action.is_none(),
            },
    {
        proof {
            use_type_invariant(&*self);
        }
        match (self.stage, event) {
            (Stage::Idle, Event::Start) => {
                self.enter(Stage::PoweringOn);
                Some(Action::PowerOn)
            },
            (Stage::PoweringOn, Event::Done) => {
                self.enter(Stage::Polling);
                Some(Action::Poll)
            },
            (Stage::Polling, Event::Polled { shutdown }) => {
                if shutdown {
                    self.enter(Stage::Stopping);
                    Some(Action::Release)
                } else {
                    let (stage, action) = Self::upcoming(self.batch, self.audio_due);
                    *self = NES { stage, remaining: self.batch, ..*self };
                    Some(action)
                }
            },
            (Stage::Cycling, Event::Done) => {
                let remaining: u64 = self.remaining - 1;
                let audio_due = !self.audio_due;
                let (stage, action) = Self::upcoming(remaining, audio_due);
                let ghost booked = self@.cycled();
                *self = NES {
                    stage,
                    remaining,
                    audio_due,
                    cycles: Ghost(booked.cycles),
                    audio_ticks: Ghost(booked.audio_ticks),
                    picture_ticks: Ghost(booked.picture_ticks),
                    ..*self
                };
                Some(action)
            },
            (Stage::Timing, Event::Elapsed { nanos }) => {
                let sleep = pacing_delay(self.budget, nanos);
                self.enter(Stage::Pacing);
                Some(Action::Pace { sleep })
            },
            (Stage::Pacing, Event::Done) => {
                self.enter(Stage::Polling);
                Some(Action::Poll)
            },
            (Stage::Stopping, Event::Done) => {
                self.enter(Stage::Stopped);
                Some(Action::Halt)
            },
            _ => None,
        }
    }
}

} // verus!
