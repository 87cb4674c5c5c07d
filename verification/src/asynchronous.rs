//! The blinking-light controller built from suspended waits: wait for the
//! button, flash until it is released, and abort the flashing when the
//! secondary signal misbehaves.

use crate::async_frame::{ready_if, Poll, PollingPool};
use crate::{
    first_to_complete_or_err, race, race_or_err, wait_for_one_to_complete, AsyncIO, AsyncTimer,
    ButtonEvent, FirstOrSecond, Light, TimerEvent, TimerOrButton,
};
use std::task::Waker;
use vstd::prelude::*;

verus! {

/// Why the monitor of the secondary signal ended a flash cycle.
#[derive(PartialEq, Eq, Structural, Clone, Copy, Debug)]
pub enum MonitorFailure {
    /// The signal did not reach the expected reading before the timer expired.
    TimerExpiredBeforeTransition,
    /// The signal reached the expected reading and then left it.
    SignalLeftExpectedReading,
}

impl MonitorFailure {
    /// The failure in words.
    pub fn message(&self) -> (text: &'static str)
        ensures
            *self == MonitorFailure::TimerExpiredBeforeTransition ==> text@
                == "Timer expired before voltage transition"@,
            *self == MonitorFailure::SignalLeftExpectedReading ==> text@
                == "Voltage transitioned away from expected reading after transition."@,
    {
        match self {
            MonitorFailure::TimerExpiredBeforeTransition => "Timer expired before voltage transition",
            MonitorFailure::SignalLeftExpectedReading => {
                "Voltage transitioned away from expected reading after transition."
            },
        }
    }
}

/// What the monitor's waits reported at one evaluation. A wait that was not
/// evaluated counts as pending.
pub struct MonitorReadings {
    /// The wait for the signal to reach the expected reading.
    pub reached: Poll<()>,
    /// The wait for the transition timer to expire.
    pub expired: Poll<TimerEvent>,
    /// The wait for the signal to leave the expected reading.
    pub departed: Poll<()>,
}

/// The monitor's failure once the signal has transitioned: it fails as soon
/// as the signal is seen to leave the expected reading.
pub open spec fn watch_outcome(departed: Poll<()>) -> Poll<MonitorFailure> {
    match departed {
        Poll::Ready(_) => Poll::Ready(MonitorFailure::SignalLeftExpectedReading),
        Poll::Pending => Poll::Pending,
    }
}

/// One evaluation of the monitor: whether the signal has transitioned
/// afterwards, and the failure it reports, if any.
///
/// Before the transition the signal is raced against the timer, the signal
/// first. Once the signal has transitioned, in this evaluation or an earlier
/// one, the timer no longer matters and the monitor watches for the signal to
/// leave.
pub open spec fn monitor_outcome(transitioned: bool, r: MonitorReadings) -> (
    bool,
    Poll<MonitorFailure>,
) {
    if transitioned {
        (true, watch_outcome(r.departed))
    } else {
        match race(r.reached, r.expired) {
            Poll::Ready(FirstOrSecond::First(_)) => (true, watch_outcome(r.departed)),
            Poll::Ready(FirstOrSecond::Second(_)) => (
                false,
                Poll::Ready(MonitorFailure::TimerExpiredBeforeTransition),
            ),
            Poll::Pending => (false, Poll::Pending),
        }
    }
}

/// Whether `r` is what the monitor's waits gave in one evaluation of a
/// monitor that expects `expected`: which wait was evaluated, on which
/// capability and for which reading. The signal is waited for at `expected`
/// before the transition and at its opposite after it; the timer is asked
/// only while the signal has not transitioned. A wait that was not evaluated
/// counts as pending.
pub open spec fn monitor_waits<I: AsyncIO, T: AsyncTimer>(
    io: &I,
    transition_timer: &T,
    expected: bool,
    transitioned: bool,
    r: MonitorReadings,
) -> bool {
    &&& if transitioned {
        r.reached is Pending
    } else {
        io.voltage_wait(expected, r.reached)
    }
    &&& if !transitioned && r.reached is Pending {
        transition_timer.expiry_wait(r.expired)
    } else {
        r.expired is Pending
    }
    &&& if transitioned || r.reached is Ready {
        io.voltage_wait(!expected, r.departed)
    } else {
        r.departed is Pending
    }
}

/// The monitor of the secondary signal. It never completes while the signal
/// behaves: it completes only to report a failure.
pub struct VoltageMonitor {
    expected_reading: bool,
    transitioned: bool,
}

/// A monitor that waits for the signal to read `expected_reading` and then
/// watches that it stays there.
pub fn monitor_voltage_transition(expected_reading: bool) -> (monitor: VoltageMonitor)
    ensures
        monitor.expected_reading() == expected_reading,
        !monitor.transitioned(),
{
    VoltageMonitor { expected_reading, transitioned: false }
}

impl VoltageMonitor {
    /// The reading the signal is expected to reach and keep.
    pub closed spec fn expected_reading(&self) -> bool {
        self.expected_reading
    }

    /// Whether the signal has been seen at the expected reading.
    pub closed spec fn transitioned(&self) -> bool {
        self.transitioned
    }

    /// Returns true once the signal has been seen at the expected reading.
    pub fn has_transitioned(&self) -> (transitioned: bool)
        ensures
            transitioned == self.transitioned(),
    {
        self.transitioned
    }

    /// Moves the monitor on, given what its waits reported.
    pub fn advance(&mut self, reached: Poll<()>, expired: Poll<TimerEvent>, departed: Poll<()>) -> (outcome:
        Poll<MonitorFailure>)
        ensures
            final(self).expected_reading() == old(self).expected_reading(),
            (final(self).transitioned(), outcome) == monitor_outcome(
                old(self).transitioned(),
                (MonitorReadings { reached, expired, departed }),
            ),
    {
        if !self.transitioned {
            match wait_for_one_to_complete(reached, expired) {
                Poll::Pending => {
                    return Poll::Pending;
                },
                Poll::Ready(FirstOrSecond::Second(_)) => {
                    return Poll::Ready(MonitorFailure::TimerExpiredBeforeTransition);
                },
                Poll::Ready(FirstOrSecond::First(_)) => {
                    self.transitioned = true;
                },
            }
        }
        match departed {
            Poll::Ready(_) => Poll::Ready(MonitorFailure::SignalLeftExpectedReading),
            Poll::Pending => Poll::Pending,
        }
    }

    /// Evaluates the monitor once. Each wait is evaluated only when the ones
    /// before it leave the outcome open: the timer only while the signal has
    /// not transitioned, the departure only once it has.
    ///
    /// The readings are not known in advance, so the contract says that the
    /// outcome is the one [`monitor_outcome`] gives for readings that these
    /// waits gave, as [`monitor_waits`] lists them, and that a pending monitor
    /// has registered in the slot of `io`.
    pub fn poll<I: AsyncIO, T: AsyncTimer>(
        &mut self,
        io: &I,
        transition_timer: &T,
        pool: &mut PollingPool,
        waker: &Waker,
    ) -> (outcome: Poll<MonitorFailure>)
        requires
            0 <= io.slot() < old(pool)@.len(),
            0 <= transition_timer.slot() < old(pool)@.len(),
        ensures
            final(pool)@.len() == old(pool)@.len(),
            final(pool).resumed() == old(pool).resumed(),
            final(self).expected_reading() == old(self).expected_reading(),
            exists|r: MonitorReadings|
                {
                    &&& monitor_waits(
                        io,
                        transition_timer,
                        old(self).expected_reading(),
                        old(self).transitioned(),
                        r,
                    )
                    &&& (final(self).transitioned(), outcome) == #[trigger] monitor_outcome(
                        old(self).transitioned(),
                        r,
                    )
                },
            outcome is Pending ==> final(pool)@[io.slot()],
    {
        let reached = if self.transitioned {
            Poll::Pending
        } else {
            io.wait_until_voltage_is(self.expected_reading, pool, waker)
        };
        let expired = if !self.transitioned && reached.is_pending() {
            transition_timer.wait_expired(pool, waker)
        } else {
            Poll::Pending
        };
        let departed = if self.transitioned || reached.is_ready() {
            io.wait_until_voltage_is(!self.expected_reading, pool, waker)
        } else {
            Poll::Pending
        };
        let ghost readings = MonitorReadings { reached, expired, departed };
        let outcome = self.advance(reached, expired, departed);
        assert(monitor_waits(
            io,
            transition_timer,
            old(self).expected_reading(),
            old(self).transitioned(),
            readings,
        ));
        outcome
    }
}

/// Where the controller stands between two evaluations.
#[derive(PartialEq, Eq, Structural, Clone, Copy, Debug)]
pub enum Stage {
    /// Nothing has run yet; the light has not been driven.
    NotStarted,
    /// The light is off and the controller waits for a press.
    WaitingForPress,
    /// The button is held and the light blinks.
    Flashing,
    /// The monitor reported a failure and the controller has stopped.
    Finished(MonitorFailure),
}

/// How one step of the controller ended.
#[derive(PartialEq, Eq, Structural, Clone, Copy, Debug)]
pub enum Step {
    /// A transition was made; the controller can be stepped again at once.
    Advanced,
    /// Every wait of the current stage is pending.
    Suspended,
    /// The controller has stopped with this failure.
    Failed(MonitorFailure),
}

/// What one step decides: the stage and light afterwards, the light command
/// to send if there is one, whether both timers are reset and the monitor
/// starts afresh, and how the step ended.
#[derive(PartialEq, Eq, Structural, Clone, Copy, Debug)]
pub struct Decision {
    pub stage: Stage,
    pub light: Light,
    pub command: Option<Light>,
    pub reset_timers: bool,
    pub step: Step,
}

/// The controller's transition table, given the outcome of the wait for a
/// press and of the three-way race of a flash cycle.
///
/// The first step drives the light off. A press starts a flash cycle with the
/// light on and the timers reset. In a flash cycle a release ends the cycle
/// with the light off, an expired timer resets the timers and toggles the
/// light, and a monitor failure stops the controller for good.
pub open spec fn flash_decision(
    stage: Stage,
    light: Light,
    pressed: Poll<ButtonEvent>,
    raced: Poll<Result<FirstOrSecond<ButtonEvent, TimerEvent>, MonitorFailure>>,
) -> Decision {
    match stage {
        Stage::NotStarted => Decision {
            stage: Stage::WaitingForPress,
            light: Light::Off,
            command: Some(Light::Off),
            reset_timers: false,
            step: Step::Advanced,
        },
        Stage::WaitingForPress => match pressed {
            Poll::Ready(_) => Decision {
                stage: Stage::Flashing,
                light: Light::On,
                command: Some(Light::On),
                reset_timers: true,
                step: Step::Advanced,
            },
            Poll::Pending => Decision {
                stage,
                light,
                command: None,
                reset_timers: false,
                step: Step::Suspended,
            },
        },
        Stage::Flashing => match raced {
            Poll::Ready(Ok(which)) => match TimerOrButton::of(which) {
                TimerOrButton::Button => Decision {
                    stage: Stage::WaitingForPress,
                    light: Light::Off,
                    command: Some(Light::Off),
                    reset_timers: false,
                    step: Step::Advanced,
                },
                TimerOrButton::Timer => Decision {
                    stage: Stage::Flashing,
                    light: light.toggled(),
                    command: Some(light.toggled()),
                    reset_timers: true,
                    step: Step::Advanced,
                },
            },
            Poll::Ready(Err(failure)) => Decision {
                stage: Stage::Finished(failure),
                light,
                command: None,
                reset_timers: false,
                step: Step::Failed(failure),
            },
            Poll::Pending => Decision {
                stage,
                light,
                command: None,
                reset_timers: false,
                step: Step::Suspended,
            },
        },
        Stage::Finished(failure) => Decision {
            stage,
            light,
            command: None,
            reset_timers: false,
            step: Step::Failed(failure),
        },
    }
}

/// Looks up the controller's transition table.
pub fn decide(
    stage: Stage,
    light: Light,
    pressed: Poll<ButtonEvent>,
    raced: Poll<Result<FirstOrSecond<ButtonEvent, TimerEvent>, MonitorFailure>>,
) -> (d: Decision)
    ensures
        d == flash_decision(stage, light, pressed, raced),
{
    let stay = Decision { stage, light, command: None, reset_timers: false, step: Step::Suspended };
    let lights_out = Decision {
        stage: Stage::WaitingForPress,
        light: Light::Off,
        command: Some(Light::Off),
        reset_timers: false,
        step: Step::Advanced,
    };
    match stage {
        Stage::NotStarted => lights_out,
        Stage::WaitingForPress => match pressed {
            Poll::Ready(_) => Decision {
                stage: Stage::Flashing,
                light: Light::On,
                command: Some(Light::On),
                reset_timers: true,
                step: Step::Advanced,
            },
            Poll::Pending => stay,
        },
        Stage::Flashing => match raced {
            Poll::Ready(Ok(which)) => match TimerOrButton::from(which) {
                TimerOrButton::Button => lights_out,
                TimerOrButton::Timer => {
                    let flipped = light.toggle();
                    Decision {
                        stage: Stage::Flashing,
                        light: flipped,
                        command: Some(flipped),
                        reset_timers: true,
                        step: Step::Advanced,
                    }
                },
            },
            Poll::Ready(Err(failure)) => Decision {
                stage: Stage::Finished(failure),
                light,
                command: None,
                reset_timers: false,
                step: Step::Failed(failure),
            },
            Poll::Pending => stay,
        },
        Stage::Finished(failure) => Decision {
            stage,
            light,
            command: None,
            reset_timers: false,
            step: Step::Failed(failure),
        },
    }
}

/// The controller's state as plain values: its stage, the light it last
/// commanded, the reading its monitor expects of the signal, and whether the
/// monitor of the current flash cycle has seen the signal at that reading.
pub struct FlashState {
    pub stage: Stage,
    pub light: Light,
    pub expected: bool,
    pub transitioned: bool,
}

/// What the controller's waits reported during one step. A wait that was not
/// evaluated counts as pending.
pub struct FlashReadings {
    /// The wait for a press.
    pub pressed: Poll<ButtonEvent>,
    /// The wait for a release.
    pub released: Poll<ButtonEvent>,
    /// The wait for the blink timer to expire.
    pub expired: Poll<TimerEvent>,
    /// The waits of the monitor.
    pub monitor: MonitorReadings,
}

/// Whether a step in state `s` evaluates the monitor: only in a flash cycle,
/// and only when neither the release nor the blink timer decides the race.
pub open spec fn monitor_consulted(s: FlashState, r: FlashReadings) -> bool {
    s.stage == Stage::Flashing && r.released is Pending && r.expired is Pending
}

/// The three-way race of a flash cycle: release and timer expiry are the good
/// operands, in this order, and the monitor is the error channel.
pub open spec fn flash_race(s: FlashState, r: FlashReadings) -> Poll<
    Result<FirstOrSecond<ButtonEvent, TimerEvent>, MonitorFailure>,
> {
    race_or_err(r.released, r.expired, monitor_outcome(s.transitioned, r.monitor).1)
}

/// One step of the controller as a function of its state and the readings:
/// the state afterwards and what was decided. With the timers, the monitor
/// starts afresh, expecting the signal high.
pub open spec fn flash_step(s: FlashState, r: FlashReadings) -> (FlashState, Decision) {
    let d = flash_decision(s.stage, s.light, r.pressed, flash_race(s, r));
    let expected = d.reset_timers || s.expected;
    let transitioned = if d.reset_timers {
        false
    } else if monitor_consulted(s, r) {
        monitor_outcome(s.transitioned, r.monitor).0
    } else {
        s.transitioned
    };
    (FlashState { stage: d.stage, light: d.light, expected, transitioned }, d)
}

/// The state reached from `s` by making the steps that the readings `rs`
/// describe, one after the other.
pub open spec fn state_after(s: FlashState, rs: Seq<FlashReadings>) -> FlashState
    decreases rs.len(),
{
    if rs.len() == 0 {
        s
    } else {
        flash_step(state_after(s, rs.drop_last()), rs.last()).0
    }
}

/// How the step with the readings `rs[i]`, made after the steps before it,
/// ended.
pub open spec fn step_at(s: FlashState, rs: Seq<FlashReadings>, i: int) -> Step {
    flash_step(state_after(s, rs.take(i)), rs[i]).1.step
}

/// Whether `rs` describes one evaluation from `s`: at least one step, each
/// but the last advancing.
pub open spec fn is_evaluation(s: FlashState, rs: Seq<FlashReadings>) -> bool {
    &&& rs.len() >= 1
    &&& forall|i: int| 0 <= i < rs.len() - 1 ==> #[trigger] step_at(s, rs, i) == Step::Advanced
}

/// What an evaluation reports, given how its last step ended: the failure if
/// the controller has stopped, and pending otherwise.
pub open spec fn outcome_of(last: Step) -> Poll<Result<(), MonitorFailure>> {
    match last {
        Step::Failed(failure) => Poll::Ready(Err(failure)),
        _ => Poll::Pending,
    }
}

/// Adding a step to a run: the steps before it are as they were, and the new
/// step starts from where they ended.
pub proof fn lemma_evaluation_extends(s: FlashState, rs: Seq<FlashReadings>, r: FlashReadings)
    ensures
        state_after(s, rs.push(r)) == flash_step(state_after(s, rs), r).0,
        step_at(s, rs.push(r), rs.len() as int) == flash_step(state_after(s, rs), r).1.step,
        forall|i: int|
            0 <= i < rs.len() ==> #[trigger] step_at(s, rs.push(r), i) == step_at(s, rs, i),
{
    let longer = rs.push(r);
    assert(longer.drop_last() =~= rs);
    assert(longer.take(rs.len() as int) =~= rs);
    assert forall|i: int| 0 <= i < rs.len() implies #[trigger] step_at(s, longer, i) == step_at(
        s,
        rs,
        i,
    ) by {
        assert(longer.take(i) =~= rs.take(i));
    }
}

/// The controller: the capabilities it drives and where it stands.
pub struct Flasher<I: AsyncIO, T1: AsyncTimer, T2: AsyncTimer> {
    io: I,
    timer: T1,
    transition_timer: T2,
    stage: Stage,
    light_state: Light,
    monitor: VoltageMonitor,
}

/// The entry point for the flashing behavior of a light when a button is
/// pressed: a controller that has not run yet, on the capabilities given, with
/// a monitor that expects the signal high. Evaluated, it drives the light
/// off, then waits for the button to be pressed and flashes the light until
/// the button is released, over and over.
pub fn start<I: AsyncIO, T1: AsyncTimer, T2: AsyncTimer>(
    io: I,
    timer: T1,
    transition_timer: T2,
) -> (flasher: Flasher<I, T1, T2>)
    ensures
        flasher@ == (FlashState {
            stage: Stage::NotStarted,
            light: Light::Off,
            expected: true,
            transitioned: false,
        }),
        flasher.io() == io,
        flasher.timer() == timer,
        flasher.transition_timer() == transition_timer,
{
    Flasher {
        io,
        timer,
        transition_timer,
        stage: Stage::NotStarted,
        light_state: Light::Off,
        monitor: monitor_voltage_transition(true),
    }
}

impl<I: AsyncIO, T1: AsyncTimer, T2: AsyncTimer> View for Flasher<I, T1, T2> {
    type V = FlashState;

    closed spec fn view(&self) -> FlashState {
        FlashState {
            stage: self.stage,
            light: self.light_state,
            expected: self.monitor.expected_reading(),
            transitioned: self.monitor.transitioned(),
        }
    }
}

impl<I: AsyncIO, T1: AsyncTimer, T2: AsyncTimer> Flasher<I, T1, T2> {
    /// The IO the controller drives.
    pub closed spec fn io(&self) -> I {
        self.io
    }

    /// The blink timer.
    pub closed spec fn timer(&self) -> T1 {
        self.timer
    }

    /// The transition timer.
    pub closed spec fn transition_timer(&self) -> T2 {
        self.transition_timer
    }

    /// The slot in which the waits on the button and the signal register.
    pub open spec fn io_slot(&self) -> int {
        self.io().slot()
    }

    /// The slot in which the wait on the blink timer registers.
    pub open spec fn timer_slot(&self) -> int {
        self.timer().slot()
    }

    /// The slot in which the wait on the transition timer registers.
    pub open spec fn transition_slot(&self) -> int {
        self.transition_timer().slot()
    }

    /// The light command the IO last received, if it has received one.
    pub open spec fn commanded(&self) -> Option<Light> {
        self.io().light()
    }

    /// Whether the controller's slots all belong to a pool of `slots` slots.
    pub open spec fn fits(&self, slots: nat) -> bool {
        &&& 0 <= self.io_slot() < slots
        &&& 0 <= self.timer_slot() < slots
        &&& 0 <= self.transition_slot() < slots
    }

    /// Once the controller has run, the light it tracks is the light the IO
    /// was last set to.
    pub open spec fn light_in_step(&self) -> bool {
        self@.stage != Stage::NotStarted ==> self.commanded() == Some(self@.light)
    }

    /// Whether `r` is what the waits of this controller gave in one step:
    /// which wait was evaluated, and on which capability. The press is waited
    /// for only while waiting for a press. In a flash cycle the release is
    /// waited for first, the blink timer only if the release is pending, and
    /// the monitor only if both are. A wait that was not evaluated counts as
    /// pending.
    pub open spec fn waits_gave(&self, r: FlashReadings) -> bool {
        let flashing = self@.stage == Stage::Flashing;
        &&& if self@.stage == Stage::WaitingForPress {
            self.io().press_wait(r.pressed)
        } else {
            r.pressed is Pending
        }
        &&& if flashing {
            self.io().release_wait(r.released)
        } else {
            r.released is Pending
        }
        &&& if flashing && r.released is Pending {
            self.timer().expiry_wait(r.expired)
        } else {
            r.expired is Pending
        }
        &&& if monitor_consulted(self@, r) {
            monitor_waits(
                &self.io(),
                &self.transition_timer(),
                self@.expected,
                self@.transitioned,
                r.monitor,
            )
        } else {
            r.monitor.reached is Pending && r.monitor.expired is Pending && r.monitor.departed
                is Pending
        }
    }

    /// The effect of a decision on the capabilities: the light has been set
    /// as commanded, or the IO is as it was; both timers have been reset once,
    /// or are as they were.
    pub open spec fn carried_out(&self, before: &Self, d: Decision) -> bool {
        &&& match d.command {
            Some(light) => self.io().light_from(&before.io(), light) && self.commanded() == Some(
                light,
            ),
            None => self.io() == before.io(),
        }
        &&& if d.reset_timers {
            &&& self.timer().reset_from(&before.timer())
            &&& self.transition_timer().reset_from(&before.transition_timer())
        } else {
            &&& self.timer() == before.timer()
            &&& self.transition_timer() == before.transition_timer()
        }
    }

    /// Whether `befores` and `rs` record the steps that led to this
    /// controller: `befores[i]` is the controller before step `i`, `rs[i]` is
    /// what its waits gave, and the controller after the step, which is the
    /// next entry or, at the end, this controller, is in the state that
    /// [`flash_step`] gives, with the decision carried out.
    #[verifier::opaque]
    pub open spec fn ran(&self, befores: Seq<Self>, rs: Seq<FlashReadings>) -> bool {
        &&& befores.len() == rs.len()
        &&& forall|i: int|
            0 <= i < rs.len() ==> {
                let after = if i + 1 < rs.len() {
                    befores[i + 1]
                } else {
                    *self
                };
                &&& (#[trigger] befores[i]).waits_gave(rs[i])
                &&& after@ == flash_step(befores[i]@, rs[i]).0
                &&& after.carried_out(&befores[i], flash_step(befores[i]@, rs[i]).1)
            }
    }

    /// Before any step there is nothing to record.
    pub proof fn lemma_ran_nothing(&self)
        ensures
            self.ran(Seq::empty(), Seq::empty()),
    {
        reveal(Flasher::ran);
    }

    /// A record of steps grows by one step: if the steps led to `before`, and
    /// one more step with the readings `r` leads from `before` to this
    /// controller, the longer record leads to this controller.
    pub proof fn lemma_ran_extends(
        &self,
        before: Self,
        befores: Seq<Self>,
        rs: Seq<FlashReadings>,
        r: FlashReadings,
    )
        requires
            before.ran(befores, rs),
            before.waits_gave(r),
            self@ == flash_step(before@, r).0,
            self.carried_out(&before, flash_step(before@, r).1),
        ensures
            self.ran(befores.push(before), rs.push(r)),
            befores.len() == rs.len(),
            befores.push(before)[0] == if befores.len() == 0 {
                before
            } else {
                befores[0]
            },
    {
        reveal(Flasher::ran);
        let longer = befores.push(before);
        let more = rs.push(r);
        assert forall|i: int| 0 <= i < more.len() implies {
            let after = if i + 1 < more.len() {
                longer[i + 1]
            } else {
                *self
            };
            &&& (#[trigger] longer[i]).waits_gave(more[i])
            &&& after@ == flash_step(longer[i]@, more[i]).0
            &&& after.carried_out(&longer[i], flash_step(longer[i]@, more[i]).1)
        } by {
            if i < rs.len() {
                assert(longer[i] == befores[i]);
                assert(more[i] == rs[i]);
                if i + 1 < rs.len() {
                    assert(longer[i + 1] == befores[i + 1]);
                }
            }
        }
    }

    /// Returns true if the controller's slots all belong to `pool`.
    pub fn attached_to(&self, pool: &PollingPool) -> (attached: bool)
        ensures
            attached == self.fits(pool@.len()),
    {
        self.io.attached_to(pool) && self.timer.attached_to(pool)
            && self.transition_timer.attached_to(pool)
    }

    /// The stage the controller is in.
    pub fn stage(&self) -> (stage: Stage)
        ensures
            stage == self@.stage,
    {
        self.stage
    }

    /// The light state the controller last commanded.
    pub fn light(&self) -> (light: Light)
        ensures
            light == self@.light,
    {
        self.light_state
    }

    /// One pass of the flash cycle: races the release of the button and the
    /// expiry of the blink timer against the monitor, each evaluated only when
    /// the ones listed before it are pending, and acts on the winner. A release
    /// ends the cycle with the light off; an expired timer resets both timers,
    /// toggles the light and starts the monitor afresh; a monitor failure stops
    /// the controller.
    ///
    /// The readings are not known in advance, so the contract says that the
    /// step is the one [`flash_step`] gives for readings that the waits of
    /// this stage gave, as [`Self::waits_gave`] lists them, and that a
    /// suspended controller has registered in the slot of its IO.
    pub fn flash_until_button_released(&mut self, pool: &mut PollingPool, waker: &Waker) -> (step:
        Step)
        requires
            old(self)@.stage == Stage::Flashing,
            old(self).fits(old(pool)@.len()),
        ensures
            final(pool)@.len() == old(pool)@.len(),
            final(self).io_slot() == old(self).io_slot(),
            final(self).timer_slot() == old(self).timer_slot(),
            final(self).transition_slot() == old(self).transition_slot(),
            final(pool).resumed() == old(pool).resumed(),
            exists|r: FlashReadings|
                {
                    &&& old(self).waits_gave(r)
                    &&& final(self)@ == (#[trigger] flash_step(old(self)@, r)).0
                    &&& step == flash_step(old(self)@, r).1.step
                    &&& final(self).carried_out(old(self), flash_step(old(self)@, r).1)
                },
            old(self).light_in_step() ==> final(self).light_in_step(),
            step == Step::Suspended ==> final(pool)@[final(self).io_slot()],
    {
        let released = self.io.wait_for_released(pool, waker);
        let expired = if released.is_pending() {
            self.timer.wait_expired(pool, waker)
        } else {
            Poll::Pending
        };
        let ghost before = self.monitor.transitioned();
        let consulted = released.is_pending() && expired.is_pending();
        let watched = if consulted {
            self.monitor.poll(&self.io, &self.transition_timer, pool, waker)
        } else {
            Poll::Pending
        };
        let ghost readings = FlashReadings {
            pressed: Poll::Pending,
            released,
            expired,
            monitor: if consulted {
                choose|r: MonitorReadings|
                    {
                        &&& monitor_waits(
                            &old(self).io(),
                            &old(self).transition_timer(),
                            old(self)@.expected,
                            before,
                            r,
                        )
                        &&& (self.monitor.transitioned(), watched) == #[trigger] monitor_outcome(
                            before,
                            r,
                        )
                    }
            } else {
                MonitorReadings {
                    reached: Poll::Pending,
                    expired: Poll::Pending,
                    departed: Poll::Pending,
                }
            },
        };
        let raced = first_to_complete_or_err(released, expired, watched);
        assert(raced == flash_race(old(self)@, readings));
        assert(old(self).waits_gave(readings));
        let d = decide(self.stage, self.light_state, Poll::Pending, raced);
        if d.reset_timers {
            self.timer.reset();
            self.transition_timer.reset();
            self.monitor = monitor_voltage_transition(true);
        }
        if let Some(light) = d.command {
            self.io.set_light(light);
        }
        self.stage = d.stage;
        self.light_state = d.light;
        assert(self@ == flash_step(old(self)@, readings).0);
        assert(self.carried_out(old(self), flash_step(old(self)@, readings).1));
        d.step
    }

    /// Makes one step. Before the first step nothing has run: the step drives
    /// the light off. While waiting for a press, the step evaluates that wait
    /// and, on a press, turns the light on, resets both timers and starts the
    /// monitor. In a flash cycle the step is one pass of
    /// [`Self::flash_until_button_released`]. A stopped controller reports
    /// its failure again.
    ///
    /// The readings are not known in advance, so the contract says that the
    /// step is the one [`flash_step`] gives for readings that the waits of
    /// this stage gave, as [`Self::waits_gave`] lists them, and that a
    /// suspended controller has registered in the slot of its IO.
    pub fn step(&mut self, pool: &mut PollingPool, waker: &Waker) -> (step: Step)
        requires
            old(self).fits(old(pool)@.len()),
        ensures
            final(pool)@.len() == old(pool)@.len(),
            final(self).io_slot() == old(self).io_slot(),
            final(self).timer_slot() == old(self).timer_slot(),
            final(self).transition_slot() == old(self).transition_slot(),
            final(pool).resumed() == old(pool).resumed(),
            exists|r: FlashReadings|
                {
                    &&& old(self).waits_gave(r)
                    &&& final(self)@ == (#[trigger] flash_step(old(self)@, r)).0
                    &&& step == flash_step(old(self)@, r).1.step
                    &&& final(self).carried_out(old(self), flash_step(old(self)@, r).1)
                },
            old(self).light_in_step() ==> final(self).light_in_step(),
            step == Step::Suspended ==> final(pool)@[final(self).io_slot()],
    {
        if let Stage::Flashing = self.stage {
            return self.flash_until_button_released(pool, waker);
        }
        let pressed = match self.stage {
            Stage::WaitingForPress => self.io.wait_until_button_pressed(pool, waker),
            _ => Poll::Pending,
        };
        let ghost readings = FlashReadings {
            pressed,
            released: Poll::Pending,
            expired: Poll::Pending,
            monitor: MonitorReadings {
                reached: Poll::Pending,
                expired: Poll::Pending,
                departed: Poll::Pending,
            },
        };
        assert(old(self).waits_gave(readings));
        let d = decide(self.stage, self.light_state, pressed, Poll::Pending);
        if let Some(light) = d.command {
            self.io.set_light(light);
        }
        if d.reset_timers {
            self.timer.reset();
            self.transition_timer.reset();
            self.monitor = monitor_voltage_transition(true);
        }
        self.stage = d.stage;
        self.light_state = d.light;
        assert(self@ == flash_step(old(self)@, readings).0);
        assert(self.carried_out(old(self), flash_step(old(self)@, readings).1));
        d.step
    }

    /// Evaluates the controller: makes steps until every wait of the current
    /// stage is pending, the monitor has reported a failure, or `usize::MAX`
    /// steps have advanced. The controller never completes with success.
    ///
    /// The readings are not known in advance, so the contract says that what
    /// was done is an evaluation for readings that the waits gave, step by
    /// step as [`Self::ran`] records them, that it stopped on an advancing
    /// step only when the steps ran out, and that a controller whose last step
    /// suspended has registered in the slot of its IO.
    pub fn poll(&mut self, pool: &mut PollingPool, waker: &Waker) -> (outcome: Poll<
        Result<(), MonitorFailure>,
    >)
        requires
            old(self).fits(old(pool)@.len()),
        ensures
            final(pool)@.len() == old(pool)@.len(),
            final(self).io_slot() == old(self).io_slot(),
            final(self).timer_slot() == old(self).timer_slot(),
            final(self).transition_slot() == old(self).transition_slot(),
            old(self).light_in_step() ==> final(self).light_in_step(),
            final(pool).resumed() == old(pool).resumed(),
            exists|rs: Seq<FlashReadings>, befores: Seq<Self>|
                {
                    &&& #[trigger] is_evaluation(old(self)@, rs)
                    &&& #[trigger] final(self).ran(befores, rs)
                    &&& befores.len() == rs.len()
                    &&& befores[0] == *old(self)
                    &&& final(self)@ == state_after(old(self)@, rs)
                    &&& outcome == outcome_of(step_at(old(self)@, rs, rs.len() - 1))
                    &&& step_at(old(self)@, rs, rs.len() - 1) == Step::Advanced ==> rs.len()
                        == usize::MAX + 1
                    &&& step_at(old(self)@, rs, rs.len() - 1) == Step::Suspended
                        ==> final(pool)@[final(self).io_slot()]
                },
            forall|failure: MonitorFailure|
                outcome == Poll::Ready(Err::<(), MonitorFailure>(failure)) <==> final(self)@.stage
                    == Stage::Finished(failure),
    {
        let ghost start = self@;
        let ghost mut before = *self;
        let mut budget: usize = usize::MAX;
        let mut step = self.step(pool, waker);
        let ghost mut rs: Seq<FlashReadings> = Seq::empty();
        let ghost mut befores: Seq<Self> = Seq::empty();
        proof {
            let first = choose|r: FlashReadings|
                {
                    &&& before.waits_gave(r)
                    &&& self@ == (#[trigger] flash_step(before@, r)).0
                    &&& step == flash_step(before@, r).1.step
                    &&& self.carried_out(&before, flash_step(before@, r).1)
                };
            lemma_evaluation_extends(start, rs, first);
            before.lemma_ran_nothing();
            self.lemma_ran_extends(before, befores, rs, first);
            rs = rs.push(first);
            befores = befores.push(before);
        }
        while step == Step::Advanced && budget > 0
            invariant
                start == old(self)@,
                pool@.len() == old(pool)@.len(),
                pool.resumed() == old(pool).resumed(),
                self.fits(pool@.len()),
                self.io_slot() == old(self).io_slot(),
                self.timer_slot() == old(self).timer_slot(),
                self.transition_slot() == old(self).transition_slot(),
                old(self).light_in_step() ==> self.light_in_step(),
                is_evaluation(start, rs),
                self.ran(befores, rs),
                befores.len() == rs.len(),
                befores[0] == *old(self),
                rs.len() == usize::MAX - budget + 1,
                self@ == state_after(start, rs),
                step == step_at(start, rs, rs.len() - 1),
                step == Step::Suspended ==> pool@[self.io_slot()],
                forall|failure: MonitorFailure|
                    step == Step::Failed(failure) <==> self@.stage == Stage::Finished(failure),
            decreases budget,
        {
            proof {
                before = *self;
            }
            step = self.step(pool, waker);
            budget -= 1;
            proof {
                let next = choose|r: FlashReadings|
                    {
                        &&& before.waits_gave(r)
                        &&& self@ == (#[trigger] flash_step(before@, r)).0
                        &&& step == flash_step(before@, r).1.step
                        &&& self.carried_out(&before, flash_step(before@, r).1)
                    };
                lemma_evaluation_extends(start, rs, next);
                self.lemma_ran_extends(before, befores, rs, next);
                let longer = befores.push(before);
                let more = rs.push(next);
                rs = more;
                befores = longer;
            }
        }
        assert(is_evaluation(start, rs));
        match step {
            Step::Failed(failure) => Poll::Ready(Err(failure)),
            _ => Poll::Pending,
        }
    }
}

/// What the capabilities report at one moment, for reasoning about whole
/// evaluations: whether the button is held, whether the secondary signal is
/// high, and whether each timer has run out.
pub struct World {
    pub pressed: bool,
    pub voltage: bool,
    pub timer_expired: bool,
    pub transition_expired: bool,
}

/// What the controller's waits report in world `w` to a monitor that expects
/// `expected`. The button is released exactly when it is not pressed.
pub open spec fn readings_in(w: World, expected: bool) -> FlashReadings {
    FlashReadings {
        pressed: ready_if(w.pressed, ButtonEvent),
        released: ready_if(!w.pressed, ButtonEvent),
        expired: ready_if(w.timer_expired, TimerEvent),
        monitor: MonitorReadings {
            reached: ready_if(w.voltage == expected, ()),
            expired: ready_if(w.transition_expired, TimerEvent),
            departed: ready_if(w.voltage != expected, ()),
        },
    }
}

/// The world after the controller has acted on a decision: a timer that has
/// just been reset has not expired. Nothing else changes by itself.
pub open spec fn world_after(w: World, d: Decision) -> World {
    if d.reset_timers {
        World { timer_expired: false, transition_expired: false, ..w }
    } else {
        w
    }
}

/// One evaluation of the controller in world `w`: steps are made while they
/// advance, at most `budget` more after the first.
pub open spec fn tick(s: FlashState, w: World, budget: nat) -> (FlashState, World)
    decreases budget,
{
    let (next, d) = flash_step(s, readings_in(w, s.expected));
    if d.step == Step::Advanced && budget > 0 {
        tick(next, world_after(w, d), (budget - 1) as nat)
    } else {
        (next, world_after(w, d))
    }
}

/// An evaluation settles: with room for two further steps it ends in a state
/// from which the next step does not advance. Evaluating again with no new
/// external event then changes nothing, neither the controller's state, with
/// the light it commands, nor the world.
pub proof fn lemma_tick_idempotent(s: FlashState, w: World, budget: nat)
    requires
        budget >= 2,
    ensures
        flash_step(
            tick(s, w, budget).0,
            readings_in(tick(s, w, budget).1, tick(s, w, budget).0.expected),
        ).1.step != Step::Advanced,
        tick(tick(s, w, budget).0, tick(s, w, budget).1, budget) == tick(s, w, budget),
{
    reveal_with_fuel(tick, 4);
}

/// One evaluation in world `w` as the controller makes it, with room for
/// `usize::MAX` further steps.
pub open spec fn evaluation(s: FlashState, w: World) -> (FlashState, World) {
    tick(s, w, usize::MAX as nat)
}

/// Evaluating the controller twice with no new external event changes
/// nothing beyond the first evaluation: the controller's state, with the
/// light it commands, and the world stay as the first evaluation left them.
pub proof fn lemma_evaluation_idempotent(s: FlashState, w: World)
    ensures
        evaluation(evaluation(s, w).0, evaluation(s, w).1) == evaluation(s, w),
{
    lemma_tick_idempotent(s, w, usize::MAX as nat);
}

/// Making a step and then the steps of `rest` is the run of the step's
/// readings followed by `rest`.
pub proof fn lemma_run_from_front(s: FlashState, r: FlashReadings, rest: Seq<FlashReadings>)
    ensures
        state_after(s, seq![r] + rest) == state_after(flash_step(s, r).0, rest),
    decreases rest.len(),
{
    let whole = seq![r] + rest;
    if rest.len() == 0 {
        assert(whole.drop_last() =~= Seq::<FlashReadings>::empty());
        assert(state_after(s, whole.drop_last()) == s);
    } else {
        assert(whole.drop_last() =~= seq![r] + rest.drop_last());
        lemma_run_from_front(s, r, rest.drop_last());
    }
}

/// What [`tick`] does in a world is one of the evaluations that
/// [`Flasher::poll`] admits: its steps are the run of the readings it
/// returns, each but the last advancing.
pub proof fn lemma_tick_is_evaluation(s: FlashState, w: World, budget: nat) -> (rs: Seq<
    FlashReadings,
>)
    ensures
        is_evaluation(s, rs),
        state_after(s, rs) == tick(s, w, budget).0,
    decreases budget,
{
    let r = readings_in(w, s.expected);
    let (next, d) = flash_step(s, r);
    let rest = if d.step == Step::Advanced && budget > 0 {
        lemma_tick_is_evaluation(next, world_after(w, d), (budget - 1) as nat)
    } else {
        Seq::empty()
    };
    let rs = seq![r] + rest;
    lemma_run_from_front(s, r, rest);
    assert(rs.take(0) =~= Seq::<FlashReadings>::empty());
    assert forall|i: int| 0 <= i < rs.len() - 1 implies #[trigger] step_at(s, rs, i)
        == Step::Advanced by {
        if i > 0 {
            assert(rs.take(i) =~= seq![r] + rest.take(i - 1));
            lemma_run_from_front(s, r, rest.take(i - 1));
            assert(step_at(next, rest, i - 1) == Step::Advanced);
        }
    }
    rs
}

/// While the controller waits for a press and the button stays up, an
/// evaluation leaves the light off.
pub proof fn lemma_idle_keeps_light_off(s: FlashState, w: World, budget: nat)
    requires
        s.stage == Stage::WaitingForPress || s.stage == Stage::NotStarted,
        s.stage == Stage::WaitingForPress ==> s.light == Light::Off,
        !w.pressed,
    ensures
        tick(s, w, budget).0.stage == Stage::WaitingForPress,
        tick(s, w, budget).0.light == Light::Off,
{
    reveal_with_fuel(tick, 3);
}

/// The monitor reports a failure only in a flash cycle, and the controller
/// then stops in `Finished` with that failure and stays there.
pub proof fn lemma_failure_is_final(s: FlashState, r: FlashReadings, failure: MonitorFailure)
    ensures
        flash_step(s, r).1.step == Step::Failed(failure) <==> flash_step(s, r).0.stage
            == Stage::Finished(failure),
        s.stage == Stage::Finished(failure) ==> flash_step(s, r).0 == s,
        flash_step(s, r).1.step == Step::Failed(failure) && s.stage != Stage::Finished(failure)
            ==> s.stage == Stage::Flashing && r.released is Pending && r.expired is Pending,
{
}

} // verus!
