//! A cooperative suspension mechanism, race combinators over suspended
//! operations, and a button-driven blinking-light controller built on them.

use vstd::prelude::*;

use crate::async_frame::{FrameBlocker, Poll, PollingPool};
use std::task::Waker;

pub mod async_frame;
pub mod asynchronous;
pub mod sync;

verus! {

/// Representation of a light state being on or off.
#[derive(PartialEq, Eq, Structural, Debug, Clone, Copy)]
pub enum Light {
    On,
    Off,
}

impl Default for Light {
    /// A light is off unless it has been turned on.
    fn default() -> (light: Light)
        ensures
            light == Light::Off,
    {
        Light::Off
    }
}

impl Light {
    /// The opposite state.
    pub open spec fn toggled(self) -> Light {
        match self {
            Light::On => Light::Off,
            Light::Off => Light::On,
        }
    }

    /// Returns the opposite state of the light.
    pub fn toggle(&self) -> (flipped: Light)
        ensures
            flipped == self.toggled(),
    {
        match self {
            Light::On => Light::Off,
            Light::Off => Light::On,
        }
    }
}

/// A countdown that can be restarted and asked whether it has run out.
///
/// Whether a timer has expired depends on the clock, so nothing is promised
/// about what `expired` returns: the contracts only give the call a name, so
/// that callers can say which call they made.
pub trait Timer {
    /// Whether `expired` can report `expired` for this timer. Unless an
    /// implementation narrows it, every report is possible.
    open spec fn may_report(&self, expired: bool) -> bool {
        true
    }

    /// Whether this timer is what `before` becomes when it is reset. Unless an
    /// implementation narrows it, a reset can lead anywhere.
    open spec fn reset_from(&self, before: &Self) -> bool {
        true
    }

    fn reset(&mut self)
        ensures
            final(self).reset_from(old(self)),
    ;

    fn expired(&self) -> (expired: bool)
        ensures
            self.may_report(expired),
    ;
}

/// Makes timers of a given duration.
pub trait TimerFactory<T: Timer> {
    /// Whether `new_timer` can make `timer` when asked for `timeout_ms`.
    /// Unless an implementation narrows it, every timer is possible.
    open spec fn makes(&self, timeout_ms: u64, timer: &T) -> bool {
        true
    }

    /// A timer that expires `timeout_ms` milliseconds after its last reset.
    fn new_timer(&self, timeout_ms: u64) -> (timer: T)
        ensures
            self.makes(timeout_ms, &timer),
    ;
}

/// Whether a button counts as released, given whether it reads as pressed:
/// it is released exactly when it is not pressed.
pub fn released_when(pressed: bool) -> (released: bool)
    ensures
        released == !pressed,
{
    !pressed
}

/// Whether a reading of the secondary signal is the value waited for.
pub fn reads_as(reading: bool, value: bool) -> (met: bool)
    ensures
        met == (reading == value),
{
    reading == value
}

/// The button, the light and the secondary signal.
///
/// The readings come from outside the program, so nothing is promised about
/// what the queries return: the contracts only give each call a name, so that
/// callers can say which call they made.
pub trait IO {
    /// Whether `button_pressed` can report `pressed`. Unless an
    /// implementation narrows it, every report is possible.
    open spec fn may_read_pressed(&self, pressed: bool) -> bool {
        true
    }

    /// Whether `read_voltage` can report `reading`. Unless an implementation
    /// narrows it, every report is possible.
    open spec fn may_read_voltage(&self, reading: bool) -> bool {
        true
    }

    /// Whether this IO is what `before` becomes when its light is set to
    /// `state`. Unless an implementation narrows it, setting the light can
    /// lead anywhere.
    open spec fn lit_from(&self, before: &Self, state: Light) -> bool {
        true
    }

    /// Returns true if the button is currently pressed.
    fn button_pressed(&self) -> (pressed: bool)
        ensures
            self.may_read_pressed(pressed),
    ;

    /// Returns true if the button is currently released: the opposite of a
    /// reading that `button_pressed` can give. Unless an implementation says
    /// otherwise, it is what [`released_when`] makes of one such reading.
    fn button_released(&self) -> (released: bool)
        ensures
            self.may_read_pressed(!released),
    {
        released_when(self.button_pressed())
    }

    /// Set the state of the light.
    fn set_light(&mut self, state: Light)
        ensures
            final(self).lit_from(old(self), state),
    ;

    /// Reads the secondary signal.
    fn read_voltage(&self) -> (reading: bool)
        ensures
            self.may_read_voltage(reading),
    ;
}

/// Which of two raced operations completed before the other.
#[derive(Debug, PartialEq, Eq)]
pub enum FirstOrSecond<A, B> {
    First(A),
    Second(B),
}

impl<Good, Bad> FirstOrSecond<Good, Bad> {
    /// The outcome read as success (first operand) or failure (second).
    pub open spec fn as_result(self) -> Result<Good, Bad> {
        match self {
            FirstOrSecond::First(good) => Ok(good),
            FirstOrSecond::Second(bad) => Err(bad),
        }
    }

    /// Converts the outcome into a `Result`: the first operand is `Ok`, the
    /// second is `Err`.
    pub fn into(self) -> (result: Result<Good, Bad>)
        ensures
            result == self.as_result(),
    {
        match self {
            FirstOrSecond::First(good) => Ok(good),
            FirstOrSecond::Second(bad) => Err(bad),
        }
    }
}

/// The outcome of racing two operations, given what each reported at one
/// evaluation: the first operand wins whenever it is ready, the second only
/// when the first is still pending.
pub open spec fn race<A, B>(first: Poll<A>, second: Poll<B>) -> Poll<FirstOrSecond<A, B>> {
    match first {
        Poll::Ready(a) => Poll::Ready(FirstOrSecond::First(a)),
        Poll::Pending => match second {
            Poll::Ready(b) => Poll::Ready(FirstOrSecond::Second(b)),
            Poll::Pending => Poll::Pending,
        },
    }
}

/// The outcome of [`race`] with the first operand read as success and the
/// second as failure.
pub open spec fn race_ok_or_err<T, E>(ok: Poll<T>, err: Poll<E>) -> Poll<Result<T, E>> {
    match ok {
        Poll::Ready(value) => Poll::Ready(Ok(value)),
        Poll::Pending => match err {
            Poll::Ready(e) => Poll::Ready(Err(e)),
            Poll::Pending => Poll::Pending,
        },
    }
}

/// The outcome of racing two good operations against an error channel: a
/// ready good operation wins, the first before the second; the error wins
/// only while both are pending.
pub open spec fn race_or_err<A, B, E>(good1: Poll<A>, good2: Poll<B>, err: Poll<E>) -> Poll<
    Result<FirstOrSecond<A, B>, E>,
> {
    match good1 {
        Poll::Ready(a) => Poll::Ready(Ok(FirstOrSecond::First(a))),
        Poll::Pending => match good2 {
            Poll::Ready(b) => Poll::Ready(Ok(FirstOrSecond::Second(b))),
            Poll::Pending => match err {
                Poll::Ready(e) => Poll::Ready(Err(e)),
                Poll::Pending => Poll::Pending,
            },
        },
    }
}

/// Races two operations, given what each reported when it was evaluated, and
/// returns which one completed first. When both are ready the first wins:
/// the tie-break of `futures::future::select`, which polls its first operand
/// first and its second only while the first is pending.
pub fn wait_for_one_to_complete<Out1, Out2>(fut1: Poll<Out1>, fut2: Poll<Out2>) -> (outcome: Poll<
    FirstOrSecond<Out1, Out2>,
>)
    ensures
        outcome == race(fut1, fut2),
{
    match fut1 {
        Poll::Ready(value_1) => Poll::Ready(FirstOrSecond::First(value_1)),
        Poll::Pending => match fut2 {
            Poll::Ready(value_2) => Poll::Ready(FirstOrSecond::Second(value_2)),
            Poll::Pending => Poll::Pending,
        },
    }
}

/// Races a good operation against an error operation: `Ok` if the good one
/// completed first, `Err` if the error one did.
pub fn wait_for_ok_or_err<Out, Bad>(ok_fut: Poll<Out>, err_fut: Poll<Bad>) -> (outcome: Poll<
    Result<Out, Bad>,
>)
    ensures
        outcome == race_ok_or_err(ok_fut, err_fut),
{
    match wait_for_one_to_complete(ok_fut, err_fut) {
        Poll::Ready(which) => Poll::Ready(which.into()),
        Poll::Pending => Poll::Pending,
    }
}

/// Races two good operations against each other and their winner against an
/// error operation. The error pre-empts the pair only if neither good
/// operation is ready.
pub fn first_to_complete_or_err<Out1, Out2, Bad>(
    good_fut1: Poll<Out1>,
    good_fut2: Poll<Out2>,
    err_fut: Poll<Bad>,
) -> (outcome: Poll<Result<FirstOrSecond<Out1, Out2>, Bad>>)
    ensures
        outcome == race_or_err(good_fut1, good_fut2, err_fut),
{
    let good_pair = wait_for_one_to_complete(good_fut1, good_fut2);
    match wait_for_ok_or_err(good_pair, err_fut) {
        Poll::Ready(Ok(fut1_or_fut2)) => match fut1_or_fut2 {
            FirstOrSecond::First(value) => Poll::Ready(Ok(FirstOrSecond::First(value))),
            FirstOrSecond::Second(value) => Poll::Ready(Ok(FirstOrSecond::Second(value))),
        },
        Poll::Ready(Err(err)) => Poll::Ready(Err(err)),
        Poll::Pending => Poll::Pending,
    }
}

/// The business logic waits on either a button release or a timer
/// expiration. This says which one completed first.
#[derive(PartialEq, Eq, Structural, Clone, Copy, Debug)]
pub enum TimerOrButton {
    Timer,
    Button,
}

/// An event that occurred with a button.
#[derive(Debug, Clone, Copy, PartialEq, Eq)]
pub struct ButtonEvent;

/// An event that occurred with a timer.
#[derive(Debug, Clone, Copy, PartialEq, Eq)]
pub struct TimerEvent;

impl TimerOrButton {
    /// The winner of a race between a button wait and a timer wait, without
    /// its payload.
    pub open spec fn of(value: FirstOrSecond<ButtonEvent, TimerEvent>) -> TimerOrButton {
        match value {
            FirstOrSecond::First(_) => TimerOrButton::Button,
            FirstOrSecond::Second(_) => TimerOrButton::Timer,
        }
    }

    /// Names the winner of a race between a button wait, listed first, and a
    /// timer wait.
    pub fn from(value: FirstOrSecond<ButtonEvent, TimerEvent>) -> (which: TimerOrButton)
        ensures
            which == TimerOrButton::of(value),
    {
        match value {
            FirstOrSecond::First(_) => TimerOrButton::Button,
            FirstOrSecond::Second(_) => TimerOrButton::Timer,
        }
    }
}

/// What one evaluation of a wait does to the pool: a wait that stays pending
/// has registered in its slot, a wait that completes has left the pool alone.
pub open spec fn pool_after_wait(before: Seq<bool>, slot: int, pending: bool) -> Seq<bool> {
    if pending {
        before.update(slot, true)
    } else {
        before
    }
}

/// A timer whose expiry can be waited for.
///
/// A wait is evaluated once per call: it checks the timer and, if it has not
/// expired, suspends at a fresh suspension point on the timer's own slot.
pub trait AsyncTimer {
    /// The pool slot in which waits on this timer register.
    spec fn slot(&self) -> int;

    /// Whether this timer is what `before` becomes when it is reset.
    spec fn reset_from(&self, before: &Self) -> bool;

    /// Whether one evaluation of the wait for expiry can give `outcome`.
    spec fn expiry_wait(&self, outcome: Poll<TimerEvent>) -> bool;

    /// Returns true if the timer's slot is a slot of `pool`.
    fn attached_to(&self, pool: &PollingPool) -> (attached: bool)
        ensures
            attached == (0 <= self.slot() < pool@.len()),
    ;

    /// Reset the state of the timer to expire again in the future.
    fn reset(&mut self)
        ensures
            final(self).slot() == old(self).slot(),
            final(self).reset_from(old(self)),
    ;

    /// Evaluates the wait for the timer to expire.
    fn wait_expired(&self, pool: &mut PollingPool, waker: &Waker) -> (outcome: Poll<TimerEvent>)
        requires
            0 <= self.slot() < old(pool)@.len(),
        ensures
            self.expiry_wait(outcome),
            final(pool)@ == pool_after_wait(old(pool)@, self.slot(), outcome is Pending),
            final(pool).resumed() == old(pool).resumed(),
    ;
}

/// The light, and waits on the button and on the secondary signal.
///
/// A wait is evaluated once per call: it checks its condition and, if the
/// condition does not hold, suspends at a fresh suspension point on the
/// adapter's own slot.
pub trait AsyncIO {
    /// The pool slot in which waits on this IO register.
    spec fn slot(&self) -> int;

    /// The state the light was last set to, if it has been set.
    spec fn light(&self) -> Option<Light>;

    /// Whether this IO is what `before` becomes when its light is set to
    /// `state`.
    spec fn light_from(&self, before: &Self, state: Light) -> bool;

    /// Whether one evaluation of the wait for the secondary signal to read
    /// `value` can give `outcome`.
    spec fn voltage_wait(&self, value: bool, outcome: Poll<()>) -> bool;

    /// Whether one evaluation of the wait for a press can give `outcome`.
    spec fn press_wait(&self, outcome: Poll<ButtonEvent>) -> bool;

    /// Whether one evaluation of the wait for a release can give `outcome`.
    spec fn release_wait(&self, outcome: Poll<ButtonEvent>) -> bool;

    /// Returns true if the IO's slot is a slot of `pool`.
    fn attached_to(&self, pool: &PollingPool) -> (attached: bool)
        ensures
            attached == (0 <= self.slot() < pool@.len()),
    ;

    /// Set the state of the light.
    fn set_light(&mut self, state: Light)
        ensures
            final(self).slot() == old(self).slot(),
            final(self).light() == Some(state),
            final(self).light_from(old(self), state),
    ;

    /// Evaluates the wait for the secondary signal to read `value`.
    fn wait_until_voltage_is(&self, value: bool, pool: &mut PollingPool, waker: &Waker) -> (outcome:
        Poll<()>)
        requires
            0 <= self.slot() < old(pool)@.len(),
        ensures
            self.voltage_wait(value, outcome),
            final(pool)@ == pool_after_wait(old(pool)@, self.slot(), outcome is Pending),
            final(pool).resumed() == old(pool).resumed(),
    ;

    /// Evaluates the wait for the button to be pressed.
    fn wait_until_button_pressed(&self, pool: &mut PollingPool, waker: &Waker) -> (outcome: Poll<
        ButtonEvent,
    >)
        requires
            0 <= self.slot() < old(pool)@.len(),
        ensures
            self.press_wait(outcome),
            final(pool)@ == pool_after_wait(old(pool)@, self.slot(), outcome is Pending),
            final(pool).resumed() == old(pool).resumed(),
    ;

    /// Evaluates the wait for the button to be released.
    fn wait_for_released(&self, pool: &mut PollingPool, waker: &Waker) -> (outcome: Poll<
        ButtonEvent,
    >)
        requires
            0 <= self.slot() < old(pool)@.len(),
        ensures
            self.release_wait(outcome),
            final(pool)@ == pool_after_wait(old(pool)@, self.slot(), outcome is Pending),
            final(pool).resumed() == old(pool).resumed(),
    ;
}

/// The reading of the secondary signal behind the outcome of a wait for
/// `value`: the wait is done exactly when the reading is the value.
pub open spec fn reading_behind(value: bool, outcome: Poll<()>) -> bool {
    if outcome is Ready {
        value
    } else {
        !value
    }
}

/// A [`Timer`] together with the pool slot its waits suspend on.
pub struct PollingAsyncTimer<T: Timer> {
    timer: T,
    blocker: FrameBlocker,
}

impl<T: Timer> PollingAsyncTimer<T> {
    /// The timer inside.
    pub closed spec fn timer(&self) -> T {
        self.timer
    }

    /// Binds `timer` to the slot of `blocker`.
    pub fn new(timer: T, blocker: FrameBlocker) -> (adapter: Self)
        ensures
            adapter.slot() == blocker.slot(),
            adapter.timer() == timer,
    {
        PollingAsyncTimer { timer, blocker }
    }
}

impl<T: Timer> AsyncTimer for PollingAsyncTimer<T> {
    closed spec fn slot(&self) -> int {
        self.blocker.slot()
    }

    /// The timer inside has been reset, and nothing else has changed.
    open spec fn reset_from(&self, before: &Self) -> bool {
        self.timer().reset_from(&before.timer()) && self.slot() == before.slot()
    }

    /// The wait is done exactly when the timer inside reports that it has
    /// expired.
    open spec fn expiry_wait(&self, outcome: Poll<TimerEvent>) -> bool {
        self.timer().may_report(outcome is Ready)
    }

    fn attached_to(&self, pool: &PollingPool) -> (attached: bool) {
        pool.has_slot(&self.blocker)
    }

    fn reset(&mut self) {
        self.timer.reset();
    }

    fn wait_expired(&self, pool: &mut PollingPool, waker: &Waker) -> (outcome: Poll<TimerEvent>) {
        self.blocker.wait_until(self.timer.expired(), TimerEvent, pool, waker)
    }
}

/// An [`IO`] together with the pool slot its waits suspend on.
pub struct PollingAsyncIO<I: IO> {
    io: I,
    blocker: FrameBlocker,
    light: Ghost<Option<Light>>,
}

impl<I: IO> PollingAsyncIO<I> {
    /// The IO inside.
    pub closed spec fn io(&self) -> I {
        self.io
    }

    /// Binds `io` to the slot of `blocker`.
    pub fn new(io: I, blocker: FrameBlocker) -> (adapter: Self)
        ensures
            adapter.slot() == blocker.slot(),
            adapter.io() == io,
            adapter.light() is None,
    {
        PollingAsyncIO { io, blocker, light: Ghost(None) }
    }
}

impl<I: IO> IO for PollingAsyncIO<I> {
    /// What the IO inside can report.
    open spec fn may_read_pressed(&self, pressed: bool) -> bool {
        self.io().may_read_pressed(pressed)
    }

    /// What the IO inside can report.
    open spec fn may_read_voltage(&self, reading: bool) -> bool {
        self.io().may_read_voltage(reading)
    }

    /// The light of the IO inside has been set, and nothing else has changed.
    open spec fn lit_from(&self, before: &Self, state: Light) -> bool {
        self.light_from(before, state)
    }

    fn button_pressed(&self) -> (pressed: bool) {
        self.io.button_pressed()
    }

    fn set_light(&mut self, state: Light)
        ensures
            final(self).slot() == old(self).slot(),
            final(self).light() == Some(state),
    {
        self.io.set_light(state);
        self.light = Ghost(Some(state));
    }

    fn read_voltage(&self) -> (reading: bool) {
        self.io.read_voltage()
    }
}

impl<I: IO> AsyncIO for PollingAsyncIO<I> {
    closed spec fn slot(&self) -> int {
        self.blocker.slot()
    }

    closed spec fn light(&self) -> Option<Light> {
        self.light@
    }

    /// The light of the IO inside has been set, and nothing else has changed.
    open spec fn light_from(&self, before: &Self, state: Light) -> bool {
        self.io().lit_from(&before.io(), state) && self.slot() == before.slot()
    }

    /// The wait is done exactly when the IO inside reads the signal as
    /// `value`.
    open spec fn voltage_wait(&self, value: bool, outcome: Poll<()>) -> bool {
        self.io().may_read_voltage(reading_behind(value, outcome))
    }

    /// The wait is done exactly when the IO inside reads the button as
    /// pressed.
    open spec fn press_wait(&self, outcome: Poll<ButtonEvent>) -> bool {
        self.io().may_read_pressed(outcome is Ready)
    }

    /// The wait is done exactly when the IO inside reads the button as
    /// released, which is the opposite of a reading as pressed.
    open spec fn release_wait(&self, outcome: Poll<ButtonEvent>) -> bool {
        self.io().may_read_pressed(outcome is Pending)
    }

    fn attached_to(&self, pool: &PollingPool) -> (attached: bool) {
        pool.has_slot(&self.blocker)
    }

    fn set_light(&mut self, state: Light) {
        self.io.set_light(state);
        self.light = Ghost(Some(state));
    }

    fn wait_until_voltage_is(&self, value: bool, pool: &mut PollingPool, waker: &Waker) -> (outcome:
        Poll<()>) {
        let met = reads_as(self.io.read_voltage(), value);
        self.blocker.wait_until(met, (), pool, waker)
    }

    fn wait_until_button_pressed(&self, pool: &mut PollingPool, waker: &Waker) -> (outcome: Poll<
        ButtonEvent,
    >) {
        self.blocker.wait_until(self.io.button_pressed(), ButtonEvent, pool, waker)
    }

    fn wait_for_released(&self, pool: &mut PollingPool, waker: &Waker) -> (outcome: Poll<
        ButtonEvent,
    >) {
        self.blocker.wait_until(self.io.button_released(), ButtonEvent, pool, waker)
    }
}

/// With the first operand ready, a two-way race reports the first operand,
/// whatever the second reported.
pub proof fn lemma_first_operand_wins<A, B>(a: A, second: Poll<B>)
    ensures
        race(Poll::Ready(a), second) == Poll::Ready(FirstOrSecond::<A, B>::First(a)),
        race_ok_or_err(Poll::Ready(a), second) == Poll::Ready(Ok::<A, B>(a)),
{
}

/// A two-way race is pending exactly when both operands are, and reports the
/// second operand exactly when the first is pending and the second ready.
pub proof fn lemma_race_outcomes<A, B>(first: Poll<A>, second: Poll<B>)
    ensures
        race(first, second) is Pending <==> first is Pending && second is Pending,
        race(first, second) matches Poll::Ready(FirstOrSecond::Second(b)) ==> first is Pending
            && second == Poll::Ready(b),
        first is Pending && second is Ready ==> race(first, second) == Poll::Ready(
            FirstOrSecond::<A, B>::Second(second->Ready_0),
        ),
{
}

/// While both good operands are pending, a ready error channel decides the
/// three-way race: it reports that error.
pub proof fn lemma_error_preempts_pending_pair<A, B, E>(e: E)
    ensures
        race_or_err(Poll::<A>::Pending, Poll::<B>::Pending, Poll::Ready(e)) == Poll::Ready(
            Err::<FirstOrSecond<A, B>, E>(e),
        ),
{
}

/// The three-way race is the result-shaped race of the good pair's race
/// against the error channel.
pub proof fn lemma_race_or_err_nests<A, B, E>(good1: Poll<A>, good2: Poll<B>, err: Poll<E>)
    ensures
        race_or_err(good1, good2, err) == race_ok_or_err(race(good1, good2), err),
{
}

/// Toggling a light twice gives the light back.
pub proof fn lemma_toggle_involution(light: Light)
    ensures
        light.toggled().toggled() == light,
{
}

} // verus!
