//! The blinking-light controller as a poll-until-stable state machine with an
//! explicit state.

use crate::{Light, IO};
use vstd::prelude::*;

verus! {

/// A countdown that can be restarted and asked whether it has run out.
///
/// Whether a timer has expired depends on the clock, so nothing is promised
/// about what `expired` returns: the contracts only give the call a name, so
/// that callers can say which call they made.
pub trait Timer {
    /// Whether `expired` can report `expired` for this timer. Unless an
    /// implementation narrows it, every report is possible.
    open spec fn may_report(&self, expired: bool) -> bool {
        true
    }

    /// Whether this timer is what `before` becomes when it is reset. Unless an
    /// implementation narrows it, a reset can lead anywhere.
    open spec fn reset_from(&self, before: &Self) -> bool {
        true
    }

    fn reset(&mut self)
        ensures
            final(self).reset_from(old(self)),
    ;

    fn expired(&self) -> (expired: bool)
        ensures
            self.may_report(expired),
    ;
}

/// Makes timers of a given duration.
pub trait TimerFactory<T: Timer> {
    /// Whether `new_timer` can make `timer` when asked for `timeout_ms`.
    /// Unless an implementation narrows it, every timer is possible.
    open spec fn makes(&self, timeout_ms: u64, timer: &T) -> bool {
        true
    }

    /// A timer that expires `timeout_ms` milliseconds after its last reset.
    fn new_timer(&self, timeout_ms: u64) -> (timer: T)
        ensures
            self.makes(timeout_ms, &timer),
    ;
}

/// How long the light stays in one state while blinking, in milliseconds.
pub const BLINK_PERIOD_MS: u64 = 1000;

/// The states of the machine. The blinking states own the timer that ends
/// them.
#[derive(Debug)]
pub enum States<T: Timer> {
    NotPressed,
    BlinkOn(T),
    BlinkOff(T),
    ReleasedButton,
}

/// A state without its timer.
#[derive(PartialEq, Eq, Structural, Clone, Copy, Debug)]
pub enum StateKind {
    NotPressed,
    BlinkOn,
    BlinkOff,
    ReleasedButton,
}

/// What the capabilities reported while one state was handled.
pub struct Readings {
    pub pressed: bool,
    pub expired: bool,
    pub released: bool,
}

/// What handling one state leads to: the state to move to, the light command
/// to send if there is one, whether the state is entered with a new timer,
/// and whether anything changed.
#[derive(PartialEq, Eq, Structural, Clone, Copy, Debug)]
pub struct Transition {
    pub next: StateKind,
    pub light: Option<Light>,
    pub new_timer: bool,
    pub progressed: bool,
}

impl<T: Timer> States<T> {
    /// The timer of a blinking state.
    pub open spec fn timer(&self) -> Option<T> {
        match self {
            States::BlinkOn(timer) => Some(*timer),
            States::BlinkOff(timer) => Some(*timer),
            _ => None,
        }
    }

    /// The state without its timer.
    pub open spec fn kind(&self) -> StateKind {
        match self {
            States::NotPressed => StateKind::NotPressed,
            States::BlinkOn(_) => StateKind::BlinkOn,
            States::BlinkOff(_) => StateKind::BlinkOff,
            States::ReleasedButton => StateKind::ReleasedButton,
        }
    }

    /// Computes the state without its timer.
    pub fn state_kind(&self) -> (kind: StateKind)
        ensures
            kind == self.kind(),
    {
        match self {
            States::NotPressed => StateKind::NotPressed,
            States::BlinkOn(_) => StateKind::BlinkOn,
            States::BlinkOff(_) => StateKind::BlinkOff,
            States::ReleasedButton => StateKind::ReleasedButton,
        }
    }
}

/// The transition table. A press starts the blinking with the light on. While
/// blinking, an expired timer flips the light and has priority over a
/// released button, which leads to `ReleasedButton`. From there the light
/// goes off and the machine returns to `NotPressed`. Anything else leaves the
/// state as it is.
pub open spec fn transition(kind: StateKind, r: Readings) -> Transition {
    match kind {
        StateKind::NotPressed => if r.pressed {
            Transition {
                next: StateKind::BlinkOn,
                light: Some(Light::On),
                new_timer: true,
                progressed: true,
            }
        } else {
            Transition {
                next: StateKind::NotPressed,
                light: None,
                new_timer: false,
                progressed: false,
            }
        },
        StateKind::BlinkOn => if r.expired {
            Transition {
                next: StateKind::BlinkOff,
                light: Some(Light::Off),
                new_timer: true,
                progressed: true,
            }
        } else if r.released {
            Transition {
                next: StateKind::ReleasedButton,
                light: None,
                new_timer: false,
                progressed: true,
            }
        } else {
            Transition {
                next: StateKind::BlinkOn,
                light: None,
                new_timer: false,
                progressed: false,
            }
        },
        StateKind::BlinkOff => if r.expired {
            Transition {
                next: StateKind::BlinkOn,
                light: Some(Light::On),
                new_timer: true,
                progressed: true,
            }
        } else if r.released {
            Transition {
                next: StateKind::ReleasedButton,
                light: None,
                new_timer: false,
                progressed: true,
            }
        } else {
            Transition {
                next: StateKind::BlinkOff,
                light: None,
                new_timer: false,
                progressed: false,
            }
        },
        StateKind::ReleasedButton => Transition {
            next: StateKind::NotPressed,
            light: Some(Light::Off), new_timer: false,
            progressed: true,
        },
    }
}

/// Looks up the transition table for one state and one set of readings.
pub fn decide(kind: StateKind, pressed: bool, expired: bool, released: bool) -> (t: Transition)
    ensures
        t == transition(kind, (Readings { pressed, expired, released })),
{
    match kind {
        StateKind::NotPressed => if pressed {
            Transition {
                next: StateKind::BlinkOn,
                light: Some(Light::On),
                new_timer: true,
                progressed: true,
            }
        } else {
            Transition {
                next: StateKind::NotPressed,
                light: None,
                new_timer: false,
                progressed: false,
            }
        },
        StateKind::BlinkOn => if expired {
            Transition {
                next: StateKind::BlinkOff,
                light: Some(Light::Off),
                new_timer: true,
                progressed: true,
            }
        } else if released {
            Transition {
                next: StateKind::ReleasedButton,
                light: None,
                new_timer: false,
                progressed: true,
            }
        } else {
            Transition {
                next: StateKind::BlinkOn,
                light: None,
                new_timer: false,
                progressed: false,
            }
        },
        StateKind::BlinkOff => if expired {
            Transition {
                next: StateKind::BlinkOn,
                light: Some(Light::On),
                new_timer: true,
                progressed: true,
            }
        } else if released {
            Transition {
                next: StateKind::ReleasedButton,
                light: None,
                new_timer: false,
                progressed: true,
            }
        } else {
            Transition {
                next: StateKind::BlinkOff,
                light: None,
                new_timer: false,
                progressed: false,
            }
        },
        StateKind::ReleasedButton => Transition {
            next: StateKind::NotPressed,
            light: Some(Light::Off), new_timer: false,
            progressed: true,
        },
    }
}

/// The state reached from `kind` by handling states with the readings `rs`,
/// one after the other.
pub open spec fn kind_after(kind: StateKind, rs: Seq<Readings>) -> StateKind
    decreases rs.len(),
{
    if rs.len() == 0 {
        kind
    } else {
        transition(kind_after(kind, rs.drop_last()), rs.last()).next
    }
}

/// Whether the step with the readings `rs[i]`, made after the steps before
/// it, changed the state.
pub open spec fn progressed_at(kind: StateKind, rs: Seq<Readings>, i: int) -> bool {
    transition(kind_after(kind, rs.take(i)), rs[i]).progressed
}

/// Whether `rs` describes one round of work from `kind`: at least one step,
/// each but the last changing the state.
pub open spec fn is_round(kind: StateKind, rs: Seq<Readings>) -> bool {
    &&& rs.len() >= 1
    &&& forall|i: int| 0 <= i < rs.len() - 1 ==> #[trigger] progressed_at(kind, rs, i)
}

/// Adding a step to a run: the steps before it are as they were, and the new
/// step starts from where they ended.
pub proof fn lemma_round_extends(kind: StateKind, rs: Seq<Readings>, r: Readings)
    ensures
        kind_after(kind, rs.push(r)) == transition(kind_after(kind, rs), r).next,
        progressed_at(kind, rs.push(r), rs.len() as int) == transition(
            kind_after(kind, rs),
            r,
        ).progressed,
        forall|i: int|
            0 <= i < rs.len() ==> #[trigger] progressed_at(kind, rs.push(r), i) == progressed_at(
                kind,
                rs,
                i,
            ),
{
    let longer = rs.push(r);
    assert(longer.drop_last() =~= rs);
    assert(longer.take(rs.len() as int) =~= rs);
    assert forall|i: int| 0 <= i < rs.len() implies #[trigger] progressed_at(kind, longer, i)
        == progressed_at(kind, rs, i) by {
        assert(longer.take(i) =~= rs.take(i));
    }
}

/// The machine: its state, the IO it drives and the factory of its timers.
pub struct StateMachineSync<TF: TimerFactory<T>, T: Timer, I: IO> {
    state: States<T>,
    io: I,
    tf: TF,
    commanded: Ghost<Option<Light>>,
}

impl<TF: TimerFactory<T>, T: Timer, I: IO> StateMachineSync<TF, T, I> {
    /// The current state without its timer.
    pub open spec fn kind(&self) -> StateKind {
        self.state().kind()
    }

    /// The light command the machine last sent to its IO, if it has sent one.
    pub closed spec fn commanded(&self) -> Option<Light> {
        self.commanded@
    }

    /// The state with its timer.
    pub closed spec fn state(&self) -> States<T> {
        self.state
    }

    /// The IO the machine drives.
    pub closed spec fn io(&self) -> I {
        self.io
    }

    /// The factory of the machine's timers.
    pub closed spec fn factory(&self) -> TF {
        self.tf
    }

    /// Whether `r` is what the capabilities of this machine gave while its
    /// state was handled: the button is read as pressed only in `NotPressed`;
    /// in a blinking state the state's timer is asked first, and the button is
    /// read as released only if the timer has not expired. What was not read
    /// counts as false.
    pub open spec fn readings_gave(&self, r: Readings) -> bool {
        &&& if self.kind() == StateKind::NotPressed {
            self.io().may_read_pressed(r.pressed)
        } else {
            !r.pressed
        }
        &&& match self.state().timer() {
            Some(timer) => {
                &&& timer.may_report(r.expired)
                &&& if r.expired {
                    !r.released
                } else {
                    self.io().may_read_pressed(!r.released)
                }
            },
            None => !r.expired && !r.released,
        }
    }

    /// The effect of a transition on the capabilities: the light has been set
    /// as commanded, or the IO is as it was; a blinking state is entered with
    /// a timer that the factory made for the blink period; a state that stays
    /// keeps its timer.
    pub open spec fn carried_out(&self, before: &Self, t: Transition) -> bool {
        &&& self.factory() == before.factory()
        &&& match t.light {
            Some(light) => self.io().lit_from(&before.io(), light) && self.commanded() == Some(
                light,
            ),
            None => self.io() == before.io() && self.commanded() == before.commanded(),
        }
        &&& if t.new_timer {
            self.state().timer() matches Some(timer) && self.factory().makes(
                BLINK_PERIOD_MS,
                &timer,
            )
        } else {
            t.progressed || self.state() == before.state()
        }
    }

    /// The light matches the state: on in `BlinkOn`, off in `BlinkOff`, and
    /// not left on in `NotPressed`.
    pub open spec fn light_in_step(&self) -> bool {
        match self.kind() {
            StateKind::NotPressed => self.commanded() != Some(Light::On),
            StateKind::BlinkOn => self.commanded() == Some(Light::On),
            StateKind::BlinkOff => self.commanded() == Some(Light::Off),
            StateKind::ReleasedButton => true,
        }
    }

    /// A machine in `NotPressed` that has sent no light command yet.
    pub fn new(io: I, tf: TF) -> (machine: Self)
        ensures
            machine.kind() == StateKind::NotPressed,
            machine.commanded() is None,
            machine.io() == io,
            machine.factory() == tf,
    {
        Self { state: States::NotPressed, io, tf, commanded: Ghost(None) }
    }

    /// The current state.
    pub fn current_state(&self) -> (state: &States<T>)
        ensures
            *state == self.state(),
    {
        &self.state
    }

    /// Handles the current state once: reads what the state depends on, looks
    /// up the transition table and performs the transition. Returns whether
    /// the state changed.
    ///
    /// The readings are not known in advance, so the contract says that the
    /// step taken is the table's entry for readings that the capabilities
    /// gave, as [`Self::readings_gave`] lists them.
    pub fn handle_state(&mut self) -> (progressed: bool)
        ensures
            exists|r: Readings|
                {
                    &&& old(self).readings_gave(r)
                    &&& final(self).kind() == (#[trigger] transition(old(self).kind(), r)).next
                    &&& progressed == transition(old(self).kind(), r).progressed
                    &&& final(self).carried_out(old(self), transition(old(self).kind(), r))
                },
            old(self).light_in_step() ==> final(self).light_in_step(),
    {
        let kind = self.state.state_kind();
        let pressed = match kind {
            StateKind::NotPressed => self.io.button_pressed(),
            _ => false,
        };
        let expired = match &self.state {
            States::BlinkOn(timer) => timer.expired(),
            States::BlinkOff(timer) => timer.expired(),
            _ => false,
        };
        let released = match kind {
            StateKind::BlinkOn | StateKind::BlinkOff => !expired && self.io.button_released(),
            _ => false,
        };
        let t = decide(kind, pressed, expired, released);
        if let Some(light) = t.light {
            self.io.set_light(light);
            self.commanded = Ghost(Some(light));
        }
        if t.progressed {
            self.state = match t.next {
                StateKind::NotPressed => States::NotPressed,
                StateKind::BlinkOn => States::BlinkOn(self.tf.new_timer(BLINK_PERIOD_MS)),
                StateKind::BlinkOff => States::BlinkOff(self.tf.new_timer(BLINK_PERIOD_MS)),
                StateKind::ReleasedButton => States::ReleasedButton,
            };
        }
        proof {
            let r = Readings { pressed, expired, released };
            assert(old(self).readings_gave(r));
            assert(self.kind() == transition(old(self).kind(), r).next);
            assert(self.carried_out(old(self), transition(old(self).kind(), r)));
        }
        t.progressed
    }

    /// Whether `befores` and `rs` record the steps that led to this machine:
    /// `befores[i]` is the machine before step `i`, `rs[i]` is what its
    /// capabilities gave, and the machine after the step, which is the next
    /// entry or, at the end, this machine, is in the state the transition
    /// table gives, with the transition carried out.
    #[verifier::opaque]
    pub open spec fn ran(&self, befores: Seq<Self>, rs: Seq<Readings>) -> bool {
        &&& befores.len() == rs.len()
        &&& forall|i: int|
            0 <= i < rs.len() ==> {
                let after = if i + 1 < rs.len() {
                    befores[i + 1]
                } else {
                    *self
                };
                &&& (#[trigger] befores[i]).readings_gave(rs[i])
                &&& after.kind() == transition(befores[i].kind(), rs[i]).next
                &&& after.carried_out(&befores[i], transition(befores[i].kind(), rs[i]))
            }
    }

    /// Before any step there is nothing to record.
    pub proof fn lemma_ran_nothing(&self)
        ensures
            self.ran(Seq::empty(), Seq::empty()),
    {
        reveal(StateMachineSync::ran);
    }

    /// A record of steps grows by one step: if the steps led to `before`, and
    /// one more step with the readings `r` leads from `before` to this
    /// machine, the longer record leads to this machine.
    pub proof fn lemma_ran_extends(
        &self,
        before: Self,
        befores: Seq<Self>,
        rs: Seq<Readings>,
        r: Readings,
    )
        requires
            before.ran(befores, rs),
            before.readings_gave(r),
            self.kind() == transition(before.kind(), r).next,
            self.carried_out(&before, transition(before.kind(), r)),
        ensures
            self.ran(befores.push(before), rs.push(r)),
            befores.len() == rs.len(),
            befores.push(before)[0] == if befores.len() == 0 {
                before
            } else {
                befores[0]
            },
    {
        reveal(StateMachineSync::ran);
        let longer = befores.push(before);
        let more = rs.push(r);
        assert forall|i: int| 0 <= i < more.len() implies {
            let after = if i + 1 < more.len() {
                longer[i + 1]
            } else {
                *self
            };
            &&& (#[trigger] longer[i]).readings_gave(more[i])
            &&& after.kind() == transition(longer[i].kind(), more[i]).next
            &&& after.carried_out(&longer[i], transition(longer[i].kind(), more[i]))
        } by {
            if i < rs.len() {
                assert(longer[i] == befores[i]);
                assert(more[i] == rs[i]);
                if i + 1 < rs.len() {
                    assert(longer[i + 1] == befores[i + 1]);
                }
            }
        }
    }

    /// Handles states until one reports no change, or `usize::MAX` states
    /// have changed; `ReleasedButton` is then left at once, so that it is never
    /// the state the machine rests in.
    ///
    /// The readings are not known in advance, so the contract says that the
    /// work done is a round of steps for readings that the capabilities gave,
    /// step by step as [`Self::ran`] records them, and that it stopped on a
    /// changing step only when the steps ran out.
    pub fn do_work(&mut self)
        ensures
            final(self).kind() != StateKind::ReleasedButton,
            old(self).light_in_step() ==> final(self).light_in_step(),
            exists|rs: Seq<Readings>, befores: Seq<Self>|
                {
                    &&& #[trigger] is_round(old(self).kind(), rs)
                    &&& #[trigger] final(self).ran(befores, rs)
                    &&& befores.len() == rs.len()
                    &&& befores[0] == *old(self)
                    &&& final(self).kind() == kind_after(old(self).kind(), rs)
                    &&& progressed_at(old(self).kind(), rs, rs.len() - 1) ==> rs.len()
                        > usize::MAX
                },
    {
        let ghost start = self.kind();
        let ghost mut before = *self;
        let mut budget: usize = usize::MAX;
        let mut progressed = self.handle_state();
        let ghost mut rs: Seq<Readings> = Seq::empty();
        let ghost mut befores: Seq<Self> = Seq::empty();
        proof {
            let first = choose|r: Readings|
                {
                    &&& before.readings_gave(r)
                    &&& self.kind() == (#[trigger] transition(before.kind(), r)).next
                    &&& progressed == transition(before.kind(), r).progressed
                    &&& self.carried_out(&before, transition(before.kind(), r))
                };
            lemma_round_extends(start, rs, first);
            before.lemma_ran_nothing();
            self.lemma_ran_extends(before, befores, rs, first);
            rs = rs.push(first);
            befores = befores.push(before);
        }
        while progressed && budget > 0
            invariant
                start == old(self).kind(),
                old(self).light_in_step() ==> self.light_in_step(),
                is_round(start, rs),
                self.ran(befores, rs),
                befores.len() == rs.len(),
                befores[0] == *old(self),
                rs.len() == usize::MAX - budget + 1,
                self.kind() == kind_after(start, rs),
                progressed == progressed_at(start, rs, rs.len() - 1),
            decreases budget,
        {
            proof {
                before = *self;
            }
            progressed = self.handle_state();
            budget -= 1;
            proof {
                let next = choose|r: Readings|
                    {
                        &&& before.readings_gave(r)
                        &&& self.kind() == (#[trigger] transition(before.kind(), r)).next
                        &&& progressed == transition(before.kind(), r).progressed
                        &&& self.carried_out(&before, transition(before.kind(), r))
                    };
                lemma_round_extends(start, rs, next);
                self.lemma_ran_extends(before, befores, rs, next);
                rs = rs.push(next);
                befores = befores.push(before);
            }
        }
        if progressed {
            if let StateKind::ReleasedButton = self.state.state_kind() {
                proof {
                    before = *self;
                }
                let left = self.handle_state();
                proof {
                    let next = choose|r: Readings|
                        {
                            &&& before.readings_gave(r)
                            &&& self.kind() == (#[trigger] transition(before.kind(), r)).next
                            &&& left == transition(before.kind(), r).progressed
                            &&& self.carried_out(&before, transition(before.kind(), r))
                        };
                    lemma_round_extends(start, rs, next);
                    self.lemma_ran_extends(before, befores, rs, next);
                    rs = rs.push(next);
                    befores = befores.push(before);
                }
            }
        }
        assert(is_round(start, rs));
    }
}

/// A step that reports no change leaves the state as it was, and
/// `ReleasedButton` always changes.
pub proof fn lemma_no_progress_keeps_state(kind: StateKind, r: Readings)
    ensures
        !transition(kind, r).progressed ==> transition(kind, r).next == kind && kind
            != StateKind::ReleasedButton,
        transition(kind, r).progressed ==> transition(kind, r).next != kind,
{
}

/// The light command of a transition is the light of the state it enters:
/// on in `BlinkOn`, off in `BlinkOff` and in `NotPressed` after a release.
pub proof fn lemma_light_follows_state(kind: StateKind, r: Readings)
    ensures
        transition(kind, r).progressed && transition(kind, r).next == StateKind::BlinkOn
            ==> transition(kind, r).light == Some(Light::On),
        transition(kind, r).progressed && transition(kind, r).next == StateKind::BlinkOff
            ==> transition(kind, r).light == Some(Light::Off),
        transition(kind, r).progressed && transition(kind, r).next == StateKind::NotPressed
            ==> transition(kind, r).light == Some(Light::Off),
{
}

/// What the capabilities report at one moment, for reasoning about whole
/// rounds of work: whether the button is held and whether the current timer
/// has run out.
pub struct World {
    pub pressed: bool,
    pub expired: bool,
}

/// The readings in world `w`. The button is released exactly when it is not
/// pressed.
pub open spec fn readings_in(w: World) -> Readings {
    Readings { pressed: w.pressed, expired: w.expired, released: !w.pressed }
}

/// The world after a transition: a blinking state is entered with a new
/// timer, which has not expired. Nothing else changes by itself.
pub open spec fn world_after(w: World, t: Transition) -> World {
    if t.new_timer {
        World { expired: false, ..w }
    } else {
        w
    }
}

/// One round of work in world `w`: states are handled while they change, at
/// most `budget` more after the first.
pub open spec fn round(kind: StateKind, w: World, budget: nat) -> (StateKind, World)
    decreases budget,
{
    let t = transition(kind, readings_in(w));
    if t.progressed && budget > 0 {
        round(t.next, world_after(w, t), (budget - 1) as nat)
    } else {
        (t.next, world_after(w, t))
    }
}

/// A round of work settles: with room for three further steps it ends in a
/// state that the next step leaves alone, and a second round with no new
/// external event changes nothing.
pub proof fn lemma_round_idempotent(kind: StateKind, w: World, budget: nat)
    requires
        budget >= 3,
    ensures
        !transition(round(kind, w, budget).0, readings_in(round(kind, w, budget).1)).progressed,
        round(round(kind, w, budget).0, round(kind, w, budget).1, budget) == round(kind, w, budget),
{
    reveal_with_fuel(round, 5);
}

/// One round of work in world `w` as the machine does it, with room for
/// `usize::MAX` further steps.
pub open spec fn work(kind: StateKind, w: World) -> (StateKind, World) {
    round(kind, w, usize::MAX as nat)
}

/// Doing the work twice with no new external event changes nothing beyond
/// the first round.
pub proof fn lemma_work_idempotent(kind: StateKind, w: World)
    ensures
        work(work(kind, w).0, work(kind, w).1) == work(kind, w),
{
    lemma_round_idempotent(kind, w, usize::MAX as nat);
}

} // verus!
