use futures::executor::LocalPool;
use futures::task::LocalSpawnExt;
use state_machine::async_frame::{Poll, PollingPool, YieldLater};
use state_machine::asynchronous::{
    decide, monitor_voltage_transition, start, Decision, Flasher, MonitorFailure, Stage, Step,
    VoltageMonitor,
};
use state_machine::{
    AsyncIO, AsyncTimer, ButtonEvent, FirstOrSecond, Light, PollingAsyncIO, PollingAsyncTimer,
    Timer, TimerEvent, IO,
};
use std::cell::{Cell, RefCell};
use std::future::Future;
use std::pin::Pin;
use std::rc::Rc;
use std::sync::atomic::{AtomicUsize, Ordering};
use std::sync::Arc;
use std::task::{Context, Wake, Waker};

#[derive(Clone, Default, Debug)]
struct MockTimer {
    expired: Rc<RefCell<bool>>,
}

impl MockTimer {
    fn new(expired: Rc<RefCell<bool>>) -> Self {
        Self { expired }
    }
}

impl Timer for MockTimer {
    fn expired(&self) -> bool {
        *self.expired.borrow()
    }

    fn reset(&mut self) {
        self.expired.replace(false);
    }
}

#[derive(Default)]
struct MockIO {
    button_pressed: Rc<RefCell<bool>>,
    voltage: Rc<RefCell<bool>>,
    light: Rc<RefCell<Light>>,
}

impl MockIO {
    fn new(
        button_pressed: Rc<RefCell<bool>>,
        light: Rc<RefCell<Light>>,
        voltage: Rc<RefCell<bool>>,
    ) -> Self {
        Self {
            button_pressed,
            light,
            voltage,
        }
    }
}

impl IO for MockIO {
    fn button_pressed(&self) -> bool {
        *self.button_pressed.borrow()
    }
    fn set_light(&mut self, state: Light) {
        *self.light.borrow_mut() = state;
    }
    fn read_voltage(&self) -> bool {
        *self.voltage.borrow()
    }
}

type MockFlasher =
    Flasher<PollingAsyncIO<MockIO>, PollingAsyncTimer<MockTimer>, PollingAsyncTimer<MockTimer>>;

/// Lets an executor evaluate a suspension point.
struct YieldFuture {
    point: YieldLater,
    pool: Rc<RefCell<PollingPool>>,
}

impl Future for YieldFuture {
    type Output = ();

    fn poll(mut self: Pin<&mut Self>, cx: &mut Context<'_>) -> std::task::Poll<()> {
        let this = &mut *self;
        match this.point.poll(&mut this.pool.borrow_mut(), cx.waker()) {
            Poll::Ready(()) => std::task::Poll::Ready(()),
            Poll::Pending => std::task::Poll::Pending,
        }
    }
}

/// Lets an executor evaluate the controller.
struct FlashTask {
    flasher: MockFlasher,
    pool: Rc<RefCell<PollingPool>>,
    run_error: Rc<Cell<Option<&'static str>>>,
}

impl Future for FlashTask {
    type Output = ();

    fn poll(mut self: Pin<&mut Self>, cx: &mut Context<'_>) -> std::task::Poll<()> {
        let this = &mut *self;
        match this.flasher.poll(&mut this.pool.borrow_mut(), cx.waker()) {
            Poll::Ready(Err(e)) => {
                this.run_error.replace(Some(e.message()));
                std::task::Poll::Ready(())
            }
            Poll::Ready(Ok(())) => std::task::Poll::Ready(()),
            Poll::Pending => std::task::Poll::Pending,
        }
    }
}

/// Lets an executor evaluate the monitor.
struct MonitorTask {
    monitor: VoltageMonitor,
    io: PollingAsyncIO<MockIO>,
    timer: PollingAsyncTimer<MockTimer>,
    pool: Rc<RefCell<PollingPool>>,
    voltage_errored: Rc<Cell<Option<&'static str>>>,
}

impl Future for MonitorTask {
    type Output = ();

    fn poll(mut self: Pin<&mut Self>, cx: &mut Context<'_>) -> std::task::Poll<()> {
        let this = &mut *self;
        match this.monitor.poll(&this.io, &this.timer, &mut this.pool.borrow_mut(), cx.waker()) {
            Poll::Ready(e) => {
                this.voltage_errored.replace(Some(e.message()));
                std::task::Poll::Ready(())
            }
            Poll::Pending => std::task::Poll::Pending,
        }
    }
}

struct CountingWake {
    count: AtomicUsize,
}

impl Wake for CountingWake {
    fn wake(self: Arc<Self>) {
        self.count.fetch_add(1, Ordering::SeqCst);
    }

    fn wake_by_ref(self: &Arc<Self>) {
        self.count.fetch_add(1, Ordering::SeqCst);
    }
}

fn counting_waker() -> (Arc<CountingWake>, Waker) {
    let counter = Arc::new(CountingWake { count: AtomicUsize::new(0) });
    let waker = Waker::from(counter.clone());
    (counter, waker)
}

/// A controller on mocks, driven by hand.
struct Rig {
    pool: PollingPool,
    flasher: MockFlasher,
    waker: Waker,
    wakes: Arc<CountingWake>,
    button_pressed: Rc<RefCell<bool>>,
    voltage: Rc<RefCell<bool>>,
    light: Rc<RefCell<Light>>,
    time_expired: Rc<RefCell<bool>>,
    transition_time_expired: Rc<RefCell<bool>>,
}

impl Rig {
    fn new() -> Rig {
        let light = Rc::new(RefCell::new(Light::On));
        let button_pressed = Rc::new(RefCell::new(false));
        let voltage = Rc::new(RefCell::new(true));
        let time_expired = Rc::new(RefCell::new(false));
        let transition_time_expired = Rc::new(RefCell::new(false));
        let mut pool = PollingPool::default();
        let io = PollingAsyncIO::new(
            MockIO::new(button_pressed.clone(), light.clone(), voltage.clone()),
            pool.new_blocker(),
        );
        let timer = PollingAsyncTimer::new(MockTimer::new(time_expired.clone()), pool.new_blocker());
        let transition_timer = PollingAsyncTimer::new(
            MockTimer::new(transition_time_expired.clone()),
            pool.new_blocker(),
        );
        let (wakes, waker) = counting_waker();
        Rig {
            pool,
            flasher: start(io, timer, transition_timer),
            waker,
            wakes,
            button_pressed,
            voltage,
            light,
            time_expired,
            transition_time_expired,
        }
    }

    fn tick(&mut self) -> Poll<Result<(), MonitorFailure>> {
        self.pool.wake_children();
        self.flasher.poll(&mut self.pool, &self.waker)
    }

    fn light(&self) -> Light {
        *self.light.borrow()
    }
}

#[test]
fn polled_async_behavior() {
    let value = Rc::new(RefCell::new(false));
    let started = Rc::new(RefCell::new(false));
    let exited = Rc::new(RefCell::new(false));
    let loop_count = Rc::new(RefCell::new(0usize));
    let poll_count = Rc::new(RefCell::new(0usize));

    let poll_pool = Rc::new(RefCell::new(PollingPool::default()));
    let blocker = poll_pool.borrow_mut().new_blocker();

    let poll_until_true = {
        let value = value.clone();
        let started = started.clone();
        let exited = exited.clone();
        let loop_count = loop_count.clone();
        let poll_count = poll_count.clone();
        let poll_pool = poll_pool.clone();
        async move {
            *started.borrow_mut() = true;
            while !*value.borrow() {
                let count = poll_count.borrow().to_owned() + 1;
                *poll_count.borrow_mut() = count;

                // WAIT!!
                YieldFuture {
                    point: blocker.yield_control(),
                    pool: poll_pool.clone(),
                }
                .await;

                let count = loop_count.borrow().to_owned() + 1;
                *loop_count.borrow_mut() = count;
            }
            *exited.borrow_mut() = true;
        }
    };

    let mut pool = LocalPool::new();
    pool.spawner()
        .spawn_local(poll_until_true)
        .expect("Failed to spawn poll_until_true");

    let mut frame = move || {
        poll_pool.borrow_mut().wake_children();
        pool.run_until_stalled();
    };

    // Pre conditions, async hasn't actually run yet
    assert_eq!(exited.borrow().clone(), false);
    assert_eq!(started.borrow().clone(), false);
    assert_eq!(loop_count.borrow().clone(), 0);

    // Run one frame, it should start and be blocked
    frame();
    assert_eq!(started.borrow().clone(), true);
    assert_eq!(exited.borrow().clone(), false);
    assert_eq!(poll_count.borrow().clone(), 1);
    assert_eq!(loop_count.borrow().clone(), 0);

    // Another frame, counts increment
    frame();
    assert_eq!(started.borrow().clone(), true);
    assert_eq!(exited.borrow().clone(), false);
    assert_eq!(poll_count.borrow().clone(), 2);
    assert_eq!(loop_count.borrow().clone(), 1);

    // Set the value to true, it should exit
    *value.borrow_mut() = true;
    frame();
    assert_eq!(started.borrow().clone(), true);
    assert_eq!(exited.borrow().clone(), true);
    assert_eq!(poll_count.borrow().clone(), 2);
    assert_eq!(loop_count.borrow().clone(), 2);
}

#[test]
fn test_flash_behavior() {
    // A bit of setup to rig up the mock IO and timer to work in this async environment
    let light = Rc::new(RefCell::new(Light::Off));

    let pool_poll = Rc::new(RefCell::new(PollingPool::default()));
    let button_pressed = Rc::new(RefCell::new(false));
    let voltage = Rc::new(RefCell::new(true));
    let io = PollingAsyncIO::new(
        MockIO::new(button_pressed.clone(), light.clone(), voltage),
        pool_poll.borrow_mut().new_blocker(),
    );

    let time_expired = Rc::new(RefCell::new(false));
    let transition_time_expired = Rc::new(RefCell::new(false));
    let timer = PollingAsyncTimer::new(
        MockTimer::new(time_expired.clone()),
        pool_poll.borrow_mut().new_blocker(),
    );
    let transition_timer = PollingAsyncTimer::new(
        MockTimer::new(transition_time_expired.clone()),
        pool_poll.borrow_mut().new_blocker(),
    );

    let mut pool = LocalPool::new();
    let run_error = Rc::new(Cell::new(None));
    {
        let run_error = run_error.clone();
        pool.spawner()
            .spawn_local(FlashTask {
                flasher: start(io, timer, transition_timer),
                pool: pool_poll.clone(),
                run_error,
            })
            .expect("Failed to spawn start");
    }

    let mut frame = move || {
        pool_poll.borrow_mut().wake_children();
        pool.run_until_stalled();
    };

    // Should be off
    for _ in 0..10 {
        frame();
        assert_eq!(*light.borrow(), Light::Off);
    }

    // simulate button press
    button_pressed.replace(true);

    assert_eq!(*light.borrow(), Light::Off);
    for i in 0..10 {
        frame();
        assert_eq!(*light.borrow(), Light::On, "Failed on iteration {}", i);
    }

    // Simulate a timer expiration
    *time_expired.borrow_mut() = true;

    // Should switch to off
    for _ in 0..10 {
        frame();
        assert_eq!(*light.borrow(), Light::Off);
    }
    assert_eq!(time_expired.borrow().clone(), false);

    // And back on again
    *time_expired.borrow_mut() = true;
    for _ in 0..10 {
        frame();
        assert_eq!(*light.borrow(), Light::On);
    }

    // And release the button, should go off for good
    button_pressed.replace(false);
    for _ in 0..10 {
        frame();
        assert_eq!(*light.borrow(), Light::Off);
    }
    assert_eq!(run_error.get(), None);
}

#[test]
fn test_voltage_monitor() {
    let timer_expired = Rc::new(RefCell::new(false));
    let voltage_value = Rc::new(RefCell::new(true));
    let voltage_errored = Rc::new(Cell::new(None));

    let reset = || {
        timer_expired.replace(false);
        voltage_value.replace(true);
        voltage_errored.replace(None);

        let pool_poll = Rc::new(RefCell::new(PollingPool::default()));
        let timer = PollingAsyncTimer::new(
            MockTimer::new(timer_expired.clone()),
            pool_poll.borrow_mut().new_blocker(),
        );
        let io = PollingAsyncIO::new(
            MockIO::new(
                Rc::new(RefCell::new(false)),
                Rc::new(RefCell::new(Light::Off)),
                voltage_value.clone(),
            ),
            pool_poll.borrow_mut().new_blocker(),
        );

        let mut pool = LocalPool::new();
        let voltage_errored = voltage_errored.clone();
        pool.spawner()
            .spawn_local(MonitorTask {
                monitor: monitor_voltage_transition(true),
                io,
                timer,
                pool: pool_poll.clone(),
                voltage_errored,
            })
            .expect("must spawn");

        move || {
            pool_poll.borrow_mut().wake_children();
            pool.run_until_stalled();
        }
    };
    let mut frame = reset();

    // Start low, should wait for the transition
    voltage_value.replace(false);
    frame();
    assert_eq!(voltage_errored.get(), None);

    // expire timer and should fail.
    *timer_expired.borrow_mut() = true;
    frame();
    assert_eq!(
        voltage_errored.get(),
        Some("Timer expired before voltage transition")
    );

    let mut frame = reset();
    frame();
    assert_eq!(voltage_errored.get(), None);

    // Change our voltage, and internally should transition to the waiting
    // for the voltage to transition back
    frame();
    assert_eq!(voltage_errored.get(), None);

    // Now drop voltage and see that it fails
    voltage_value.replace(false);
    frame();
    assert_eq!(
        voltage_errored.get(),
        Some("Voltage transitioned away from expected reading after transition.")
    );

    // Just for fun, if the timer expires after transition, aok
    let mut frame = reset();
    voltage_value.replace(true);
    frame();
    assert_eq!(voltage_errored.get(), None);

    // Should have transitioned to the waiting for the voltage to transition back
    *timer_expired.borrow_mut() = true;
    frame();
    assert_eq!(voltage_errored.get(), None);
}

#[test]
fn monitor_signal_transitions_late_then_departs() {
    let mut rig = Rig::new();
    rig.voltage.replace(false);
    rig.button_pressed.replace(true);
    for _ in 0..5 {
        assert_eq!(rig.tick(), Poll::Pending);
        assert_eq!(rig.flasher.stage(), Stage::Flashing);
    }
    rig.voltage.replace(true);
    for _ in 0..5 {
        assert_eq!(rig.tick(), Poll::Pending);
    }
    // once the signal has transitioned the transition timer no longer matters
    rig.transition_time_expired.replace(true);
    for _ in 0..5 {
        assert_eq!(rig.tick(), Poll::Pending);
    }
    rig.voltage.replace(false);
    assert_eq!(rig.tick(), Poll::Ready(Err(MonitorFailure::SignalLeftExpectedReading)));
    assert_eq!(rig.flasher.stage(), Stage::Finished(MonitorFailure::SignalLeftExpectedReading));
    // a stopped controller stays stopped
    rig.voltage.replace(true);
    assert_eq!(rig.tick(), Poll::Ready(Err(MonitorFailure::SignalLeftExpectedReading)));
}

#[test]
fn monitor_timer_expires_before_transition() {
    let mut rig = Rig::new();
    rig.voltage.replace(false);
    rig.button_pressed.replace(true);
    assert_eq!(rig.tick(), Poll::Pending);
    rig.transition_time_expired.replace(true);
    assert_eq!(rig.tick(), Poll::Ready(Err(MonitorFailure::TimerExpiredBeforeTransition)));
    assert_eq!(rig.flasher.stage(), Stage::Finished(MonitorFailure::TimerExpiredBeforeTransition));
    assert_eq!(rig.light(), Light::On);
}

#[test]
fn monitor_failure_messages() {
    assert_eq!(
        MonitorFailure::TimerExpiredBeforeTransition.message(),
        "Timer expired before voltage transition"
    );
    assert_eq!(
        MonitorFailure::SignalLeftExpectedReading.message(),
        "Voltage transitioned away from expected reading after transition."
    );
}

#[test]
fn monitor_advance_follows_its_phases() {
    let mut monitor = monitor_voltage_transition(true);
    assert!(!monitor.has_transitioned());
    assert_eq!(monitor.advance(Poll::Pending, Poll::Pending, Poll::Ready(())), Poll::Pending);
    assert!(!monitor.has_transitioned());
    // the signal is listed first, so it wins a tie with the timer
    assert_eq!(
        monitor.advance(Poll::Ready(()), Poll::Ready(TimerEvent), Poll::Pending),
        Poll::Pending
    );
    assert!(monitor.has_transitioned());
    assert_eq!(
        monitor.advance(Poll::Pending, Poll::Ready(TimerEvent), Poll::Pending),
        Poll::Pending
    );
    assert_eq!(
        monitor.advance(Poll::Pending, Poll::Pending, Poll::Ready(())),
        Poll::Ready(MonitorFailure::SignalLeftExpectedReading)
    );

    let mut late = monitor_voltage_transition(false);
    assert_eq!(
        late.advance(Poll::Pending, Poll::Ready(TimerEvent), Poll::Ready(())),
        Poll::Ready(MonitorFailure::TimerExpiredBeforeTransition)
    );
    assert!(!late.has_transitioned());

    let mut both = monitor_voltage_transition(true);
    assert_eq!(
        both.advance(Poll::Ready(()), Poll::Pending, Poll::Ready(())),
        Poll::Ready(MonitorFailure::SignalLeftExpectedReading)
    );
}

#[test]
fn controller_steps_one_transition_at_a_time() {
    let mut rig = Rig::new();
    assert_eq!(rig.flasher.stage(), Stage::NotStarted);
    assert_eq!(rig.light(), Light::On);
    assert_eq!(rig.flasher.step(&mut rig.pool, &rig.waker), Step::Advanced);
    assert_eq!(rig.flasher.stage(), Stage::WaitingForPress);
    assert_eq!(rig.light(), Light::Off);
    assert_eq!(rig.flasher.step(&mut rig.pool, &rig.waker), Step::Suspended);

    rig.button_pressed.replace(true);
    rig.time_expired.replace(true);
    rig.transition_time_expired.replace(true);
    assert_eq!(rig.flasher.step(&mut rig.pool, &rig.waker), Step::Advanced);
    assert_eq!(rig.flasher.stage(), Stage::Flashing);
    assert_eq!(rig.flasher.light(), Light::On);
    assert_eq!(rig.light(), Light::On);
    // entering the flash cycle reset both timers
    assert!(!*rig.time_expired.borrow());
    assert!(!*rig.transition_time_expired.borrow());
    assert_eq!(rig.flasher.step(&mut rig.pool, &rig.waker), Step::Suspended);

    // release wins over a timer that expired in the same tick
    rig.time_expired.replace(true);
    rig.button_pressed.replace(false);
    assert_eq!(rig.flasher.step(&mut rig.pool, &rig.waker), Step::Advanced);
    assert_eq!(rig.flasher.stage(), Stage::WaitingForPress);
    assert_eq!(rig.light(), Light::Off);
    assert!(*rig.time_expired.borrow());
}

#[test]
fn suspended_controller_registers_and_is_woken_by_the_pool() {
    let mut rig = Rig::new();
    assert_eq!(rig.flasher.poll(&mut rig.pool, &rig.waker), Poll::Pending);
    assert_eq!(rig.wakes.count.load(Ordering::SeqCst), 0);
    rig.pool.wake_children();
    // only the wait for a press is suspended
    assert_eq!(rig.wakes.count.load(Ordering::SeqCst), 1);
    rig.button_pressed.replace(true);
    rig.voltage.replace(false);
    assert_eq!(rig.flasher.poll(&mut rig.pool, &rig.waker), Poll::Pending);
    rig.pool.wake_children();
    // release and signal share the slot of the IO; each timer has its own
    assert_eq!(rig.wakes.count.load(Ordering::SeqCst), 4);
    rig.pool.wake_children();
    assert_eq!(rig.wakes.count.load(Ordering::SeqCst), 4);
}

#[test]
fn repeated_ticks_without_events_change_nothing() {
    let mut rig = Rig::new();
    let observe = |rig: &Rig| {
        (
            rig.flasher.stage(),
            rig.flasher.light(),
            rig.light(),
            *rig.time_expired.borrow(),
            *rig.transition_time_expired.borrow(),
        )
    };
    for pressed in [false, true, true, false] {
        rig.button_pressed.replace(pressed);
        rig.time_expired.replace(pressed);
        assert_eq!(rig.tick(), Poll::Pending);
        let after_first = observe(&rig);
        for _ in 0..3 {
            assert_eq!(rig.tick(), Poll::Pending);
            assert_eq!(observe(&rig), after_first);
        }
    }
}

#[test]
fn controller_decision_table_entries() {
    let pressed = || Poll::Ready(ButtonEvent);
    let idle = || Poll::<ButtonEvent>::Pending;
    let quiet = || Poll::<Result<FirstOrSecond<ButtonEvent, TimerEvent>, MonitorFailure>>::Pending;
    assert_eq!(
        decide(Stage::NotStarted, Light::On, pressed(), quiet()),
        Decision {
            stage: Stage::WaitingForPress,
            light: Light::Off,
            command: Some(Light::Off),
            reset_timers: false,
            step: Step::Advanced,
        }
    );
    assert_eq!(
        decide(Stage::WaitingForPress, Light::Off, idle(), quiet()),
        Decision {
            stage: Stage::WaitingForPress,
            light: Light::Off,
            command: None,
            reset_timers: false,
            step: Step::Suspended,
        }
    );
    assert_eq!(
        decide(Stage::WaitingForPress, Light::Off, pressed(), quiet()),
        Decision {
            stage: Stage::Flashing,
            light: Light::On,
            command: Some(Light::On),
            reset_timers: true,
            step: Step::Advanced,
        }
    );
    assert_eq!(
        decide(Stage::Flashing, Light::On, idle(), Poll::Ready(Ok(FirstOrSecond::Second(TimerEvent)))),
        Decision {
            stage: Stage::Flashing,
            light: Light::Off,
            command: Some(Light::Off),
            reset_timers: true,
            step: Step::Advanced,
        }
    );
    assert_eq!(
        decide(Stage::Flashing, Light::On, idle(), Poll::Ready(Ok(FirstOrSecond::First(ButtonEvent)))),
        Decision {
            stage: Stage::WaitingForPress,
            light: Light::Off,
            command: Some(Light::Off),
            reset_timers: false,
            step: Step::Advanced,
        }
    );
    let failure = MonitorFailure::SignalLeftExpectedReading;
    assert_eq!(
        decide(Stage::Flashing, Light::Off, idle(), Poll::Ready(Err(failure))),
        Decision {
            stage: Stage::Finished(failure),
            light: Light::Off,
            command: None,
            reset_timers: false,
            step: Step::Failed(failure),
        }
    );
    assert_eq!(
        decide(Stage::Finished(failure), Light::Off, pressed(), quiet()),
        Decision {
            stage: Stage::Finished(failure),
            light: Light::Off,
            command: None,
            reset_timers: false,
            step: Step::Failed(failure),
        }
    );
}

#[test]
fn adapters_wait_on_their_capability() {
    let (wakes, waker) = counting_waker();
    let mut pool = PollingPool::new();
    let pressed = Rc::new(RefCell::new(false));
    let voltage = Rc::new(RefCell::new(false));
    let light = Rc::new(RefCell::new(Light::Off));
    let expired = Rc::new(RefCell::new(false));
    let mut io = PollingAsyncIO::new(
        MockIO::new(pressed.clone(), light.clone(), voltage.clone()),
        pool.new_blocker(),
    );
    let mut timer = PollingAsyncTimer::new(MockTimer::new(expired.clone()), pool.new_blocker());

    assert_eq!(io.wait_until_button_pressed(&mut pool, &waker), Poll::Pending);
    assert_eq!(io.wait_for_released(&mut pool, &waker), Poll::Ready(ButtonEvent));
    assert_eq!(io.wait_until_voltage_is(false, &mut pool, &waker), Poll::Ready(()));
    assert_eq!(io.wait_until_voltage_is(true, &mut pool, &waker), Poll::Pending);
    assert_eq!(timer.wait_expired(&mut pool, &waker), Poll::Pending);
    pool.wake_children();
    assert_eq!(wakes.count.load(Ordering::SeqCst), 2);

    pressed.replace(true);
    voltage.replace(true);
    expired.replace(true);
    assert_eq!(io.wait_until_button_pressed(&mut pool, &waker), Poll::Ready(ButtonEvent));
    assert_eq!(io.wait_for_released(&mut pool, &waker), Poll::Pending);
    assert_eq!(io.wait_until_voltage_is(true, &mut pool, &waker), Poll::Ready(()));
    assert_eq!(timer.wait_expired(&mut pool, &waker), Poll::Ready(TimerEvent));
    AsyncTimer::reset(&mut timer);
    assert_eq!(timer.wait_expired(&mut pool, &waker), Poll::Pending);
    AsyncIO::set_light(&mut io, Light::On);
    assert_eq!(*light.borrow(), Light::On);
    IO::set_light(&mut io, Light::Off);
    assert_eq!(*light.borrow(), Light::Off);
    assert!(IO::button_pressed(&io));
    assert!(!IO::button_released(&io));
    assert!(IO::read_voltage(&io));
}

#[test]
fn identical_tick_sequences_give_identical_traces() {
    let run = || {
        let mut rig = Rig::new();
        let mut trace = Vec::new();
        let script = [
            (false, false, true),
            (true, false, true),
            (true, true, true),
            (true, true, false),
            (false, true, false),
            (true, false, true),
            (true, false, false),
        ];
        for (pressed, expired, voltage) in script {
            rig.button_pressed.replace(pressed);
            rig.time_expired.replace(expired);
            rig.voltage.replace(voltage);
            let outcome = rig.tick();
            trace.push((outcome, rig.flasher.stage(), rig.light()));
        }
        trace
    };
    let first = run();
    for _ in 0..20 {
        assert_eq!(run(), first);
    }
    assert_eq!(
        first.last(),
        Some(&(
            Poll::Ready(Err(MonitorFailure::SignalLeftExpectedReading)),
            Stage::Finished(MonitorFailure::SignalLeftExpectedReading),
            Light::On
        ))
    );
}
