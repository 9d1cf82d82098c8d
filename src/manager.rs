//! The per-dial state machine: configure the device, then poll the sensor
//! and push values, pausing while the shared running signal reads false.
//!
//! The caller performs each [`Action`] (a device call through the retry
//! policy, a sensor read, a wait) and hands back the [`Event`] it produced.
use vstd::prelude::*;
use crate::api::ErrorKind;
use crate::config::{DialConfig, Easing};
use crate::dial::{Backlight, Percent, PercentError};
use crate::metric::{Metric, spec_usage_percent, usage_percent};
use crate::multi_error::MultiError;

verus! {

/// Consecutive sensor failures after which a dial manager gives up.
pub const MAX_SENSOR_ERRORS: usize = 4;

/// One call to the device.
#[derive(Copy, Clone, Debug, PartialEq, Eq)]
pub enum DeviceOp {
    /// Set the dial's display name to the manager's name.
    SetName,
    SetDialEasing(Easing),
    SetBacklightEasing(Easing),
    SetBacklight(Backlight),
    /// Upload the image bundled for the metric.
    SetImage(Metric),
    /// Move the needle.
    SetValue(Percent),
}

/// A sensor reading, as plain integers.
#[derive(Copy, Clone, Debug, PartialEq, Eq)]
pub enum Reading {
    /// A quantity already in percent-like units (load, temperature, charge).
    Level(u8),
    /// A resource of `total` units of which `free` are unused.
    Usage { total: u64, free: u64 },
}

/// What happened since the last action.
#[derive(Clone, Debug)]
pub enum Event {
    /// The task started.
    Started,
    /// The device call asked for succeeded.
    DeviceDone,
    /// The device call asked for failed, after its retries.
    DeviceFailed(ErrorKind),
    /// The running signal was read, or changed to, this value.
    Signal(bool),
    /// The running signal can no longer change.
    SignalClosed,
    /// The sensor produced a reading.
    Sampled(Reading),
    /// The sensor failed, with this message.
    SensorFailed(String),
    /// The update interval ticked.
    Ticked,
}

/// Why a dial manager stopped.
#[derive(Clone, Debug)]
pub enum Fault {
    /// A device call failed for good.
    Device { op: DeviceOp, error: ErrorKind },
    /// A level reading was over 100.
    InvalidValue(PercentError),
    /// A usage reading had no percent (see `usage_percent`).
    InvalidReading { total: u64, free: u64 },
    /// The sensor failed this many times in a row.
    SensorStreak(MultiError<String>),
    /// The running signal's sender is gone.
    SignalClosed,
    /// An event arrived that the current state does not wait for.
    UnexpectedEvent,
}

/// What the caller does next.
#[derive(Clone, Debug)]
pub enum Action {
    /// Perform this device call through the retry policy.
    Device(DeviceOp),
    /// Read the running signal's current value.
    ReadSignal,
    /// Wait until the running signal changes, then report its value.
    WaitForResume,
    /// Read the sensor for this metric.
    Sample(Metric),
    /// Wait for the next tick of the update interval.
    WaitTick,
    /// Stop the task with this fault.
    Terminate(Fault),
}

/// Where the state machine stands.
#[derive(Copy, Clone, Debug, PartialEq, Eq, Structural)]
pub enum Phase {
    /// Not started yet.
    Idle,
    /// A configuration call is in flight.
    Configuring,
    /// At the top of the polling loop: the signal is being read.
    Checking,
    /// The signal read false; waiting for it to change.
    Paused,
    /// Resumed: the backlight is being set again.
    Restoring,
    /// The sensor is being read.
    Sampling,
    /// A value is being pushed.
    Pushing,
    /// Waiting for the next tick.
    Waiting,
    /// Stopped for good.
    Terminated,
}

/// The kind of a fault, as contracts speak of it.
pub enum FaultKind {
    Device(DeviceOp, ErrorKind),
    InvalidValue(u8),
    InvalidReading(u64, u64),
    SensorStreak,
    SignalClosed,
    UnexpectedEvent,
}

/// An action, as contracts speak of it.
pub enum Step {
    Device(DeviceOp),
    ReadSignal,
    WaitForResume,
    Sample(Metric),
    WaitTick,
    Fail(FaultKind),
}

impl Action {
    pub open spec fn step(self) -> Step {
        match self {
            Action::Device(op) => Step::Device(op),
            Action::ReadSignal => Step::ReadSignal,
            Action::WaitForResume => Step::WaitForResume,
            Action::Sample(m) => Step::Sample(m),
            Action::WaitTick => Step::WaitTick,
            Action::Terminate(f) => Step::Fail(
                match f {
                    Fault::Device { op, error } => FaultKind::Device(op, error),
                    Fault::InvalidValue(e) => FaultKind::InvalidValue(e.0),
                    Fault::InvalidReading { total, free } => FaultKind::InvalidReading(total, free),
                    Fault::SensorStreak(_) => FaultKind::SensorStreak,
                    Fault::SignalClosed => FaultKind::SignalClosed,
                    Fault::UnexpectedEvent => FaultKind::UnexpectedEvent,
                },
            ),
        }
    }
}

/// The state of a dial manager, as contracts speak of it.
pub struct Model {
    pub phase: Phase,
    /// The device call in flight, if any.
    pub in_flight: Option<DeviceOp>,
    /// How many configuration calls have been issued.
    pub next_step: nat,
    /// Consecutive sensor failures since the last successful push.
    pub streak: nat,
    /// The configuration calls, in order.
    pub steps: Seq<DeviceOp>,
    pub metric: Metric,
    /// The backlight color set at configuration and again on each resume.
    pub color: Backlight,
}

/// The configuration calls for `c`, in order: name, needle easing if any,
/// backlight easing if any, backlight color, image.
pub open spec fn config_steps(c: DialConfig, color: Backlight) -> Seq<DeviceOp> {
    seq![DeviceOp::SetName] + match c.easing {
        Some(e) => seq![DeviceOp::SetDialEasing(e)],
        None => Seq::empty(),
    } + match c.backlight.easing {
        Some(e) => seq![DeviceOp::SetBacklightEasing(e)],
        None => Seq::empty(),
    } + seq![DeviceOp::SetBacklight(color), DeviceOp::SetImage(c.metric)]
}

/// `m` moved to `phase` with nothing in flight.
pub open spec fn goto(m: Model, phase: Phase) -> Model {
    Model { phase, in_flight: None, ..m }
}

/// `m` moved to `phase` with `op` in flight, asking for it.
pub open spec fn call(m: Model, phase: Phase, op: DeviceOp) -> (Model, Step) {
    (Model { phase, in_flight: Some(op), ..m }, Step::Device(op))
}

pub open spec fn fail(m: Model, f: FaultKind) -> (Model, Step) {
    (goto(m, Phase::Terminated), Step::Fail(f))
}

/// The value pushed for a reading, if it has one.
pub open spec fn reading_value(r: Reading) -> Option<int> {
    match r {
        Reading::Level(v) => if v <= 100 {
            Some(v as int)
        } else {
            None
        },
        Reading::Usage { total, free } => spec_usage_percent(total, free),
    }
}

pub open spec fn reading_fault(r: Reading) -> FaultKind {
    match r {
        Reading::Level(v) => FaultKind::InvalidValue(v),
        Reading::Usage { total, free } => FaultKind::InvalidReading(total, free),
    }
}

/// One transition: the state after `e` and the action asked for.
pub open spec fn next(m: Model, e: Event) -> (Model, Step) {
    match (m.phase, e) {
        (Phase::Terminated, _) => fail(m, FaultKind::UnexpectedEvent),
        (_, Event::SignalClosed) => fail(m, FaultKind::SignalClosed),
        (Phase::Idle, Event::Started) => call(
            Model { next_step: 1, ..m },
            Phase::Configuring,
            m.steps[0],
        ),
        (Phase::Configuring, Event::DeviceDone) => if m.next_step < m.steps.len() {
            call(Model { next_step: m.next_step + 1, ..m }, Phase::Configuring, m.steps[m.next_step as int])
        } else {
            (goto(m, Phase::Checking), Step::ReadSignal)
        },
        (Phase::Checking, Event::Signal(running)) => if running {
            (goto(m, Phase::Sampling), Step::Sample(m.metric))
        } else {
            (goto(m, Phase::Paused), Step::WaitForResume)
        },
        (Phase::Paused, Event::Signal(running)) => if running {
            call(m, Phase::Restoring, DeviceOp::SetBacklight(m.color))
        } else {
            (goto(m, Phase::Paused), Step::WaitForResume)
        },
        (Phase::Restoring, Event::DeviceDone) => (goto(m, Phase::Sampling), Step::Sample(m.metric)),
        (Phase::Sampling, Event::Sampled(r)) => match reading_value(r) {
            Some(v) => call(m, Phase::Pushing, DeviceOp::SetValue(Percent::from_value(v))),
            None => fail(m, reading_fault(r)),
        },
        (Phase::Sampling, Event::SensorFailed(_)) => if m.streak + 1 >= MAX_SENSOR_ERRORS {
            fail(Model { streak: 0, ..m }, FaultKind::SensorStreak)
        } else {
            (goto(Model { streak: m.streak + 1, ..m }, Phase::Waiting), Step::WaitTick)
        },
        (Phase::Pushing, Event::DeviceDone) => if m.metric == Metric::CpuLoad {
            (goto(Model { streak: 0, ..m }, Phase::Checking), Step::ReadSignal)
        } else {
            (goto(Model { streak: 0, ..m }, Phase::Waiting), Step::WaitTick)
        },
        (Phase::Waiting, Event::Ticked) => (goto(m, Phase::Checking), Step::ReadSignal),
        (_, Event::DeviceFailed(k)) => match m.in_flight {
            Some(op) => fail(m, FaultKind::Device(op, k)),
            None => fail(m, FaultKind::UnexpectedEvent),
        },
        _ => fail(m, FaultKind::UnexpectedEvent),
    }
}

/// The task that keeps one dial in step with one metric.
pub struct DialManager {
    name: String,
    config: DialConfig,
    color: Backlight,
    steps: Vec<DeviceOp>,
    next_step: usize,
    phase: Phase,
    in_flight: Option<DeviceOp>,
    sensor_errors: MultiError<String>,
}

impl View for DialManager {
    type V = Model;

    closed spec fn view(&self) -> Model {
        Model {
            phase: self.phase,
            in_flight: self.in_flight,
            next_step: self.next_step as nat,
            streak: self.sensor_errors.errors@.len(),
            steps: self.steps@,
            metric: self.config.metric,
            color: self.color,
        }
    }
}

impl DialManager {
    pub closed spec fn wf(&self) -> bool {
        &&& self.steps@ == config_steps(self.config, self.color)
        &&& 1 <= self.steps@.len() <= 5
        &&& self.next_step <= self.steps@.len()
        &&& self.sensor_errors.max_errors == Some(MAX_SENSOR_ERRORS)
        &&& self.sensor_errors.errors@.len() < MAX_SENSOR_ERRORS
        &&& (self.phase is Configuring ==> self.next_step >= 1 && self.in_flight == Some(
            self.steps@[self.next_step - 1],
        ))
        &&& (self.phase is Restoring ==> self.in_flight == Some(DeviceOp::SetBacklight(self.color)))
        &&& (self.phase is Pushing ==> self.in_flight matches Some(DeviceOp::SetValue(_)))
        &&& (self.phase is Idle ==> self.next_step == 0 && self.in_flight is None)
    }

    pub closed spec fn spec_name(&self) -> Seq<char> {
        self.name@
    }

    /// A manager for the dial named `name`, configured by `config`, not
    /// started yet.
    pub fn new(name: String, config: DialConfig) -> (r: DialManager)
        ensures
            r.wf(),
            r.spec_name() == name@,
            r@.phase == Phase::Idle,
            r@.streak == 0,
            r@.metric == config.metric,
            config.backlight.mode.shows(r@.color),
            r@.steps == config_steps(config, r@.color),
    {
        let color = config.backlight.mode.color();
        let mut steps: Vec<DeviceOp> = Vec::new();
        steps.push(DeviceOp::SetName);
        if let Some(e) = config.easing {
            steps.push(DeviceOp::SetDialEasing(e));
        }
        if let Some(e) = config.backlight.easing {
            steps.push(DeviceOp::SetBacklightEasing(e));
        }
        steps.push(DeviceOp::SetBacklight(color));
        steps.push(DeviceOp::SetImage(config.metric));
        assert(steps@ =~= config_steps(config, color));
        DialManager {
            name,
            config,
            color,
            steps,
            next_step: 0,
            phase: Phase::Idle,
            in_flight: None,
            sensor_errors: MultiError::with_max_errors(
                "reading metric data failed 4 times in a row",
                MAX_SENSOR_ERRORS,
            ),
        }
    }

    pub fn name(&self) -> (r: &str)
        ensures
            r@ == self.spec_name(),
    {
        self.name.as_str()
    }

    pub fn config(&self) -> (r: &DialConfig)
        ensures
            r.metric == self@.metric,
    {
        &self.config
    }

    pub fn phase(&self) -> (r: Phase)
        ensures
            r == self@.phase,
    {
        self.phase
    }

    fn issue(&mut self, phase: Phase, op: DeviceOp) -> (r: Action)
        ensures
            final(self)@ == (Model { phase, in_flight: Some(op), ..old(self)@ }),
            final(self).config == old(self).config,
            final(self).color == old(self).color,
            final(self).name == old(self).name,
            final(self).sensor_errors == old(self).sensor_errors,
            r.step() == Step::Device(op),
    {
        self.phase = phase;
        self.in_flight = Some(op);
        Action::Device(op)
    }

    fn go(&mut self, phase: Phase, action: Action) -> (r: Action)
        ensures
            final(self)@ == goto(old(self)@, phase),
            final(self).config == old(self).config,
            final(self).color == old(self).color,
            final(self).name == old(self).name,
            final(self).sensor_errors == old(self).sensor_errors,
            final(self).steps == old(self).steps,
            final(self).next_step == old(self).next_step,
            r == action,
    {
        self.phase = phase;
        self.in_flight = None;
        action
    }

    /// Takes the event that the last action produced and returns the next
    /// action, following [`next`].
    pub fn handle(&mut self, event: Event) -> (r: Action)
        requires
            old(self).wf(),
        ensures
            final(self).wf(),
            final(self).spec_name() == old(self).spec_name(),
            (final(self)@, r.step()) == next(old(self)@, event),
            r matches Action::Terminate(Fault::SensorStreak(errors)) ==> errors.errors@.len()
                == MAX_SENSOR_ERRORS,
    {
        let ghost m = self@;
        match (self.phase, event) {
            (Phase::Terminated, _) => self.go(
                Phase::Terminated,
                Action::Terminate(Fault::UnexpectedEvent),
            ),
            (_, Event::SignalClosed) => self.go(
                Phase::Terminated,
                Action::Terminate(Fault::SignalClosed),
            ),
            (Phase::Idle, Event::Started) => {
                let op = self.steps[0];
                self.next_step = 1;
                self.issue(Phase::Configuring, op)
            },
            (Phase::Configuring, Event::DeviceDone) => {
                if self.next_step < self.steps.len() {
                    let op = self.steps[self.next_step];
                    self.next_step = self.next_step + 1;
                    self.issue(Phase::Configuring, op)
                } else {
                    self.go(Phase::Checking, Action::ReadSignal)
                }
            },
            (Phase::Checking, Event::Signal(running)) => {
                if running {
                    let metric = self.config.metric;
                    self.go(Phase::Sampling, Action::Sample(metric))
                } else {
                    self.go(Phase::Paused, Action::WaitForResume)
                }
            },
            (Phase::Paused, Event::Signal(running)) => {
                if running {
                    let color = self.color;
                    self.issue(Phase::Restoring, DeviceOp::SetBacklight(color))
                } else {
                    self.go(Phase::Paused, Action::WaitForResume)
                }
            },
            (Phase::Restoring, Event::DeviceDone) => {
                let metric = self.config.metric;
                self.go(Phase::Sampling, Action::Sample(metric))
            },
            (Phase::Sampling, Event::Sampled(reading)) => {
                let value = match reading {
                    Reading::Level(v) => match Percent::new(v) {
                        Ok(p) => Ok(p),
                        Err(e) => Err(Fault::InvalidValue(e)),
                    },
                    Reading::Usage { total, free } => match usage_percent(total, free) {
                        Some(p) => Ok(p),
                        None => Err(Fault::InvalidReading { total, free }),
                    },
                };
                match value {
                    Ok(p) => {
                        proof {
                            Percent::lemma_from_value(p);
                        }
                        self.issue(Phase::Pushing, DeviceOp::SetValue(p))
                    },
                    Err(f) => self.go(Phase::Terminated, Action::Terminate(f)),
                }
            },
            (Phase::Sampling, Event::SensorFailed(msg)) => {
                match self.sensor_errors.push_error(msg) {
                    Ok(()) => self.go(Phase::Waiting, Action::WaitTick),
                    Err(full) => self.go(
                        Phase::Terminated,
                        Action::Terminate(Fault::SensorStreak(full)),
                    ),
                }
            },
            (Phase::Pushing, Event::DeviceDone) => {
                self.sensor_errors.clear();
                if self.config.metric == Metric::CpuLoad {
                    self.go(Phase::Checking, Action::ReadSignal)
                } else {
                    self.go(Phase::Waiting, Action::WaitTick)
                }
            },
            (Phase::Waiting, Event::Ticked) => self.go(Phase::Checking, Action::ReadSignal),
            (_, Event::DeviceFailed(error)) => {
                match self.in_flight {
                    Some(op) => self.go(
                        Phase::Terminated,
                        Action::Terminate(Fault::Device { op, error }),
                    ),
                    None => self.go(Phase::Terminated, Action::Terminate(Fault::UnexpectedEvent)),
                }
            },
            _ => self.go(Phase::Terminated, Action::Terminate(Fault::UnexpectedEvent)),
        }
    }
}

/// The actions a manager in state `m` asks for when fed `events` in order.
pub open spec fn trace(m: Model, events: Seq<Event>) -> Seq<Step>
    decreases events.len(),
{
    if events.len() == 0 {
        Seq::empty()
    } else {
        let (m2, s) = next(m, events[0]);
        seq![s] + trace(m2, events.drop_first())
    }
}

/// The state of a manager in state `m` after it is fed `events` in order.
pub open spec fn after(m: Model, events: Seq<Event>) -> Model
    decreases events.len(),
{
    if events.len() == 0 {
        m
    } else {
        after(next(m, events[0]).0, events.drop_first())
    }
}

pub open spec fn is_push(s: Step) -> bool {
    s matches Step::Device(DeviceOp::SetValue(_))
}

pub proof fn lemma_trace_len(m: Model, events: Seq<Event>)
    ensures
        trace(m, events).len() == events.len(),
    decreases events.len(),
{
    if events.len() > 0 {
        lemma_trace_len(next(m, events[0]).0, events.drop_first());
    }
}

/// Feeding two lists of events in turn is feeding their concatenation.
pub proof fn lemma_trace_concat(m: Model, a: Seq<Event>, b: Seq<Event>)
    ensures
        trace(m, a + b) == trace(m, a) + trace(after(m, a), b),
        after(m, a + b) == after(after(m, a), b),
    decreases a.len(),
{
    if a.len() == 0 {
        assert(a + b == b);
        assert(trace(m, a) + trace(after(m, a), b) == trace(m, b));
    } else {
        let m2 = next(m, a[0]).0;
        assert((a + b).drop_first() == a.drop_first() + b);
        assert((a + b)[0] == a[0]);
        lemma_trace_concat(m2, a.drop_first(), b);
        assert(trace(m, a + b) == seq![next(m, a[0]).1] + trace(m2, a.drop_first() + b));
        assert(seq![next(m, a[0]).1] + (trace(m2, a.drop_first()) + trace(after(m2, a.drop_first()), b))
            == (seq![next(m, a[0]).1] + trace(m2, a.drop_first())) + trace(after(m2, a.drop_first()), b));
    }
}

proof fn lemma_trace_step(m: Model, events: Seq<Event>)
    requires
        events.len() > 0,
    ensures
        trace(m, events)[0] == next(m, events[0]).1,
        forall|i: int|
            1 <= i < events.len() ==> #[trigger] trace(m, events)[i] == trace(
                next(m, events[0]).0,
                events.drop_first(),
            )[i - 1],
        trace(m, events).len() == events.len(),
{
    lemma_trace_len(next(m, events[0]).0, events.drop_first());
}

/// A stopped manager asks for nothing but to stop.
proof fn lemma_terminated_stays(m: Model, events: Seq<Event>, i: int)
    requires
        m.phase == Phase::Terminated,
        0 <= i < events.len(),
    ensures
        trace(m, events)[i] is Fail,
    decreases events.len(),
{
    let m2 = next(m, events[0]).0;
    lemma_trace_step(m, events);
    if i > 0 {
        lemma_terminated_stays(m2, events.drop_first(), i - 1);
    }
}

/// While restoring the backlight, a value is pushed only after the backlight
/// call is reported done.
proof fn lemma_restoring_waits(m: Model, events: Seq<Event>, i: int)
    requires
        m.phase == Phase::Restoring,
        0 <= i < events.len(),
        is_push(trace(m, events)[i]),
    ensures
        i >= 1,
        events[0] matches Event::DeviceDone,
{
    let m2 = next(m, events[0]).0;
    lemma_trace_step(m, events);
    if !(events[0] matches Event::DeviceDone) {
        if i == 0 {
            assert(next(m, events[0]).1 is Fail);
        } else {
            lemma_terminated_stays(m2, events.drop_first(), i - 1);
        }
    } else {
        assert(!is_push(next(m, events[0]).1));
    }
}

proof fn lemma_paused_blocks_push(m: Model, events: Seq<Event>, i: int)
    requires
        m.phase == Phase::Paused,
        0 <= i < events.len(),
        is_push(trace(m, events)[i]),
    ensures
        exists|j: int|
            0 <= j && j + 1 < i && #[trigger] events[j] == Event::Signal(true) && trace(m, events)[j]
                == Step::Device(DeviceOp::SetBacklight(m.color)) && events[j + 1] is DeviceDone,
    decreases events.len(),
{
    let (m2, s) = next(m, events[0]);
    let rest = events.drop_first();
    lemma_trace_step(m, events);
    assert(!is_push(s));
    assert(i >= 1);
    assert(trace(m, events)[i] == trace(m2, rest)[i - 1]);
    if m2.phase == Phase::Paused {
        lemma_paused_blocks_push(m2, rest, i - 1);
        let j = choose|j: int|
            0 <= j && j + 1 < i - 1 && #[trigger] rest[j] == Event::Signal(true) && trace(m2, rest)[j]
                == Step::Device(DeviceOp::SetBacklight(m2.color)) && rest[j + 1] is DeviceDone;
        assert(events[j + 1] == rest[j]);
        assert(trace(m, events)[j + 1] == trace(m2, rest)[j]);
        assert(events[j + 2] == rest[j + 1]);
    } else if m2.phase == Phase::Restoring {
        lemma_restoring_waits(m2, rest, i - 1);
        assert(events[1] == rest[0]);
        assert(events[0] == Event::Signal(true));
    } else {
        lemma_terminated_stays(m2, rest, i - 1);
    }
}

/// Once the running signal reads false at the top of the loop, no value is
/// pushed until the signal has read true again and the backlight has been
/// set, and reported done, after that.
pub proof fn law_pause_blocks_push(m: Model, events: Seq<Event>, i: int)
    requires
        m.phase == Phase::Checking || m.phase == Phase::Paused,
        events.len() > 0,
        events[0] == Event::Signal(false),
        0 <= i < events.len(),
        is_push(trace(m, events)[i]),
    ensures
        exists|j: int|
            0 < j && j + 1 < i && #[trigger] events[j] == Event::Signal(true) && trace(m, events)[j]
                == Step::Device(DeviceOp::SetBacklight(m.color)) && events[j + 1] is DeviceDone,
{
    let (m2, s) = next(m, events[0]);
    let rest = events.drop_first();
    lemma_trace_step(m, events);
    assert(m2.phase == Phase::Paused && m2.color == m.color);
    assert(i >= 1);
    assert(trace(m, events)[i] == trace(m2, rest)[i - 1]);
    lemma_paused_blocks_push(m2, rest, i - 1);
    let j = choose|j: int|
        0 <= j && j + 1 < i - 1 && #[trigger] rest[j] == Event::Signal(true) && trace(m2, rest)[j]
            == Step::Device(DeviceOp::SetBacklight(m2.color)) && rest[j + 1] is DeviceDone;
    assert(events[j + 1] == rest[j]);
    assert(trace(m, events)[j + 1] == trace(m2, rest)[j]);
    assert(events[j + 2] == rest[j + 1]);
}

/// One polling round in which the sensor fails: the signal reads true, the
/// read fails with `msg`, the interval ticks.
pub open spec fn failing_round(msg: String) -> Seq<Event> {
    seq![Event::Signal(true), Event::SensorFailed(msg), Event::Ticked]
}

/// `k` failing rounds in a row.
pub open spec fn failing_rounds(msg: String, k: nat) -> Seq<Event>
    decreases k,
{
    if k == 0 {
        Seq::empty()
    } else {
        failing_rounds(msg, (k - 1) as nat) + failing_round(msg)
    }
}

proof fn lemma_failing_rounds(m: Model, msg: String, k: nat)
    requires
        m.phase == Phase::Checking,
        m.in_flight is None,
        m.streak + k < MAX_SENSOR_ERRORS,
    ensures
        after(m, failing_rounds(msg, k)) == (Model { streak: m.streak + k, in_flight: None, ..m }),
        forall|i: int|
            0 <= i < trace(m, failing_rounds(msg, k)).len() ==> !(#[trigger] trace(
                m,
                failing_rounds(msg, k),
            )[i] is Fail),
    decreases k,
{
    let prev = failing_rounds(msg, (k - 1) as nat);
    if k == 0 {
        assert(failing_rounds(msg, 0) == Seq::<Event>::empty());
        assert(trace(m, Seq::<Event>::empty()) == Seq::<Step>::empty());
        assert(after(m, Seq::<Event>::empty()) == m);
    } else {
        lemma_failing_rounds(m, msg, (k - 1) as nat);
        let mid = after(m, prev);
        lemma_trace_concat(m, prev, failing_round(msg));
        let r = failing_round(msg);
        let m1 = next(mid, r[0]).0;
        let m2 = next(m1, r[1]).0;
        let m3 = next(m2, r[2]).0;
        assert(r.drop_first().drop_first().drop_first() == Seq::<Event>::empty());
        assert(trace(m3, Seq::<Event>::empty()) == Seq::<Step>::empty());
        assert(after(m3, Seq::<Event>::empty()) == m3);
        assert(trace(m2, r.drop_first().drop_first()) == seq![Step::ReadSignal]);
        assert(trace(m1, r.drop_first()) == seq![Step::WaitTick, Step::ReadSignal]);
        assert(trace(mid, r) == seq![Step::Sample(m.metric), Step::WaitTick, Step::ReadSignal]);
        assert(after(m2, r.drop_first().drop_first()) == m3);
        assert(after(m1, r.drop_first()) == m3);
        assert(after(mid, r) == m3);
        let t = trace(m, failing_rounds(msg, k));
        assert forall|i: int| 0 <= i < t.len() implies !(#[trigger] t[i] is Fail) by {
            if i >= trace(m, prev).len() {
                assert(t[i] == trace(mid, r)[i - trace(m, prev).len()]);
            } else {
                assert(t[i] == trace(m, prev)[i]);
            }
        }
    }
}

/// A manager whose sensor keeps failing stops at exactly the
/// `MAX_SENSOR_ERRORS`-th failure in a row: the rounds before it ask for no
/// stop, and that failure asks to stop with a sensor-streak fault.
pub proof fn law_sensor_streak(m: Model, msg: String)
    requires
        m.phase == Phase::Checking,
        m.in_flight is None,
        m.streak == 0,
    ensures
        ({
            let events = failing_rounds(msg, (MAX_SENSOR_ERRORS - 1) as nat) + seq![
                Event::Signal(true),
                Event::SensorFailed(msg),
            ];
            let t = trace(m, events);
            &&& t.len() == events.len()
            &&& forall|i: int| 0 <= i < t.len() - 1 ==> !(#[trigger] t[i] is Fail)
            &&& t.last() == Step::Fail(FaultKind::SensorStreak)
        }),
{
    let k = (MAX_SENSOR_ERRORS - 1) as nat;
    let prev = failing_rounds(msg, k);
    let tail = seq![Event::Signal(true), Event::SensorFailed(msg)];
    lemma_failing_rounds(m, msg, k);
    lemma_trace_concat(m, prev, tail);
    lemma_trace_len(m, prev);
    let mid = after(m, prev);
    let m1 = next(mid, tail[0]).0;
    let m2 = next(m1, tail[1]).0;
    assert(tail.drop_first().drop_first() == Seq::<Event>::empty());
    assert(trace(m2, Seq::<Event>::empty()) == Seq::<Step>::empty());
    assert(trace(m1, tail.drop_first()) == seq![Step::Fail(FaultKind::SensorStreak)]);
    assert(trace(mid, tail) == seq![Step::Sample(m.metric), Step::Fail(FaultKind::SensorStreak)]);
    let t = trace(m, prev + tail);
    assert forall|i: int| 0 <= i < t.len() - 1 implies !(#[trigger] t[i] is Fail) by {
        if i >= trace(m, prev).len() {
            assert(t[i] == trace(mid, tail)[i - trace(m, prev).len()]);
        } else {
            assert(t[i] == trace(m, prev)[i]);
        }
    }
}

/// A round whose reading has a value and whose push succeeds clears the
/// sensor-failure streak, so failures never add up across a success.
pub proof fn law_success_resets_streak(m: Model, r: Reading)
    requires
        m.phase == Phase::Checking,
        reading_value(r) is Some,
    ensures
        ({
            let events = seq![Event::Signal(true), Event::Sampled(r), Event::DeviceDone];
            &&& after(m, events).streak == 0
            &&& forall|i: int| 0 <= i < 3 ==> !(#[trigger] trace(m, events)[i] is Fail)
        }),
{
    let events = seq![Event::Signal(true), Event::Sampled(r), Event::DeviceDone];
    let m1 = next(m, events[0]).0;
    let m2 = next(m1, events[1]).0;
    let m3 = next(m2, events[2]).0;
    assert(events.drop_first().drop_first().drop_first() == Seq::<Event>::empty());
    assert(after(m3, Seq::<Event>::empty()) == m3);
    assert(trace(m3, Seq::<Event>::empty()) == Seq::<Step>::empty());
    assert(after(m2, events.drop_first().drop_first()) == m3);
    assert(after(m1, events.drop_first()) == m3);
    assert(m3.streak == 0);
    let t2 = trace(m2, events.drop_first().drop_first());
    let t1 = trace(m1, events.drop_first());
    assert(t2 == seq![next(m2, events[2]).1]);
    assert(t1 == seq![next(m1, events[1]).1] + t2);
    assert(trace(m, events) == seq![next(m, events[0]).1] + t1);
}

} // verus!
