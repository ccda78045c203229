//! The decisions of the gesture-sensor loop: when to (re)start the sensor,
//! when to poll it and what to pass on.
use vstd::prelude::*;
use crate::gr10_30::Gesture;

verus! {

/// Milliseconds between two polls of the gesture sensor.
pub const GR1030_INTERVAL: u64 = 500;

/// Milliseconds to wait before retrying a failed start-up of the gesture sensor.
pub const GR1030_RETRY_DELAY: u64 = 2000;

/// The gestures the dashboard listens for: left, right, up and down.
pub open spec fn watched_mask() -> u16 {
    0x0004u16 | 0x0008u16 | 0x0001u16 | 0x0002u16
}

/// The gestures the dashboard listens for: left, right, up and down.
pub fn watched_gestures() -> (g: Gesture)
    ensures
        g@ == watched_mask(),
{
    Gesture::left().or(Gesture::right()).or(Gesture::up()).or(Gesture::down())
}

/// Whether the monitor is bringing the sensor up or polling it.
#[derive(Clone, Copy, Debug, PartialEq, Eq, Structural)]
pub enum MonitorState {
    SettingUp,
    Polling,
}

/// What the runner reports back.
#[derive(Clone, Copy, Debug, PartialEq, Eq, Structural)]
pub enum MonitorEvent {
    /// The sensor's start-up went through.
    SetUpSucceeded,
    /// The sensor's start-up failed.
    SetUpFailed,
    /// A poll went through: the gestures seen, if the sensor had data.
    Polled(Option<Gesture>),
    /// A poll failed.
    PollFailed,
}

/// What the runner does next.
#[derive(Clone, Copy, Debug, PartialEq, Eq, Structural)]
pub enum MonitorAction {
    /// Bring the sensor up, enabling these gestures.
    SetUp(Gesture),
    /// Wait this many milliseconds, then bring the sensor up with these gestures.
    PauseThenSetUp(u64, Gesture),
    /// Start a timer of this period and poll right away.
    StartPolling(u64),
    /// Pass the gestures on, wait for the timer, then poll.
    PublishThenPoll(Gesture),
    /// Wait for the timer, then poll.
    WaitThenPoll,
}

/// The monitor's next state and action after `event`.
pub open spec fn monitor_step(state: MonitorState, event: MonitorEvent) -> (MonitorState, MonitorAction) {
    let set_up = MonitorAction::SetUp(Gesture::spec_from_bits(watched_mask()));
    match (state, event) {
        (MonitorState::SettingUp, MonitorEvent::SetUpSucceeded) => (
            MonitorState::Polling,
            MonitorAction::StartPolling(GR1030_INTERVAL),
        ),
        (MonitorState::SettingUp, MonitorEvent::SetUpFailed) => (
            MonitorState::SettingUp,
            MonitorAction::PauseThenSetUp(GR1030_RETRY_DELAY, Gesture::spec_from_bits(watched_mask())),
        ),
        (MonitorState::Polling, MonitorEvent::Polled(Some(g))) => (
            MonitorState::Polling,
            MonitorAction::PublishThenPoll(g),
        ),
        (MonitorState::Polling, MonitorEvent::Polled(None)) => (MonitorState::Polling, MonitorAction::WaitThenPoll),
        _ => (MonitorState::SettingUp, set_up),
    }
}

/// Keeps the gesture sensor running: starts it, retries a failed start after
/// a pause, polls it periodically, passes gestures on, and starts it again
/// after a failed poll.
#[derive(Clone, Copy, Debug, PartialEq, Eq, Structural)]
pub struct GestureMonitor {
    pub state: MonitorState,
}

impl GestureMonitor {
    /// A monitor about to start the sensor, and the first action: start it.
    pub fn start() -> (r: (GestureMonitor, MonitorAction))
        ensures
            r.0.state == MonitorState::SettingUp,
            r.1 == MonitorAction::SetUp(Gesture::spec_from_bits(watched_mask())),
    {
        let g = watched_gestures();
        proof {
            crate::gr10_30::gesture::lemma_from_bits_mask(watched_mask(), g);
        }
        (GestureMonitor { state: MonitorState::SettingUp }, MonitorAction::SetUp(g))
    }

    /// Takes the runner's report into account and says what to do next.
    /// An event that does not fit the state (a poll result while starting
    /// up, a start-up result while polling) starts the sensor again.
    pub fn handle(&mut self, event: MonitorEvent) -> (a: MonitorAction)
        ensures
            (final(self).state, a) == monitor_step(old(self).state, event),
    {
        let g = watched_gestures();
        proof {
            crate::gr10_30::gesture::lemma_from_bits_mask(watched_mask(), g);
        }
        match (self.state, event) {
            (MonitorState::SettingUp, MonitorEvent::SetUpSucceeded) => {
                self.state = MonitorState::Polling;
                MonitorAction::StartPolling(GR1030_INTERVAL)
            },
            (MonitorState::SettingUp, MonitorEvent::SetUpFailed) => {
                MonitorAction::PauseThenSetUp(GR1030_RETRY_DELAY, g)
            },
            (MonitorState::Polling, MonitorEvent::Polled(Some(seen))) => MonitorAction::PublishThenPoll(seen),
            (MonitorState::Polling, MonitorEvent::Polled(None)) => MonitorAction::WaitThenPoll,
            _ => {
                self.state = MonitorState::SettingUp;
                MonitorAction::SetUp(g)
            },
        }
    }
}

/// Gestures are passed on exactly when a poll while polling returns some;
/// a failed poll always leads to a fresh start-up, and a failed start-up to a
/// retry after `GR1030_RETRY_DELAY` milliseconds.
pub proof fn lemma_monitor_reactions(state: MonitorState, event: MonitorEvent)
    ensures
        (monitor_step(state, event).1 matches MonitorAction::PublishThenPoll(g) ==> state
            == MonitorState::Polling && event == MonitorEvent::Polled(Some(g))),
        event == MonitorEvent::PollFailed ==> monitor_step(state, event) == (
            MonitorState::SettingUp,
            MonitorAction::SetUp(Gesture::spec_from_bits(watched_mask())),
        ),
        (state == MonitorState::SettingUp && event == MonitorEvent::SetUpFailed) ==> monitor_step(state, event).1
            == MonitorAction::PauseThenSetUp(GR1030_RETRY_DELAY, Gesture::spec_from_bits(watched_mask())),
        (monitor_step(state, event).0 == MonitorState::Polling) <==> ((state == MonitorState::SettingUp
            && event == MonitorEvent::SetUpSucceeded) || (state == MonitorState::Polling
            && event is Polled)),
{
}

/// The actions the monitor asks for when, starting in `state`, it is handed
/// `events` in turn.
pub open spec fn monitor_run(state: MonitorState, events: Seq<MonitorEvent>) -> Seq<MonitorAction>
    decreases events.len(),
{
    if events.len() == 0 {
        Seq::empty()
    } else {
        let (next_state, action) = monitor_step(state, events[0]);
        seq![action] + monitor_run(next_state, events.drop_first())
    }
}

/// The states the monitor is in when each of `events` arrives, starting in `state`.
pub open spec fn monitor_states(state: MonitorState, events: Seq<MonitorEvent>) -> Seq<MonitorState>
    decreases events.len(),
{
    if events.len() == 0 {
        Seq::empty()
    } else {
        seq![state] + monitor_states(monitor_step(state, events[0]).0, events.drop_first())
    }
}

/// The gestures passed on by a sequence of actions, in order.
pub open spec fn published(actions: Seq<MonitorAction>) -> Seq<Gesture>
    decreases actions.len(),
{
    if actions.len() == 0 {
        Seq::empty()
    } else {
        let first = match actions[0] {
            MonitorAction::PublishThenPoll(g) => seq![g],
            _ => Seq::empty(),
        };
        first + published(actions.drop_first())
    }
}

/// The gestures that a sequence of poll results found, in order.
pub open spec fn polled_gestures(events: Seq<MonitorEvent>) -> Seq<Gesture>
    decreases events.len(),
{
    if events.len() == 0 {
        Seq::empty()
    } else {
        let first = match events[0] {
            MonitorEvent::Polled(Some(g)) => seq![g],
            _ => Seq::empty(),
        };
        first + polled_gestures(events.drop_first())
    }
}

/// A run has one action, and one state, per event.
pub proof fn lemma_run_lengths(state: MonitorState, events: Seq<MonitorEvent>)
    ensures
        monitor_run(state, events).len() == events.len(),
        monitor_states(state, events).len() == events.len(),
    decreases events.len(),
{
    if events.len() > 0 {
        lemma_run_lengths(monitor_step(state, events[0]).0, events.drop_first());
    }
}

/// A whole run is the single steps one after another: the `i`-th action is
/// what the monitor answers to the `i`-th event in the state it is in then.
pub proof fn lemma_run_is_steps(state: MonitorState, events: Seq<MonitorEvent>, i: int)
    requires
        0 <= i < events.len(),
    ensures
        monitor_run(state, events).len() == events.len(),
        monitor_states(state, events).len() == events.len(),
        monitor_states(state, events)[0] == state,
        monitor_run(state, events)[i] == monitor_step(monitor_states(state, events)[i], events[i]).1,
        i + 1 < events.len() ==> monitor_states(state, events)[i + 1] == monitor_step(
            monitor_states(state, events)[i],
            events[i],
        ).0,
    decreases events.len(),
{
    let next_state = monitor_step(state, events[0]).0;
    let rest = events.drop_first();
    lemma_run_lengths(state, events);
    lemma_run_lengths(next_state, rest);
    if rest.len() > 0 {
        lemma_run_is_steps(next_state, rest, 0);
    }
    if i > 0 {
        lemma_run_is_steps(next_state, rest, i - 1);
        assert(rest[i - 1] == events[i]);
    }
}

/// Over any run: every start-up enables left, right, up and down; a start-up
/// is paused for exactly `GR1030_RETRY_DELAY` milliseconds when, and only
/// when, the previous one failed; a failed poll is always followed by a fresh
/// start-up; and the sensor is polled only in the polling state, which is
/// entered only by a start-up that succeeded, with nothing but polls since.
pub proof fn lemma_monitor_run(state: MonitorState, events: Seq<MonitorEvent>, i: int)
    requires
        0 <= i < events.len(),
    ensures
        ({
            let actions = monitor_run(state, events);
            let states = monitor_states(state, events);
            &&& (actions[i] matches MonitorAction::SetUp(g) ==> g == Gesture::spec_from_bits(watched_mask()))
            &&& (actions[i] matches MonitorAction::PauseThenSetUp(d, g) ==> d == GR1030_RETRY_DELAY
                && g == Gesture::spec_from_bits(watched_mask()))
            &&& (actions[i] is PauseThenSetUp <==> (states[i] == MonitorState::SettingUp
                && events[i] == MonitorEvent::SetUpFailed))
            &&& (events[i] == MonitorEvent::PollFailed ==> actions[i] is SetUp)
            &&& ((actions[i] is StartPolling || actions[i] is PublishThenPoll || actions[i] is WaitThenPoll)
                ==> ((states[i] == MonitorState::SettingUp && events[i] == MonitorEvent::SetUpSucceeded)
                || (states[i] == MonitorState::Polling && events[i] is Polled)))
            &&& (state == MonitorState::SettingUp && states[i] == MonitorState::Polling ==> exists|j: int|
                0 <= j < i && states[j] == MonitorState::SettingUp && events[j] == MonitorEvent::SetUpSucceeded
                    && forall|k: int| j < k < i ==> #[trigger] events[k] is Polled)
        }),
    decreases i,
{
    lemma_run_is_steps(state, events, i);
    let states = monitor_states(state, events);
    if state == MonitorState::SettingUp && states[i] == MonitorState::Polling {
        assert(i > 0);
        lemma_run_is_steps(state, events, i - 1);
        if states[i - 1] == MonitorState::SettingUp {
            assert(events[i - 1] == MonitorEvent::SetUpSucceeded);
        } else {
            lemma_monitor_run(state, events, i - 1);
            assert(events[i - 1] is Polled);
            let j = choose|j: int|
                0 <= j < i - 1 && states[j] == MonitorState::SettingUp && events[j] == MonitorEvent::SetUpSucceeded
                    && forall|k: int| j < k < i - 1 ==> #[trigger] events[k] is Polled;
            assert forall|k: int| j < k < i implies #[trigger] events[k] is Polled by {
                if k < i - 1 {
                }
            }
        }
    }
}

/// Once the sensor is up, a run of polls that all go through passes on
/// exactly the gestures found, in the order found, and asks for nothing but
/// waiting and polling.
pub proof fn lemma_polls_publish_found(events: Seq<MonitorEvent>)
    requires
        forall|i: int| 0 <= i < events.len() ==> #[trigger] events[i] is Polled,
    ensures
        published(monitor_run(MonitorState::Polling, events)) == polled_gestures(events),
        forall|i: int| 0 <= i < events.len() ==> (#[trigger] monitor_run(MonitorState::Polling, events)[i] is PublishThenPoll
            || monitor_run(MonitorState::Polling, events)[i] is WaitThenPoll),
    decreases events.len(),
{
    if events.len() > 0 {
        let rest = events.drop_first();
        assert forall|i: int| 0 <= i < rest.len() implies #[trigger] rest[i] is Polled by {
            assert(rest[i] == events[i + 1]);
        }
        lemma_polls_publish_found(rest);
        lemma_run_lengths(MonitorState::Polling, rest);
        let (next_state, action) = monitor_step(MonitorState::Polling, events[0]);
        assert(next_state == MonitorState::Polling);
        let run = monitor_run(MonitorState::Polling, events);
        assert(run == seq![action] + monitor_run(MonitorState::Polling, rest));
        assert(run.drop_first() =~= monitor_run(MonitorState::Polling, rest));
        assert forall|i: int| 0 <= i < events.len() implies (#[trigger] run[i] is PublishThenPoll
            || run[i] is WaitThenPoll) by {
            if i > 0 {
                assert(run[i] == monitor_run(MonitorState::Polling, rest)[i - 1]);
            }
        }
    }
}

/// Seconds between two readiness checks of the CO2/temperature/humidity sensor.
pub const ENVIRONMENTAL_SENSOR_INTERVAL: u64 = 5;

/// What the climate-sensor runner does next.
#[derive(Clone, Copy, Debug, PartialEq, Eq, Structural)]
pub enum ClimateAction {
    /// Wake the sensor from sleep.
    WakeUp,
    /// Stop periodic measurement.
    StopPeriodicMeasurement,
    /// Reinitialize the sensor.
    Reinit,
    /// Read the serial number.
    ReadSerialNumber,
    /// Start periodic measurement.
    StartPeriodicMeasurement,
    /// Wait for the next tick of the `ENVIRONMENTAL_SENSOR_INTERVAL` timer.
    WaitTick,
    /// Ask whether a measurement is ready.
    CheckReady,
    /// Read the measurement.
    Measure,
    /// Pass the measurement (or its failure) on.
    Publish,
}

/// The climate runner's action after `last`; `ready` is what the sensor
/// answered when `last` was a readiness check, and is not looked at otherwise.
pub open spec fn climate_step(last: ClimateAction, ready: bool) -> ClimateAction {
    match last {
        ClimateAction::WakeUp => ClimateAction::StopPeriodicMeasurement,
        ClimateAction::StopPeriodicMeasurement => ClimateAction::Reinit,
        ClimateAction::Reinit => ClimateAction::ReadSerialNumber,
        ClimateAction::ReadSerialNumber => ClimateAction::StartPeriodicMeasurement,
        ClimateAction::StartPeriodicMeasurement => ClimateAction::WaitTick,
        ClimateAction::WaitTick => ClimateAction::CheckReady,
        ClimateAction::CheckReady => if ready {
            ClimateAction::Measure
        } else {
            ClimateAction::WaitTick
        },
        ClimateAction::Measure => ClimateAction::Publish,
        ClimateAction::Publish => ClimateAction::WaitTick,
    }
}

/// Keeps the climate sensor measuring: starts it up (wake, stop, reinitialize,
/// read the serial number, start periodic measurement), then on every tick
/// asks whether a measurement is ready and, if so, reads it and passes it on.
#[derive(Clone, Copy, Debug, PartialEq, Eq, Structural)]
pub struct ClimatePoller {
    pub last: ClimateAction,
}

impl ClimatePoller {
    /// A poller about to start the sensor, and the first action: wake it.
    pub fn start() -> (r: (ClimatePoller, ClimateAction))
        ensures
            r.0.last == ClimateAction::WakeUp,
            r.1 == ClimateAction::WakeUp,
    {
        (ClimatePoller { last: ClimateAction::WakeUp }, ClimateAction::WakeUp)
    }

    /// The action after the last one went through; `ready` is the sensor's
    /// answer when the last action was a readiness check.
    pub fn handle(&mut self, ready: bool) -> (a: ClimateAction)
        ensures
            a == climate_step(old(self).last, ready),
            final(self).last == a,
    {
        let a = match self.last {
            ClimateAction::WakeUp => ClimateAction::StopPeriodicMeasurement,
            ClimateAction::StopPeriodicMeasurement => ClimateAction::Reinit,
            ClimateAction::Reinit => ClimateAction::ReadSerialNumber,
            ClimateAction::ReadSerialNumber => ClimateAction::StartPeriodicMeasurement,
            ClimateAction::StartPeriodicMeasurement => ClimateAction::WaitTick,
            ClimateAction::WaitTick => ClimateAction::CheckReady,
            ClimateAction::CheckReady => if ready {
                ClimateAction::Measure
            } else {
                ClimateAction::WaitTick
            },
            ClimateAction::Measure => ClimateAction::Publish,
            ClimateAction::Publish => ClimateAction::WaitTick,
        };
        self.last = a;
        a
    }
}

/// The actions a climate runner takes when handed `answers` in turn after `last`.
pub open spec fn climate_run(last: ClimateAction, answers: Seq<bool>) -> Seq<ClimateAction>
    decreases answers.len(),
{
    if answers.len() == 0 {
        Seq::empty()
    } else {
        let a = climate_step(last, answers[0]);
        seq![a] + climate_run(a, answers.drop_first())
    }
}

/// The start-up runs in order (stop, reinitialize, serial number, start) and
/// is followed by the first tick; a measurement is read only right after a
/// readiness check answered yes, and every reading is passed on at once and
/// followed by a wait for the next tick; a "not ready" answer waits for the
/// next tick.
pub proof fn lemma_climate_cycle(last: ClimateAction, ready: bool, answers: Seq<bool>)
    requires
        answers.len() == 5,
    ensures
        climate_run(ClimateAction::WakeUp, answers) == seq![
            ClimateAction::StopPeriodicMeasurement,
            ClimateAction::Reinit,
            ClimateAction::ReadSerialNumber,
            ClimateAction::StartPeriodicMeasurement,
            ClimateAction::WaitTick,
        ],
        climate_step(last, ready) == ClimateAction::Measure <==> (last == ClimateAction::CheckReady && ready),
        climate_step(last, ready) == ClimateAction::Publish <==> last == ClimateAction::Measure,
        last == ClimateAction::Publish ==> climate_step(last, ready) == ClimateAction::WaitTick,
        last == ClimateAction::CheckReady && !ready ==> climate_step(last, ready) == ClimateAction::WaitTick,
{
    reveal_with_fuel(climate_run, 6);
    let a1 = answers.drop_first();
    let a2 = a1.drop_first();
    let a3 = a2.drop_first();
    let a4 = a3.drop_first();
    assert(a4.drop_first().len() == 0);
    assert(climate_run(ClimateAction::WakeUp, answers) =~= seq![
        ClimateAction::StopPeriodicMeasurement,
        ClimateAction::Reinit,
        ClimateAction::ReadSerialNumber,
        ClimateAction::StartPeriodicMeasurement,
        ClimateAction::WaitTick,
    ]);
}

/// The monitor listens for left, right, up and down (mask `0x000f`),
/// polls every 500 ms and retries a failed start-up after 2000 ms.
pub proof fn lemma_monitor_settings()
    ensures
        watched_mask() == 0x000f,
        GR1030_INTERVAL == 500,
        GR1030_RETRY_DELAY == 2000,
        ENVIRONMENTAL_SENSOR_INTERVAL == 5,
{
    assert(0x0004u16 | 0x0008u16 | 0x0001u16 | 0x0002u16 == 0x000fu16) by (bit_vector);
}

} // verus!
