use mandala_smart_book::gr10_30::Gesture;
use mandala_smart_book::sensors::{
    ClimateAction, ClimatePoller,
    watched_gestures, GestureMonitor, MonitorAction, MonitorEvent, MonitorState, GR1030_INTERVAL,
    GR1030_RETRY_DELAY,
};

#[test]
fn watched_gestures_are_the_four_directions() {
    assert_eq!(watched_gestures().bits(), 0x000f);
}

#[test]
fn monitor_retries_failed_set_up() {
    let (mut m, first) = GestureMonitor::start();
    assert_eq!(first, MonitorAction::SetUp(watched_gestures()));
    assert_eq!(m.handle(MonitorEvent::SetUpFailed), MonitorAction::PauseThenSetUp(2000, watched_gestures()));
    assert_eq!(GR1030_RETRY_DELAY, 2000);
    assert_eq!(m.state, MonitorState::SettingUp);
    assert_eq!(m.handle(MonitorEvent::SetUpSucceeded), MonitorAction::StartPolling(GR1030_INTERVAL));
    assert_eq!(m.state, MonitorState::Polling);
}

#[test]
fn monitor_publishes_and_restarts() {
    let (mut m, _) = GestureMonitor::start();
    m.handle(MonitorEvent::SetUpSucceeded);
    assert_eq!(m.handle(MonitorEvent::Polled(None)), MonitorAction::WaitThenPoll);
    assert_eq!(m.handle(MonitorEvent::Polled(Some(Gesture::up()))), MonitorAction::PublishThenPoll(Gesture::up()));
    assert_eq!(m.handle(MonitorEvent::PollFailed), MonitorAction::SetUp(watched_gestures()));
    assert_eq!(m.state, MonitorState::SettingUp);
    // A poll result while starting up starts the sensor again.
    assert_eq!(m.handle(MonitorEvent::Polled(None)), MonitorAction::SetUp(watched_gestures()));
}

#[test]
fn monitor_run_publishes_found_gestures_in_order() {
    let (mut m, _) = GestureMonitor::start();
    m.handle(MonitorEvent::SetUpSucceeded);
    let polls = [
        MonitorEvent::Polled(Some(Gesture::left())),
        MonitorEvent::Polled(None),
        MonitorEvent::Polled(Some(Gesture::up())),
        MonitorEvent::Polled(None),
    ];
    let published: Vec<Gesture> = polls
        .iter()
        .filter_map(|e| match m.handle(*e) {
            MonitorAction::PublishThenPoll(g) => Some(g),
            MonitorAction::WaitThenPoll => None,
            other => panic!("unexpected action {:?}", other),
        })
        .collect();
    assert_eq!(published, vec![Gesture::left(), Gesture::up()]);
}

#[test]
fn climate_poller_starts_up_then_measures_when_ready() {
    let (mut p, first) = ClimatePoller::start();
    assert_eq!(first, ClimateAction::WakeUp);
    let start_up: Vec<ClimateAction> = (0..5).map(|_| p.handle(false)).collect();
    assert_eq!(
        start_up,
        vec![
            ClimateAction::StopPeriodicMeasurement,
            ClimateAction::Reinit,
            ClimateAction::ReadSerialNumber,
            ClimateAction::StartPeriodicMeasurement,
            ClimateAction::WaitTick,
        ]
    );
    assert_eq!(p.handle(false), ClimateAction::CheckReady);
    assert_eq!(p.handle(false), ClimateAction::WaitTick);
    assert_eq!(p.handle(true), ClimateAction::CheckReady);
    assert_eq!(p.handle(true), ClimateAction::Measure);
    assert_eq!(p.handle(false), ClimateAction::Publish);
    assert_eq!(p.handle(true), ClimateAction::WaitTick);
}
