use mandala_smart_book::dashboard::{ClockState, Event, Moment, Reaction};
use mandala_smart_book::display::Weekday;
use mandala_smart_book::gr10_30::Gesture;

fn moment(seconds: i64, nanos: u32) -> Moment {
    Moment { seconds, nanos, weekday: Weekday::Tue, day: 3, month: 6, hour: 12, minute: 30 }
}

const QUIET: Reaction = Reaction { redraw: false, brightness: None };
const REDRAW: Reaction = Reaction { redraw: true, brightness: None };

#[test]
fn ticks_redraw_when_time_changes() {
    let mut s = ClockState::new(moment(100, 0));
    assert_eq!(s.brightness, 0);
    assert_eq!(s.update(Event::Tick(moment(100, 0))), QUIET);
    assert_eq!(s.update(Event::Tick(moment(100, 500))), REDRAW);
    assert_eq!(s.now, moment(100, 500));
    assert_eq!(s.update(Event::Tick(moment(100, 500))), QUIET);
    assert_eq!(s.update(Event::Tick(moment(101, 500))), REDRAW);
}

#[test]
fn measurements_redraw() {
    let mut s = ClockState::new(moment(0, 0));
    assert_eq!(s.update(Event::ClimateMeasured), REDRAW);
    assert_eq!(s.update(Event::ParticlesMeasured), REDRAW);
    assert_eq!(s.update(Event::Nothing), QUIET);
    assert_eq!(s.update(Event::GestureSeen(Gesture::left())), QUIET);
}

#[test]
fn brightness_follows_ambient_light() {
    let mut s = ClockState::new(moment(0, 0));
    assert_eq!(s.update(Event::AmbientMeasured(Some(0))), QUIET);
    assert_eq!(s.update(Event::AmbientMeasured(Some(40))), Reaction { redraw: false, brightness: Some(40) });
    assert_eq!(s.brightness, 40);
    assert_eq!(s.update(Event::AmbientMeasured(Some(40))), QUIET);
    assert_eq!(s.update(Event::AmbientMeasured(None)), QUIET);
    assert_eq!(s.brightness, 40);
    assert_eq!(s.update(Event::AmbientMeasured(Some(3))), Reaction { redraw: false, brightness: Some(3) });
}
