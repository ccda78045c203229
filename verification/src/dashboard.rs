//! What the dashboard keeps between updates, and how it reacts to the clock,
//! the sensors and the ambient light.
use vstd::prelude::*;
use crate::display::Weekday;
use crate::gr10_30::Gesture;

verus! {

/// Why a measurement is not available.
#[derive(Debug, Clone, PartialEq, Eq)]
pub enum Missing {
    NotMeasured,
    HardwareFault(String),
    Timeout,
    Other(String),
}

/// A point in time: the instant (seconds and nanoseconds since the Unix
/// epoch, as the clock reports it) and its local calendar reading.
#[derive(Clone, Copy, Debug, PartialEq, Eq, Structural)]
pub struct Moment {
    pub seconds: i64,
    pub nanos: u32,
    pub weekday: Weekday,
    pub day: u32,
    pub month: u32,
    pub hour: u32,
    pub minute: u32,
}

impl Moment {
    /// Whether two moments are the same instant.
    pub open spec fn spec_same_instant(self, other: Moment) -> bool {
        self.seconds == other.seconds && self.nanos == other.nanos
    }

    /// Whether two moments are the same instant.
    pub fn same_instant(&self, other: &Moment) -> (b: bool)
        ensures
            b == self.spec_same_instant(*other),
    {
        self.seconds == other.seconds && self.nanos == other.nanos
    }
}

/// Something that happened, as far as the dashboard's decisions go.
#[derive(Clone, Copy, Debug, PartialEq, Eq, Structural)]
pub enum Event {
    /// Nothing to do.
    Nothing,
    /// The clock ticked; this is the time now.
    Tick(Moment),
    /// A new CO2/temperature/humidity reading (or its failure) arrived.
    ClimateMeasured,
    /// A new ambient-light reading arrived: the screen brightness it calls
    /// for, or `None` if the reading failed.
    AmbientMeasured(Option<u32>),
    /// A new particulate-matter reading (or its failure) arrived.
    ParticlesMeasured,
    /// A gesture was recognized.
    GestureSeen(Gesture),
}

/// What the dashboard does about an event.
#[derive(Clone, Copy, Debug, PartialEq, Eq, Structural)]
pub struct Reaction {
    /// Redraw the canvas.
    pub redraw: bool,
    /// Change the screen brightness to this value.
    pub brightness: Option<u32>,
}

/// The dashboard's own state: the time on show and the screen brightness set last.
#[derive(Clone, Copy, Debug, PartialEq, Eq, Structural)]
pub struct ClockState {
    pub now: Moment,
    pub brightness: u32,
}

/// The state after `event` and the reaction to it.
pub open spec fn react(state: ClockState, event: Event) -> (ClockState, Reaction) {
    let quiet = Reaction { redraw: false, brightness: None };
    match event {
        Event::Nothing => (state, quiet),
        Event::Tick(now) => if now.spec_same_instant(state.now) {
            (state, quiet)
        } else {
            (ClockState { now, ..state }, Reaction { redraw: true, brightness: None })
        },
        Event::ClimateMeasured => (state, Reaction { redraw: true, brightness: None }),
        Event::AmbientMeasured(target) => match target {
            Some(b) => if b != state.brightness {
                (ClockState { brightness: b, ..state }, Reaction { redraw: false, brightness: Some(b) })
            } else {
                (state, quiet)
            },
            None => (state, quiet),
        },
        Event::ParticlesMeasured => (state, Reaction { redraw: true, brightness: None }),
        Event::GestureSeen(_) => (state, quiet),
    }
}

impl ClockState {
    /// The state at start-up: showing `now`, brightness 0.
    pub fn new(now: Moment) -> (s: ClockState)
        ensures
            s.now == now,
            s.brightness == 0,
    {
        ClockState { now, brightness: 0 }
    }

    /// Takes `event` into account and says what to do about it.
    pub fn update(&mut self, event: Event) -> (r: Reaction)
        ensures
            (*final(self), r) == react(*old(self), event),
    {
        let quiet = Reaction { redraw: false, brightness: None };
        match event {
            Event::Nothing => quiet,
            Event::Tick(now) => {
                if now.same_instant(&self.now) {
                    quiet
                } else {
                    self.now = now;
                    Reaction { redraw: true, brightness: None }
                }
            },
            Event::ClimateMeasured => Reaction { redraw: true, brightness: None },
            Event::AmbientMeasured(target) => match target {
                Some(b) => {
                    if b != self.brightness {
                        self.brightness = b;
                        Reaction { redraw: false, brightness: Some(b) }
                    } else {
                        quiet
                    }
                },
                None => quiet,
            },
            Event::ParticlesMeasured => Reaction { redraw: true, brightness: None },
            Event::GestureSeen(_) => quiet,
        }
    }
}

/// The screen is only asked to change when the brightness differs from the
/// one set last, and afterwards the brightness set last is the requested one;
/// so an ambient reading repeated right away asks for nothing.
pub proof fn lemma_brightness_follows_target(state: ClockState, target: u32)
    ensures
        ({
            let (s1, r1) = react(state, Event::AmbientMeasured(Some(target)));
            let (s2, r2) = react(s1, Event::AmbientMeasured(Some(target)));
            &&& s1.brightness == target
            &&& (r1.brightness is Some <==> target != state.brightness)
            &&& r2 == Reaction { redraw: false, brightness: None }
            &&& s2 == s1
        }),
{
}

/// A tick redraws exactly when the time changed, and the same tick twice
/// redraws once.
pub proof fn lemma_tick_redraws_on_change(state: ClockState, now: Moment)
    ensures
        ({
            let (s1, r1) = react(state, Event::Tick(now));
            let (s2, r2) = react(s1, Event::Tick(now));
            &&& r1.redraw == !now.spec_same_instant(state.now)
            &&& !r2.redraw
            &&& s1.brightness == state.brightness
        }),
{
}

/// A tick with a new instant (other seconds or nanoseconds) puts that very
/// moment, calendar reading included, on show and redraws, keeping the
/// brightness; a tick with the instant on show changes nothing. Climate and
/// particle readings redraw and change nothing else; a failed ambient reading,
/// a gesture and `Nothing` do nothing.
pub proof fn lemma_reactions(state: ClockState, now: Moment, g: Gesture)
    ensures
        !(now.seconds == state.now.seconds && now.nanos == state.now.nanos) ==> react(state, Event::Tick(now))
            == (ClockState { now, brightness: state.brightness }, Reaction { redraw: true, brightness: None }),
        (now.seconds == state.now.seconds && now.nanos == state.now.nanos) ==> react(state, Event::Tick(now))
            == (state, Reaction { redraw: false, brightness: None }),
        react(state, Event::ClimateMeasured) == (state, Reaction { redraw: true, brightness: None }),
        react(state, Event::ParticlesMeasured) == (state, Reaction { redraw: true, brightness: None }),
        react(state, Event::AmbientMeasured(None)) == (state, Reaction { redraw: false, brightness: None }),
        react(state, Event::GestureSeen(g)) == (state, Reaction { redraw: false, brightness: None }),
        react(state, Event::Nothing) == (state, Reaction { redraw: false, brightness: None }),
{
}

/// An ambient reading sets the brightness to its target and asks the screen
/// for it exactly when it differs from the one set last.
pub proof fn lemma_ambient_reaction(state: ClockState, target: u32)
    ensures
        target != state.brightness ==> react(state, Event::AmbientMeasured(Some(target)))
            == (ClockState { now: state.now, brightness: target }, Reaction { redraw: false, brightness: Some(target) }),
        target == state.brightness ==> react(state, Event::AmbientMeasured(Some(target)))
            == (state, Reaction { redraw: false, brightness: None }),
{
}

} // verus!
