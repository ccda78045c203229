use mandala_smart_book::gr10_30::registers::word;
use mandala_smart_book::gr10_30::{
    reply_for,
    Gesture, HoldingRegister, InputRegister, Outcome, Reply, Step, Transfer,
    DEVICE_ADDRESS, DEVICE_VID, GR1030,
};

fn write(register: u8, value_1: u8, value_2: u8) -> Step {
    Step::Perform(Transfer::Write { register, value_1, value_2 })
}

#[test]
fn register_addresses() {
    assert_eq!(InputRegister::PID.address(), 0x00);
    assert_eq!(InputRegister::VID.address(), 0x01);
    assert_eq!(InputRegister::DataReady.address(), 0x06);
    assert_eq!(InputRegister::InterruptState.address(), 0x07);
    assert_eq!(InputRegister::InterruptRegExistsState.address(), 0x08);
    assert_eq!(HoldingRegister::InterruptMode.address(), 0x09);
    assert_eq!(HoldingRegister::LeftRightUpWindow.address(), 0x0a);
    assert_eq!(HoldingRegister::CCWAngleCount.address(), 0x17);
    assert_eq!(HoldingRegister::Reset.address(), 0x18);
    assert_eq!(DEVICE_ADDRESS, 0x73);
    assert_eq!(DEVICE_VID, 0x3343);
}

#[test]
fn word_is_big_endian() {
    assert_eq!(word(0x33, 0x43), 0x3343);
    assert_eq!(word(0x00, 0x01), 1);
    assert_eq!(word(0x01, 0x00), 256);
    assert_eq!(word(0xff, 0xff), 0xffff);
}

#[test]
fn transfer_bytes() {
    assert_eq!(Transfer::Write { register: 0x18, value_1: 0x55, value_2: 0 }.sent(), vec![0x18, 0x55, 0]);
    assert_eq!(Transfer::ReadWord { register: 0x01 }.sent(), vec![0x01]);
    assert!(Transfer::Pause { millis: 500 }.sent().is_empty());
}

#[test]
fn new_and_destroy_give_back_the_bus() {
    let mut d = GR1030::new(String::from("i2c-1"));
    d.bus_mut().push('!');
    assert_eq!(d.destroy(), "i2c-1!");
}

#[test]
fn configuration_writes() {
    let mut d = GR1030::new(());
    assert_eq!(d.reset(), write(0x18, 0x55, 0x00));
    assert_eq!(d.resume(Reply::Written), Step::Finish(Outcome::Done));
    assert_eq!(d.set_detection_window(20, 20), write(0x0a, 20, 20));
    assert_eq!(d.resume(Reply::Written), Step::Finish(Outcome::Done));
    // Only the low five bits of each side are kept.
    assert_eq!(d.set_detection_window(0xff, 33), write(0x0a, 0x1f, 1));
    assert_eq!(d.resume(Reply::Written), Step::Finish(Outcome::Done));
    assert_eq!(d.set_left_range(10), write(0x0b, 0, 10));
    assert_eq!(d.resume(Reply::Written), Step::Finish(Outcome::Done));
    assert_eq!(d.set_right_range(12), write(0x0c, 0, 12));
    assert_eq!(d.resume(Reply::Written), Step::Finish(Outcome::Done));
}

#[test]
fn enable_gestures_mask() {
    let mut d = GR1030::new(());
    let g = Gesture::left().or(Gesture::right()).or(Gesture::up()).or(Gesture::down());
    assert_eq!(d.enable_gestures(g), write(0x09, 0x00, 0x0f));
    assert_eq!(d.resume(Reply::Written), Step::Finish(Outcome::Done));
    // Bits 11 to 13 are dropped, continuous rotations and wave/hover/unknown kept.
    let all = Gesture::from_bits(0xffff);
    assert_eq!(d.enable_gestures(all), write(0x09, 0xc7, 0xff));
    let wave = Gesture::wave().or(Gesture::clockwise_continuous());
    assert_eq!(d.enable_gestures(wave), write(0x09, 0x41, 0x00));
    let dropped = Gesture::from_bits(0x3800);
    assert_eq!(d.enable_gestures(dropped), write(0x09, 0x00, 0x00));
}

#[test]
fn register_reads() {
    let mut d = GR1030::new(());
    assert_eq!(d.get_vid(), Step::Perform(Transfer::ReadWord { register: 0x01 }));
    assert_eq!(d.resume(Reply::Word(0x33, 0x43)), Step::Finish(Outcome::Value(0x3343)));
    assert_eq!(d.validate_vid(), Step::Perform(Transfer::ReadWord { register: 0x01 }));
    assert_eq!(d.resume(Reply::Word(0x33, 0x43)), Step::Finish(Outcome::Flag(true)));
    d.validate_vid();
    assert_eq!(d.resume(Reply::Word(0x43, 0x33)), Step::Finish(Outcome::Flag(false)));
    assert_eq!(d.is_data_ready(), Step::Perform(Transfer::ReadWord { register: 0x06 }));
    assert_eq!(d.resume(Reply::Word(0, 1)), Step::Finish(Outcome::Flag(true)));
    d.is_data_ready();
    assert_eq!(d.resume(Reply::Word(1, 0)), Step::Finish(Outcome::Flag(false)));
    assert_eq!(d.gesture(), Step::Perform(Transfer::ReadWord { register: 0x07 }));
    match d.resume(Reply::Word(0x02, 0x04)) {
        Step::Finish(Outcome::Detected(g)) => assert_eq!(g.bits(), 0x0204),
        other => panic!("unexpected step {:?}", other),
    }
    assert_eq!(d.object_in_range(), Step::Perform(Transfer::ReadWord { register: 0x08 }));
    assert_eq!(d.resume(Reply::Word(0, 1)), Step::Finish(Outcome::Flag(true)));
    // The presence value is the low (second) byte.
    d.object_in_range();
    assert_eq!(d.resume(Reply::Word(1, 0)), Step::Finish(Outcome::Flag(false)));
    d.object_in_range();
    assert_eq!(d.resume(Reply::Word(7, 1)), Step::Finish(Outcome::Flag(true)));
    d.object_in_range();
    assert_eq!(d.resume(Reply::Word(0, 2)), Step::Finish(Outcome::Flag(false)));
    // The operation is over: nothing is pending any more.
    assert_eq!(d.resume(Reply::Written), Step::Stray);
}

#[test]
fn check_and_get_gesture_when_ready() {
    let mut d = GR1030::new(());
    assert_eq!(d.check_and_get_gesture(), Step::Perform(Transfer::ReadWord { register: 0x06 }));
    assert_eq!(d.resume(Reply::Word(0, 1)), Step::Perform(Transfer::ReadWord { register: 0x07 }));
    match d.resume(Reply::Word(0x00, 0x08)) {
        Step::Finish(Outcome::Checked(Some(g))) => assert_eq!(g, Gesture::right()),
        other => panic!("unexpected step {:?}", other),
    }
}

#[test]
fn check_and_get_gesture_when_not_ready() {
    let mut d = GR1030::new(());
    d.check_and_get_gesture();
    assert_eq!(d.resume(Reply::Word(0, 0)), Step::Finish(Outcome::Checked(None)));
    d.check_and_get_gesture();
    assert_eq!(d.resume(Reply::Word(1, 1)), Step::Finish(Outcome::Checked(None)));
}

#[test]
fn set_up_with_genuine_sensor() {
    let mut d = GR1030::new(());
    let g = Gesture::left().or(Gesture::right());
    assert_eq!(d.set_up(g), write(0x18, 0x55, 0x00));
    assert_eq!(d.resume(Reply::Written), Step::Perform(Transfer::Pause { millis: 500 }));
    assert_eq!(d.resume(Reply::Waited), Step::Perform(Transfer::ReadWord { register: 0x01 }));
    assert_eq!(d.resume(Reply::Word(0x33, 0x43)), write(0x09, 0x00, 0x0c));
    assert_eq!(d.resume(Reply::Written), Step::Perform(Transfer::Pause { millis: 500 }));
    assert_eq!(d.resume(Reply::Waited), write(0x0a, 20, 20));
    assert_eq!(d.resume(Reply::Written), write(0x0b, 0, 10));
    assert_eq!(d.resume(Reply::Written), write(0x0c, 0, 10));
    assert_eq!(d.resume(Reply::Written), Step::Finish(Outcome::Done));
    // The operation is over: nothing is pending any more.
    assert_eq!(d.resume(Reply::Written), Step::Stray);
}

#[test]
fn set_up_with_foreign_vid() {
    let mut d = GR1030::new(());
    d.set_up(Gesture::up());
    d.resume(Reply::Written);
    d.resume(Reply::Waited);
    assert_eq!(d.resume(Reply::Word(0x12, 0x34)), Step::InvalidVid);
    // The operation is over: nothing is pending any more.
    assert_eq!(d.resume(Reply::Written), Step::Stray);
}

#[test]
fn stray_replies_drop_the_operation() {
    let mut d = GR1030::new(());
    assert_eq!(d.resume(Reply::Written), Step::Stray);
    d.get_vid();
    assert_eq!(d.resume(Reply::Written), Step::Stray);
    // The operation is over: nothing is pending any more.
    assert_eq!(d.resume(Reply::Written), Step::Stray);
    d.set_up(Gesture::up());
    assert_eq!(d.resume(Reply::Waited), Step::Stray);
    // The operation is over: nothing is pending any more.
    assert_eq!(d.resume(Reply::Written), Step::Stray);
}

#[test]
fn gesture_flags() {
    let flags = [
        (Gesture::up(), 0x0001),
        (Gesture::down(), 0x0002),
        (Gesture::left(), 0x0004),
        (Gesture::right(), 0x0008),
        (Gesture::forward(), 0x0010),
        (Gesture::backward(), 0x0020),
        (Gesture::clockwise(), 0x0040),
        (Gesture::counter_clockwise(), 0x0080),
        (Gesture::wave(), 0x0100),
        (Gesture::hover(), 0x0200),
        (Gesture::unknown(), 0x0400),
        (Gesture::clockwise_continuous(), 0x4000),
        (Gesture::counter_clockwise_continuous(), 0x8000),
    ];
    for (g, bits) in flags {
        assert_eq!(g.bits(), bits);
        assert_eq!(Gesture::from_bits(bits), g);
    }
    let lr = Gesture::left().or(Gesture::right());
    assert_eq!(lr.bits(), 0x000c);
    assert!(lr.contains(Gesture::left()));
    assert!(!lr.contains(Gesture::up()));
    assert!(lr.intersects(Gesture::right().or(Gesture::up())));
    assert!(!lr.intersects(Gesture::up()));
    assert_eq!(Gesture::from_bits(0x1234).bits(), 0x1234);
}

#[test]
fn failed_transfer_stops_the_operation() {
    let mut d = GR1030::new(());
    d.reset();
    assert_eq!(d.resume(Reply::Failed), Step::BusError);
    assert_eq!(d.resume(Reply::Written), Step::Stray);
    d.check_and_get_gesture();
    d.resume(Reply::Word(0, 1));
    assert_eq!(d.resume(Reply::Failed), Step::BusError);
    d.set_up(Gesture::up());
    d.resume(Reply::Written);
    d.resume(Reply::Waited);
    d.resume(Reply::Word(0x33, 0x43));
    assert_eq!(d.resume(Reply::Failed), Step::BusError);
    assert_eq!(d.resume(Reply::Failed), Step::Stray);
}

#[test]
fn replies_for_transfers() {
    let w = Transfer::Write { register: 0x18, value_1: 0x55, value_2: 0 };
    assert_eq!(reply_for(&w, [9, 9]), Reply::Written);
    assert_eq!(reply_for(&Transfer::ReadWord { register: 1 }, [0x33, 0x43]), Reply::Word(0x33, 0x43));
    assert_eq!(reply_for(&Transfer::Pause { millis: 500 }, [0, 0]), Reply::Waited);
    // Driving set-up with replies built this way never strays.
    let mut d = GR1030::new(());
    let mut step = d.set_up(Gesture::left());
    let mut count = 0;
    while let Step::Perform(t) = step {
        step = d.resume(reply_for(&t, [0x33, 0x43]));
        count += 1;
    }
    assert_eq!(step, Step::Finish(Outcome::Done));
    assert_eq!(count, 8);
}
