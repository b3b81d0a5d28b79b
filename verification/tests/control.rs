use gmeter::bus::BusError;
use gmeter::control::{Action, ControlLoop, RenderError, SampleError, TickEvent};
use gmeter::reader::{AccelReader, ConfigError, Range, RawSample};
use gmeter::sample::Sample;

fn configured_loop() -> ControlLoop {
    let reader = match AccelReader::configure(Range::G8, true) {
        Ok(r) => r,
        Err(_) => panic!("the acknowledged configuration must succeed"),
    };
    ControlLoop::new(reader)
}

#[test]
fn configuration_fails_exactly_when_the_device_rejects_it() {
    assert!(matches!(AccelReader::configure(Range::G8, true), Ok(_)));
    assert!(matches!(
        AccelReader::configure(Range::G8, false),
        Err(ConfigError::Rejected)
    ));
}

#[test]
fn raw_counts_normalize_to_gravity_units() {
    let reader = match AccelReader::configure(Range::G8, true) {
        Ok(r) => r,
        Err(_) => panic!("the acknowledged configuration must succeed"),
    };
    // 4096 counts out of 32768 full scale at eight gravities is one gravity.
    let s = reader.sample_from_raw(RawSample { x: 4096, y: -4096, z: 6144 });
    assert_eq!(s, Sample { x: 10_000, y: -10_000, z: 15_000 });

    let extreme = reader.sample_from_raw(RawSample { x: 32767, y: -32768, z: 0 });
    assert_eq!(extreme, Sample { x: 79_997, y: -80_000, z: 0 });
}

#[test]
fn end_to_end_impact_raises_the_peak() {
    let mut ctl = configured_loop();

    // First tick: a reading of 1.3 gravities puts the peak at 0.30.
    match ctl.step(TickEvent::SampleReady(RawSample { x: 0, y: 0, z: 5325 })) {
        Action::Render(f) => {
            assert_eq!(f.cur_text.as_str(), "Cur:  0.30");
            assert_eq!(f.peak_text.as_str(), "Max:  0.30");
        }
        Action::Halt => panic!("a good sample must render"),
    }
    assert_eq!(ctl.tracker.peak, 3_000);

    // Second tick: the sensor reports one and a half gravities straight up,
    // a magnitude of 0.50, which overtakes the prior peak of 0.30.
    match ctl.step(TickEvent::SampleReady(RawSample { x: 0, y: 0, z: 6144 })) {
        Action::Render(f) => {
            assert_eq!(f.cur_text.as_str(), "Cur:  0.50");
            assert_eq!(f.peak_text.as_str(), "Max:  0.50");
            assert_eq!(f.cur_origin, (0, 0));
            assert_eq!(f.peak_origin, (0, 23));
        }
        Action::Halt => panic!("a good sample must render"),
    }
    assert_eq!(ctl.tracker.peak, 5_000);

    // Third tick: back at rest, the current value falls, the peak stays.
    match ctl.step(TickEvent::SampleReady(RawSample { x: 0, y: 0, z: 4096 })) {
        Action::Render(f) => {
            assert_eq!(f.cur_text.as_str(), "Cur:  0.00");
            assert_eq!(f.peak_text.as_str(), "Max:  0.50");
        }
        Action::Halt => panic!("a good sample must render"),
    }
    assert_eq!(ctl.tracker.peak, 5_000);
}

#[test]
fn a_failed_sample_halts_the_loop() {
    let mut ctl = configured_loop();
    ctl.step(TickEvent::SampleReady(RawSample { x: 0, y: 0, z: 6144 }));
    let a = ctl.step(TickEvent::SampleFailed(SampleError::Bus(BusError::Timeout)));
    assert!(matches!(a, Action::Halt));
    assert_eq!(ctl.tracker.peak, 5_000);

    let b = ctl.step(TickEvent::SampleFailed(SampleError::InvalidData));
    assert!(matches!(b, Action::Halt));
}

#[test]
fn a_failed_render_halts_the_loop() {
    let mut ctl = configured_loop();
    let a = ctl.step(TickEvent::RenderFailed(RenderError::Flush(BusError::Nack)));
    assert!(matches!(a, Action::Halt));
    let b = ctl.step(TickEvent::RenderFailed(RenderError::Draw(BusError::ArbitrationFault)));
    assert!(matches!(b, Action::Halt));
    assert_eq!(ctl.tracker.peak, 0);
}
