use anyleaf::bus::{AdcAddr, ChannelId, DeviceOwnership};
use anyleaf::calibration::{CalPt, CalPtOrp, CalPtT, TempSource};
use anyleaf::error::Error;
use anyleaf::estimator::Observation;
use anyleaf::monitor::{
    compensation_temp, ReadAll, ReadAllStep, ReadRequest, Readings, WaterMonitor, FALLBACK_TEMP,
};
use anyleaf::rtd::{Rtd, RtdType, RtdWires};

#[derive(Debug, PartialEq)]
struct Bus(u32);

type Monitor = WaterMonitor<Bus, u8>;

const ROOM: TempSource = TempSource::OffBoard(23_000_000);

fn monitor() -> Monitor {
    WaterMonitor::new(Bus(1), Rtd::new(RtdType::Pt100, RtdWires::Three), 1_000_000)
}

fn next(m: &mut Monitor, step: ReadAllStep<u8>, result: Result<i32, Error<u8>>) -> ReadAllStep<u8> {
    match step {
        ReadAllStep::Next(cycle) => m.read_all_next(cycle, result),
        ReadAllStep::Done(_) => panic!("the reading is over"),
    }
}

fn request(step: &ReadAllStep<u8>) -> ReadRequest {
    match step {
        ReadAllStep::Next(cycle) => cycle.request(),
        ReadAllStep::Done(_) => panic!("the reading is over"),
    }
}

#[test]
fn new_monitor_gives_the_bus_to_the_ph_channel() {
    let m = monitor();
    assert_eq!(m.owner(), DeviceOwnership::HeldBy(ChannelId::Ph));
    assert!(m.ph().holds_device());
    assert!(!m.orp_ec().holds_device());
    assert_eq!(m.ph().addr(), AdcAddr::Gnd);
    assert_eq!(m.orp_ec().addr(), AdcAddr::Vdd);
    assert_eq!(m.ph().dt(), 1_000_000);
    assert_eq!(m.orp_ec().dt(), 1_000_000);
    assert_eq!(m.rtd().calibration(), 30_000);
    assert_eq!(
        m.temp_calibration(),
        (CalPtT::new(135_000, 0), CalPtT::new(960_000, 85_000_000))
    );
}

#[test]
fn ownership_is_exclusive() {
    let mut m = monitor();
    assert_eq!(m.release(ChannelId::Ph), Ok(()));
    assert_eq!(m.owner(), DeviceOwnership::Free);

    assert_eq!(m.acquire(ChannelId::Ph), Ok(()));
    assert_eq!(m.owner(), DeviceOwnership::HeldBy(ChannelId::Ph));
    assert_eq!(m.acquire(ChannelId::OrpEc), Err(Error::OwnershipConflict));
    assert_eq!(m.owner(), DeviceOwnership::HeldBy(ChannelId::Ph));

    assert_eq!(m.release(ChannelId::Ph), Ok(()));
    assert_eq!(m.acquire(ChannelId::OrpEc), Ok(()));
    assert_eq!(m.owner(), DeviceOwnership::HeldBy(ChannelId::OrpEc));
    assert!(m.orp_ec().holds_device());
    assert!(!m.ph().holds_device());
    assert!(matches!(m.device(ChannelId::Ph), Err(Error::DeviceNotHeld)));
    assert!(matches!(m.device(ChannelId::OrpEc), Ok(Bus(1))));
}

#[test]
fn ownership_is_exclusive_the_other_way_round() {
    let mut m = monitor();
    assert_eq!(m.release(ChannelId::Ph), Ok(()));
    assert_eq!(m.acquire(ChannelId::OrpEc), Ok(()));
    assert_eq!(m.acquire(ChannelId::Ph), Err(Error::OwnershipConflict));
    assert_eq!(m.release(ChannelId::OrpEc), Ok(()));
    assert_eq!(m.acquire(ChannelId::Ph), Ok(()));
    assert!(matches!(m.device(ChannelId::OrpEc), Err(Error::DeviceNotHeld)));
    assert!(matches!(m.device(ChannelId::Ph), Ok(Bus(1))));
}

#[test]
fn acquiring_twice_keeps_the_bus() {
    let mut m = monitor();
    assert_eq!(m.acquire(ChannelId::Ph), Ok(()));
    assert_eq!(m.acquire(ChannelId::Ph), Ok(()));
    assert_eq!(m.owner(), DeviceOwnership::HeldBy(ChannelId::Ph));
}

#[test]
fn only_the_holder_releases() {
    let mut m = monitor();
    assert_eq!(m.release(ChannelId::OrpEc), Err(Error::DeviceNotHeld));
    assert_eq!(m.owner(), DeviceOwnership::HeldBy(ChannelId::Ph));
    assert_eq!(m.release(ChannelId::Ph), Ok(()));
    assert_eq!(m.release(ChannelId::Ph), Err(Error::DeviceNotHeld));
    assert_eq!(m.release(ChannelId::OrpEc), Err(Error::DeviceNotHeld));
    assert_eq!(m.owner(), DeviceOwnership::Free);
    assert!(matches!(m.device(ChannelId::Ph), Err(Error::DeviceNotHeld)));
    assert!(matches!(m.device(ChannelId::OrpEc), Err(Error::DeviceNotHeld)));
}

#[test]
fn the_bus_is_handed_over_not_copied() {
    let mut m = monitor();
    match m.device(ChannelId::Ph) {
        Ok(bus) => bus.0 = 5,
        Err(_) => panic!("the pH channel holds the bus"),
    }
    m.orp_ec_take();
    assert_eq!(m.owner(), DeviceOwnership::HeldBy(ChannelId::OrpEc));
    assert_eq!(m.orp_ec().bound(), AdcAddr::Vdd);
    match m.device(ChannelId::OrpEc) {
        Ok(bus) => {
            assert_eq!(*bus, Bus(5));
            bus.0 = 6;
        }
        Err(_) => panic!("the ORP channel holds the bus"),
    }
    m.orp_ec_take();
    m.ph_take();
    m.ph_take();
    assert_eq!(m.owner(), DeviceOwnership::HeldBy(ChannelId::Ph));
    assert_eq!(m.release(ChannelId::Ph), Ok(()));
    m.orp_ec_take();
    assert!(matches!(m.device(ChannelId::OrpEc), Ok(Bus(6))));
}

#[test]
fn reading_a_channel_hands_it_the_bus() {
    let mut m = monitor();
    assert_eq!(m.read_orp(100), Ok(Observation { value: 6_250_000, reset: false }));
    assert_eq!(m.owner(), DeviceOwnership::HeldBy(ChannelId::OrpEc));
    assert_eq!(m.orp_ec().last_meas(), 6_250_000);
    assert_eq!(m.read_ph(2_720, ROOM), Ok(Observation { value: 3_999_911, reset: true }));
    assert_eq!(m.owner(), DeviceOwnership::HeldBy(ChannelId::Ph));
    assert_eq!(m.ph().last_meas(), 3_999_911);
    assert_eq!(m.read_orp_voltage(-1), Ok(-63));
    assert_eq!(m.owner(), DeviceOwnership::HeldBy(ChannelId::OrpEc));
    assert_eq!(m.read_ph_voltage(1), Ok(62));
    assert_eq!(m.owner(), DeviceOwnership::HeldBy(ChannelId::Ph));
    assert_eq!(m.release(ChannelId::Ph), Ok(()));
    assert_eq!(m.read_temp_voltage(16_384), Ok(1_024_031));
    assert_eq!(m.owner(), DeviceOwnership::HeldBy(ChannelId::Ph));
}

#[test]
fn monitor_reads_the_detector() {
    let m = monitor();
    assert_eq!(m.read_temp(21_846), Ok(0));
    assert_eq!(m.read_temp(30_260), Ok(100_000_000));
}

#[test]
fn monitor_calibrates_its_channels() {
    let mut m = monitor();
    m.calibrate_all_ph(CalPt::new(5, 1, 2), CalPt::new(5, 3, 4), None);
    assert_eq!(m.ph().calibration(), (CalPt::new(5, 1, 2), CalPt::new(5, 3, 4), None));
    assert_eq!(m.read_ph(0, ROOM), Err(Error::CalibrationUnset));
    m.calibrate_all_orp(CalPtOrp::new(0, 9));
    assert_eq!(m.orp_ec().calibration(), CalPtOrp::new(0, 9));
    assert_eq!(m.read_orp(0), Err(Error::CalibrationUnset));
    assert_eq!(m.owner(), DeviceOwnership::HeldBy(ChannelId::OrpEc));
    m.calibrate_all_temp(CalPtT::new(1, 2), CalPtT::new(3, 4));
    assert_eq!(m.temp_calibration(), (CalPtT::new(1, 2), CalPtT::new(3, 4)));
}

#[test]
fn fallback_temperature_is_twenty_degrees() {
    assert_eq!(FALLBACK_TEMP, 20_000_000);
    assert_eq!(compensation_temp::<u8>(&Ok(31_000_000)), 31_000_000);
    assert_eq!(compensation_temp(&Err(Error::TransportError(4u8))), 20_000_000);
    assert_eq!(compensation_temp::<u8>(&Err(Error::DeviceNotHeld)), 20_000_000);
}

#[test]
fn reading_all_channels_hands_the_bus_round() {
    let mut m = monitor();
    m.orp_ec_take();
    let step = ReadAllStep::Next(m.read_all());
    assert_eq!(request(&step), ReadRequest::Temperature);
    assert_eq!(m.owner(), DeviceOwnership::HeldBy(ChannelId::Ph));
    let step = next(&mut m, step, Ok(24_000_000));
    assert_eq!(request(&step), ReadRequest::Ph { temp: 24_000_000 });
    assert_eq!(m.owner(), DeviceOwnership::HeldBy(ChannelId::Ph));
    let step = next(&mut m, step, Ok(7_100_000));
    assert_eq!(request(&step), ReadRequest::Orp);
    assert_eq!(m.owner(), DeviceOwnership::HeldBy(ChannelId::OrpEc));
    let step = next(&mut m, step, Ok(250_000_000));
    assert_eq!(request(&step), ReadRequest::Ec { temp: 24_000_000 });
    assert_eq!(m.owner(), DeviceOwnership::HeldBy(ChannelId::OrpEc));
    let step = next(&mut m, step, Ok(1_413));
    assert_eq!(
        step,
        ReadAllStep::Done(Readings {
            pH: Ok(7_100_000),
            T: Ok(24_000_000),
            ec: Ok(1_413),
            ORP: Ok(250_000_000),
        })
    );
    assert_eq!(m.owner(), DeviceOwnership::HeldBy(ChannelId::Ph));
}

#[test]
fn failure_of_one_channel_leaves_the_others() {
    for failing in 0..4 {
        let mut m = monitor();
        let results: Vec<Result<i32, Error<u8>>> = (0..4)
            .map(|i| if i == failing { Err(Error::TransportError(i as u8)) } else { Ok(i + 10) })
            .collect();
        let mut step = ReadAllStep::Next(m.read_all());
        for i in 0..4 {
            let (ok, err) = (Ok(i + 10), Err(Error::TransportError(i as u8)));
            step = next(&mut m, step, if i == failing { err } else { ok });
        }
        let mut expected = results;
        let ec = expected.pop().unwrap();
        let orp = expected.pop().unwrap();
        let ph = expected.pop().unwrap();
        let t = expected.pop().unwrap();
        assert_eq!(step, ReadAllStep::Done(Readings { pH: ph, T: t, ec, ORP: orp }));
    }
}

#[test]
fn failed_temperature_is_replaced_for_compensation_only() {
    let mut m = monitor();
    let step = ReadAllStep::Next(m.read_all());
    let step = next(&mut m, step, Err(Error::TransportError(9)));
    assert_eq!(request(&step), ReadRequest::Ph { temp: 20_000_000 });
    let step = next(&mut m, step, Ok(1));
    let step = next(&mut m, step, Ok(2));
    assert_eq!(request(&step), ReadRequest::Ec { temp: 20_000_000 });
    let step = next(&mut m, step, Ok(3));
    assert_eq!(
        step,
        ReadAllStep::Done(Readings {
            pH: Ok(1),
            T: Err(Error::TransportError(9)),
            ec: Ok(3),
            ORP: Ok(2),
        })
    );
}

#[test]
fn a_reading_can_be_taken_up_at_any_stage() {
    let mut m = monitor();
    let cycle: ReadAll<u8> = ReadAll::Orp { T: Ok(1), pH: Err(Error::CalibrationUnset) };
    assert_eq!(cycle.request(), ReadRequest::Orp);
    let step = m.read_all_next(cycle, Ok(2));
    assert_eq!(m.owner(), DeviceOwnership::HeldBy(ChannelId::OrpEc));
    assert_eq!(request(&step), ReadRequest::Ec { temp: 1 });
}
