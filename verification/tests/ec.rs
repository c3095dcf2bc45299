use anyleaf::ec::{
    adjust_excitation, excitation_code, signal_below_range, EcAction, EcEvent, EcGain, EcPhase,
    EcReading, EcSensor, DAC_MAX, EXCITATION_MAX, PHASE_OFFSET_US, RANGING_EXCITATION, SETTLE_MS,
    TARGET_SUM,
};
use anyleaf::error::Error;

const LADDER: [EcGain; 7] = [
    EcGain::Two,
    EcGain::Three,
    EcGain::Four,
    EcGain::Five,
    EcGain::Six,
    EcGain::Seven,
    EcGain::Eight,
];

fn raise(g: EcGain) -> Result<EcGain, Error<u8>> {
    g.raise()
}

fn lower(g: EcGain) -> Result<EcGain, Error<u8>> {
    g.drop()
}

fn position(g: EcGain) -> i32 {
    LADDER.iter().position(|r| *r == g).unwrap() as i32 + 2
}

/// Runs one cycle to its end, with the bridge showing `volts(rung)` at each
/// rung, and returns every action asked for.
fn run(ec: &mut EcSensor<u8>, volts: impl Fn(EcGain) -> (i32, i32)) -> Vec<EcAction<u8>> {
    let mut gain = EcGain::Two;
    let mut actions = Vec::new();
    let mut action = ec.start();
    loop {
        let event = match &action {
            EcAction::SetGain(g) => {
                gain = *g;
                EcEvent::Done
            }
            EcAction::ReadVoltages => {
                let (v_p, v_m) = volts(gain);
                EcEvent::Voltages(v_p, v_m)
            }
            EcAction::Finish(_) | EcAction::Nothing => {
                actions.push(action);
                return actions;
            }
            _ => EcEvent::Done,
        };
        actions.push(action);
        assert!(actions.len() < 100);
        action = ec.step(event);
    }
}

#[test]
fn constants_of_the_cycle() {
    assert_eq!(RANGING_EXCITATION, 400);
    assert_eq!(TARGET_SUM, 100_000);
    assert_eq!(EXCITATION_MAX, 2_048);
    assert_eq!(DAC_MAX, 4_095);
    assert_eq!(PHASE_OFFSET_US, 5_319);
    assert_eq!(SETTLE_MS, 200);
}

#[test]
fn top_rung_cannot_be_raised() {
    assert_eq!(raise(EcGain::Eight), Err(Error::GainLimitReached));
}

#[test]
fn bottom_rung_cannot_be_dropped() {
    assert_eq!(lower(EcGain::Two), Err(Error::GainLimitReached));
}

#[test]
fn ladder_is_climbed_one_rung_at_a_time() {
    for i in 0..6 {
        assert_eq!(raise(LADDER[i]), Ok(LADDER[i + 1]));
        assert_eq!(lower(LADDER[i + 1]), Ok(LADDER[i]));
    }
}

#[test]
fn raising_then_dropping_returns_to_the_rung() {
    for g in LADDER {
        if let Ok(up) = raise(g) {
            assert_eq!(lower(up), Ok(g));
        }
        if let Ok(down) = lower(g) {
            assert_eq!(raise(down), Ok(g));
        }
    }
}

#[test]
fn select_lines_spell_the_switch_position() {
    assert_eq!(EcGain::Two.select_lines(), (true, false, false));
    assert_eq!(EcGain::Three.select_lines(), (false, true, false));
    assert_eq!(EcGain::Four.select_lines(), (true, true, false));
    assert_eq!(EcGain::Five.select_lines(), (false, false, true));
    assert_eq!(EcGain::Six.select_lines(), (true, false, true));
    assert_eq!(EcGain::Seven.select_lines(), (false, true, true));
    assert_eq!(EcGain::Eight.select_lines(), (true, true, true));
    for g in LADDER {
        let (a, b, c) = g.select_lines();
        assert_eq!(a as i32 + 2 * b as i32 + 4 * c as i32, position(g) - 1);
    }
}

#[test]
fn excitation_voltage_as_a_dac_code() {
    assert_eq!(excitation_code(0), 0);
    assert_eq!(excitation_code(1), 1);
    assert_eq!(excitation_code(400), 799);
    assert_eq!(excitation_code(2_047), 4_093);
    assert_eq!(excitation_code(2_048), 4_095);
    assert_eq!(excitation_code(3_000), 4_095);
    assert_eq!(excitation_code(u16::MAX), 4_095);
}

#[test]
fn signal_is_below_range_under_sixty_percent_of_twice_the_excitation() {
    assert!(signal_below_range(239_999, 240_000, 400));
    assert!(!signal_below_range(240_000, 240_000, 400));
    assert!(!signal_below_range(480_001, 0, 400));
    assert!(signal_below_range(-1, 0, 0));
    assert!(!signal_below_range(0, 0, 0));
    assert!(signal_below_range(i32::MIN, i32::MIN, u16::MAX));
    assert!(!signal_below_range(i32::MAX, i32::MAX, u16::MAX));
}

#[test]
fn excitation_is_adjusted_to_the_target() {
    assert_eq!(adjust_excitation(400, 250_000, 250_000), 80);
    assert_eq!(adjust_excitation(400, 480_000, 0), 83);
    assert_eq!(adjust_excitation(400, 1_000_000, 1_000_000), 20);
    assert_eq!(adjust_excitation(400, 19_532, 0), 2_047);
    assert_eq!(adjust_excitation(400, 19_531, 0), 2_048);
    assert_eq!(adjust_excitation(400, 10_000, 0), 2_048);
    assert_eq!(adjust_excitation(400, 1, 0), 2_048);
    assert_eq!(adjust_excitation(400, 0, 0), 2_048);
    assert_eq!(adjust_excitation(400, -5, 2), 2_048);
    assert_eq!(adjust_excitation(u16::MAX, i32::MAX, i32::MAX), 1);
    assert_eq!(adjust_excitation(0, 5, 5), 0);
}

#[test]
fn cycle_ranges_down_to_the_first_rung_in_range() {
    let mut ec: EcSensor<u8> = EcSensor::new();
    assert_eq!(ec.phase(), EcPhase::Idle);
    let volts = |g: EcGain| (50_000 * (10 - position(g)), 50_000 * (10 - position(g)) - 100_000);
    let actions = run(&mut ec, volts);
    assert_eq!(
        actions,
        vec![
            EcAction::WakeDac,
            EcAction::EnablePulses,
            EcAction::WaitMicros(5_319),
            EcAction::EnableThirdPulse,
            EcAction::SetGain(EcGain::Eight),
            EcAction::SetExcitation(400),
            EcAction::ReadVoltages,
            EcAction::SetGain(EcGain::Seven),
            EcAction::ReadVoltages,
            EcAction::SetGain(EcGain::Six),
            EcAction::ReadVoltages,
            EcAction::SetGain(EcGain::Five),
            EcAction::ReadVoltages,
            EcAction::SetGain(EcGain::Four),
            EcAction::ReadVoltages,
            EcAction::SetExcitation(80),
            EcAction::WaitMillis(200),
            EcAction::ReadVoltages,
            EcAction::DisablePulses,
            EcAction::ShutdownDac,
            EcAction::Finish(Ok(EcReading {
                v_p: 300_000,
                v_m: 200_000,
                gain: EcGain::Four,
                v_exc: 80,
            })),
        ]
    );
    assert_eq!(ec.phase(), EcPhase::Idle);
}

#[test]
fn ranging_stops_where_the_condition_first_holds() {
    for first in LADDER {
        let mut ec: EcSensor<u8> = EcSensor::new();
        let volts = |g: EcGain| {
            if position(g) <= position(first) {
                (480_000, 0)
            } else {
                (479_999, 0)
            }
        };
        let actions = run(&mut ec, volts);
        let reads = actions.iter().filter(|a| **a == EcAction::ReadVoltages).count();
        assert_eq!(reads as i32, 8 - position(first) + 2);
        match actions.last() {
            Some(EcAction::Finish(Ok(reading))) => {
                assert_eq!(reading.gain, first);
                assert_eq!(reading.v_exc, 83);
            }
            other => panic!("the cycle ended with {:?}", other),
        }
    }
}

#[test]
fn ranging_never_goes_past_the_bottom_rung() {
    let mut ec: EcSensor<u8> = EcSensor::new();
    let actions = run(&mut ec, |_| (0, 0));
    let gains: Vec<EcGain> = actions
        .iter()
        .filter_map(|a| match a {
            EcAction::SetGain(g) => Some(*g),
            _ => None,
        })
        .collect();
    assert_eq!(
        gains,
        vec![
            EcGain::Eight,
            EcGain::Seven,
            EcGain::Six,
            EcGain::Five,
            EcGain::Four,
            EcGain::Three,
            EcGain::Two
        ]
    );
    assert_eq!(actions.iter().filter(|a| **a == EcAction::ReadVoltages).count(), 8);
    assert_eq!(
        actions.last(),
        Some(&EcAction::Finish(Ok(EcReading {
            v_p: 0,
            v_m: 0,
            gain: EcGain::Two,
            v_exc: 2_048
        })))
    );
}

#[test]
fn every_cycle_ranges_from_the_top() {
    let mut ec: EcSensor<u8> = EcSensor::new();
    run(&mut ec, |_| (0, 0));
    let again = run(&mut ec, |_| (600_000, 0));
    assert_eq!(again[4], EcAction::SetGain(EcGain::Eight));
    assert_eq!(
        again.last(),
        Some(&EcAction::Finish(Ok(EcReading {
            v_p: 600_000,
            v_m: 0,
            gain: EcGain::Eight,
            v_exc: 66
        })))
    );
}

#[test]
fn phases_follow_one_another() {
    let mut ec: EcSensor<u8> = EcSensor::new();
    assert_eq!(ec.phase(), EcPhase::Idle);
    assert_eq!(ec.pending(), EcAction::Nothing);
    assert_eq!(ec.start(), EcAction::WakeDac);
    assert_eq!(ec.phase(), EcPhase::Exciting);
    assert_eq!(ec.step(EcEvent::Done), EcAction::EnablePulses);
    assert_eq!(ec.step(EcEvent::Done), EcAction::WaitMicros(PHASE_OFFSET_US));
    assert_eq!(ec.step(EcEvent::Done), EcAction::EnableThirdPulse);
    assert_eq!(ec.phase(), EcPhase::Exciting);
    assert_eq!(ec.step(EcEvent::Done), EcAction::SetGain(EcGain::Eight));
    assert_eq!(ec.phase(), EcPhase::Ranging);
    assert_eq!(ec.step(EcEvent::Done), EcAction::SetExcitation(400));
    assert_eq!(ec.phase(), EcPhase::Ranging);
    assert_eq!(ec.step(EcEvent::Done), EcAction::ReadVoltages);
    assert_eq!(ec.phase(), EcPhase::Ranging);
    assert_eq!(ec.step(EcEvent::Voltages(1_000_000, 0)), EcAction::SetExcitation(40));
    assert_eq!(ec.phase(), EcPhase::Measuring);
    assert_eq!(ec.pending(), EcAction::SetExcitation(40));
    assert_eq!(ec.step(EcEvent::Done), EcAction::WaitMillis(SETTLE_MS));
    assert_eq!(ec.step(EcEvent::Done), EcAction::ReadVoltages);
    assert_eq!(ec.step(EcEvent::Voltages(7, -9)), EcAction::DisablePulses);
    assert_eq!(ec.phase(), EcPhase::Measuring);
    assert_eq!(ec.step(EcEvent::Done), EcAction::ShutdownDac);
    assert_eq!(ec.phase(), EcPhase::Measuring);
    assert_eq!(
        ec.step(EcEvent::Done),
        EcAction::Finish(Ok(EcReading { v_p: 7, v_m: -9, gain: EcGain::Eight, v_exc: 40 }))
    );
    assert_eq!(ec.phase(), EcPhase::Idle);
}

#[test]
fn bus_error_switches_the_excitation_off() {
    for steps_before in 0..12 {
        let mut ec: EcSensor<u8> = EcSensor::new();
        let mut action = ec.start();
        for _ in 0..steps_before {
            action = match action {
                EcAction::ReadVoltages => ec.step(EcEvent::Voltages(0, 0)),
                _ => ec.step(EcEvent::Done),
            };
        }
        assert!(action != EcAction::DisablePulses);
        assert_eq!(ec.step(EcEvent::Failed(Error::TransportError(42))), EcAction::DisablePulses);
        assert_eq!(ec.pending(), EcAction::DisablePulses);
        assert_eq!(ec.step(EcEvent::Done), EcAction::ShutdownDac);
        assert_eq!(ec.step(EcEvent::Done), EcAction::Finish(Err(Error::TransportError(42))));
        assert_eq!(ec.phase(), EcPhase::Idle);
    }
}

#[test]
fn bus_error_while_measuring_switches_the_excitation_off() {
    for steps_before in 0..3 {
        let mut ec: EcSensor<u8> = EcSensor::new();
        let mut action = ec.start();
        while !matches!(action, EcAction::SetExcitation(66)) {
            action = match action {
                EcAction::ReadVoltages => ec.step(EcEvent::Voltages(300_000, 300_000)),
                _ => ec.step(EcEvent::Done),
            };
        }
        assert_eq!(ec.phase(), EcPhase::Measuring);
        for _ in 0..steps_before {
            ec.step(EcEvent::Done);
        }
        assert_eq!(ec.step(EcEvent::Failed(Error::TransportError(7))), EcAction::DisablePulses);
        assert_eq!(ec.step(EcEvent::Done), EcAction::ShutdownDac);
        assert_eq!(ec.step(EcEvent::Done), EcAction::Finish(Err(Error::TransportError(7))));
    }
}

#[test]
fn channel_without_the_bus_ends_the_cycle() {
    let mut ec: EcSensor<u8> = EcSensor::new();
    let mut action = ec.start();
    while action != EcAction::ReadVoltages {
        action = ec.step(EcEvent::Done);
    }
    assert_eq!(ec.step(EcEvent::Failed(Error::DeviceNotHeld)), EcAction::DisablePulses);
    assert_eq!(ec.step(EcEvent::Failed(Error::TransportError(1))), EcAction::ShutdownDac);
    assert_eq!(
        ec.step(EcEvent::Failed(Error::TransportError(2))),
        EcAction::Finish(Err(Error::DeviceNotHeld))
    );
    assert_eq!(ec.start(), EcAction::WakeDac);
}

#[test]
fn failure_after_the_measurement_does_not_undo_it() {
    let mut ec: EcSensor<u8> = EcSensor::new();
    let mut action = ec.start();
    while action != EcAction::DisablePulses {
        action = match action {
            EcAction::ReadVoltages => ec.step(EcEvent::Voltages(300_000, 300_000)),
            _ => ec.step(EcEvent::Done),
        };
    }
    assert_eq!(ec.step(EcEvent::Failed(Error::TransportError(3))), EcAction::ShutdownDac);
    assert_eq!(
        ec.step(EcEvent::Failed(Error::TransportError(4))),
        EcAction::Finish(Ok(EcReading {
            v_p: 300_000,
            v_m: 300_000,
            gain: EcGain::Eight,
            v_exc: 66
        }))
    );
}

#[test]
fn events_that_answer_nothing() {
    let mut ec: EcSensor<u8> = EcSensor::new();
    assert_eq!(ec.step(EcEvent::Done), EcAction::Nothing);
    assert_eq!(ec.step(EcEvent::Voltages(1, 2)), EcAction::Nothing);
    assert_eq!(ec.step(EcEvent::Failed(Error::TransportError(1))), EcAction::Nothing);
    assert_eq!(ec.phase(), EcPhase::Idle);
    assert_eq!(ec.start(), EcAction::WakeDac);
    assert_eq!(ec.start(), EcAction::WakeDac);
    assert_eq!(ec.step(EcEvent::Voltages(1, 2)), EcAction::EnablePulses);
    assert_eq!(ec.start(), EcAction::EnablePulses);
    ec.step(EcEvent::Done);
    ec.step(EcEvent::Done);
    ec.step(EcEvent::Done);
    ec.step(EcEvent::Done);
    assert_eq!(ec.step(EcEvent::Done), EcAction::ReadVoltages);
    assert_eq!(ec.step(EcEvent::Done), EcAction::ReadVoltages);
    assert_eq!(ec.start(), EcAction::ReadVoltages);
    assert_eq!(ec.step(EcEvent::Voltages(0, 0)), EcAction::SetGain(EcGain::Seven));
}
