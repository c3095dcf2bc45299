//! The electrical-conductivity channel: its gain ladder, its excitation, and
//! the auto-ranging measurement cycle.
//!
//! The cycle is a state machine. It never touches the hardware: it answers
//! each event with the one action that is to be performed next, and whoever
//! drives it performs that action and reports back. The actions are single
//! steps on the hardware, so that their order, delays included, is the
//! machine's.

use vstd::prelude::*;
use crate::error::Error;
use crate::fixed::lemma_product_bounds;

verus! {

/// Excitation voltage that ranging starts with, in millivolts.
pub const RANGING_EXCITATION: u16 = 400;

/// The sum of the half-bridge voltages that the excitation is adjusted for,
/// in microvolts.
pub const TARGET_SUM: i32 = 100_000;

/// The sum of the half-bridge voltages, in microvolts per millivolt of
/// excitation, below which the signal is too weak for the gain: 60 % of twice
/// the excitation voltage.
pub const RANGE_FLOOR: i32 = 1_200;

/// The largest excitation voltage, in millivolts: the full scale of the DAC.
pub const EXCITATION_MAX: u16 = 2_048;

/// The largest DAC code: twelve bits.
pub const DAC_MAX: u16 = 4_095;

/// Delay between the first two pulse outputs and the third, in microseconds:
/// half a period of the excitation.
pub const PHASE_OFFSET_US: u16 = 5_319;

/// Time for the bridge to settle on a new excitation voltage, in milliseconds.
pub const SETTLE_MS: u16 = 200;

/// A rung of the gain ladder, named after the switch position that selects
/// its resistor. The first position is not used.
#[derive(Clone, Copy, Debug, PartialEq, Eq)]
pub enum EcGain {
    Two,
    Three,
    Four,
    Five,
    Six,
    Seven,
    Eight,
}

impl EcGain {
    /// The switch position of the rung, 2 to 8.
    pub open spec fn rung(self) -> int {
        match self {
            EcGain::Two => 2,
            EcGain::Three => 3,
            EcGain::Four => 4,
            EcGain::Five => 5,
            EcGain::Six => 6,
            EcGain::Seven => 7,
            EcGain::Eight => 8,
        }
    }

    /// The rung above, where there is one.
    pub open spec fn raised(self) -> Option<EcGain> {
        match self {
            EcGain::Two => Some(EcGain::Three),
            EcGain::Three => Some(EcGain::Four),
            EcGain::Four => Some(EcGain::Five),
            EcGain::Five => Some(EcGain::Six),
            EcGain::Six => Some(EcGain::Seven),
            EcGain::Seven => Some(EcGain::Eight),
            EcGain::Eight => None,
        }
    }

    /// The rung below, where there is one.
    pub open spec fn dropped(self) -> Option<EcGain> {
        match self {
            EcGain::Two => None,
            EcGain::Three => Some(EcGain::Two),
            EcGain::Four => Some(EcGain::Three),
            EcGain::Five => Some(EcGain::Four),
            EcGain::Six => Some(EcGain::Five),
            EcGain::Seven => Some(EcGain::Six),
            EcGain::Eight => Some(EcGain::Seven),
        }
    }

    /// Raises by one rung. Fails on the top rung.
    pub fn raise<E>(&self) -> (r: Result<EcGain, Error<E>>)
        ensures
            r == (match self.raised() {
                Some(g) => Ok::<EcGain, Error<E>>(g),
                None => Err(Error::GainLimitReached),
            }),
        no_unwind
    {
        match self {
            EcGain::Two => Ok(EcGain::Three),
            EcGain::Three => Ok(EcGain::Four),
            EcGain::Four => Ok(EcGain::Five),
            EcGain::Five => Ok(EcGain::Six),
            EcGain::Six => Ok(EcGain::Seven),
            EcGain::Seven => Ok(EcGain::Eight),
            EcGain::Eight => Err(Error::GainLimitReached),
        }
    }

    /// Drops by one rung. Fails on the bottom rung.
    pub fn drop<E>(&self) -> (r: Result<EcGain, Error<E>>)
        ensures
            r == (match self.dropped() {
                Some(g) => Ok::<EcGain, Error<E>>(g),
                None => Err(Error::GainLimitReached),
            }),
        no_unwind
    {
        match self {
            EcGain::Two => Err(Error::GainLimitReached),
            EcGain::Three => Ok(EcGain::Two),
            EcGain::Four => Ok(EcGain::Three),
            EcGain::Five => Ok(EcGain::Four),
            EcGain::Six => Ok(EcGain::Five),
            EcGain::Seven => Ok(EcGain::Six),
            EcGain::Eight => Ok(EcGain::Seven),
        }
    }

    /// The levels of the three select lines of the resistor switch, lowest
    /// bit first: the binary digits of the switch position less one.
    pub fn select_lines(&self) -> (lines: (bool, bool, bool))
        ensures
            lines.0 == ((self.rung() - 1) % 2 == 1),
            lines.1 == (((self.rung() - 1) / 2) % 2 == 1),
            lines.2 == (((self.rung() - 1) / 4) % 2 == 1),
        no_unwind
    {
        match self {
            EcGain::Two => (true, false, false),
            EcGain::Three => (false, true, false),
            EcGain::Four => (true, true, false),
            EcGain::Five => (false, false, true),
            EcGain::Six => (true, false, true),
            EcGain::Seven => (false, true, true),
            EcGain::Eight => (true, true, true),
        }
    }
}

/// The ladder has seven rungs and does not wrap. The top rung, and only it,
/// cannot be raised; the bottom rung, and only it, cannot be dropped. A step
/// moves by one switch position, and raising and then dropping, or dropping
/// and then raising, leads back to the rung one started from.
pub proof fn lemma_gain_ladder(g: EcGain)
    ensures
        2 <= g.rung() <= 8,
        g.raised() is None <==> g == EcGain::Eight,
        g.dropped() is None <==> g == EcGain::Two,
        g.raised() matches Some(up) ==> up.rung() == g.rung() + 1 && up.dropped() == Some(g),
        g.dropped() matches Some(down) ==> down.rung() == g.rung() - 1 && down.raised() == Some(
            g,
        ),
{
}

/// The DAC code for an excitation voltage: `4095 × v / 2.048 V`, at most the
/// full twelve bits.
pub open spec fn excitation_code_of(v: int) -> int {
    if (DAC_MAX * v) / (EXCITATION_MAX as int) > DAC_MAX {
        DAC_MAX as int
    } else {
        (DAC_MAX * v) / (EXCITATION_MAX as int)
    }
}

/// Computes the DAC code that sets an excitation voltage given in millivolts.
pub fn excitation_code(v: u16) -> (code: u16)
    ensures
        code == excitation_code_of(v as int),
        code <= DAC_MAX,
    no_unwind
{
    let code: u32 = ((DAC_MAX as u32) * (v as u32)) / (EXCITATION_MAX as u32);
    if code > DAC_MAX as u32 {
        DAC_MAX
    } else {
        code as u16
    }
}

/// Whether the signal is too weak for the gain: the half-bridge voltages,
/// summed in microvolts, stay below 60 % of twice the excitation voltage,
/// given in millivolts.
pub open spec fn below_range(sum: int, v_exc: int) -> bool {
    sum < RANGE_FLOOR * v_exc
}

/// The excitation voltage, in millivolts, that brings a sum of the
/// half-bridge voltages to the target: `target × v_exc / sum`, at most the
/// full scale of the DAC, and the full scale where there is no signal at all.
pub open spec fn next_excitation(v_exc: int, sum: int) -> int {
    if sum <= 0 || (TARGET_SUM * v_exc) / sum > EXCITATION_MAX {
        EXCITATION_MAX as int
    } else {
        (TARGET_SUM * v_exc) / sum
    }
}

/// Tells whether the signal is too weak for the gain.
pub fn signal_below_range(v_p: i32, v_m: i32, v_exc: u16) -> (below: bool)
    ensures
        below == below_range(v_p + v_m, v_exc as int),
    no_unwind
{
    proof {
        lemma_product_bounds(RANGE_FLOOR as int, v_exc as int, 1_200, 0xffff);
    }
    (v_p as i64) + (v_m as i64) < (RANGE_FLOOR as i64) * (v_exc as i64)
}

/// Computes the excitation voltage for the measurement from the voltages
/// that ranging ended with.
pub fn adjust_excitation(v_exc: u16, v_p: i32, v_m: i32) -> (v: u16)
    ensures
        v == next_excitation(v_exc as int, v_p + v_m),
        v <= EXCITATION_MAX,
    no_unwind
{
    let sum: i64 = (v_p as i64) + (v_m as i64);
    if sum <= 0 {
        return EXCITATION_MAX;
    }
    let v: u64 = ((TARGET_SUM as u64) * (v_exc as u64)) / (sum as u64);
    if v > EXCITATION_MAX as u64 {
        EXCITATION_MAX
    } else {
        v as u16
    }
}

/// What a measurement cycle yields: the half-bridge voltages, in microvolts,
/// taken at the gain rung and excitation voltage, in millivolts, that ranging
/// settled on.
#[derive(Clone, Copy, Debug, PartialEq, Eq)]
pub struct EcReading {
    pub v_p: i32,
    pub v_m: i32,
    pub gain: EcGain,
    pub v_exc: u16,
}

/// What the driver of a cycle reports back.
#[derive(Debug, PartialEq, Eq)]
pub enum EcEvent<E> {
    /// The action asked for has been performed.
    Done,
    /// The two half-bridge voltages that were read, in microvolts.
    Voltages(i32, i32),
    /// The action could not be performed: the bus failed, or the channel
    /// did not hold it.
    Failed(Error<E>),
}

/// What the driver of a cycle is to do next.
#[derive(Debug, PartialEq, Eq)]
pub enum EcAction<E> {
    /// No cycle is running.
    Nothing,
    /// Wake the DAC from its shutdown.
    WakeDac,
    /// Enable the first two pulse outputs.
    EnablePulses,
    /// Wait this many microseconds.
    WaitMicros(u16),
    /// Enable the third pulse output.
    EnableThirdPulse,
    /// Drive the select lines of the resistor switch for this rung.
    SetGain(EcGain),
    /// Set the excitation voltage, in millivolts, on the DAC.
    SetExcitation(u16),
    /// Read both half-bridge voltages.
    ReadVoltages,
    /// Wait this many milliseconds.
    WaitMillis(u16),
    /// Disable all three pulse outputs.
    DisablePulses,
    /// Put the DAC into its shutdown.
    ShutdownDac,
    /// The cycle is over, with this outcome.
    Finish(Result<EcReading, Error<E>>),
}

/// The four phases of a measurement cycle.
#[derive(Clone, Copy, Debug, PartialEq, Eq)]
pub enum EcPhase {
    Idle,
    Exciting,
    Ranging,
    Measuring,
}

/// Where a measurement cycle stands. Every state but `Idle` waits for one
/// action to be reported.
#[derive(Debug, PartialEq, Eq)]
pub enum EcState<E> {
    /// No cycle is running.
    Idle,
    /// Exciting: the DAC is being woken.
    Waking,
    /// Exciting: the first two pulse outputs are being enabled.
    StartingPulses,
    /// Exciting: the phase offset of the third pulse output is being waited
    /// for.
    Offsetting,
    /// Exciting: the third pulse output is being enabled.
    StartingThird,
    /// Ranging: the top rung is being selected.
    SelectingTop,
    /// Ranging: the initial excitation voltage is being set.
    SettingExcitation,
    /// Ranging: the voltages at `gain` are being read.
    Reading { gain: EcGain },
    /// Ranging: `gain`, one rung down, is being selected.
    Dropping { gain: EcGain },
    /// Measuring: the adjusted excitation voltage is being set.
    Adjusting { gain: EcGain, v_exc: u16 },
    /// Measuring: the bridge is settling.
    Settling { gain: EcGain, v_exc: u16 },
    /// Measuring: the final voltages are being read.
    Sampling { gain: EcGain, v_exc: u16 },
    /// The pulse outputs are being disabled, at the end of the measurement or
    /// after a failure.
    StoppingPulses { outcome: Result<EcReading, Error<E>> },
    /// The DAC is being shut down, after the pulse outputs.
    ShuttingDown { outcome: Result<EcReading, Error<E>> },
}

impl<E> EcState<E> {
    /// The phase that the state belongs to.
    pub open spec fn phase(self) -> EcPhase {
        match self {
            EcState::Idle => EcPhase::Idle,
            EcState::Waking => EcPhase::Exciting,
            EcState::StartingPulses => EcPhase::Exciting,
            EcState::Offsetting => EcPhase::Exciting,
            EcState::StartingThird => EcPhase::Exciting,
            EcState::SelectingTop => EcPhase::Ranging,
            EcState::SettingExcitation => EcPhase::Ranging,
            EcState::Reading { .. } => EcPhase::Ranging,
            EcState::Dropping { .. } => EcPhase::Ranging,
            EcState::Adjusting { .. } => EcPhase::Measuring,
            EcState::Settling { .. } => EcPhase::Measuring,
            EcState::Sampling { .. } => EcPhase::Measuring,
            EcState::StoppingPulses { .. } => EcPhase::Measuring,
            EcState::ShuttingDown { .. } => EcPhase::Measuring,
        }
    }

    /// Whether the excitation is being switched off.
    pub open spec fn stopping(self) -> bool {
        self is StoppingPulses || self is ShuttingDown
    }

    /// The action that the state waits for.
    pub open spec fn pending(self) -> EcAction<E> {
        match self {
            EcState::Idle => EcAction::Nothing,
            EcState::Waking => EcAction::WakeDac,
            EcState::StartingPulses => EcAction::EnablePulses,
            EcState::Offsetting => EcAction::WaitMicros(PHASE_OFFSET_US),
            EcState::StartingThird => EcAction::EnableThirdPulse,
            EcState::SelectingTop => EcAction::SetGain(EcGain::Eight),
            EcState::SettingExcitation => EcAction::SetExcitation(RANGING_EXCITATION),
            EcState::Reading { .. } => EcAction::ReadVoltages,
            EcState::Dropping { gain } => EcAction::SetGain(gain),
            EcState::Adjusting { v_exc, .. } => EcAction::SetExcitation(v_exc),
            EcState::Settling { .. } => EcAction::WaitMillis(SETTLE_MS),
            EcState::Sampling { .. } => EcAction::ReadVoltages,
            EcState::StoppingPulses { .. } => EcAction::DisablePulses,
            EcState::ShuttingDown { .. } => EcAction::ShutdownDac,
        }
    }

    /// The state that ranging goes to from the voltages read at `gain`: one
    /// rung down while the signal is below the range and a rung is left, on to
    /// the measurement otherwise.
    pub open spec fn ranged(gain: EcGain, v_p: i32, v_m: i32) -> EcState<E> {
        if below_range(v_p + v_m, RANGING_EXCITATION as int) && gain.dropped() is Some {
            EcState::Dropping { gain: gain.dropped().unwrap() }
        } else {
            EcState::Adjusting {
                gain,
                v_exc: next_excitation(RANGING_EXCITATION as int, v_p + v_m) as u16,
            }
        }
    }

    /// The state after an event.
    ///
    /// Once the excitation is being switched off, that is carried through
    /// whatever is reported. Before that, a failure leads to switching it off,
    /// from any state of a running cycle. A state that waits for voltages
    /// stays where it is until they come; any other state takes every other
    /// event as the report of its action.
    pub open spec fn successor(self, event: EcEvent<E>) -> EcState<E> {
        match self {
            EcState::Idle => EcState::Idle,
            EcState::StoppingPulses { outcome } => EcState::ShuttingDown { outcome },
            EcState::ShuttingDown { .. } => EcState::Idle,
            _ => match event {
                EcEvent::Failed(e) => EcState::StoppingPulses { outcome: Err(e) },
                _ => match self {
                    EcState::Waking => EcState::StartingPulses,
                    EcState::StartingPulses => EcState::Offsetting,
                    EcState::Offsetting => EcState::StartingThird,
                    EcState::StartingThird => EcState::SelectingTop,
                    EcState::SelectingTop => EcState::SettingExcitation,
                    EcState::SettingExcitation => EcState::Reading { gain: EcGain::Eight },
                    EcState::Reading { gain } => match event {
                        EcEvent::Voltages(v_p, v_m) => Self::ranged(gain, v_p, v_m),
                        _ => self,
                    },
                    EcState::Dropping { gain } => EcState::Reading { gain },
                    EcState::Adjusting { gain, v_exc } => EcState::Settling { gain, v_exc },
                    EcState::Settling { gain, v_exc } => EcState::Sampling { gain, v_exc },
                    EcState::Sampling { gain, v_exc } => match event {
                        EcEvent::Voltages(v_p, v_m) => EcState::StoppingPulses {
                            outcome: Ok(EcReading { v_p, v_m, gain, v_exc }),
                        },
                        _ => self,
                    },
                    _ => self,
                },
            },
        }
    }

    /// The action that answers an event: the outcome where the excitation
    /// has just been switched off, the action that the next state waits for
    /// otherwise.
    pub open spec fn answer(self, event: EcEvent<E>) -> EcAction<E> {
        match self {
            EcState::ShuttingDown { outcome } => EcAction::Finish(outcome),
            _ => self.successor(event).pending(),
        }
    }
}

/// The conductivity channel.
pub struct EcSensor<E> {
    state: EcState<E>,
}

impl<E> View for EcSensor<E> {
    type V = EcState<E>;

    closed spec fn view(&self) -> EcState<E> {
        self.state
    }
}

impl<E> EcSensor<E> {
    /// An idle channel.
    pub fn new() -> (s: Self)
        ensures
            s@ == EcState::<E>::Idle,
        no_unwind
    {
        EcSensor { state: EcState::Idle }
    }

    /// The phase of the cycle.
    pub fn phase(&self) -> (p: EcPhase)
        ensures
            p == self@.phase(),
        no_unwind
    {
        match &self.state {
            EcState::Idle => EcPhase::Idle,
            EcState::Waking => EcPhase::Exciting,
            EcState::StartingPulses => EcPhase::Exciting,
            EcState::Offsetting => EcPhase::Exciting,
            EcState::StartingThird => EcPhase::Exciting,
            EcState::SelectingTop => EcPhase::Ranging,
            EcState::SettingExcitation => EcPhase::Ranging,
            EcState::Reading { .. } => EcPhase::Ranging,
            EcState::Dropping { .. } => EcPhase::Ranging,
            EcState::Adjusting { .. } => EcPhase::Measuring,
            EcState::Settling { .. } => EcPhase::Measuring,
            EcState::Sampling { .. } => EcPhase::Measuring,
            EcState::StoppingPulses { .. } => EcPhase::Measuring,
            EcState::ShuttingDown { .. } => EcPhase::Measuring,
        }
    }

    /// The action that the cycle waits for.
    pub fn pending(&self) -> (action: EcAction<E>)
        ensures
            action == self@.pending(),
        no_unwind
    {
        match &self.state {
            EcState::Idle => EcAction::Nothing,
            EcState::Waking => EcAction::WakeDac,
            EcState::StartingPulses => EcAction::EnablePulses,
            EcState::Offsetting => EcAction::WaitMicros(PHASE_OFFSET_US),
            EcState::StartingThird => EcAction::EnableThirdPulse,
            EcState::SelectingTop => EcAction::SetGain(EcGain::Eight),
            EcState::SettingExcitation => EcAction::SetExcitation(RANGING_EXCITATION),
            EcState::Reading { .. } => EcAction::ReadVoltages,
            EcState::Dropping { gain } => EcAction::SetGain(*gain),
            EcState::Adjusting { v_exc, .. } => EcAction::SetExcitation(*v_exc),
            EcState::Settling { .. } => EcAction::WaitMillis(SETTLE_MS),
            EcState::Sampling { .. } => EcAction::ReadVoltages,
            EcState::StoppingPulses { .. } => EcAction::DisablePulses,
            EcState::ShuttingDown { .. } => EcAction::ShutdownDac,
        }
    }

    /// Starts a cycle on an idle channel. A running cycle goes on as it is.
    pub fn start(&mut self) -> (action: EcAction<E>)
        ensures
            final(self)@ == (if old(self)@ is Idle {
                EcState::<E>::Waking
            } else {
                old(self)@
            }),
            action == final(self)@.pending(),
        no_unwind
    {
        if let EcState::Idle = &self.state {
            self.state = EcState::Waking;
        }
        self.pending()
    }

    /// Takes the report of the driver and says what to do next.
    pub fn step(&mut self, event: EcEvent<E>) -> (action: EcAction<E>)
        ensures
            final(self)@ == old(self)@.successor(event),
            action == old(self)@.answer(event),
        no_unwind
    {
        let mut state = EcState::Idle;
        core::mem::swap(&mut self.state, &mut state);
        let next = match state {
            EcState::Idle => EcState::Idle,
            EcState::StoppingPulses { outcome } => EcState::ShuttingDown { outcome },
            EcState::ShuttingDown { outcome } => {
                return EcAction::Finish(outcome);
            },
            state => match event {
                EcEvent::Failed(e) => EcState::StoppingPulses { outcome: Err(e) },
                event => match state {
                    EcState::Waking => EcState::StartingPulses,
                    EcState::StartingPulses => EcState::Offsetting,
                    EcState::Offsetting => EcState::StartingThird,
                    EcState::StartingThird => EcState::SelectingTop,
                    EcState::SelectingTop => EcState::SettingExcitation,
                    EcState::SettingExcitation => EcState::Reading { gain: EcGain::Eight },
                    EcState::Reading { gain } => match event {
                        EcEvent::Voltages(v_p, v_m) => Self::range(gain, v_p, v_m),
                        _ => EcState::Reading { gain },
                    },
                    EcState::Dropping { gain } => EcState::Reading { gain },
                    EcState::Adjusting { gain, v_exc } => EcState::Settling { gain, v_exc },
                    EcState::Settling { gain, v_exc } => EcState::Sampling { gain, v_exc },
                    EcState::Sampling { gain, v_exc } => match event {
                        EcEvent::Voltages(v_p, v_m) => EcState::StoppingPulses {
                            outcome: Ok(EcReading { v_p, v_m, gain, v_exc }),
                        },
                        _ => EcState::Sampling { gain, v_exc },
                    },
                    state => state,
                },
            },
        };
        self.state = next;
        self.pending()
    }

    /// Decides, from the voltages read at `gain`, between one rung down and
    /// the measurement.
    fn range(gain: EcGain, v_p: i32, v_m: i32) -> (next: EcState<E>)
        ensures
            next == EcState::<E>::ranged(gain, v_p, v_m),
        no_unwind
    {
        if signal_below_range(v_p, v_m, RANGING_EXCITATION) {
            match gain.drop::<E>() {
                Ok(lower) => {
                    return EcState::Dropping { gain: lower };
                },
                Err(_) => {},
            }
        }
        EcState::Adjusting { gain, v_exc: adjust_excitation(RANGING_EXCITATION, v_p, v_m) }
    }
}

/// The excitation is started in a fixed order: the DAC is woken, the first
/// two pulse outputs are enabled, and the third follows them by the phase
/// offset. Only then is the top rung selected.
pub proof fn lemma_excitation_starts_in_order<E>()
    ensures
        ({
            let waking = EcState::<E>::Waking;
            let pulses = waking.successor(EcEvent::Done);
            let offset = pulses.successor(EcEvent::Done);
            let third = offset.successor(EcEvent::Done);
            let ranging = third.successor(EcEvent::Done);
            &&& waking.pending() == EcAction::<E>::WakeDac
            &&& pulses.pending() == EcAction::<E>::EnablePulses
            &&& offset.pending() == EcAction::<E>::WaitMicros(PHASE_OFFSET_US)
            &&& third.pending() == EcAction::<E>::EnableThirdPulse
            &&& ranging.pending() == EcAction::<E>::SetGain(EcGain::Eight)
            &&& pulses.phase() == EcPhase::Exciting
            &&& offset.phase() == EcPhase::Exciting
            &&& third.phase() == EcPhase::Exciting
            &&& ranging.phase() == EcPhase::Ranging
        }),
{
}

/// The measurement is taken on a settled bridge and ends with the excitation
/// off: the adjusted excitation voltage is set, the settle time is waited
/// for, the voltages are read, the pulse outputs are disabled, the DAC is
/// shut down, and the voltages read are the outcome, with the rung and the
/// excitation voltage they were read at.
pub proof fn lemma_measurement_ends_with_excitation_off<E>(
    gain: EcGain,
    v_exc: u16,
    v_p: i32,
    v_m: i32,
    first: EcEvent<E>,
    second: EcEvent<E>,
)
    ensures
        ({
            let adjusting = EcState::<E>::Adjusting { gain, v_exc };
            let settling = adjusting.successor(EcEvent::Done);
            let sampling = settling.successor(EcEvent::Done);
            let stopping = sampling.successor(EcEvent::Voltages(v_p, v_m));
            let shutting = stopping.successor(first);
            &&& adjusting.pending() == EcAction::<E>::SetExcitation(v_exc)
            &&& settling.pending() == EcAction::<E>::WaitMillis(SETTLE_MS)
            &&& sampling.pending() == EcAction::<E>::ReadVoltages
            &&& stopping.pending() == EcAction::<E>::DisablePulses
            &&& shutting.pending() == EcAction::<E>::ShutdownDac
            &&& shutting.answer(second) == EcAction::Finish(
                Ok::<EcReading, Error<E>>(EcReading { v_p, v_m, gain, v_exc }),
            )
            &&& shutting.successor(second) == EcState::<E>::Idle
        }),
{
}

/// A failure aborts the cycle and leaves the excitation off. In any state of
/// a running cycle before the excitation is switched off, a failure is
/// answered by disabling the pulse outputs; whatever is reported then, the
/// DAC is shut down next, and whatever is reported after that, the cycle ends
/// with the error of the failure.
pub proof fn lemma_failure_stops_excitation<E>(
    state: EcState<E>,
    e: Error<E>,
    first: EcEvent<E>,
    second: EcEvent<E>,
)
    requires
        !(state is Idle),
        !state.stopping(),
    ensures
        ({
            let stopping = state.successor(EcEvent::Failed(e));
            let shutting = stopping.successor(first);
            &&& state.answer(EcEvent::Failed(e)) == EcAction::<E>::DisablePulses
            &&& stopping.answer(first) == EcAction::<E>::ShutdownDac
            &&& shutting.answer(second) == EcAction::Finish(Err::<EcReading, Error<E>>(e))
            &&& shutting.successor(second) == EcState::<E>::Idle
        }),
{
}

/// The rung that ranging settles on when it has come down to `gain`, where
/// the half-bridge voltages at a rung `r` sum to `sums(r)`: the first rung,
/// from `gain` down, whose signal is not below the range, and the bottom rung
/// where there is none.
pub open spec fn settled_rung(sums: spec_fn(EcGain) -> int, gain: EcGain) -> EcGain
    decreases gain.rung(),
{
    if below_range(sums(gain), RANGING_EXCITATION as int) && gain.dropped() is Some {
        settled_rung(sums, gain.dropped().unwrap())
    } else {
        gain
    }
}

/// The sum of the two half-bridge voltages at each rung.
pub open spec fn sums_of(volts: spec_fn(EcGain) -> (i32, i32)) -> spec_fn(EcGain) -> int {
    |r: EcGain| volts(r).0 + volts(r).1
}

/// How far a ranging state is from the end of ranging.
pub open spec fn ranging_rank<E>(state: EcState<E>) -> int {
    match state {
        EcState::Reading { gain } => 2 * gain.rung(),
        EcState::Dropping { gain } => 2 * gain.rung() + 1,
        _ => 0,
    }
}

/// The state in which ranging ends, from a state in which a rung is being
/// read or selected, where the driver reads the voltages `volts(r)` at a
/// rung `r`.
pub open spec fn ranging_end<E>(
    state: EcState<E>,
    volts: spec_fn(EcGain) -> (i32, i32),
) -> EcState<E>
    decreases ranging_rank(state),
{
    match state {
        EcState::Reading { gain } => ranging_end(
            state.successor(EcEvent::Voltages(volts(gain).0, volts(gain).1)),
            volts,
        ),
        EcState::Dropping { .. } => ranging_end(state.successor(EcEvent::Done), volts),
        _ => state,
    }
}

/// Ranging never goes below the bottom rung, and it stops at the first rung
/// whose signal is not below the range: there the signal is in range, unless
/// the rung is the bottom one, and at every rung passed on the way down it
/// was below the range.
pub proof fn lemma_settled_rung(sums: spec_fn(EcGain) -> int, gain: EcGain, passed: EcGain)
    ensures
        EcGain::Two.rung() <= settled_rung(sums, gain).rung() <= gain.rung(),
        settled_rung(sums, gain) == EcGain::Two || !below_range(
            sums(settled_rung(sums, gain)),
            RANGING_EXCITATION as int,
        ),
        settled_rung(sums, gain).rung() < passed.rung() <= gain.rung() ==> below_range(
            sums(passed),
            RANGING_EXCITATION as int,
        ),
    decreases gain.rung(),
{
    if below_range(sums(gain), RANGING_EXCITATION as int) && gain.dropped() is Some {
        lemma_settled_rung(sums, gain.dropped().unwrap(), passed);
    }
}

/// Where the signal grows as the gain drops, the rung that ranging settles
/// on parts the ladder in two: unless ranging ended on the bottom rung for
/// want of signal, the signal is in range on the settled rung and on every
/// rung below it, and below the range on every rung above it.
pub proof fn lemma_settled_rung_parts_the_ladder(
    sums: spec_fn(EcGain) -> int,
    gain: EcGain,
    other: EcGain,
)
    requires
        forall|a: EcGain, b: EcGain| a.rung() <= b.rung() ==> sums(a) >= sums(b),
        !below_range(sums(settled_rung(sums, gain)), RANGING_EXCITATION as int),
        other.rung() <= gain.rung(),
    ensures
        below_range(sums(other), RANGING_EXCITATION as int) <==> settled_rung(sums, gain).rung()
            < other.rung(),
{
    lemma_settled_rung(sums, gain, other);
}

/// Auto-ranging converges. From the reading of any rung, with whatever
/// voltages the bridge shows at each rung, the cycle leaves ranging for the
/// measurement, at the rung that `settled_rung` names and with the excitation
/// voltage adjusted to the voltages read there.
pub proof fn lemma_ranging_converges<E>(volts: spec_fn(EcGain) -> (i32, i32), gain: EcGain)
    ensures
        ranging_end(EcState::<E>::Reading { gain }, volts) == (EcState::<E>::Adjusting {
            gain: settled_rung(sums_of(volts), gain),
            v_exc: next_excitation(
                RANGING_EXCITATION as int,
                sums_of(volts)(settled_rung(sums_of(volts), gain)),
            ) as u16,
        }),
    decreases gain.rung(),
{
    let state = EcState::<E>::Reading { gain };
    let after = state.successor(EcEvent::Voltages(volts(gain).0, volts(gain).1));
    assert(after == EcState::<E>::ranged(gain, volts(gain).0, volts(gain).1));
    if below_range(sums_of(volts)(gain), RANGING_EXCITATION as int) && gain.dropped() is Some {
        let lower = gain.dropped().unwrap();
        assert(after.successor(EcEvent::Done) == EcState::<E>::Reading { gain: lower });
        assert(ranging_end(after, volts) == ranging_end(
            EcState::<E>::Reading { gain: lower },
            volts,
        ));
        lemma_ranging_converges::<E>(volts, lower);
    } else {
        assert(ranging_end(after, volts) == after);
    }
}

} // verus!
