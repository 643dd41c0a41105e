use vstd::prelude::*;
use crate::control::gpio::HypedGpioOutputPin;
use crate::hyped_core::types::DigitalSignal;

verus! {

#[derive(Debug, PartialEq, Eq, Clone, Copy, Structural)]
pub enum BrakeState {
    Engaged,
    Disengaged,
}

#[derive(Debug, PartialEq, Eq, Clone, Copy, Structural)]
pub enum LateralSuspensionState {
    Deployed,
    Retracted,
}

/// A sensor reading, tagged with the band of the sensor's range it lies in.
#[derive(Debug, PartialEq)]
pub enum SensorValueRange<T> {
    Safe(T),
    Warning(T),
    Critical(T),
}

impl<T: Copy> SensorValueRange<T> {
    /// The reading, whatever its band.
    pub open spec fn value_spec(self) -> T {
        match self {
            SensorValueRange::Safe(s) => s,
            SensorValueRange::Warning(w) => w,
            SensorValueRange::Critical(c) => c,
        }
    }

    pub fn value(self) -> (r: T)
        ensures
            r == self.value_spec(),
    {
        match self {
            SensorValueRange::Safe(s) => s,
            SensorValueRange::Warning(w) => w,
            SensorValueRange::Critical(c) => c,
        }
    }
}

/// Why a brake actuation could not be confirmed. `E` is the error type of the
/// time of flight sensor that watches the brakes.
#[derive(Debug, PartialEq)]
pub enum BrakeActuationFailure<E> {
    TimeOfFlightError(E),
    SensorNotInTolerance,
    TimeoutError,
}

/// A time of flight reading at or above this value means that the brakes have
/// not moved as commanded.
pub const BRAKE_ACTUATION_THRESHOLD: u8 = 5;

/// The verdict on a time of flight reading taken after a brake actuation.
pub open spec fn brake_check_spec<E>(reading: Result<SensorValueRange<u8>, E>) -> Result<
    (),
    BrakeActuationFailure<E>,
> {
    match reading {
        Err(e) => Err(BrakeActuationFailure::TimeOfFlightError(e)),
        Ok(range) => if range.value_spec() >= BRAKE_ACTUATION_THRESHOLD {
            Err(BrakeActuationFailure::SensorNotInTolerance)
        } else {
            Ok(())
        },
    }
}

/// The verdict on a brake actuation, where `None` means that no reading came
/// within the time allowed for the check.
pub open spec fn actuation_outcome_spec<E>(outcome: Option<Result<SensorValueRange<u8>, E>>) -> Result<
    (),
    BrakeActuationFailure<E>,
> {
    match outcome {
        None => Err(BrakeActuationFailure::TimeoutError),
        Some(reading) => brake_check_spec(reading),
    }
}

/// Checks a time of flight reading taken after the brakes were actuated.
pub fn check_brake_actuation<E>(reading: Result<SensorValueRange<u8>, E>) -> (r: Result<
    (),
    BrakeActuationFailure<E>,
>)
    ensures
        r == brake_check_spec(reading),
{
    match reading {
        Err(e) => Err(BrakeActuationFailure::TimeOfFlightError(e)),
        Ok(range) => {
            let sensor_value = range.value();
            if sensor_value >= BRAKE_ACTUATION_THRESHOLD {
                Err(BrakeActuationFailure::SensorNotInTolerance)
            } else {
                Ok(())
            }
        },
    }
}

/// The signal on the brake pin that commands a brake state: the brakes clamp
/// when unpowered and retract when powered.
pub open spec fn brake_signal(state: BrakeState) -> DigitalSignal {
    match state {
        BrakeState::Engaged => DigitalSignal::Low,
        BrakeState::Disengaged => DigitalSignal::High,
    }
}

/// The signal on the lateral suspension pin that commands a suspension state.
pub open spec fn suspension_signal(state: LateralSuspensionState) -> DigitalSignal {
    match state {
        LateralSuspensionState::Deployed => DigitalSignal::High,
        LateralSuspensionState::Retracted => DigitalSignal::Low,
    }
}

/// What the pneumatics record and drive: the confirmed brake state, the
/// lateral suspension state and the levels of the two solenoid pins.
pub struct PneumaticsView {
    pub brake_state: BrakeState,
    pub lateral_suspension_state: LateralSuspensionState,
    pub brake_level: DigitalSignal,
    pub lateral_suspension_level: DigitalSignal,
}

impl PneumaticsView {
    /// The brake pin is driven towards `target`; nothing else changes.
    pub open spec fn actuate_brakes(self, target: BrakeState) -> PneumaticsView {
        PneumaticsView { brake_level: brake_signal(target), ..self }
    }

    /// The check of an actuation towards `target` came back: on success the
    /// brake state becomes `target`, on failure nothing changes.
    pub open spec fn complete_brake_actuation<E>(
        self,
        target: BrakeState,
        outcome: Option<Result<SensorValueRange<u8>, E>>,
    ) -> PneumaticsView {
        if actuation_outcome_spec(outcome) is Ok {
            PneumaticsView { brake_state: target, ..self }
        } else {
            self
        }
    }

    pub open spec fn deploy_lateral_suspension(self) -> PneumaticsView {
        PneumaticsView {
            lateral_suspension_state: LateralSuspensionState::Deployed,
            lateral_suspension_level: DigitalSignal::High,
            ..self
        }
    }

    pub open spec fn retract_lateral_suspension(self) -> PneumaticsView {
        PneumaticsView {
            lateral_suspension_state: LateralSuspensionState::Retracted,
            lateral_suspension_level: DigitalSignal::Low,
            ..self
        }
    }
}

/// The pneumatics systems (brakes and lateral suspension) of the pod: two GPIO
/// outputs, each turning a solenoid valve on or off.
///
/// A brake actuation has two halves: `actuate_brakes` drives the pin, and
/// `complete_brake_actuation` takes the reading of the time of flight sensor
/// that watches the brakes (or its absence after the time allowed) and decides
/// whether the brake state has changed.
pub struct Pneumatics<P: HypedGpioOutputPin> {
    brake_state: BrakeState,
    lateral_suspension_state: LateralSuspensionState,
    brake_pin: P,
    lateral_suspension_pin: P,
}

impl<P: HypedGpioOutputPin> View for Pneumatics<P> {
    type V = PneumaticsView;

    closed spec fn view(&self) -> PneumaticsView {
        PneumaticsView {
            brake_state: self.brake_state,
            lateral_suspension_state: self.lateral_suspension_state,
            brake_level: self.brake_pin.level(),
            lateral_suspension_level: self.lateral_suspension_pin.level(),
        }
    }
}

impl<P: HypedGpioOutputPin> Pneumatics<P> {
    pub closed spec fn brake_pin_spec(&self) -> P {
        self.brake_pin
    }

    pub closed spec fn lateral_suspension_pin_spec(&self) -> P {
        self.lateral_suspension_pin
    }

    /// Takes the two pins, retracts the lateral suspension and drives the
    /// brakes to engage; the brakes are recorded as engaged. The caller then
    /// checks the engagement with `complete_brake_actuation`.
    pub fn new(brake_pin: P, lateral_suspension_pin: P) -> (pneumatics: Self)
        ensures
            pneumatics@ == (PneumaticsView {
                brake_state: BrakeState::Engaged,
                lateral_suspension_state: LateralSuspensionState::Retracted,
                brake_level: DigitalSignal::Low,
                lateral_suspension_level: DigitalSignal::Low,
            }),
    {
        let mut pneumatics = Pneumatics {
            brake_state: BrakeState::Engaged,
            lateral_suspension_state: LateralSuspensionState::Retracted,
            brake_pin,
            lateral_suspension_pin,
        };
        pneumatics.retract_lateral_suspension();
        pneumatics.actuate_brakes(BrakeState::Engaged);
        pneumatics
    }

    /// Drives the brake pin towards `target`: low engages the brakes, high
    /// disengages them. The recorded brake state waits for the check.
    pub fn actuate_brakes(&mut self, target: BrakeState)
        ensures
            final(self)@ == old(self)@.actuate_brakes(target),
            final(self).lateral_suspension_pin_spec() == old(self).lateral_suspension_pin_spec(),
    {
        match target {
            BrakeState::Engaged => self.brake_pin.set_low(),
            BrakeState::Disengaged => self.brake_pin.set_high(),
        }
    }

    /// Takes the outcome of the check that follows `actuate_brakes(target)`:
    /// `None` when no reading came in time, else the time of flight reading or
    /// its error. Records `target` as the brake state when the check passes.
    pub fn complete_brake_actuation<E>(
        &mut self,
        target: BrakeState,
        outcome: Option<Result<SensorValueRange<u8>, E>>,
    ) -> (r: Result<(), BrakeActuationFailure<E>>)
        ensures
            r == actuation_outcome_spec(outcome),
            final(self)@ == old(self)@.complete_brake_actuation(target, outcome),
            final(self).brake_pin_spec() == old(self).brake_pin_spec(),
            final(self).lateral_suspension_pin_spec() == old(self).lateral_suspension_pin_spec(),
    {
        let verdict = match outcome {
            None => Err(BrakeActuationFailure::TimeoutError),
            Some(reading) => check_brake_actuation(reading),
        };
        if verdict.is_ok() {
            self.brake_state = target;
        }
        verdict
    }

    /// Deploys the lateral suspension by setting its GPIO pin high.
    pub fn deploy_lateral_suspension(&mut self)
        ensures
            final(self)@ == old(self)@.deploy_lateral_suspension(),
            final(self).brake_pin_spec() == old(self).brake_pin_spec(),
    {
        self.lateral_suspension_pin.set_high();
        self.lateral_suspension_state = LateralSuspensionState::Deployed;
    }

    /// Retracts the lateral suspension by setting its GPIO pin low.
    pub fn retract_lateral_suspension(&mut self)
        ensures
            final(self)@ == old(self)@.retract_lateral_suspension(),
            final(self).brake_pin_spec() == old(self).brake_pin_spec(),
    {
        self.lateral_suspension_pin.set_low();
        self.lateral_suspension_state = LateralSuspensionState::Retracted;
    }

    pub fn get_brake_state(&self) -> (r: BrakeState)
        ensures
            r == self@.brake_state,
    {
        self.brake_state
    }

    pub fn get_lateral_suspension_state(&self) -> (r: LateralSuspensionState)
        ensures
            r == self@.lateral_suspension_state,
    {
        self.lateral_suspension_state
    }

    /// The pin that drives the brake solenoid.
    pub fn brake_pin(&self) -> (r: &P)
        ensures
            *r == self.brake_pin_spec(),
            r.level() == self@.brake_level,
    {
        &self.brake_pin
    }

    /// The pin that drives the lateral suspension solenoid.
    pub fn lateral_suspension_pin(&self) -> (r: &P)
        ensures
            *r == self.lateral_suspension_pin_spec(),
            r.level() == self@.lateral_suspension_level,
    {
        &self.lateral_suspension_pin
    }
}

/// An actuation towards `target` whose check passes leaves the brakes recorded
/// in `target` with the brake pin at the signal for `target`, and the lateral
/// suspension as it was.
pub proof fn lemma_confirmed_brake_actuation<E>(
    v: PneumaticsView,
    target: BrakeState,
    outcome: Option<Result<SensorValueRange<u8>, E>>,
)
    requires
        actuation_outcome_spec(outcome) is Ok,
    ensures
        ({
            let w = v.actuate_brakes(target).complete_brake_actuation(target, outcome);
            &&& w.brake_state == target
            &&& w.brake_level == brake_signal(target)
            &&& w.lateral_suspension_state == v.lateral_suspension_state
            &&& w.lateral_suspension_level == v.lateral_suspension_level
        }),
{
}

/// An actuation whose check fails (timeout, sensor error, or a reading out of
/// tolerance) leaves the recorded brake state as it was.
pub proof fn lemma_failed_brake_actuation<E>(
    v: PneumaticsView,
    target: BrakeState,
    outcome: Option<Result<SensorValueRange<u8>, E>>,
)
    requires
        actuation_outcome_spec(outcome) is Err,
    ensures
        v.actuate_brakes(target).complete_brake_actuation(target, outcome).brake_state
            == v.brake_state,
{
}

/// Moving the lateral suspension never touches the brakes.
pub proof fn lemma_suspension_leaves_brakes(v: PneumaticsView)
    ensures
        v.deploy_lateral_suspension().brake_state == v.brake_state,
        v.deploy_lateral_suspension().brake_level == v.brake_level,
        v.retract_lateral_suspension().brake_state == v.brake_state,
        v.retract_lateral_suspension().brake_level == v.brake_level,
        v.deploy_lateral_suspension().lateral_suspension_level == suspension_signal(
            LateralSuspensionState::Deployed,
        ),
        v.retract_lateral_suspension().lateral_suspension_level == suspension_signal(
            LateralSuspensionState::Retracted,
        ),
{
}

/// A time of flight reading passes the brake check exactly when it is below
/// the threshold, whatever band of the sensor's range it is tagged with.
pub proof fn lemma_brake_check_ignores_band<E>(value: u8)
    ensures
        brake_check_spec::<E>(Ok(SensorValueRange::Safe(value))) == brake_check_spec::<E>(
            Ok(SensorValueRange::Warning(value)),
        ),
        brake_check_spec::<E>(Ok(SensorValueRange::Safe(value))) == brake_check_spec::<E>(
            Ok(SensorValueRange::Critical(value)),
        ),
        (brake_check_spec::<E>(Ok(SensorValueRange::Safe(value))) is Ok) == (value
            < BRAKE_ACTUATION_THRESHOLD),
{
}

/// The brakes clamp when unpowered: engaging drives the brake pin low and
/// disengaging drives it high. Deploying the lateral suspension drives its pin
/// high and retracting drives it low. A reading passes the brake check exactly
/// when it is below 5.
pub proof fn lemma_pneumatics_levels<E>(v: PneumaticsView, value: u8)
    ensures
        v.actuate_brakes(BrakeState::Engaged).brake_level == DigitalSignal::Low,
        v.actuate_brakes(BrakeState::Disengaged).brake_level == DigitalSignal::High,
        v.deploy_lateral_suspension().lateral_suspension_level == DigitalSignal::High,
        v.retract_lateral_suspension().lateral_suspension_level == DigitalSignal::Low,
        v.deploy_lateral_suspension().lateral_suspension_state == LateralSuspensionState::Deployed,
        v.retract_lateral_suspension().lateral_suspension_state == LateralSuspensionState::Retracted,
        (brake_check_spec::<E>(Ok(SensorValueRange::Safe(value))) is Ok) == (value < 5),
        brake_check_spec::<E>(Ok(SensorValueRange::Safe(value))) is Err ==> brake_check_spec::<E>(
            Ok(SensorValueRange::Safe(value)),
        ) == Err::<(), BrakeActuationFailure<E>>(BrakeActuationFailure::SensorNotInTolerance),
        actuation_outcome_spec::<E>(None) == Err::<(), BrakeActuationFailure<E>>(
            BrakeActuationFailure::TimeoutError,
        ),
{
}

} // verus!
