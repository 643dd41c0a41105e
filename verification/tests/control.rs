use hyped::control::gpio::{HypedGpioOutputPin, MockGpioOutputPin};
use hyped::control::hp_relay::HighPowerRelay;
use hyped::control::pneumatics::{
    check_brake_actuation, BrakeActuationFailure, BrakeState, LateralSuspensionState, Pneumatics,
    SensorValueRange,
};
use hyped::hyped_core::types::DigitalSignal;

#[test]
fn test_switch_on() {
    let mut mock_gpio_output_pin = MockGpioOutputPin::default();
    let mut relay = HighPowerRelay::new(&mut mock_gpio_output_pin);
    relay.switch_on();
    assert_eq!(mock_gpio_output_pin.get_value(), DigitalSignal::High);
}

#[test]
fn test_switch_off() {
    let mut mock_gpio_output_pin = MockGpioOutputPin::default();
    let mut relay = HighPowerRelay::new(&mut mock_gpio_output_pin);
    relay.switch_off();
    assert_eq!(mock_gpio_output_pin.get_value(), DigitalSignal::Low);
}

#[test]
fn relay_switches_back_and_forth() {
    let mut pin = MockGpioOutputPin::default();
    pin.set_high();
    let mut relay = HighPowerRelay::new(&mut pin);
    relay.switch_off();
    relay.switch_on();
    relay.switch_off();
    assert_eq!(pin.get_value(), DigitalSignal::Low);
}

type Outcome = Option<Result<SensorValueRange<u8>, &'static str>>;

#[test]
fn pneumatics_start_engaged_and_retracted() {
    let mut brake = MockGpioOutputPin::default();
    brake.set_high();
    let mut suspension = MockGpioOutputPin::default();
    suspension.set_high();
    let pneumatics = Pneumatics::new(brake, suspension);
    assert_eq!(pneumatics.get_brake_state(), BrakeState::Engaged);
    assert_eq!(pneumatics.get_lateral_suspension_state(), LateralSuspensionState::Retracted);
    assert_eq!(pneumatics.brake_pin().get_value(), DigitalSignal::Low);
    assert_eq!(pneumatics.lateral_suspension_pin().get_value(), DigitalSignal::Low);
}

#[test]
fn confirmed_disengage_then_engage() {
    let mut pneumatics = Pneumatics::new(MockGpioOutputPin::default(), MockGpioOutputPin::default());
    pneumatics.actuate_brakes(BrakeState::Disengaged);
    assert_eq!(pneumatics.brake_pin().get_value(), DigitalSignal::High);
    assert_eq!(pneumatics.get_brake_state(), BrakeState::Engaged);
    let ok: Outcome = Some(Ok(SensorValueRange::Safe(4)));
    assert_eq!(pneumatics.complete_brake_actuation(BrakeState::Disengaged, ok), Ok(()));
    assert_eq!(pneumatics.get_brake_state(), BrakeState::Disengaged);

    pneumatics.actuate_brakes(BrakeState::Engaged);
    let ok: Outcome = Some(Ok(SensorValueRange::Critical(0)));
    assert_eq!(pneumatics.complete_brake_actuation(BrakeState::Engaged, ok), Ok(()));
    assert_eq!(pneumatics.get_brake_state(), BrakeState::Engaged);
    assert_eq!(pneumatics.brake_pin().get_value(), DigitalSignal::Low);
}

#[test]
fn failed_actuations_keep_the_brake_state() {
    let mut pneumatics = Pneumatics::new(MockGpioOutputPin::default(), MockGpioOutputPin::default());
    pneumatics.actuate_brakes(BrakeState::Disengaged);
    let timeout: Outcome = None;
    assert_eq!(
        pneumatics.complete_brake_actuation(BrakeState::Disengaged, timeout),
        Err(BrakeActuationFailure::TimeoutError)
    );
    let far: Outcome = Some(Ok(SensorValueRange::Warning(5)));
    assert_eq!(
        pneumatics.complete_brake_actuation(BrakeState::Disengaged, far),
        Err(BrakeActuationFailure::SensorNotInTolerance)
    );
    let broken: Outcome = Some(Err("i2c"));
    assert_eq!(
        pneumatics.complete_brake_actuation(BrakeState::Disengaged, broken),
        Err(BrakeActuationFailure::TimeOfFlightError("i2c"))
    );
    assert_eq!(pneumatics.get_brake_state(), BrakeState::Engaged);
}

#[test]
fn brake_check_threshold() {
    assert_eq!(check_brake_actuation::<()>(Ok(SensorValueRange::Safe(4))), Ok(()));
    assert_eq!(
        check_brake_actuation::<()>(Ok(SensorValueRange::Safe(5))),
        Err(BrakeActuationFailure::SensorNotInTolerance)
    );
    assert_eq!(
        check_brake_actuation::<()>(Ok(SensorValueRange::Critical(255))),
        Err(BrakeActuationFailure::SensorNotInTolerance)
    );
    assert_eq!(check_brake_actuation::<u8>(Err(3)), Err(BrakeActuationFailure::TimeOfFlightError(3)));
    assert_eq!(SensorValueRange::Warning(9u8).value(), 9);
}

#[test]
fn lateral_suspension_moves_without_touching_brakes() {
    let mut pneumatics = Pneumatics::new(MockGpioOutputPin::default(), MockGpioOutputPin::default());
    pneumatics.deploy_lateral_suspension();
    assert_eq!(pneumatics.get_lateral_suspension_state(), LateralSuspensionState::Deployed);
    assert_eq!(pneumatics.lateral_suspension_pin().get_value(), DigitalSignal::High);
    assert_eq!(pneumatics.get_brake_state(), BrakeState::Engaged);
    assert_eq!(pneumatics.brake_pin().get_value(), DigitalSignal::Low);
    pneumatics.retract_lateral_suspension();
    assert_eq!(pneumatics.get_lateral_suspension_state(), LateralSuspensionState::Retracted);
    assert_eq!(pneumatics.lateral_suspension_pin().get_value(), DigitalSignal::Low);
}
