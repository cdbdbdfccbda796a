use argus::adc::{apply_write, select_writes, AdcId, ChipSelect, PinWrite};
use argus::adc_init::{
    check_readback, init_plan, AdcCommand, AdcFeatures, AdcInit, InitAction, InitFault, InitStep,
    Mode1Setting, Mode2Setting, PowerSetting, RESET_DELAY_CYCLES,
};

const NONE: AdcFeatures = AdcFeatures { temperature_or_pressure: false, strain: false };
const TEMPERATURE: AdcFeatures = AdcFeatures { temperature_or_pressure: true, strain: false };
const STRAIN: AdcFeatures = AdcFeatures { temperature_or_pressure: false, strain: true };
const BOTH: AdcFeatures = AdcFeatures { temperature_or_pressure: true, strain: true };

#[test]
fn select_adc1_releases_adc2_first() {
    let (first, second) = select_writes(AdcId::Adc1);
    assert_eq!(first, PinWrite { adc: AdcId::Adc2, high: true });
    assert_eq!(second, PinWrite { adc: AdcId::Adc1, high: false });
}

#[test]
fn select_adc2_releases_adc1_first() {
    let (first, second) = select_writes(AdcId::Adc2);
    assert_eq!(first, PinWrite { adc: AdcId::Adc1, high: true });
    assert_eq!(second, PinWrite { adc: AdcId::Adc2, high: false });
}

#[test]
fn selection_is_exclusive_from_any_levels() {
    for a in [false, true] {
        for b in [false, true] {
            for target in [AdcId::Adc1, AdcId::Adc2] {
                let cs = ChipSelect { adc1_high: a, adc2_high: b };
                let (w0, w1) = select_writes(target);
                let mid = apply_write(cs, w0);
                let end = apply_write(mid, w1);
                assert!(mid.adc1_high || mid.adc2_high);
                match target {
                    AdcId::Adc1 => assert_eq!(end, ChipSelect { adc1_high: false, adc2_high: true }),
                    AdcId::Adc2 => assert_eq!(end, ChipSelect { adc1_high: true, adc2_high: false }),
                }
            }
        }
    }
}

fn prefix() -> Vec<InitStep> {
    vec![
        InitStep::SelectAdc1,
        InitStep::ResetHigh,
        InitStep::Delay(65536),
        InitStep::Command(AdcCommand::Stop1),
        InitStep::Command(AdcCommand::Stop2),
    ]
}

fn temperature_block() -> Vec<InitStep> {
    vec![
        InitStep::WritePower(PowerSetting::VbiasOff),
        InitStep::WriteMode2(Mode2Setting::Gain32),
        InitStep::WriteMode1(Mode1Setting::SensorBias10MOhm),
        InitStep::ReadMode1,
        InitStep::ReadMode2,
    ]
}

fn strain_block() -> Vec<InitStep> {
    vec![
        InitStep::WritePower(PowerSetting::ResetCleared),
        InitStep::WriteMode1(Mode1Setting::FilterSinc1),
        InitStep::WriteMode2(Mode2Setting::DataRate1200),
        InitStep::ReadMode1,
        InitStep::ReadMode2,
    ]
}

fn suffix() -> Vec<InitStep> {
    vec![InitStep::Command(AdcCommand::Start1), InitStep::Command(AdcCommand::Start2)]
}

#[test]
fn reset_delay_is_two_to_the_sixteen_cycles() {
    assert_eq!(RESET_DELAY_CYCLES, 1 << 16);
}

#[test]
fn plan_without_sensor_options() {
    let mut expected = prefix();
    expected.extend(suffix());
    assert_eq!(init_plan(NONE), expected);
}

#[test]
fn plan_for_temperature() {
    let mut expected = prefix();
    expected.extend(temperature_block());
    expected.extend(suffix());
    assert_eq!(init_plan(TEMPERATURE), expected);
}

#[test]
fn plan_for_strain() {
    let mut expected = prefix();
    expected.extend(strain_block());
    expected.extend(suffix());
    assert_eq!(init_plan(STRAIN), expected);
}

#[test]
fn plan_for_both_options() {
    let mut expected = prefix();
    expected.extend(temperature_block());
    expected.extend(strain_block());
    expected.extend(suffix());
    assert_eq!(init_plan(BOTH), expected);
}

#[test]
fn readback_check_values() {
    assert!(check_readback(0b0000_0000, 0b0000_0000));
    assert!(check_readback(0b1010_0000, 0b1010_0000));
    assert!(check_readback(0b1010_0000, 0b1111_0001));
    assert!(!check_readback(0b1010_0000, 0b0010_0000));
    assert!(!check_readback(0b0000_0001, 0b1111_1110));
}

/// Runs a bring-up against a converter that reads back what is written, and
/// returns the operations performed and the final action.
fn run_echo(features: AdcFeatures, mode1_bits: u8, mode2_bits: u8) -> (Vec<InitStep>, InitAction<&'static str>) {
    run_device(features, mode1_bits, mode2_bits, 0)
}

/// Runs a bring-up against a converter whose reads return what was written
/// with the bits of `extra` set as well.
fn run_device(
    features: AdcFeatures,
    mode1_bits: u8,
    mode2_bits: u8,
    extra: u8,
) -> (Vec<InitStep>, InitAction<&'static str>) {
    let mut init = AdcInit::new(features);
    let mut performed = vec![init.current_step()];
    let mut mode1 = 0u8;
    let mut mode2 = 0u8;
    loop {
        let step = *performed.last().unwrap();
        let outcome = match step {
            InitStep::WriteMode1(_) => {
                mode1 = mode1_bits;
                Ok(mode1_bits)
            }
            InitStep::WriteMode2(_) => {
                mode2 = mode2_bits;
                Ok(mode2_bits)
            }
            InitStep::ReadMode1 => Ok(mode1 | extra),
            InitStep::ReadMode2 => Ok(mode2 | extra),
            _ => Ok(0),
        };
        match init.advance(outcome) {
            InitAction::Perform(next) => {
                assert_eq!(next, init.current_step());
                performed.push(next);
            }
            other => {
                assert!(init.is_finished());
                return (performed, other);
            }
        }
    }
}

#[test]
fn successful_bring_up_performs_the_plan() {
    for features in [NONE, TEMPERATURE, STRAIN, BOTH] {
        let (performed, last) = run_echo(features, 0x24, 0x87);
        assert_eq!(performed, init_plan(features));
        assert!(matches!(last, InitAction::Finish(Ok(()))));
    }
}

#[test]
fn failed_command_returns_the_error() {
    let mut init = AdcInit::new(STRAIN);
    assert_eq!(init.current_step(), InitStep::SelectAdc1);
    assert!(matches!(init.advance::<&str>(Ok(0)), InitAction::Perform(InitStep::ResetHigh)));
    assert!(matches!(init.advance::<&str>(Ok(0)), InitAction::Perform(InitStep::Delay(65536))));
    assert!(matches!(
        init.advance::<&str>(Ok(0)),
        InitAction::Perform(InitStep::Command(AdcCommand::Stop1))
    ));
    assert!(matches!(init.advance(Err("spi")), InitAction::Finish(Err("spi"))));
    assert!(init.is_finished());
}

#[test]
fn failed_temperature_write_halts() {
    let mut init = AdcInit::new(TEMPERATURE);
    for _ in 0..5 {
        assert!(matches!(init.advance::<&str>(Ok(0)), InitAction::Perform(_)));
    }
    assert_eq!(init.current_step(), InitStep::WritePower(PowerSetting::VbiasOff));
    assert!(matches!(init.advance(Err("spi")), InitAction::Halt(InitFault::StepFailed)));
    assert!(init.is_finished());
}

#[test]
fn failed_strain_write_returns_the_error() {
    let mut init = AdcInit::new(STRAIN);
    for _ in 0..5 {
        assert!(matches!(init.advance::<&str>(Ok(0)), InitAction::Perform(_)));
    }
    assert_eq!(init.current_step(), InitStep::WritePower(PowerSetting::ResetCleared));
    assert!(matches!(init.advance(Err("spi")), InitAction::Finish(Err("spi"))));
}

#[test]
fn mode1_readback_mismatch_halts() {
    let mut init = AdcInit::new(STRAIN);
    for _ in 0..6 {
        assert!(matches!(init.advance::<&str>(Ok(0)), InitAction::Perform(_)));
    }
    // WriteMode1 wrote 0x30, WriteMode2 wrote 0x04, MODE1 reads back 0x10.
    assert_eq!(init.current_step(), InitStep::WriteMode1(Mode1Setting::FilterSinc1));
    assert!(matches!(init.advance::<&str>(Ok(0x30)), InitAction::Perform(_)));
    assert!(matches!(init.advance::<&str>(Ok(0x04)), InitAction::Perform(InitStep::ReadMode1)));
    assert!(matches!(init.advance::<&str>(Ok(0x10)), InitAction::Perform(InitStep::ReadMode2)));
    assert!(matches!(init.advance::<&str>(Ok(0x04)), InitAction::Halt(InitFault::Mode1Mismatch)));
}

#[test]
fn mode2_readback_mismatch_halts() {
    let mut init = AdcInit::new(STRAIN);
    for _ in 0..6 {
        assert!(matches!(init.advance::<&str>(Ok(0)), InitAction::Perform(_)));
    }
    assert!(matches!(init.advance::<&str>(Ok(0x30)), InitAction::Perform(_)));
    assert!(matches!(init.advance::<&str>(Ok(0x04)), InitAction::Perform(InitStep::ReadMode1)));
    assert!(matches!(init.advance::<&str>(Ok(0x31)), InitAction::Perform(InitStep::ReadMode2)));
    assert!(matches!(init.advance::<&str>(Ok(0x00)), InitAction::Halt(InitFault::Mode2Mismatch)));
}

#[test]
fn failed_readback_returns_the_error() {
    let mut init = AdcInit::new(TEMPERATURE);
    for _ in 0..8 {
        assert!(matches!(init.advance::<&str>(Ok(1)), InitAction::Perform(_)));
    }
    assert_eq!(init.current_step(), InitStep::ReadMode1);
    assert!(matches!(init.advance(Err("read")), InitAction::Finish(Err("read"))));
}

#[test]
fn read_back_with_extra_bits_succeeds() {
    for features in [TEMPERATURE, STRAIN, BOTH] {
        let (performed, last) = run_device(features, 0x24, 0x87, 0x50);
        assert_eq!(performed, init_plan(features));
        assert!(matches!(last, InitAction::Finish(Ok(()))));
    }
}
