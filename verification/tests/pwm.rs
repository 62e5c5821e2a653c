use pulsegrid::{Pwm, Tick, RESOLUTION};

#[test]
fn it_calcs_off_target_for_p10() {
    let result = Pwm::P10.off_target(&Tick::new(120).unwrap(), RESOLUTION);
    let expected = 192;

    assert_eq!(expected, result);
}

#[test]
fn it_calcs_off_target_for_p50() {
    let result = Pwm::P50.off_target(&Tick::new(120).unwrap(), RESOLUTION);
    let expected = 960;

    assert_eq!(expected, result);
}

#[test]
fn it_calcs_off_target_for_p100() {
    let result = Pwm::P90.off_target(&Tick::new(120).unwrap(), RESOLUTION);
    let expected = 1_728;

    assert_eq!(expected, result);
}

#[test]
fn it_calcs_off_target_for_pew_mode_bpm_10() {
    let result = Pwm::Pew.off_target(&Tick::new(10).unwrap(), RESOLUTION);
    let expected = 4;

    assert_eq!(expected, result);
}

#[test]
fn it_calcs_off_target_for_pew_mode_bpm_120() {
    let result = Pwm::Pew.off_target(&Tick::new(120).unwrap(), RESOLUTION);
    let expected = 39;

    assert_eq!(expected, result);
}

#[test]
fn it_calcs_off_target_for_pew_mode_bpm_300() {
    let result = Pwm::Pew.off_target(&Tick::new(300).unwrap(), RESOLUTION);
    let expected = 97;

    assert_eq!(expected, result);
}

#[test]
fn it_indexes_every_width() {
    assert_eq!(0, Pwm::Pew.index());
    assert_eq!(1, Pwm::P10.index());
    assert_eq!(5, Pwm::P50.index());
    assert_eq!(9, Pwm::P90.index());
}
