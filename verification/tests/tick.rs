use pulsegrid::{resolution, Tick, RESOLUTION};

#[test]
fn tick_it_computes_resolution() {
    let expected = 1_920;
    let result = RESOLUTION;

    assert_eq!(expected, result);
}

#[test]
fn ticks_it_computes_resolution() {
    let expected = 1_920;
    let result = resolution();

    assert_eq!(expected, result);
}

#[test]
fn it_computes_tick_duration_in_millis_for_10_bpm() {
    let expected = 3_125;
    let tick = Tick::new(10).unwrap();
    let result = tick.duration_micros;

    assert_eq!(expected, result);
}

#[test]
fn it_computes_tick_duration_in_millis_for_120_bpm() {
    let expected = 260;
    let tick = Tick::new(120).unwrap();
    let result = tick.duration_micros;

    assert_eq!(expected, result);
}

#[test]
fn it_computes_tick_duration_in_millis_for_300_bpm() {
    let expected = 104;
    let tick = Tick::new(300).unwrap();
    let result = tick.duration_micros;

    assert_eq!(expected, result);
}

#[test]
fn it_rejects_a_tempo_of_zero() {
    assert_eq!(Err(pulsegrid::Error::Tempo), Tick::new(0));
}

#[test]
fn it_rejects_a_tempo_whose_tick_lasts_under_a_microsecond() {
    let tick = Tick::new(62_500).unwrap();
    assert_eq!(1, tick.duration_micros);
    assert_eq!(Err(pulsegrid::Error::Tempo), Tick::new(62_501));
}

#[test]
fn it_keeps_the_previous_tempo_when_a_change_is_rejected() {
    let mut tick = Tick::new(120).unwrap();
    assert_eq!(Err(pulsegrid::Error::Tempo), tick.set_bpm(0));
    assert_eq!(120, tick.bpm);
    assert_eq!(260, tick.duration_micros);
    assert_eq!(Ok(()), tick.set_bpm(10));
    assert_eq!(3_125, tick.duration_micros);
}
