use pulsegrid::{
    Config, Frac, Length, Output, OutputState, OutputType, Prob, Pwm, Rate, Tick, RESOLUTION,
};

const ON: bool = true;
const OFF: bool = false;

#[test]
fn output_it_new() {
    let config = Config::new();
    let output = Output::new(1_920, &Tick::new(120).unwrap(), config.clone()).unwrap();

    let expected = Output {
        config,
        cycle_target: 1_920,
        index: Option::None,
        off_target: 960,
        resolution: 1_920,
    };

    assert_eq!(expected, output);
}

#[test]
fn output_it_updates_on_through_two_full_cycles_at_pwm_p50() {
    let mut state: OutputState = Default::default();
    let tick = Tick::new(120).unwrap();
    let mut output = Output::new(1_920, &tick, Config::new()).unwrap();

    assert_eq!(OFF, state.on);

    output.tick(0, &mut state);
    assert_eq!(ON, state.on);

    output.tick(480, &mut state);
    assert_eq!(ON, state.on);

    output.tick(960, &mut state);
    assert_eq!(OFF, state.on);

    output.tick(1_440, &mut state);
    assert_eq!(OFF, state.on);

    output.tick(1_920, &mut state);
    assert_eq!(ON, state.on);

    output.tick(2_400, &mut state);
    assert_eq!(ON, state.on);

    output.tick(2_880, &mut state);
    assert_eq!(OFF, state.on);

    output.tick(3_360, &mut state);
    assert_eq!(OFF, state.on);

    output.tick(3_840, &mut state);
    assert_eq!(ON, state.on);
}

#[test]
fn it_updates_on_change_through_two_full_cycles_at_pwm_p50() {
    let mut state: OutputState = Default::default();
    let tick = Tick::new(120).unwrap();
    let mut output = Output::new(1_920, &tick, Config::new()).unwrap();

    assert_eq!(OFF, state.on_change);

    output.tick(0, &mut state);
    assert_eq!(ON, state.on_change);
    output.tick(1, &mut state);
    assert_eq!(OFF, state.on_change);
    output.tick(2, &mut state);
    assert_eq!(OFF, state.on_change);

    output.tick(959, &mut state);
    assert_eq!(OFF, state.on_change);
    output.tick(960, &mut state);
    assert_eq!(ON, state.on_change);
    output.tick(961, &mut state);
    assert_eq!(OFF, state.on_change);

    output.tick(1_919, &mut state);
    assert_eq!(OFF, state.on_change);
    output.tick(1_920, &mut state);
    assert_eq!(ON, state.on_change);
    output.tick(1_921, &mut state);
    assert_eq!(OFF, state.on_change);

    output.tick(2_879, &mut state);
    assert_eq!(OFF, state.on_change);
    output.tick(2_880, &mut state);
    assert_eq!(ON, state.on_change);
    output.tick(2_881, &mut state);
    assert_eq!(OFF, state.on_change);

    output.tick(3_839, &mut state);
    assert_eq!(OFF, state.on_change);
    output.tick(3_840, &mut state);
    assert_eq!(ON, state.on_change);
    output.tick(3_841, &mut state);
    assert_eq!(OFF, state.on_change);
}

#[test]
fn output_it_ticks_at_mult_two_point_zero_times_the_rate() {
    let mut state: OutputState = Default::default();
    let tick = Tick::new(120).unwrap();
    let rate = Rate::Mult(2, Frac::Zero);
    let mut output = Output::new(1_920, &tick, Config::new()).unwrap();
    output.set_rate(&tick, rate).unwrap();

    assert_eq!(960, output.cycle_target);
    assert_eq!(480, output.off_target);
    assert_eq!(rate, output.config.rate());

    assert_eq!(OFF, state.on);

    output.tick(0, &mut state);
    assert_eq!(ON, state.on);

    output.tick(480, &mut state);
    assert_eq!(OFF, state.on);

    output.tick(960, &mut state);
    assert_eq!(ON, state.on);

    output.tick(1_440, &mut state);
    assert_eq!(OFF, state.on);

    output.tick(1_920, &mut state);
    assert_eq!(ON, state.on);
}

#[test]
fn output_it_ticks_at_div_five_point_one_third_the_rate() {
    let mut state: OutputState = Default::default();
    let tick = Tick::new(120).unwrap();
    let rate = Rate::Div(5, Frac::OneThird);
    let mut output = Output::new(1_920, &tick, Config::new()).unwrap();
    output.set_rate(&tick, rate).unwrap();

    assert_eq!(5_120, output.off_target);
    assert_eq!(10_240, output.cycle_target);
    assert_eq!(rate, output.config.rate());

    assert_eq!(OFF, state.on);

    output.tick(0, &mut state);
    assert_eq!(ON, state.on);

    output.tick(5_119, &mut state);
    assert_eq!(ON, state.on);

    output.tick(5_120, &mut state);
    assert_eq!(OFF, state.on);

    output.tick(10_239, &mut state);
    assert_eq!(OFF, state.on);

    output.tick(10_240, &mut state);
    assert_eq!(ON, state.on);
}

#[test]
fn output_it_skips_cycles_based_on_prob() {
    let mut state: OutputState = Default::default();
    let tick = Tick::new(120).unwrap();
    let mut output = Output::new(1_920, &tick, Config::new()).unwrap();
    output.set_prob(Prob::P10);

    assert_eq!(OFF, state.on);

    output.tick(1_920, &mut state);
    assert_eq!(OFF, state.on);

    output.tick(3_840, &mut state);
    assert_eq!(OFF, state.on);

    output.tick(5_760, &mut state);
    assert_eq!(OFF, state.on);

    output.tick(7_680, &mut state);
    assert_eq!(OFF, state.on);
}

#[test]
fn output_it_works_with_pwm_pew() {
    let mut state: OutputState = Default::default();
    let tick = Tick::new(120).unwrap();
    let mut output = Output::new(1_920, &tick, Config::new()).unwrap();
    output.set_pwm(&tick, Pwm::Pew).unwrap();
    output.tick(1, &mut state);
}

#[test]
fn output_it_updates_on_at_length_sixteen_at_density_four() {
    let mut state: OutputState = Default::default();
    let tick = Tick::new(120).unwrap();
    let mut output = Output::new(1_920, &tick, Config::new()).unwrap();
    output.set_output_type(&tick, OutputType::Euclid).unwrap();

    output.tick(0, &mut state);
    assert_eq!(ON, state.on);

    output.tick(1_920, &mut state);
    assert_eq!(OFF, state.on);

    output.tick(1_920 * 2, &mut state);
    assert_eq!(OFF, state.on);

    output.tick(1_920 * 3, &mut state);
    assert_eq!(OFF, state.on);

    output.tick(1_920 * 4, &mut state);
    assert_eq!(ON, state.on);

    output.tick(1_920 * 5, &mut state);
    assert_eq!(OFF, state.on);

    output.tick(1_920 * 6, &mut state);
    assert_eq!(OFF, state.on);

    output.tick(1_920 * 7, &mut state);
    assert_eq!(OFF, state.on);

    output.tick(1_920 * 8, &mut state);
    assert_eq!(ON, state.on);

    output.tick(1_920 * 9, &mut state);
    assert_eq!(OFF, state.on);

    output.tick(1_920 * 10, &mut state);
    assert_eq!(OFF, state.on);

    output.tick(1_920 * 11, &mut state);
    assert_eq!(OFF, state.on);

    output.tick(1_920 * 12, &mut state);
    assert_eq!(ON, state.on);

    output.tick(1_920 * 13, &mut state);
    assert_eq!(OFF, state.on);

    output.tick(1_920 * 14, &mut state);
    assert_eq!(OFF, state.on);

    output.tick(1_920 * 15, &mut state);
    assert_eq!(OFF, state.on);

    output.tick(1_920 * 16, &mut state);
    assert_eq!(ON, state.on);
}

#[test]
fn it_updates_on_change_at_length_sixteen_at_density_four() {
    let mut state: OutputState = Default::default();
    let tick = Tick::new(120).unwrap();
    let mut output = Output::new(1_920, &tick, Config::new()).unwrap();
    output.set_output_type(&tick, OutputType::Euclid).unwrap();

    assert_eq!(OFF, state.on_change);

    output.tick(0, &mut state);
    assert_eq!(ON, state.on_change);
    output.tick(1, &mut state);
    assert_eq!(OFF, state.on_change);
    // an onset step holds its level for the whole step: no edge inside it
    output.tick(39, &mut state);
    assert_eq!(OFF, state.on_change);
    output.tick(40, &mut state);
    assert_eq!(OFF, state.on_change);

    output.tick(1_919, &mut state);
    assert_eq!(OFF, state.on_change);
    // the level falls at the next rest step's cycle start
    output.tick(1_920, &mut state);
    assert_eq!(ON, state.on_change);
    output.tick(1_959, &mut state);
    assert_eq!(OFF, state.on_change);

    output.tick(3_839, &mut state);
    assert_eq!(OFF, state.on_change);
    output.tick(3_840, &mut state);
    assert_eq!(OFF, state.on_change);
    output.tick(3_879, &mut state);
    assert_eq!(OFF, state.on_change);

    output.tick(5_759, &mut state);
    assert_eq!(OFF, state.on_change);
    output.tick(5_760, &mut state);
    assert_eq!(OFF, state.on_change);
    output.tick(5_799, &mut state);
    assert_eq!(OFF, state.on_change);

    output.tick(7_679, &mut state);
    assert_eq!(OFF, state.on_change);
    output.tick(7_680, &mut state);
    assert_eq!(ON, state.on_change);
    output.tick(7_681, &mut state);
    assert_eq!(OFF, state.on_change);
    output.tick(7_719, &mut state);
    assert_eq!(OFF, state.on_change);
    output.tick(7_720, &mut state);
    assert_eq!(OFF, state.on_change);
}

#[test]
fn it_holds_a_euclid_onset_for_the_whole_step() {
    let mut state: OutputState = Default::default();
    let tick = Tick::new(120).unwrap();
    let mut output = Output::new(1_920, &tick, Config::new()).unwrap();
    output.set_output_type(&tick, OutputType::Euclid).unwrap();

    output.tick(0, &mut state);
    assert_eq!(ON, state.on);
    output.tick(39, &mut state);
    assert_eq!(ON, state.on);
    output.tick(960, &mut state);
    assert_eq!(ON, state.on);
    output.tick(1_919, &mut state);
    assert_eq!(ON, state.on);

    output.tick(1_920, &mut state);
    assert_eq!(OFF, state.on);
    output.tick(1_959, &mut state);
    assert_eq!(OFF, state.on);
}

#[test]
fn it_updates_index_at_length_sixteen_at_density_four() {
    let mut state: OutputState = Default::default();
    let tick = Tick::new(120).unwrap();
    let mut output = Output::new(1_920, &tick, Config::new()).unwrap();
    output.set_output_type(&tick, OutputType::Euclid).unwrap();

    assert_eq!(0, state.index);

    output.tick(0, &mut state);
    assert_eq!(0, state.index);
    output.tick(1, &mut state);
    assert_eq!(0, state.index);
    output.tick(39, &mut state);
    assert_eq!(0, state.index);
    output.tick(40, &mut state);
    assert_eq!(0, state.index);

    output.tick(1_919, &mut state);
    assert_eq!(0, state.index);
    output.tick(1_920, &mut state);
    assert_eq!(1, state.index);
    output.tick(1_959, &mut state);
    assert_eq!(1, state.index);

    output.tick(3_839, &mut state);
    assert_eq!(1, state.index);
    output.tick(3_840, &mut state);
    assert_eq!(2, state.index);
    output.tick(3_879, &mut state);
    assert_eq!(2, state.index);

    output.tick(5_759, &mut state);
    assert_eq!(2, state.index);
    output.tick(5_760, &mut state);
    assert_eq!(3, state.index);
    output.tick(5_799, &mut state);
    assert_eq!(3, state.index);

    output.tick(7_679, &mut state);
    assert_eq!(3, state.index);
    output.tick(7_680, &mut state);
    assert_eq!(4, state.index);
    output.tick(7_681, &mut state);
    assert_eq!(4, state.index);
    output.tick(7_719, &mut state);
    assert_eq!(4, state.index);
    output.tick(7_720, &mut state);
    assert_eq!(4, state.index);
}

#[test]
fn it_updates_index_change_at_length_sixteen_at_density_four() {
    let mut state: OutputState = Default::default();
    let tick = Tick::new(120).unwrap();
    let mut output = Output::new(1_920, &tick, Config::new()).unwrap();
    output.set_output_type(&tick, OutputType::Euclid).unwrap();

    assert_eq!(OFF, state.index_change);

    output.tick(0, &mut state);
    assert_eq!(OFF, state.index_change);
    output.tick(1, &mut state);
    assert_eq!(OFF, state.index_change);
    output.tick(39, &mut state);
    assert_eq!(OFF, state.index_change);
    output.tick(40, &mut state);
    assert_eq!(OFF, state.index_change);

    output.tick(1_919, &mut state);
    assert_eq!(OFF, state.index_change);
    output.tick(1_920, &mut state);
    assert_eq!(ON, state.index_change);
    output.tick(1_959, &mut state);
    assert_eq!(OFF, state.index_change);

    output.tick(3_839, &mut state);
    assert_eq!(OFF, state.index_change);
    output.tick(3_840, &mut state);
    assert_eq!(ON, state.index_change);
    output.tick(3_879, &mut state);
    assert_eq!(OFF, state.index_change);

    output.tick(5_759, &mut state);
    assert_eq!(OFF, state.index_change);
    output.tick(5_760, &mut state);
    assert_eq!(ON, state.index_change);
    output.tick(5_799, &mut state);
    assert_eq!(OFF, state.index_change);

    output.tick(7_679, &mut state);
    assert_eq!(OFF, state.index_change);
    output.tick(7_680, &mut state);
    assert_eq!(ON, state.index_change);
    output.tick(7_681, &mut state);
    assert_eq!(OFF, state.index_change);
    output.tick(7_719, &mut state);
    assert_eq!(OFF, state.index_change);
    output.tick(7_720, &mut state);
    assert_eq!(OFF, state.index_change);
}

#[test]
fn it_updates_index_when_length_changes() {
    let mut state: OutputState = Default::default();
    let tick = Tick::new(120).unwrap();
    let config = Config::new();
    let density = config.density();
    let mut output = Output::new(RESOLUTION, &tick, config).unwrap();
    output.set_output_type(&tick, OutputType::Euclid).unwrap();
    output.set_rate(&tick, Rate::Mult(2, Frac::Zero)).unwrap();

    let cycle_target: u32 = 960;

    assert_eq!(0, state.index);

    output.tick(0, &mut state);
    assert_eq!(0, state.index);
    output.tick(cycle_target, &mut state);
    assert_eq!(1, state.index);
    output.tick(cycle_target * 2, &mut state);
    assert_eq!(2, state.index);

    output.set_sequence(Length(15), density).unwrap();
    output.tick(cycle_target * 3, &mut state);
    assert_eq!(3, state.index);
    output.tick(cycle_target * 4, &mut state);
    assert_eq!(4, state.index);

    output.set_sequence(Length(16), density).unwrap();
    output.tick(cycle_target * 5, &mut state);
    assert_eq!(5, state.index);
    output.tick(cycle_target * 6, &mut state);
    assert_eq!(6, state.index);
    output.tick(cycle_target * 7, &mut state);
    assert_eq!(7, state.index);

    output.set_sequence(Length(15), density).unwrap();
    output.tick(cycle_target * 8, &mut state);
    assert_eq!(8, state.index);
    output.tick(cycle_target * 9, &mut state);
    assert_eq!(9, state.index);
    output.tick(cycle_target * 10, &mut state);
    assert_eq!(10, state.index);
    output.tick(cycle_target * 11, &mut state);
    assert_eq!(11, state.index);
    output.tick(cycle_target * 12, &mut state);
    assert_eq!(12, state.index);
    output.tick(cycle_target * 13, &mut state);
    assert_eq!(13, state.index);
    output.tick(cycle_target * 14, &mut state);
    assert_eq!(14, state.index);
    output.tick(cycle_target * 15, &mut state);
    assert_eq!(0, state.index);
    output.tick(cycle_target * 16, &mut state);
    assert_eq!(1, state.index);
    output.tick(cycle_target * 17, &mut state);
    assert_eq!(2, state.index);
}
