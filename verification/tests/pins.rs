use gpio_typestate::gpio::{
    Function, Gpio, Level, LineId, LineState, Mode, OpenDrain, Output, OutputType, PinExt,
    PushPull, Setting, Write,
};

fn id(port: u8, line: u8) -> LineId {
    LineId::new(port, line).unwrap()
}

#[test]
fn line_a0_is_driven_and_toggled() {
    let mut hw = Gpio::new();
    assert_eq!(hw.line(id(0, 0)).unwrap().mode(), Mode::Input);
    let pin = hw.take::<0, 0>().unwrap();
    let mut pin = pin.into_mode::<Output<PushPull>>(&mut hw);
    pin.set_high(&mut hw);
    assert!(pin.is_set_high(&hw));
    pin.toggle(&mut hw);
    assert!(!pin.is_set_high(&hw));
    assert!(pin.is_set_low(&hw));
}

#[test]
fn reset_bank_has_every_line_as_input() {
    let hw = Gpio::new();
    let reset = LineState {
        function: Function::Input,
        otype: OutputType::PushPull,
        alt: 0,
        output: Level::Low,
        input: Level::Low,
    };
    for port in 0..11u8 {
        for line in 0..16u8 {
            assert_eq!(hw.line(id(port, line)), Some(reset));
            assert!(!hw.is_claimed(id(port, line)));
        }
    }
    assert!(hw.writes().is_empty());
}

#[test]
fn line_id_exists_only_inside_the_bank() {
    assert_eq!(LineId::new(0, 0), Some(LineId { port: 0, line: 0 }));
    assert_eq!(LineId::new(10, 15), Some(LineId { port: 10, line: 15 }));
    assert_eq!(LineId::new(11, 0), None);
    assert_eq!(LineId::new(0, 16), None);
    assert_eq!(LineId::new(255, 255), None);
}

#[test]
fn line_outside_the_bank_has_no_state() {
    let mut hw = Gpio::new();
    assert_eq!(hw.line(LineId { port: 11, line: 0 }), None);
    assert_eq!(hw.line(LineId { port: 0, line: 16 }), None);
    assert!(!hw.is_claimed(LineId { port: 11, line: 0 }));
    hw.set_input(LineId { port: 11, line: 0 }, Level::High);
    hw.set_input(LineId { port: 0, line: 16 }, Level::High);
    for port in 0..11u8 {
        for line in 0..16u8 {
            assert_eq!(hw.line(id(port, line)).unwrap().input, Level::Low);
        }
    }
}

#[test]
fn a_line_is_handed_out_once() {
    let mut hw = Gpio::new();
    assert!(hw.take::<3, 9>().is_some());
    assert!(hw.is_claimed(id(3, 9)));
    assert!(hw.take::<3, 9>().is_none());
    assert!(!hw.is_claimed(id(3, 8)));
    assert!(hw.take::<3, 8>().is_some());
    assert!(hw.writes().is_empty());
}

#[test]
fn a_line_outside_the_bank_is_not_handed_out() {
    let mut hw = Gpio::new();
    assert!(hw.take::<11, 0>().is_none());
    assert!(hw.take::<0, 16>().is_none());
    assert!(hw.take::<10, 15>().is_some());
}

#[test]
fn handle_reports_its_port_and_line() {
    let mut hw = Gpio::new();
    let pin = hw.take::<2, 13>().unwrap();
    assert_eq!(pin.port_id(), 2);
    assert_eq!(pin.pin_id(), 13);
    assert_eq!(pin.line_id(), id(2, 13));
    let part = pin.erase_number();
    assert_eq!(part.port_id(), 2);
    assert_eq!(part.pin_id(), 13);
    assert_eq!(part.line_id(), id(2, 13));
    let erased = part.erase();
    assert_eq!(erased.port_id(), 2);
    assert_eq!(erased.pin_id(), 13);
    assert_eq!(erased.line_id(), id(2, 13));
}

#[test]
fn mode_changes_write_stage_then_function() {
    let mut hw = Gpio::new();
    let pin = hw.take::<1, 4>().unwrap();
    let pin = pin.into_open_drain_output(&mut hw);
    assert_eq!(
        hw.writes().as_slice(),
        &[
            Write { id: id(1, 4), setting: Setting::OutputType(OutputType::OpenDrain) },
            Write { id: id(1, 4), setting: Setting::Function(Function::Output) },
        ]
    );
    assert_eq!(hw.line(id(1, 4)).unwrap().mode(), Mode::Output(OutputType::OpenDrain));
    let pin = pin.into_analog(&mut hw);
    assert_eq!(hw.line(id(1, 4)).unwrap().mode(), Mode::Analog);
    assert_eq!(hw.writes().len(), 3);
    let pin = pin.into_alternate::<7>(&mut hw);
    assert_eq!(hw.line(id(1, 4)).unwrap().mode(), Mode::Alternate(7, OutputType::PushPull));
    assert_eq!(hw.writes().len(), 6);
    let _pin = pin.into_input(&mut hw);
    assert_eq!(hw.line(id(1, 4)).unwrap().mode(), Mode::Input);
    assert_eq!(hw.writes().len(), 7);
}

#[test]
fn alternate_setting_is_taken_modulo_sixteen() {
    let mut hw = Gpio::new();
    let pin = hw.take::<0, 9>().unwrap();
    let _pin = pin.into_alternate::<21>(&mut hw);
    assert_eq!(hw.line(id(0, 9)).unwrap().mode(), Mode::Alternate(5, OutputType::PushPull));
    assert_eq!(hw.line(id(0, 8)).unwrap().alt, 0);
    assert_eq!(hw.line(id(0, 10)).unwrap().alt, 0);
}

#[test]
fn two_mode_changes_end_where_one_would() {
    let mut twice = Gpio::new();
    let pin = twice.take::<4, 15>().unwrap();
    let pin = pin.into_mode::<Output<OpenDrain>>(&mut twice);
    let pin = pin.into_mode::<Output<PushPull>>(&mut twice);
    let mut once = Gpio::new();
    let direct = once.take::<4, 15>().unwrap();
    let direct = direct.into_mode::<Output<PushPull>>(&mut once);
    assert_eq!(pin.line_id(), direct.line_id());
    for port in 0..11u8 {
        for line in 0..16u8 {
            assert_eq!(twice.line(id(port, line)), once.line(id(port, line)));
        }
    }
}

#[test]
fn a_mode_change_touches_no_other_line() {
    let mut hw = Gpio::new();
    let low = hw.take::<5, 7>().unwrap();
    let high = hw.take::<5, 8>().unwrap();
    let pin = hw.take::<5, 15>().unwrap();
    let _low = low.into_alternate::<15>(&mut hw);
    let _high = high.into_alternate::<9>(&mut hw);
    let _pin = pin.into_alternate::<3>(&mut hw);
    let reset = Gpio::new().line(id(0, 0));
    for port in 0..11u8 {
        for line in 0..16u8 {
            let state = hw.line(id(port, line));
            match (port, line) {
                (5, 7) => assert_eq!(state.unwrap().mode(), Mode::Alternate(15, OutputType::PushPull)),
                (5, 8) => assert_eq!(state.unwrap().mode(), Mode::Alternate(9, OutputType::PushPull)),
                (5, 15) => assert_eq!(state.unwrap().mode(), Mode::Alternate(3, OutputType::PushPull)),
                _ => assert_eq!(state, reset),
            }
        }
    }
}

#[test]
fn driving_a_line_touches_one_latch() {
    let mut hw = Gpio::new();
    let a = hw.take::<6, 0>().unwrap();
    let b = hw.take::<6, 15>().unwrap();
    let mut a = a.into_push_pull_output(&mut hw);
    let mut b = b.into_open_drain_output(&mut hw);
    a.set_high(&mut hw);
    b.set_high(&mut hw);
    a.set_low(&mut hw);
    assert_eq!(a.get_state(&hw), Level::Low);
    assert_eq!(b.get_state(&hw), Level::High);
    for line in 1..15u8 {
        assert_eq!(hw.line(id(6, line)).unwrap().output, Level::Low);
    }
    assert_eq!(hw.line(id(6, 15)).unwrap().mode(), Mode::Output(OutputType::OpenDrain));
    assert_eq!(hw.line(id(6, 0)).unwrap().mode(), Mode::Output(OutputType::PushPull));
    assert_eq!(hw.line(id(7, 15)).unwrap().output, Level::Low);
}

#[test]
fn what_was_driven_reads_back() {
    let mut hw = Gpio::new();
    let pin = hw.take::<9, 1>().unwrap();
    let mut pin = pin.into_push_pull_output(&mut hw);
    pin.set_high(&mut hw);
    assert!(pin.is_set_high(&hw));
    assert!(!pin.is_set_low(&hw));
    pin.set_low(&mut hw);
    assert!(pin.is_set_low(&hw));
    assert!(!pin.is_set_high(&hw));
    pin.set_state(&mut hw, Level::High);
    assert_eq!(pin.get_state(&hw), Level::High);
}

#[test]
fn toggling_twice_restores_the_bank() {
    let mut hw = Gpio::new();
    let pin = hw.take::<9, 2>().unwrap();
    let mut pin = pin.into_open_drain_output(&mut hw);
    pin.set_high(&mut hw);
    let before: Vec<Option<LineState>> = (0..16u8).map(|n| hw.line(id(9, n))).collect();
    let written = hw.writes().len();
    pin.toggle(&mut hw);
    assert!(pin.is_set_low(&hw));
    pin.toggle(&mut hw);
    let after: Vec<Option<LineState>> = (0..16u8).map(|n| hw.line(id(9, n))).collect();
    assert_eq!(before, after);
    assert_eq!(hw.writes().len(), written + 2);
}

#[test]
fn input_reads_what_the_pad_shows() {
    let mut hw = Gpio::new();
    let pin = hw.take::<8, 3>().unwrap();
    assert!(pin.is_low(&hw));
    assert!(!pin.is_high(&hw));
    hw.set_input(id(8, 3), Level::High);
    assert!(pin.is_high(&hw));
    assert!(!pin.is_low(&hw));
    assert_eq!(hw.line(id(8, 2)).unwrap().input, Level::Low);
    assert_eq!(hw.line(id(8, 4)).unwrap().input, Level::Low);
    hw.set_input(id(8, 3), Level::Low);
    assert!(pin.is_low(&hw));
    assert!(hw.writes().is_empty());
}

#[test]
fn open_drain_output_reads_the_pad_not_the_latch() {
    let mut hw = Gpio::new();
    let pin = hw.take::<8, 5>().unwrap();
    let mut pin = pin.into_open_drain_output(&mut hw);
    pin.set_high(&mut hw);
    assert!(pin.is_set_high(&hw));
    assert!(pin.is_low(&hw));
    hw.set_input(id(8, 5), Level::High);
    pin.set_low(&mut hw);
    assert!(pin.is_high(&hw));
    assert!(pin.is_set_low(&hw));
}

#[test]
fn level_helpers_agree() {
    assert_eq!(Level::Low.inverted(), Level::High);
    assert_eq!(Level::High.inverted(), Level::Low);
    assert_eq!(Level::from_bit(true), Level::High);
    assert_eq!(Level::from_bit(false), Level::Low);
    assert!(Level::High.is_high());
    assert!(!Level::Low.is_high());
}
