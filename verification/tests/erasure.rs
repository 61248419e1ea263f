use gpio_typestate::gpio::{
    Analog, Dynamic, Gpio, Level, LineId, Mode, OpenDrain, Output, OutputType, PinExt,
    PinModeError, PushPull,
};

fn line(port: u8, n: u8) -> LineId {
    LineId::new(port, n).unwrap()
}

fn snapshot(hw: &Gpio) -> Vec<Option<gpio_typestate::gpio::LineState>> {
    let mut all = Vec::new();
    for port in 0..11u8 {
        for n in 0..16u8 {
            all.push(hw.line(line(port, n)));
        }
    }
    all
}

#[test]
fn erased_handle_acts_as_the_typed_one() {
    let mut typed_hw = Gpio::new();
    let mut typed = typed_hw.take::<7, 11>().unwrap().into_push_pull_output(&mut typed_hw);
    let mut erased_hw = Gpio::new();
    let mut erased = erased_hw.take::<7, 11>().unwrap().into_push_pull_output(&mut erased_hw).erase();
    let mut part_hw = Gpio::new();
    let mut part =
        part_hw.take::<7, 11>().unwrap().into_push_pull_output(&mut part_hw).erase_number();

    typed.set_high(&mut typed_hw);
    erased.set_high(&mut erased_hw);
    part.set_high(&mut part_hw);
    assert_eq!(typed.is_set_high(&typed_hw), erased.is_set_high(&erased_hw));
    assert_eq!(typed.is_set_high(&typed_hw), part.is_set_high(&part_hw));
    assert!(erased.is_set_high(&erased_hw));

    typed.toggle(&mut typed_hw);
    erased.toggle(&mut erased_hw);
    part.toggle(&mut part_hw);
    assert_eq!(typed.is_set_low(&typed_hw), erased.is_set_low(&erased_hw));
    assert_eq!(typed.is_set_low(&typed_hw), part.is_set_low(&part_hw));
    assert!(part.is_set_low(&part_hw));

    typed.set_state(&mut typed_hw, Level::High);
    erased.set_state(&mut erased_hw, Level::High);
    part.set_state(&mut part_hw, Level::High);
    typed.set_low(&mut typed_hw);
    erased.set_low(&mut erased_hw);
    part.set_low(&mut part_hw);
    assert_eq!(typed.get_state(&typed_hw), erased.get_state(&erased_hw));
    assert_eq!(typed.get_state(&typed_hw), part.get_state(&part_hw));

    assert_eq!(typed_hw.writes(), erased_hw.writes());
    assert_eq!(typed_hw.writes(), part_hw.writes());
    assert_eq!(snapshot(&typed_hw), snapshot(&erased_hw));
    assert_eq!(snapshot(&typed_hw), snapshot(&part_hw));
}

#[test]
fn erased_input_reads_as_the_typed_one() {
    let mut hw = Gpio::new();
    let typed = hw.take::<2, 0>().unwrap();
    hw.set_input(line(2, 0), Level::High);
    let high = typed.is_high(&hw);
    let low = typed.is_low(&hw);
    let part = typed.erase_number();
    assert_eq!(part.is_high(&hw), high);
    assert_eq!(part.is_low(&hw), low);
    let erased = part.erase();
    assert_eq!(erased.is_high(&hw), high);
    assert_eq!(erased.is_low(&hw), low);
    assert!(erased.is_high(&hw));
    hw.set_input(line(2, 0), Level::Low);
    assert!(erased.is_low(&hw));
}

#[test]
fn erased_handles_change_mode_as_the_typed_one() {
    let mut typed_hw = Gpio::new();
    let _typed = typed_hw.take::<10, 6>().unwrap().into_mode::<Output<OpenDrain>>(&mut typed_hw);
    let mut erased_hw = Gpio::new();
    let erased =
        erased_hw.take::<10, 6>().unwrap().erase().into_mode::<Output<OpenDrain>>(&mut erased_hw);
    let mut part_hw = Gpio::new();
    let part = part_hw
        .take::<10, 6>()
        .unwrap()
        .erase_number()
        .into_mode::<Output<OpenDrain>>(&mut part_hw);
    assert_eq!(erased.line_id(), line(10, 6));
    assert_eq!(part.line_id(), line(10, 6));
    assert_eq!(typed_hw.writes(), erased_hw.writes());
    assert_eq!(typed_hw.writes(), part_hw.writes());
    assert_eq!(snapshot(&typed_hw), snapshot(&erased_hw));
    assert_eq!(snapshot(&typed_hw), snapshot(&part_hw));
    let erased = erased.into_mode::<Analog>(&mut erased_hw);
    assert_eq!(erased.pin_id(), 6);
    assert_eq!(erased_hw.line(line(10, 6)).unwrap().mode(), Mode::Analog);
}

#[test]
fn erased_handles_of_different_lines_share_a_container() {
    let mut hw = Gpio::new();
    let a = hw.take::<0, 1>().unwrap().into_push_pull_output(&mut hw).erase();
    let b = hw.take::<3, 14>().unwrap().into_push_pull_output(&mut hw).erase();
    let c = hw.take::<10, 0>().unwrap().into_push_pull_output(&mut hw).erase();
    let mut all = vec![a, b, c];
    for pin in all.iter_mut() {
        pin.set_high(&mut hw);
    }
    assert_eq!(hw.line(line(0, 1)).unwrap().output, Level::High);
    assert_eq!(hw.line(line(3, 14)).unwrap().output, Level::High);
    assert_eq!(hw.line(line(10, 0)).unwrap().output, Level::High);
    assert_eq!(hw.line(line(0, 0)).unwrap().output, Level::Low);
    assert_eq!(hw.line(line(3, 15)).unwrap().output, Level::Low);
}

#[test]
fn dynamic_input_refuses_to_be_driven() {
    let mut hw = Gpio::new();
    let mut pin = hw.take::<1, 1>().unwrap().into_dynamic(&mut hw);
    assert_eq!(pin.mode(), Dynamic::Input);
    let before = snapshot(&hw);
    let written = hw.writes().clone();
    assert_eq!(pin.set_high(&mut hw), Err(PinModeError::IncorrectMode));
    assert_eq!(pin.set_low(&mut hw), Err(PinModeError::IncorrectMode));
    assert_eq!(pin.set_state(&mut hw, Level::High), Err(PinModeError::IncorrectMode));
    assert_eq!(snapshot(&hw), before);
    assert_eq!(hw.writes(), &written);
    assert_eq!(hw.line(line(1, 1)).unwrap().output, Level::Low);
    assert_eq!(pin.mode(), Dynamic::Input);
}

#[test]
fn dynamic_outputs_are_driven() {
    let mut hw = Gpio::new();
    let mut pin = hw.take::<1, 2>().unwrap().into_dynamic(&mut hw);
    pin.set_mode(&mut hw, Dynamic::OutputPushPull);
    assert_eq!(pin.mode(), Dynamic::OutputPushPull);
    assert_eq!(hw.line(line(1, 2)).unwrap().mode(), Mode::Output(OutputType::PushPull));
    assert_eq!(pin.set_high(&mut hw), Ok(()));
    assert_eq!(hw.line(line(1, 2)).unwrap().output, Level::High);
    pin.set_mode(&mut hw, Dynamic::OutputOpenDrain);
    assert_eq!(hw.line(line(1, 2)).unwrap().mode(), Mode::Output(OutputType::OpenDrain));
    assert_eq!(pin.set_low(&mut hw), Ok(()));
    assert_eq!(hw.line(line(1, 2)).unwrap().output, Level::Low);
    assert_eq!(pin.set_state(&mut hw, Level::High), Ok(()));
    assert_eq!(hw.line(line(1, 2)).unwrap().output, Level::High);
}

#[test]
fn dynamic_reads_in_every_mode_but_analog() {
    let mut hw = Gpio::new();
    let mut pin = hw.take::<1, 3>().unwrap().into_dynamic(&mut hw);
    hw.set_input(line(1, 3), Level::High);
    for mode in [Dynamic::Input, Dynamic::OutputPushPull, Dynamic::OutputOpenDrain] {
        pin.set_mode(&mut hw, mode);
        assert_eq!(pin.is_high(&hw), Ok(true));
        assert_eq!(pin.is_low(&hw), Ok(false));
    }
    hw.set_input(line(1, 3), Level::Low);
    assert_eq!(pin.is_high(&hw), Ok(false));
    assert_eq!(pin.is_low(&hw), Ok(true));
    pin.set_mode(&mut hw, Dynamic::Analog);
    assert_eq!(hw.line(line(1, 3)).unwrap().mode(), Mode::Analog);
    assert_eq!(pin.is_high(&hw), Err(PinModeError::IncorrectMode));
    assert_eq!(pin.is_low(&hw), Err(PinModeError::IncorrectMode));
    assert_eq!(pin.set_high(&mut hw), Err(PinModeError::IncorrectMode));
}

#[test]
fn dynamic_mode_predicates() {
    assert!(!Dynamic::Input.is_output());
    assert!(Dynamic::OutputPushPull.is_output());
    assert!(Dynamic::OutputOpenDrain.is_output());
    assert!(!Dynamic::Analog.is_output());
    assert!(Dynamic::Input.is_readable());
    assert!(Dynamic::OutputPushPull.is_readable());
    assert!(Dynamic::OutputOpenDrain.is_readable());
    assert!(!Dynamic::Analog.is_readable());
    assert_eq!(Dynamic::Input.mode(), Mode::Input);
    assert_eq!(Dynamic::OutputPushPull.mode(), Mode::Output(OutputType::PushPull));
    assert_eq!(Dynamic::OutputOpenDrain.mode(), Mode::Output(OutputType::OpenDrain));
    assert_eq!(Dynamic::Analog.mode(), Mode::Analog);
}

#[test]
fn dynamic_handle_keeps_its_line() {
    let mut hw = Gpio::new();
    let mut pin = hw.take::<6, 6>().unwrap().into_mode::<Output<PushPull>>(&mut hw).into_dynamic(&mut hw);
    assert_eq!(hw.line(line(6, 6)).unwrap().mode(), Mode::Input);
    pin.set_mode(&mut hw, Dynamic::OutputPushPull);
    pin.set_mode(&mut hw, Dynamic::Analog);
    pin.set_mode(&mut hw, Dynamic::Input);
    assert_eq!(pin.port_id(), 6);
    assert_eq!(pin.pin_id(), 6);
    assert_eq!(pin.line_id(), line(6, 6));
    assert_eq!(hw.line(line(6, 6)).unwrap().mode(), Mode::Input);
    assert_eq!(hw.line(line(6, 5)).unwrap().mode(), Mode::Input);
    assert_eq!(hw.line(line(6, 7)).unwrap().mode(), Mode::Input);
}
