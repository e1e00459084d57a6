use easyjack::InputPortHandle;
use easyjack::MidiEvent;
use easyjack::OutputPortHandle;
use easyjack::Port;
use easyjack::PortFlags;
use easyjack::UnknownPortHandle;
use easyjack::port_flags;

#[test]
fn checked_promotion_follows_the_flags() {
    let input_flags = PortFlags::from_bits(port_flags::PORT_IS_INPUT).unwrap();
    let output_flags = PortFlags::from_bits(port_flags::PORT_IS_OUTPUT).unwrap();

    let p = UnknownPortHandle::new(41);
    let promoted: InputPortHandle<f32> = p.as_input(input_flags).unwrap();
    assert_eq!(promoted.get_raw(), 41);

    let p = UnknownPortHandle::new(41);
    assert!(p.as_input::<f32>(output_flags).is_none());

    let p = UnknownPortHandle::new(17);
    let promoted: OutputPortHandle<MidiEvent> = p.as_output(output_flags).unwrap();
    assert_eq!(promoted.get_raw(), 17);

    let p = UnknownPortHandle::new(17);
    assert!(p.as_output::<MidiEvent>(input_flags).is_none());
}

#[test]
fn promotion_accepts_supersets_of_the_needed_flag() {
    let both = PortFlags::from_bits(
        port_flags::PORT_IS_INPUT | port_flags::PORT_IS_PHYSICAL | port_flags::PORT_IS_TERMINAL,
    )
    .unwrap();
    let p = UnknownPortHandle::new(3);
    assert!(p.as_input::<f32>(both).is_some());
}

#[test]
fn forced_promotion_skips_the_check_and_keeps_identity() {
    let p = UnknownPortHandle::new(99);
    let forced: InputPortHandle<f32> = p.force_as_input();
    assert_eq!(forced.get_raw(), 99);

    let p = UnknownPortHandle::new(100);
    let forced: OutputPortHandle<f32> = p.force_as_output();
    assert_eq!(forced.get_raw(), 100);
}

#[test]
fn handles_to_the_same_port_agree_on_identity() {
    let flags = PortFlags::from_bits(port_flags::PORT_IS_INPUT).unwrap();
    let by_lookup = UnknownPortHandle::new(7);
    let by_registration: InputPortHandle<f32> = InputPortHandle::new(7);
    let promoted = by_lookup.as_input::<f32>(flags).unwrap();
    assert_eq!(promoted.get_raw(), by_registration.get_raw());

    let copy = promoted;
    assert_eq!(copy.get_raw(), promoted.get_raw());
}

#[test]
fn port_flags_bit_operations() {
    assert!(PortFlags::from_bits(0x20).is_none());
    assert!(PortFlags::from_bits(port_flags::PORT_FLAGS_MASK).is_some());

    let input = PortFlags::from_bits(port_flags::PORT_IS_INPUT).unwrap();
    let terminal = PortFlags::from_bits(port_flags::PORT_IS_TERMINAL).unwrap();
    let both = input.union(terminal);
    assert_eq!(both.bits(), 0x11);
    assert!(both.contains(input));
    assert!(both.contains(terminal));
    assert!(!input.contains(terminal));
}
