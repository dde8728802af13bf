use blinky::registers::{
    mask_of, pin_configuration_address, register_address, Port, PortGroup, Register,
    GROUP_SIZE, PORT_ADDRESS,
};

fn bit(word: u32, pin: u32) -> bool {
    (word >> pin) & 1 == 1
}

#[test]
fn reset_port_is_all_zero() {
    let port = Port::reset();
    for g in port.groups.iter() {
        assert_eq!(g.data_direction, 0);
        assert_eq!(g.data_output_value, 0);
        assert!(g.pin_configuration.iter().all(|b| *b == 0));
        assert!(g.peripheral_multiplexing.iter().all(|b| *b == 0));
    }
}

#[test]
fn configure_every_pin_flips_exactly_one_direction_bit() {
    for group in 0..2usize {
        for pin in 0..32u32 {
            let mut port = Port::reset();
            port.groups[group].data_direction = 0x0F0F_0000 & !(1u32 << pin);
            let before = port;
            port.configure_pin_as_output(group, pin, 0b10);
            let d0 = before.groups[group].data_direction;
            let d1 = port.groups[group].data_direction;
            assert_eq!((d1 ^ d0).count_ones(), 1);
            assert!(bit(d1, pin));
            for q in 0..32u32 {
                if q != pin {
                    assert_eq!(bit(d1, q), bit(d0, q));
                }
            }
            assert_eq!(port.groups[group].data_direction_set, 1u32 << pin);
            assert_eq!(port.groups[group].pin_configuration[pin as usize], 0b10);
            let other = 1 - group;
            assert_eq!(port.groups[other].data_direction, before.groups[other].data_direction);
        }
    }
}

#[test]
fn configure_overwrites_whole_configuration_byte() {
    let mut port = Port::reset();
    port.groups[1].pin_configuration[8] = 0b0100_0101;
    port.groups[1].pin_configuration[9] = 0b0000_0111;
    port.configure_pin_as_output(1, 8, 0b0000_0010);
    assert_eq!(port.groups[1].pin_configuration[8], 0b0000_0010);
    assert_eq!(port.groups[1].pin_configuration[9], 0b0000_0111);
}

#[test]
fn configure_already_output_pin_keeps_direction() {
    let mut port = Port::reset();
    port.groups[0].data_direction = 0x8000_0001;
    port.configure_pin_as_output(0, 31, 0);
    assert_eq!(port.groups[0].data_direction, 0x8000_0001);
}

#[test]
fn set_output_leaves_other_pins() {
    let mut port = Port::reset();
    port.groups[1].data_output_value = 0xA5A5_0000;
    port.groups[1].data_direction = 0x1234;
    port.set_output(1, 3);
    assert_eq!(port.groups[1].data_output_value, 0xA5A5_0008);
    assert_eq!(port.groups[1].data_output_value_set, 0x8);
    assert_eq!(port.groups[1].data_direction, 0x1234);
    assert_eq!(port.groups[0].data_output_value, 0);
}

#[test]
fn clear_output_leaves_other_pins() {
    let mut port = Port::reset();
    port.groups[0].data_output_value = 0xFFFF_FFFF;
    port.clear_output(0, 31);
    assert_eq!(port.groups[0].data_output_value, 0x7FFF_FFFF);
    assert_eq!(port.groups[0].data_output_value_clear, 0x8000_0000);
    assert_eq!(port.groups[1].data_output_value, 0);
}

#[test]
fn toggle_and_clear_registers_on_group() {
    let mut g = PortGroup::reset();
    g.write_direction_set(0b1100);
    g.write_direction_clear(0b0100);
    assert_eq!(g.data_direction, 0b1000);
    g.write_direction_toggle(0b1001);
    assert_eq!(g.data_direction, 0b0001);
    g.write_output_set(0b0110);
    g.write_output_toggle(0b0011);
    assert_eq!(g.data_output_value, 0b0101);
    g.write_output_clear(0b0100);
    assert_eq!(g.data_output_value, 0b0001);
    g.write_pin_configuration(31, 0xFF);
    assert_eq!(g.pin_configuration[31], 0xFF);
}

#[test]
fn mask_is_single_bit() {
    assert_eq!(mask_of(0), 1);
    assert_eq!(mask_of(8), 0x100);
    assert_eq!(mask_of(31), 0x8000_0000);
}

#[test]
fn register_offsets_match_layout() {
    assert_eq!(Register::DataDirection.offset(), 0x00);
    assert_eq!(Register::DataDirectionSet.offset(), 0x08);
    assert_eq!(Register::DataOutputValueClear.offset(), 0x14);
    assert_eq!(Register::DataOutputValueSet.offset(), 0x18);
    assert_eq!(Register::DataInputValue.offset(), 0x20);
    assert_eq!(Register::WriteConfiguration.offset(), 0x28);
    assert_eq!(Register::PeripheralMultiplexing.offset(), 0x30);
    assert_eq!(Register::PinConfiguration.offset(), 0x40);
    assert_eq!(Register::Reserved1.offset(), 0x60);
    assert_eq!(GROUP_SIZE, 128);
}

#[test]
fn register_addresses() {
    assert_eq!(PORT_ADDRESS, 0x4100_4400);
    assert_eq!(register_address(0, Register::DataDirection), 0x4100_4400);
    assert_eq!(register_address(1, Register::DataDirectionSet), 0x4100_4488);
    assert_eq!(register_address(1, Register::DataOutputValueClear), 0x4100_4494);
    assert_eq!(register_address(1, Register::DataOutputValueSet), 0x4100_4498);
    assert_eq!(pin_configuration_address(1, 8), 0x4100_44C8);
    assert_eq!(pin_configuration_address(0, 0), 0x4100_4440);
}
