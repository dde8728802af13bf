//! The port peripheral's register block and what the hardware does on each
//! write to it.
use vstd::prelude::*;

verus! {

/// Physical base address of the port register block.
pub const PORT_ADDRESS: u32 = 0x41004400;

/// Number of pin groups in the port.
pub const GROUP_COUNT: usize = 2;

/// Number of pins in one group; pin `p` is bit `p` of each 32-bit register.
pub const PINS_PER_GROUP: u32 = 32;

/// One group of pin-control registers, in the order the hardware lays them out.
///
/// A write to a `_set`, `_clear` or `_toggle` register changes the bits of its
/// companion register that are 1 in the written value, and leaves the others;
/// the strobe register itself holds the last value written to it.
#[derive(Clone, Copy)]
pub struct PortGroup {
    pub data_direction: u32,
    pub data_direction_clear: u32,
    pub data_direction_set: u32,
    pub data_direction_toggle: u32,
    pub data_output_value: u32,
    pub data_output_value_clear: u32,
    pub data_output_value_set: u32,
    pub data_output_value_toggle: u32,
    pub data_input_value: u32,
    pub control: u32,
    pub write_configuration: u32,
    pub reserved_0: [u8; 4],
    pub peripheral_multiplexing: [u8; 16],
    pub pin_configuration: [u8; 32],
    pub reserved_1: [u8; 32],
}

/// The single-bit mask of a pin within its group.
pub open spec fn pin_mask(pin: u32) -> u32 {
    1u32 << pin
}

/// Whether pin `pin`'s bit is 1 in a register value.
pub open spec fn pin_bit(word: u32, pin: u32) -> bool {
    (word >> pin) & 1u32 == 1u32
}

impl PortGroup {
    /// Whether every register of the group is zero, as after reset.
    pub open spec fn is_reset(self) -> bool {
        &&& self.data_direction == 0
        &&& self.data_direction_clear == 0
        &&& self.data_direction_set == 0
        &&& self.data_direction_toggle == 0
        &&& self.data_output_value == 0
        &&& self.data_output_value_clear == 0
        &&& self.data_output_value_set == 0
        &&& self.data_output_value_toggle == 0
        &&& self.data_input_value == 0
        &&& self.control == 0
        &&& self.write_configuration == 0
        &&& forall|i: int| 0 <= i < 4 ==> self.reserved_0[i] == 0
        &&& forall|i: int| 0 <= i < 16 ==> self.peripheral_multiplexing[i] == 0
        &&& forall|i: int| 0 <= i < 32 ==> self.pin_configuration[i] == 0
        &&& forall|i: int| 0 <= i < 32 ==> self.reserved_1[i] == 0
    }

    /// The group as it comes out of reset: every register zero.
    pub fn reset() -> (r: PortGroup)
        ensures
            r.is_reset(),
    {
        PortGroup {
            data_direction: 0,
            data_direction_clear: 0,
            data_direction_set: 0,
            data_direction_toggle: 0,
            data_output_value: 0,
            data_output_value_clear: 0,
            data_output_value_set: 0,
            data_output_value_toggle: 0,
            data_input_value: 0,
            control: 0,
            write_configuration: 0,
            reserved_0: [0u8; 4],
            peripheral_multiplexing: [0u8; 16],
            pin_configuration: [0u8; 32],
            reserved_1: [0u8; 32],
        }
    }

    /// The group after a write of `mask` to the direction-set register.
    pub open spec fn after_direction_set(self, mask: u32) -> PortGroup {
        PortGroup { data_direction: self.data_direction | mask, data_direction_set: mask, ..self }
    }

    /// The group after a write of `mask` to the direction-clear register.
    pub open spec fn after_direction_clear(self, mask: u32) -> PortGroup {
        PortGroup {
            data_direction: self.data_direction & !mask,
            data_direction_clear: mask,
            ..self
        }
    }

    /// The group after a write of `mask` to the direction-toggle register.
    pub open spec fn after_direction_toggle(self, mask: u32) -> PortGroup {
        PortGroup {
            data_direction: self.data_direction ^ mask,
            data_direction_toggle: mask,
            ..self
        }
    }

    /// The group after a write of `mask` to the output-value-set register.
    pub open spec fn after_output_set(self, mask: u32) -> PortGroup {
        PortGroup {
            data_output_value: self.data_output_value | mask,
            data_output_value_set: mask,
            ..self
        }
    }

    /// The group after a write of `mask` to the output-value-clear register.
    pub open spec fn after_output_clear(self, mask: u32) -> PortGroup {
        PortGroup {
            data_output_value: self.data_output_value & !mask,
            data_output_value_clear: mask,
            ..self
        }
    }

    /// The group after a write of `mask` to the output-value-toggle register.
    pub open spec fn after_output_toggle(self, mask: u32) -> PortGroup {
        PortGroup {
            data_output_value: self.data_output_value ^ mask,
            data_output_value_toggle: mask,
            ..self
        }
    }

    /// The group after `value` is written to the configuration byte of `pin`.
    pub open spec fn after_pin_configuration(self, pin: u32, value: u8) -> PortGroup {
        PortGroup {
            pin_configuration: vstd::array::spec_array_update(
                self.pin_configuration,
                pin as int,
                value,
            ),
            ..self
        }
    }

    /// Writes `mask` to the direction-set register: the pins in `mask` become outputs.
    pub fn write_direction_set(&mut self, mask: u32)
        ensures
            *final(self) == old(self).after_direction_set(mask),
    {
        self.data_direction_set = mask;
        self.data_direction = self.data_direction | mask;
    }

    /// Writes `mask` to the direction-clear register: the pins in `mask` become inputs.
    pub fn write_direction_clear(&mut self, mask: u32)
        ensures
            *final(self) == old(self).after_direction_clear(mask),
    {
        self.data_direction_clear = mask;
        self.data_direction = self.data_direction & !mask;
    }

    /// Writes `mask` to the direction-toggle register: the pins in `mask` switch direction.
    pub fn write_direction_toggle(&mut self, mask: u32)
        ensures
            *final(self) == old(self).after_direction_toggle(mask),
    {
        self.data_direction_toggle = mask;
        self.data_direction = self.data_direction ^ mask;
    }

    /// Writes `mask` to the output-value-set register: the pins in `mask` drive high.
    pub fn write_output_set(&mut self, mask: u32)
        ensures
            *final(self) == old(self).after_output_set(mask),
    {
        self.data_output_value_set = mask;
        self.data_output_value = self.data_output_value | mask;
    }

    /// Writes `mask` to the output-value-clear register: the pins in `mask` drive low.
    pub fn write_output_clear(&mut self, mask: u32)
        ensures
            *final(self) == old(self).after_output_clear(mask),
    {
        self.data_output_value_clear = mask;
        self.data_output_value = self.data_output_value & !mask;
    }

    /// Writes `mask` to the output-value-toggle register: the pins in `mask` switch level.
    pub fn write_output_toggle(&mut self, mask: u32)
        ensures
            *final(self) == old(self).after_output_toggle(mask),
    {
        self.data_output_value_toggle = mask;
        self.data_output_value = self.data_output_value ^ mask;
    }

    /// Writes the whole configuration byte of `pin`.
    pub fn write_pin_configuration(&mut self, pin: u32, value: u8)
        requires
            pin < PINS_PER_GROUP,
        ensures
            *final(self) == old(self).after_pin_configuration(pin, value),
    {
        self.pin_configuration[pin as usize] = value;
    }
}

/// The whole port: its groups side by side, selected by index.
#[derive(Clone, Copy)]
pub struct Port {
    pub groups: [PortGroup; 2],
}

/// The single-bit mask of a pin, computed.
pub fn mask_of(pin: u32) -> (r: u32)
    requires
        pin < PINS_PER_GROUP,
    ensures
        r == pin_mask(pin),
{
    1u32 << pin
}

impl Port {
    /// The port with `group` replaced.
    pub open spec fn with_group(self, group: usize, g: PortGroup) -> Port {
        Port { groups: vstd::array::spec_array_update(self.groups, group as int, g) }
    }

    /// The port after `pin` of `group` is configured as a plain output.
    pub open spec fn configured_as_output(self, group: usize, pin: u32, config: u8) -> Port {
        self.with_group(
            group,
            self.groups[group as int].after_pin_configuration(pin, config).after_direction_set(
                pin_mask(pin),
            ),
        )
    }

    /// The port after `pin` of `group` is driven high.
    pub open spec fn output_set(self, group: usize, pin: u32) -> Port {
        self.with_group(group, self.groups[group as int].after_output_set(pin_mask(pin)))
    }

    /// The port after `pin` of `group` is driven low.
    pub open spec fn output_cleared(self, group: usize, pin: u32) -> Port {
        self.with_group(group, self.groups[group as int].after_output_clear(pin_mask(pin)))
    }

    /// The port as it comes out of reset.
    pub fn reset() -> (r: Port)
        ensures
            r.groups[0].is_reset(),
            r.groups[1].is_reset(),
    {
        Port { groups: [PortGroup::reset(), PortGroup::reset()] }
    }

    /// Selects plain GPIO for `pin` of `group` by overwriting its whole
    /// configuration byte with `config`, then makes the pin an output through
    /// the direction-set register.
    pub fn configure_pin_as_output(&mut self, group: usize, pin: u32, config: u8)
        requires
            group < GROUP_COUNT,
            pin < PINS_PER_GROUP,
        ensures
            *final(self) == old(self).configured_as_output(group, pin, config),
    {
        let mut g = self.groups[group];
        g.write_pin_configuration(pin, config);
        g.write_direction_set(mask_of(pin));
        self.groups[group] = g;
    }

    /// Drives `pin` of `group` high through the output-value-set register.
    pub fn set_output(&mut self, group: usize, pin: u32)
        requires
            group < GROUP_COUNT,
            pin < PINS_PER_GROUP,
        ensures
            *final(self) == old(self).output_set(group, pin),
    {
        let mut g = self.groups[group];
        g.write_output_set(mask_of(pin));
        self.groups[group] = g;
    }

    /// Drives `pin` of `group` low through the output-value-clear register.
    pub fn clear_output(&mut self, group: usize, pin: u32)
        requires
            group < GROUP_COUNT,
            pin < PINS_PER_GROUP,
        ensures
            *final(self) == old(self).output_cleared(group, pin),
    {
        let mut g = self.groups[group];
        g.write_output_clear(mask_of(pin));
        self.groups[group] = g;
    }
}

proof fn lemma_or_mask_bits(word: u32, pin: u32, q: u32)
    by (bit_vector)
    requires
        pin < 32,
        q < 32,
    ensures
        pin_bit(word | pin_mask(pin), pin),
        q != pin ==> pin_bit(word | pin_mask(pin), q) == pin_bit(word, q),
        !pin_bit(word, pin) ==> (word | pin_mask(pin)) ^ word == pin_mask(pin),
{
}

proof fn lemma_clear_mask_bits(word: u32, pin: u32, q: u32)
    by (bit_vector)
    requires
        pin < 32,
        q < 32,
    ensures
        !pin_bit(word & !pin_mask(pin), pin),
        q != pin ==> pin_bit(word & !pin_mask(pin), q) == pin_bit(word, q),
{
}

/// Configuring a pin as output makes that pin an output and leaves the
/// direction of every other pin as it was; when the pin was an input before,
/// the direction register differs in exactly that pin's bit. The other group
/// is untouched.
pub proof fn configure_changes_only_its_direction_bit(
    port: Port,
    group: usize,
    pin: u32,
    config: u8,
)
    requires
        group < GROUP_COUNT,
        pin < PINS_PER_GROUP,
    ensures
        ({
            let after = port.configured_as_output(group, pin, config);
            let d0 = port.groups[group as int].data_direction;
            let d1 = after.groups[group as int].data_direction;
            &&& pin_bit(d1, pin)
            &&& forall|q: u32|
                q < PINS_PER_GROUP && q != pin ==> #[trigger] pin_bit(d1, q) == pin_bit(d0, q)
            &&& !pin_bit(d0, pin) ==> d1 ^ d0 == pin_mask(pin)
            &&& forall|h: int|
                0 <= h < GROUP_COUNT && h != group ==> #[trigger] after.groups[h] == port.groups[h]
        }),
{
    let d0 = port.groups[group as int].data_direction;
    lemma_or_mask_bits(d0, pin, 0);
    assert forall|q: u32| q < PINS_PER_GROUP && q != pin implies #[trigger] pin_bit(
        d0 | pin_mask(pin),
        q,
    ) == pin_bit(d0, q) by {
        lemma_or_mask_bits(d0, pin, q);
    }
}

/// Driving a pin high sets its output bit and leaves the output bit of every
/// other pin, and every other register, as it was.
pub proof fn set_output_changes_only_its_pin(port: Port, group: usize, pin: u32)
    requires
        group < GROUP_COUNT,
        pin < PINS_PER_GROUP,
    ensures
        ({
            let after = port.output_set(group, pin);
            let before_group = port.groups[group as int];
            let after_group = after.groups[group as int];
            &&& pin_bit(after_group.data_output_value, pin)
            &&& forall|q: u32|
                q < PINS_PER_GROUP && q != pin ==> #[trigger] pin_bit(
                    after_group.data_output_value,
                    q,
                ) == pin_bit(before_group.data_output_value, q)
            &&& after_group.data_direction == before_group.data_direction
            &&& after_group.pin_configuration == before_group.pin_configuration
            &&& forall|h: int|
                0 <= h < GROUP_COUNT && h != group ==> #[trigger] after.groups[h] == port.groups[h]
        }),
{
    let v0 = port.groups[group as int].data_output_value;
    lemma_or_mask_bits(v0, pin, 0);
    assert forall|q: u32| q < PINS_PER_GROUP && q != pin implies #[trigger] pin_bit(
        v0 | pin_mask(pin),
        q,
    ) == pin_bit(v0, q) by {
        lemma_or_mask_bits(v0, pin, q);
    }
}

/// Driving a pin low clears its output bit and leaves the output bit of every
/// other pin, and every other register, as it was.
pub proof fn clear_output_changes_only_its_pin(port: Port, group: usize, pin: u32)
    requires
        group < GROUP_COUNT,
        pin < PINS_PER_GROUP,
    ensures
        ({
            let after = port.output_cleared(group, pin);
            let before_group = port.groups[group as int];
            let after_group = after.groups[group as int];
            &&& !pin_bit(after_group.data_output_value, pin)
            &&& forall|q: u32|
                q < PINS_PER_GROUP && q != pin ==> #[trigger] pin_bit(
                    after_group.data_output_value,
                    q,
                ) == pin_bit(before_group.data_output_value, q)
            &&& after_group.data_direction == before_group.data_direction
            &&& after_group.pin_configuration == before_group.pin_configuration
            &&& forall|h: int|
                0 <= h < GROUP_COUNT && h != group ==> #[trigger] after.groups[h] == port.groups[h]
        }),
{
    let v0 = port.groups[group as int].data_output_value;
    lemma_clear_mask_bits(v0, pin, 0);
    assert forall|q: u32| q < PINS_PER_GROUP && q != pin implies #[trigger] pin_bit(
        v0 & !pin_mask(pin),
        q,
    ) == pin_bit(v0, q) by {
        lemma_clear_mask_bits(v0, pin, q);
    }
}

/// Bytes that one group occupies; group `g` starts `g` times this far past
/// the port's base address.
pub const GROUP_SIZE: u32 = 128;

/// The registers of a group, in address order.
#[derive(Clone, Copy, PartialEq, Eq, Structural, Debug)]
pub enum Register {
    DataDirection,
    DataDirectionClear,
    DataDirectionSet,
    DataDirectionToggle,
    DataOutputValue,
    DataOutputValueClear,
    DataOutputValueSet,
    DataOutputValueToggle,
    DataInputValue,
    Control,
    WriteConfiguration,
    Reserved0,
    PeripheralMultiplexing,
    PinConfiguration,
    Reserved1,
}

/// The register at place `i` of the layout (places past the last map to it).
pub open spec fn register_at(i: nat) -> Register {
    if i == 0 {
        Register::DataDirection
    } else if i == 1 {
        Register::DataDirectionClear
    } else if i == 2 {
        Register::DataDirectionSet
    } else if i == 3 {
        Register::DataDirectionToggle
    } else if i == 4 {
        Register::DataOutputValue
    } else if i == 5 {
        Register::DataOutputValueClear
    } else if i == 6 {
        Register::DataOutputValueSet
    } else if i == 7 {
        Register::DataOutputValueToggle
    } else if i == 8 {
        Register::DataInputValue
    } else if i == 9 {
        Register::Control
    } else if i == 10 {
        Register::WriteConfiguration
    } else if i == 11 {
        Register::Reserved0
    } else if i == 12 {
        Register::PeripheralMultiplexing
    } else if i == 13 {
        Register::PinConfiguration
    } else {
        Register::Reserved1
    }
}

/// Byte offset of place `i` of the layout: the widths of the registers
/// before it, packed with no padding.
pub open spec fn layout_offset(i: nat) -> nat
    decreases i,
{
    if i == 0 {
        0
    } else {
        layout_offset((i - 1) as nat) + register_at((i - 1) as nat).byte_width()
    }
}

impl Register {
    /// Place of the register in the layout.
    pub open spec fn position(self) -> nat {
        match self {
            Register::DataDirection => 0,
            Register::DataDirectionClear => 1,
            Register::DataDirectionSet => 2,
            Register::DataDirectionToggle => 3,
            Register::DataOutputValue => 4,
            Register::DataOutputValueClear => 5,
            Register::DataOutputValueSet => 6,
            Register::DataOutputValueToggle => 7,
            Register::DataInputValue => 8,
            Register::Control => 9,
            Register::WriteConfiguration => 10,
            Register::Reserved0 => 11,
            Register::PeripheralMultiplexing => 12,
            Register::PinConfiguration => 13,
            Register::Reserved1 => 14,
        }
    }

    /// Width of the register in bytes.
    pub open spec fn byte_width(self) -> nat {
        match self {
            Register::PeripheralMultiplexing => 16,
            Register::PinConfiguration => 32,
            Register::Reserved1 => 32,
            _ => 4,
        }
    }

    /// Byte offset of the register from the start of its group.
    pub fn offset(&self) -> (r: u32)
        ensures
            r == layout_offset(self.position()),
            r + self.byte_width() <= GROUP_SIZE,
    {
        proof {
            reveal_with_fuel(layout_offset, 15);
        }
        match self {
            Register::DataDirection => 0x00,
            Register::DataDirectionClear => 0x04,
            Register::DataDirectionSet => 0x08,
            Register::DataDirectionToggle => 0x0c,
            Register::DataOutputValue => 0x10,
            Register::DataOutputValueClear => 0x14,
            Register::DataOutputValueSet => 0x18,
            Register::DataOutputValueToggle => 0x1c,
            Register::DataInputValue => 0x20,
            Register::Control => 0x24,
            Register::WriteConfiguration => 0x28,
            Register::Reserved0 => 0x2c,
            Register::PeripheralMultiplexing => 0x30,
            Register::PinConfiguration => 0x40,
            Register::Reserved1 => 0x60,
        }
    }
}

/// The group layout is packed: the registers, in order, fill exactly
/// `GROUP_SIZE` bytes, each starting where the one before it ends, and the
/// place of a register names that register.
pub proof fn port_group_layout()
    ensures
        layout_offset(15) == GROUP_SIZE,
        forall|r: Register| #[trigger] register_at(r.position()) == r,
        forall|r: Register|
            layout_offset(r.position()) + r.byte_width() == #[trigger] layout_offset(
                r.position() + 1,
            ),
        forall|r: Register| r.position() < 15,
{
    reveal_with_fuel(layout_offset, 16);
    assert forall|r: Register|
        layout_offset(r.position()) + r.byte_width() == #[trigger] layout_offset(
            r.position() + 1,
        ) by {
        assert(register_at(r.position()) == r);
    }
}

/// Physical address of `reg` in `group`.
pub fn register_address(group: usize, reg: Register) -> (r: u32)
    requires
        group < GROUP_COUNT,
    ensures
        r == PORT_ADDRESS + group * GROUP_SIZE + layout_offset(reg.position()),
        r + reg.byte_width() <= PORT_ADDRESS + (group + 1) * GROUP_SIZE,
{
    let offset = reg.offset();
    PORT_ADDRESS + (group as u32) * GROUP_SIZE + offset
}

/// Physical address of the configuration byte of `pin` in `group`.
pub fn pin_configuration_address(group: usize, pin: u32) -> (r: u32)
    requires
        group < GROUP_COUNT,
        pin < PINS_PER_GROUP,
    ensures
        r == PORT_ADDRESS + group * GROUP_SIZE + layout_offset(
            Register::PinConfiguration.position(),
        ) + pin,
{
    let base = register_address(group, Register::PinConfiguration);
    base + pin
}

} // verus!
