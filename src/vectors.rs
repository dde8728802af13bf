//! The exception vector table: its architectural layout, the words it puts in
//! the image, and what the processor loads from it at power-on.
use vstd::prelude::*;

verus! {

/// Top of RAM: the initial stack pointer.
pub const TOP_OF_RAM: u32 = 0x20008000;

/// Bytes in one slot of the table.
pub const SLOT_SIZE: usize = 4;

/// Number of slots in the table.
pub const VECTOR_COUNT: usize = 48;

/// Bytes the table occupies in the image.
pub const TABLE_SIZE: usize = 192;

/// The exception vector table, field by field in the order the processor
/// indexes it. Each slot holds an address; an optional slot is `None` when
/// absent, which the image holds as a zero word.
#[derive(Clone, Copy)]
pub struct ExceptionTable {
    pub initial_stack: u32,
    pub reset: u32,
    pub nmi: u32,
    pub hard_fault: u32,
    pub reserved_0: [Option<u32>; 7],
    pub sv_call: u32,
    pub reserved_1: [Option<u32>; 2],
    pub pend_sv: u32,
    pub sys_tick: Option<u32>,
    pub external: [Option<u32>; 32],
}

/// The word that an optional slot puts in the image.
pub open spec fn slot_word(v: Option<u32>) -> u32 {
    match v {
        Some(address) => address,
        None => 0,
    }
}

/// The words that a run of optional slots puts in the image.
pub open spec fn slot_words(s: Seq<Option<u32>>) -> Seq<u32> {
    s.map_values(|v: Option<u32>| slot_word(v))
}

/// The fields of the table, in architectural order.
#[derive(Clone, Copy, PartialEq, Eq, Structural, Debug)]
pub enum Vector {
    InitialStack,
    Reset,
    Nmi,
    HardFault,
    Reserved0,
    SvCall,
    Reserved1,
    PendSv,
    SysTick,
    External,
}

/// The field at place `i` of the table (places past the last map to it).
pub open spec fn vector_at(i: nat) -> Vector {
    if i == 0 {
        Vector::InitialStack
    } else if i == 1 {
        Vector::Reset
    } else if i == 2 {
        Vector::Nmi
    } else if i == 3 {
        Vector::HardFault
    } else if i == 4 {
        Vector::Reserved0
    } else if i == 5 {
        Vector::SvCall
    } else if i == 6 {
        Vector::Reserved1
    } else if i == 7 {
        Vector::PendSv
    } else if i == 8 {
        Vector::SysTick
    } else {
        Vector::External
    }
}

/// Index of the first slot of place `i`: the slots of the fields before it.
pub open spec fn first_slot_of(i: nat) -> nat
    decreases i,
{
    if i == 0 {
        0
    } else {
        first_slot_of((i - 1) as nat) + vector_at((i - 1) as nat).slots()
    }
}

impl Vector {
    /// Place of the field in the table.
    pub open spec fn position(self) -> nat {
        match self {
            Vector::InitialStack => 0,
            Vector::Reset => 1,
            Vector::Nmi => 2,
            Vector::HardFault => 3,
            Vector::Reserved0 => 4,
            Vector::SvCall => 5,
            Vector::Reserved1 => 6,
            Vector::PendSv => 7,
            Vector::SysTick => 8,
            Vector::External => 9,
        }
    }

    /// Number of slots the field spans.
    pub open spec fn slots(self) -> nat {
        match self {
            Vector::Reserved0 => 7,
            Vector::Reserved1 => 2,
            Vector::External => 32,
            _ => 1,
        }
    }

    /// Index of the field's first slot.
    pub open spec fn first_slot(self) -> nat {
        first_slot_of(self.position())
    }

    /// Byte offset of the field from the start of the table.
    pub fn offset(&self) -> (r: usize)
        ensures
            r == SLOT_SIZE * self.first_slot(),
    {
        proof {
            reveal_with_fuel(first_slot_of, 10);
        }
        match self {
            Vector::InitialStack => 0,
            Vector::Reset => 4,
            Vector::Nmi => 8,
            Vector::HardFault => 12,
            Vector::Reserved0 => 16,
            Vector::SvCall => 44,
            Vector::Reserved1 => 48,
            Vector::PendSv => 56,
            Vector::SysTick => 60,
            Vector::External => 64,
        }
    }

    /// Bytes the field occupies.
    pub fn size(&self) -> (r: usize)
        ensures
            r == SLOT_SIZE * self.slots(),
    {
        match self {
            Vector::Reserved0 => 28,
            Vector::Reserved1 => 8,
            Vector::External => 128,
            _ => 4,
        }
    }
}

impl ExceptionTable {
    /// The words that field `f` puts in the image, in order.
    pub open spec fn field_words(self, f: Vector) -> Seq<u32> {
        match f {
            Vector::InitialStack => seq![self.initial_stack],
            Vector::Reset => seq![self.reset],
            Vector::Nmi => seq![self.nmi],
            Vector::HardFault => seq![self.hard_fault],
            Vector::Reserved0 => slot_words(self.reserved_0@),
            Vector::SvCall => seq![self.sv_call],
            Vector::Reserved1 => slot_words(self.reserved_1@),
            Vector::PendSv => seq![self.pend_sv],
            Vector::SysTick => seq![slot_word(self.sys_tick)],
            Vector::External => slot_words(self.external@),
        }
    }

    /// The table as the processor reads it: every field's words, in order.
    pub open spec fn image(self) -> Seq<u32> {
        self.field_words(Vector::InitialStack) + self.field_words(Vector::Reset)
            + self.field_words(Vector::Nmi) + self.field_words(Vector::HardFault)
            + self.field_words(Vector::Reserved0) + self.field_words(Vector::SvCall)
            + self.field_words(Vector::Reserved1) + self.field_words(Vector::PendSv)
            + self.field_words(Vector::SysTick) + self.field_words(Vector::External)
    }
}

/// The word an optional slot puts in the image.
fn word_of(v: Option<u32>) -> (r: u32)
    ensures
        r == slot_word(v),
{
    match v {
        Some(address) => address,
        None => 0,
    }
}

/// Appends the words of a run of optional slots.
fn push_slots(out: &mut Vec<u32>, slots: &[Option<u32>])
    ensures
        final(out)@ == old(out)@ + slot_words(slots@),
{
    let mut i: usize = 0;
    while i < slots.len()
        invariant
            i <= slots@.len(),
            out@ == old(out)@ + slot_words(slots@.take(i as int)),
        decreases slots@.len() - i,
    {
        out.push(word_of(slots[i]));
        proof {
            assert(slots@.take(i + 1) =~= slots@.take(i as int).push(slots@[i as int]));
            assert(slot_words(slots@.take(i + 1)) =~= slot_words(slots@.take(i as int)).push(
                slot_word(slots@[i as int]),
            ));
        }
        i += 1;
    }
    assert(slots@.take(slots@.len() as int) =~= slots@);
}

impl ExceptionTable {
    /// The words of the table in slot order, as placed in the image.
    pub fn words(&self) -> (r: Vec<u32>)
        ensures
            r@ == self.image(),
    {
        let mut out: Vec<u32> = Vec::new();
        out.push(self.initial_stack);
        out.push(self.reset);
        out.push(self.nmi);
        out.push(self.hard_fault);
        push_slots(&mut out, self.reserved_0.as_slice());
        out.push(self.sv_call);
        push_slots(&mut out, self.reserved_1.as_slice());
        out.push(self.pend_sv);
        out.push(word_of(self.sys_tick));
        push_slots(&mut out, self.external.as_slice());
        assert(out@ =~= self.image());
        out
    }
}

/// The table is packed in architectural order: each field starts where the
/// one before it ends, the whole table is `TABLE_SIZE` bytes, the reserved
/// runs are 28 bytes at offset 16 and 8 bytes at offset 48, and the image
/// holds each field's words at that field's slots.
pub proof fn vector_table_layout(t: ExceptionTable)
    ensures
        SLOT_SIZE * first_slot_of(10) == TABLE_SIZE,
        t.image().len() == VECTOR_COUNT,
        SLOT_SIZE * t.image().len() == TABLE_SIZE,
        SLOT_SIZE * Vector::Reserved0.first_slot() == 16,
        SLOT_SIZE * Vector::Reserved0.slots() == 28,
        SLOT_SIZE * Vector::Reserved1.first_slot() == 48,
        SLOT_SIZE * Vector::Reserved1.slots() == 8,
        forall|f: Vector| #[trigger] vector_at(f.position()) == f,
        forall|f: Vector|
            f.first_slot() + f.slots() == #[trigger] first_slot_of(f.position() + 1),
        forall|f: Vector| #[trigger] t.field_words(f).len() == f.slots(),
        forall|f: Vector|
            #[trigger] t.image().subrange(
                f.first_slot() as int,
                (f.first_slot() + f.slots()) as int,
            ) == t.field_words(f),
{
    reveal_with_fuel(first_slot_of, 11);
    assert forall|f: Vector|
        f.first_slot() + f.slots() == #[trigger] first_slot_of(f.position() + 1) by {
        assert(vector_at(f.position()) == f);
    }
    let img = t.image();
    assert(img.len() == 48);
    assert forall|f: Vector|
        #[trigger] img.subrange(f.first_slot() as int, (f.first_slot() + f.slots()) as int)
            == t.field_words(f) by {
        match f {
            Vector::InitialStack => {
                assert(img.subrange(0, 1) =~= t.field_words(f));
            },
            Vector::Reset => {
                assert(img.subrange(1, 2) =~= t.field_words(f));
            },
            Vector::Nmi => {
                assert(img.subrange(2, 3) =~= t.field_words(f));
            },
            Vector::HardFault => {
                assert(img.subrange(3, 4) =~= t.field_words(f));
            },
            Vector::Reserved0 => {
                assert(img.subrange(4, 11) =~= t.field_words(f));
            },
            Vector::SvCall => {
                assert(img.subrange(11, 12) =~= t.field_words(f));
            },
            Vector::Reserved1 => {
                assert(img.subrange(12, 14) =~= t.field_words(f));
            },
            Vector::PendSv => {
                assert(img.subrange(14, 15) =~= t.field_words(f));
            },
            Vector::SysTick => {
                assert(img.subrange(15, 16) =~= t.field_words(f));
            },
            Vector::External => {
                assert(img.subrange(16, 48) =~= t.field_words(f));
            },
        }
    }
}

/// Link-time addresses of the firmware's handler routines.
#[derive(Clone, Copy, PartialEq, Eq, Structural, Debug)]
pub struct EntryPoints {
    pub reset_handler: u32,
    pub nop_handler: u32,
    pub trap: u32,
}

impl ExceptionTable {
    /// Whether this is the firmware's table for the given entry points: the
    /// stack at the top of RAM, reset to the reset handler, the hard fault to
    /// the trap, NMI and the scheduler calls to the no-op handler, and every
    /// optional slot absent.
    pub open spec fn is_firmware_table(self, entry: EntryPoints) -> bool {
        &&& self.initial_stack == TOP_OF_RAM
        &&& self.reset == entry.reset_handler
        &&& self.nmi == entry.nop_handler
        &&& self.hard_fault == entry.trap
        &&& self.sv_call == entry.nop_handler
        &&& self.pend_sv == entry.nop_handler
        &&& self.sys_tick is None
        &&& forall|i: int| 0 <= i < 7 ==> self.reserved_0[i] is None
        &&& forall|i: int| 0 <= i < 2 ==> self.reserved_1[i] is None
        &&& forall|i: int| 0 <= i < 32 ==> self.external[i] is None
    }

    /// The firmware's table for the given entry points.
    pub fn firmware(entry: EntryPoints) -> (r: ExceptionTable)
        ensures
            r.is_firmware_table(entry),
    {
        ExceptionTable {
            initial_stack: TOP_OF_RAM,
            reset: entry.reset_handler,
            nmi: entry.nop_handler,
            hard_fault: entry.trap,
            reserved_0: [None; 7],
            sv_call: entry.nop_handler,
            reserved_1: [None; 2],
            pend_sv: entry.nop_handler,
            sys_tick: None,
            external: [None; 32],
        }
    }
}

/// The processor's stack pointer and program counter.
#[derive(Clone, Copy, PartialEq, Eq, Structural, Debug)]
pub struct CoreRegisters {
    pub stack_pointer: u32,
    pub program_counter: u32,
}

/// What the processor loads at power-on from a vector image: the stack
/// pointer from the first slot and the program counter from the second.
pub open spec fn boot_registers(image: Seq<u32>) -> CoreRegisters {
    CoreRegisters { stack_pointer: image[0], program_counter: image[1] }
}

/// Loads the core registers from a vector image, as the processor does at
/// power-on.
pub fn power_on(image: &[u32]) -> (r: CoreRegisters)
    requires
        image@.len() >= 2,
    ensures
        r == boot_registers(image@),
{
    CoreRegisters { stack_pointer: image[0], program_counter: image[1] }
}

/// Powering on from the firmware's table starts the reset handler with the
/// stack at the top of RAM.
pub proof fn power_on_enters_reset_handler(t: ExceptionTable, entry: EntryPoints)
    requires
        t.is_firmware_table(entry),
    ensures
        boot_registers(t.image()) == (CoreRegisters {
            stack_pointer: TOP_OF_RAM,
            program_counter: entry.reset_handler,
        }),
{
    vector_table_layout(t);
    assert(t.image().subrange(0, 1)[0] == t.image()[0]);
    assert(t.image().subrange(1, 2)[0] == t.image()[1]);
}

} // verus!
