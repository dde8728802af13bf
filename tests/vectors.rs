use blinky::vectors::{
    power_on, CoreRegisters, EntryPoints, ExceptionTable, Vector, TABLE_SIZE, TOP_OF_RAM,
    VECTOR_COUNT,
};

fn entry() -> EntryPoints {
    EntryPoints { reset_handler: 0x0000_0101, nop_handler: 0x0000_0201, trap: 0x0000_0301 }
}

#[test]
fn firmware_table_words() {
    let t = ExceptionTable::firmware(entry());
    let w = t.words();
    assert_eq!(w.len(), VECTOR_COUNT);
    assert_eq!(w.len() * 4, TABLE_SIZE);
    assert_eq!(w[0], 0x2000_8000);
    assert_eq!(w[1], 0x101);
    assert_eq!(w[2], 0x201);
    assert_eq!(w[3], 0x301);
    assert!(w[4..11].iter().all(|x| *x == 0));
    assert_eq!(w[11], 0x201);
    assert!(w[12..14].iter().all(|x| *x == 0));
    assert_eq!(w[14], 0x201);
    assert_eq!(w[15], 0);
    assert!(w[16..48].iter().all(|x| *x == 0));
}

#[test]
fn present_optional_slots_land_at_their_offsets() {
    let mut t = ExceptionTable::firmware(entry());
    t.reserved_0[6] = Some(7);
    t.reserved_1[0] = Some(11);
    t.sys_tick = Some(15);
    t.external[0] = Some(16);
    t.external[31] = Some(47);
    let w = t.words();
    assert_eq!(w[(Vector::Reserved0.offset() + Vector::Reserved0.size()) / 4 - 1], 7);
    assert_eq!(w[Vector::Reserved1.offset() / 4], 11);
    assert_eq!(w[Vector::SysTick.offset() / 4], 15);
    assert_eq!(w[Vector::External.offset() / 4], 16);
    assert_eq!(w[47], 47);
}

#[test]
fn vector_offsets_and_sizes() {
    assert_eq!(Vector::InitialStack.offset(), 0);
    assert_eq!(Vector::Reset.offset(), 4);
    assert_eq!(Vector::Nmi.offset(), 8);
    assert_eq!(Vector::HardFault.offset(), 12);
    assert_eq!(Vector::Reserved0.offset(), 16);
    assert_eq!(Vector::Reserved0.size(), 28);
    assert_eq!(Vector::SvCall.offset(), 44);
    assert_eq!(Vector::Reserved1.offset(), 48);
    assert_eq!(Vector::Reserved1.size(), 8);
    assert_eq!(Vector::PendSv.offset(), 56);
    assert_eq!(Vector::SysTick.offset(), 60);
    assert_eq!(Vector::External.offset(), 64);
    assert_eq!(Vector::External.size(), 128);
    assert_eq!(Vector::External.offset() + Vector::External.size(), TABLE_SIZE);
}

#[test]
fn power_on_loads_stack_and_reset_handler() {
    let t = ExceptionTable::firmware(entry());
    let w = t.words();
    let core = power_on(&w);
    assert_eq!(core, CoreRegisters { stack_pointer: TOP_OF_RAM, program_counter: 0x101 });
    assert_eq!(core.stack_pointer, 0x2000_8000);
}
