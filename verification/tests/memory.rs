use fake_cpu::sim86_memory::{
    get_absolute_address_of, read_memory, Memory, SegmentAccess, MEMORY_ACCESS_MASK, SIZE,
};

#[test]
fn address_space_is_one_megabyte() {
    assert_eq!(SIZE, 1_048_576);
    assert_eq!(MEMORY_ACCESS_MASK, SIZE - 1);
}

#[test]
fn absolute_address_is_segment_times_sixteen_plus_offset() {
    let at = |segment_base: u16, segment_offset: u16| SegmentAccess { segment_base, segment_offset };
    assert_eq!(get_absolute_address_of(at(0, 0), 0), 0);
    assert_eq!(get_absolute_address_of(at(0, 0x20), 5), 0x25);
    assert_eq!(get_absolute_address_of(at(0x1000, 0x20), 5), 0x10025);
    assert_eq!(get_absolute_address_of(at(0x1234, 0x5678), 0), 0x179B8);
    assert_eq!(get_absolute_address_of(at(0xFFFF, 0), 0xF), 0xFFFFF);
    assert_eq!(get_absolute_address_of(at(0, 0xFFFF), 0), 0xFFFF);
    assert_eq!(get_absolute_address_of(at(0, 0), 0xFFFF), 0xFFFF);
}

#[test]
fn absolute_address_wraps_at_one_megabyte() {
    let at = |segment_base: u16, segment_offset: u16| SegmentAccess { segment_base, segment_offset };
    assert_eq!(get_absolute_address_of(at(0xFFFF, 0x10), 0), 0);
    assert_eq!(get_absolute_address_of(at(0xFFFF, 0x10), 1), 1);
    assert_eq!(get_absolute_address_of(at(0xFFFF, 0xFFFF), 0), 0xFFEF);
    assert_eq!(get_absolute_address_of(at(0xF000, 0xFFF0), 0xF), 0xFFFFF);
}

#[test]
fn new_memory_reads_zero_and_reads_follow_writes() {
    let mut memory = Box::new(Memory::new());
    assert!(memory.bytes.iter().all(|byte| *byte == 0));
    assert_eq!(read_memory(&memory, 0), 0);
    assert_eq!(read_memory(&memory, 0xFFFFF), 0);
    memory.bytes[0] = 1;
    memory.bytes[0x10025] = 0x89;
    memory.bytes[SIZE - 1] = 0xFF;
    assert_eq!(read_memory(&memory, 0), 1);
    assert_eq!(read_memory(&memory, 0x10025), 0x89);
    assert_eq!(read_memory(&memory, 0xFFFFF), 0xFF);
    assert_eq!(read_memory(&memory, 0x10024), 0);
    let address = get_absolute_address_of(
        SegmentAccess { segment_base: 0x1000, segment_offset: 0x20 },
        5,
    );
    assert_eq!(read_memory(&memory, address), 0x89);
}
