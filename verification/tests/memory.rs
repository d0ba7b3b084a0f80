use fuzzyblue::memory::{
    allocate, find_memory_type, MemoryAllocateInfo, MemoryProperties, MemoryRequirements,
    MemoryType,
};

fn device(flags: &[u32]) -> MemoryProperties {
    let mut memory_types = [MemoryType { property_flags: 0, heap_index: 0 }; 32];
    for (i, f) in flags.iter().enumerate() {
        memory_types[i].property_flags = *f;
    }
    MemoryProperties { memory_type_count: flags.len() as u32, memory_types }
}

#[test]
fn finds_the_first_type_that_suits() {
    let props = device(&[0b110, 0b001, 0b011, 0b001]);
    assert_eq!(find_memory_type(&props, 0b1111, 0b001), Some(1));
    assert_eq!(find_memory_type(&props, 0b1101, 0b001), Some(2));
    assert_eq!(find_memory_type(&props, 0b1000, 0b001), Some(3));
    assert_eq!(find_memory_type(&props, 0b1111, 0b010), Some(0));
    assert_eq!(find_memory_type(&props, 0b1111, 0b011), Some(2));
}

#[test]
fn finds_nothing_where_nothing_suits() {
    let props = device(&[0b110, 0b001]);
    assert_eq!(find_memory_type(&props, 0b11, 0b1000), None);
    assert_eq!(find_memory_type(&props, 0b01, 0b001), None);
    assert_eq!(find_memory_type(&props, 0, 0), None);
    assert_eq!(find_memory_type(&device(&[]), 0xffff_ffff, 0), None);
}

#[test]
fn looks_at_reported_types_only() {
    let mut props = device(&[0b110, 0b110]);
    props.memory_types[2].property_flags = 0b001;
    assert_eq!(find_memory_type(&props, 0xffff_ffff, 0b001), None);
    props.memory_type_count = 3;
    assert_eq!(find_memory_type(&props, 0xffff_ffff, 0b001), Some(2));
}

#[test]
fn reaches_the_last_type() {
    let mut flags = [0u32; 32];
    flags[31] = 1;
    let props = device(&flags);
    assert!(props.is_wf());
    assert_eq!(find_memory_type(&props, 0xffff_ffff, 1), Some(31));
    assert_eq!(find_memory_type(&props, 0x8000_0000, 1), Some(31));
    assert_eq!(find_memory_type(&props, 0x7fff_ffff, 1), None);
}

#[test]
fn empty_flags_suit_any_allowed_type() {
    let props = device(&[0b110, 0b001]);
    assert_eq!(find_memory_type(&props, 0b10, 0), Some(1));
}

#[test]
fn more_types_than_the_api_allows_are_not_well_formed() {
    let mut props = device(&[1]);
    props.memory_type_count = 33;
    assert!(!props.is_wf());
    props.memory_type_count = 32;
    assert!(props.is_wf());
}

#[test]
fn allocation_is_of_the_size_asked_for() {
    let props = device(&[0b110, 0b001]);
    let reqs = MemoryRequirements { size: 4096, alignment: 256, memory_type_bits: 0b11 };
    assert_eq!(
        allocate(&props, reqs, 0b001),
        Some(MemoryAllocateInfo { allocation_size: 4096, memory_type_index: 1 })
    );
    assert_eq!(allocate(&props, reqs, 0b1000), None);
}
