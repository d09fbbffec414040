use vm_memory::{RegionMemoryBuffer, StackMemoryBuffer};

fn address_of<T>(place: &T) -> usize {
    std::ptr::from_ref(place).addr()
}

#[test]
fn bindgen_test_layout_RegionMemoryBuffer() {
    let buffer = RegionMemoryBuffer { size: 0, base: 0, offset: 0 };
    let start = address_of(&buffer);
    assert_eq!(::std::mem::size_of::<RegionMemoryBuffer>(), 24usize);
    assert_eq!(::std::mem::align_of::<RegionMemoryBuffer>(), 8usize);
    assert_eq!(address_of(&buffer.size) - start, 0usize);
    assert_eq!(address_of(&buffer.base) - start, 8usize);
    assert_eq!(address_of(&buffer.offset) - start, 16usize);
}

#[test]
fn bindgen_test_layout_StackMemoryBuffer() {
    let buffer = StackMemoryBuffer { size: 0, base: 0, offset: 0 };
    let start = address_of(&buffer);
    assert_eq!(::std::mem::size_of::<StackMemoryBuffer>(), 24usize);
    assert_eq!(::std::mem::align_of::<StackMemoryBuffer>(), 8usize);
    assert_eq!(address_of(&buffer.size) - start, 0usize);
    assert_eq!(address_of(&buffer.base) - start, 8usize);
    assert_eq!(address_of(&buffer.offset) - start, 16usize);
}
