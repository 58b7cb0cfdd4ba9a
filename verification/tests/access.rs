use linear_memory::{MemType, Memory, MemoryError, Ownership, PAGE_SIZE};

fn memory(min: u32, max: u32) -> Memory {
    let ty = MemType::create(min, max).unwrap();
    Memory::create(&ty).unwrap()
}

#[test]
fn a_page_has_65536_bytes() {
    assert_eq!(PAGE_SIZE, 65536);
    let mem = memory(3, 3);
    assert_eq!(mem.get_data(0, 196608).unwrap().len(), 196608);
    assert_eq!(mem.get_data(0, 196609), Err(MemoryError::OutOfBounds));
}

#[test]
fn create_starts_at_the_minimum() {
    for (min, max) in [(0u32, 0u32), (0, 4), (1, 1), (2, 5), (7, u32::MAX)] {
        let mem = memory(min, max);
        assert_eq!(mem.size(), min);
        assert_eq!(mem.ownership(), Ownership::Owned);
        let ty = mem.ty().unwrap();
        assert_eq!(ty.limit(), (min, max));
        assert_eq!(ty.ownership(), Ownership::BorrowedFromHost);
    }
}

#[test]
fn fresh_memory_reads_zero() {
    let mem = memory(2, 3);
    assert_eq!(mem.get_data(0, 131072).unwrap(), vec![0u8; 131072]);
    assert_eq!(mem.get_data(0, 1).unwrap(), vec![0u8]);
    assert_eq!(mem.get_data(65530, 12).unwrap(), vec![0u8; 12]);
    assert_eq!(mem.get_data(131071, 1).unwrap(), vec![0u8]);
    assert_eq!(mem.get_data(0, 0).unwrap(), Vec::<u8>::new());
}

#[test]
fn write_then_read_returns_the_data() {
    let mut mem = memory(2, 2);
    let data: Vec<u8> = (1..=100u8).collect();
    for offset in [0u32, 1, 4096, 65535 - 50, 65536, 131072 - 100] {
        assert_eq!(mem.set_data(data.clone(), offset), Ok(()));
        assert_eq!(mem.get_data(offset, 100).unwrap(), data);
    }
    assert_eq!(mem.set_data(vec![9], 131071), Ok(()));
    assert_eq!(mem.get_data(131071, 1).unwrap(), vec![9]);
}

#[test]
fn write_leaves_the_other_bytes() {
    let mut mem = memory(1, 1);
    mem.set_data(vec![5; 8], 100).unwrap();
    mem.set_data(vec![1, 2, 3], 102).unwrap();
    assert_eq!(
        mem.get_data(98, 12).unwrap(),
        vec![0, 0, 5, 5, 1, 2, 3, 5, 5, 5, 0, 0]
    );
    let mut expected = vec![0u8; 65536];
    expected[100..108].copy_from_slice(&[5, 5, 1, 2, 3, 5, 5, 5]);
    assert_eq!(mem.get_data(0, 65536).unwrap(), expected);
}

#[test]
fn empty_write_changes_nothing() {
    let mut mem = memory(1, 1);
    mem.set_data(vec![7; 4], 0).unwrap();
    assert_eq!(mem.set_data(Vec::new(), 2), Ok(()));
    assert_eq!(mem.set_data(Vec::new(), 65536), Ok(()));
    assert_eq!(mem.set_data(Vec::new(), 65537), Err(MemoryError::OutOfBounds));
    assert_eq!(mem.get_data(0, 6).unwrap(), vec![7, 7, 7, 7, 0, 0]);
}

#[test]
fn access_past_the_end_is_out_of_bounds() {
    let mut mem = memory(1, 2);
    assert_eq!(mem.get_data(65536, 0), Ok(Vec::new()));
    assert_eq!(mem.get_data(65536, 1), Err(MemoryError::OutOfBounds));
    assert_eq!(mem.get_data(65535, 2), Err(MemoryError::OutOfBounds));
    assert_eq!(mem.get_data(0, 65537), Err(MemoryError::OutOfBounds));
    assert_eq!(mem.get_data(65537, 0), Err(MemoryError::OutOfBounds));
    assert_eq!(mem.data_pointer(65535, 2).unwrap_err(), MemoryError::OutOfBounds);
    assert_eq!(mem.data_pointer(65537, 0).unwrap_err(), MemoryError::OutOfBounds);
    assert_eq!(mem.data_pointer_mut(65535, 2).unwrap_err(), MemoryError::OutOfBounds);
    assert_eq!(mem.data_pointer_mut(0, 65537).unwrap_err(), MemoryError::OutOfBounds);
    assert_eq!(mem.set_data(vec![1; 2], 65535), Err(MemoryError::OutOfBounds));
    assert_eq!(mem.set_data(vec![1; 65537], 0), Err(MemoryError::OutOfBounds));
}

#[test]
fn the_end_of_a_range_does_not_wrap() {
    let mut mem = memory(1, 1);
    assert_eq!(mem.get_data(u32::MAX, 1), Err(MemoryError::OutOfBounds));
    assert_eq!(mem.get_data(u32::MAX, u32::MAX), Err(MemoryError::OutOfBounds));
    assert_eq!(mem.get_data(1, u32::MAX), Err(MemoryError::OutOfBounds));
    assert_eq!(mem.get_data(u32::MAX - 65535 + 1, 65535), Err(MemoryError::OutOfBounds));
    assert_eq!(mem.data_pointer(u32::MAX, 2).unwrap_err(), MemoryError::OutOfBounds);
    assert_eq!(mem.data_pointer_mut(2, u32::MAX).unwrap_err(), MemoryError::OutOfBounds);
    assert_eq!(mem.set_data(vec![1, 2], u32::MAX), Err(MemoryError::OutOfBounds));
    assert_eq!(mem.get_data(0, 65536).unwrap(), vec![0u8; 65536]);
}

#[test]
fn failed_write_changes_nothing() {
    let mut mem = memory(1, 2);
    mem.set_data(vec![3; 16], 65520).unwrap();
    let before = mem.get_data(0, 65536).unwrap();
    assert_eq!(mem.set_data(vec![1; 10], 65536 - 9), Err(MemoryError::OutOfBounds));
    assert_eq!(mem.set_data(vec![1; 10], 65536), Err(MemoryError::OutOfBounds));
    assert_eq!(mem.get_data(0, 65536).unwrap(), before);
    assert_eq!(mem.size(), 1);
}

#[test]
fn empty_memory_has_no_bytes() {
    let mut mem = memory(0, 1);
    assert_eq!(mem.size(), 0);
    assert_eq!(mem.get_data(0, 0), Ok(Vec::new()));
    assert_eq!(mem.get_data(0, 1), Err(MemoryError::OutOfBounds));
    assert_eq!(mem.set_data(Vec::new(), 0), Ok(()));
    assert_eq!(mem.set_data(vec![1], 0), Err(MemoryError::OutOfBounds));
    assert_eq!(mem.data_pointer(0, 0).unwrap(), &[0u8; 0][..]);
    assert_eq!(mem.data_pointer(0, 1).unwrap_err(), MemoryError::OutOfBounds);
}

#[test]
fn data_pointer_shows_the_range() {
    let mut mem = memory(1, 1);
    mem.set_data(vec![10, 20, 30, 40, 50], 7).unwrap();
    assert_eq!(mem.data_pointer(7, 5).unwrap(), &[10u8, 20, 30, 40, 50][..]);
    assert_eq!(mem.data_pointer(8, 3).unwrap(), &[20u8, 30, 40][..]);
    assert_eq!(mem.data_pointer(5, 4).unwrap(), &[0u8, 0, 10, 20][..]);
    assert_eq!(mem.data_pointer(65536, 0).unwrap().len(), 0);
    assert_eq!(mem.data_pointer(0, 65536).unwrap().len(), 65536);
}

#[test]
fn data_pointer_mut_stores_into_the_range_only() {
    let mut mem = memory(1, 1);
    mem.set_data(vec![10, 20, 30, 40, 50], 7).unwrap();
    {
        let part = mem.data_pointer_mut(8, 3).unwrap();
        assert_eq!(part.len(), 3);
        assert_eq!(part, &mut [20u8, 30, 40][..]);
        part[0] = 21;
        part[2] = 41;
    }
    assert_eq!(mem.get_data(6, 7).unwrap(), vec![0, 10, 21, 30, 41, 50, 0]);
    {
        let part = mem.data_pointer_mut(65534, 2).unwrap();
        part.copy_from_slice(&[8, 9]);
    }
    assert_eq!(mem.get_data(65533, 3).unwrap(), vec![0, 8, 9]);
    assert_eq!(mem.data_pointer_mut(0, 0).unwrap().len(), 0);
    let mut expected = vec![0u8; 65536];
    expected[7..12].copy_from_slice(&[10, 21, 30, 41, 50]);
    expected[65534..].copy_from_slice(&[8, 9]);
    assert_eq!(mem.get_data(0, 65536).unwrap(), expected);
}

#[test]
fn register_marks_the_memory_and_keeps_its_state() {
    let mut mem = memory(1, 2);
    mem.set_data(vec![4, 5, 6], 1).unwrap();
    assert!(!mem.registered());
    mem.register();
    assert!(mem.registered());
    assert_eq!(mem.ownership(), Ownership::BorrowedFromHost);
    assert_eq!(mem.size(), 1);
    assert_eq!(mem.ty().unwrap().limit(), (1, 2));
    assert_eq!(mem.get_data(0, 5).unwrap(), vec![0, 4, 5, 6, 0]);
}

#[test]
fn an_untouched_view_changes_nothing() {
    let mut mem = memory(1, 1);
    mem.set_data(vec![1, 2, 3, 4], 20).unwrap();
    let before = mem.get_data(0, 65536).unwrap();
    {
        let part = mem.data_pointer_mut(18, 8).unwrap();
        assert_eq!(part, &mut [0u8, 0, 1, 2, 3, 4, 0, 0][..]);
    }
    assert_eq!(mem.get_data(0, 65536).unwrap(), before);
    let held = mem.get_data(18, 8).unwrap();
    mem.set_data(held, 18).unwrap();
    assert_eq!(mem.get_data(0, 65536).unwrap(), before);
}
