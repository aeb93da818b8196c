use near_vm_runner::memory::{
    check_limits, fits, read_memory, read_memory_u8, try_read_memory, try_read_memory_u8,
    try_write_memory, write_memory, MemoryError, WasmtimeMemory, MAX_PAGES, PAGE_SIZE,
};
use wasmtime::{Config, Engine, Store};

fn small_store() -> Store {
    let mut config = Config::new();
    config.static_memory_maximum_size(0);
    config.dynamic_memory_guard_size(0);
    Store::new(&Engine::new(&config).unwrap())
}

#[test]
fn fits_at_the_boundary() {
    let size: u64 = 65536;
    assert!(fits(size, 0, size - 1));
    assert!(fits(size, 0, size));
    assert!(!fits(size, 0, size + 1));
    assert!(fits(size, size - 1, 1));
    assert!(fits(size, size, 0));
    assert!(!fits(size, size, 1));
    assert!(!fits(size, size + 1, 0));
    assert!(fits(0, 0, 0));
    assert!(!fits(0, 0, 1));
}

#[test]
fn fits_rejects_overflowing_ranges() {
    assert!(!fits(u64::MAX, u64::MAX, 1));
    assert!(!fits(u64::MAX, 1, u64::MAX));
    assert!(!fits(65536, u64::MAX, u64::MAX));
    assert!(fits(u64::MAX, u64::MAX, 0));
    assert!(fits(u64::MAX, u64::MAX - 1, 1));
}

#[test]
fn limits_are_checked() {
    assert_eq!(check_limits(1, 1), Ok(()));
    assert_eq!(check_limits(0, 0), Ok(()));
    assert_eq!(check_limits(1024, 2048), Ok(()));
    assert_eq!(check_limits(MAX_PAGES, MAX_PAGES), Ok(()));
    assert_eq!(
        check_limits(2, 1),
        Err(MemoryError::InvalidLimits { initial_pages: 2, max_pages: 1 })
    );
    assert_eq!(
        check_limits(1, MAX_PAGES + 1),
        Err(MemoryError::InvalidLimits { initial_pages: 1, max_pages: MAX_PAGES + 1 })
    );
}

#[test]
fn reads_the_requested_range() {
    let data: Vec<u8> = (0u8..16).collect();
    let mut buffer = [0u8; 4];
    read_memory(&data, 3, &mut buffer);
    assert_eq!(buffer, [3, 4, 5, 6]);
    let mut whole = [0u8; 16];
    read_memory(&data, 0, &mut whole);
    assert_eq!(whole.to_vec(), data);
    let mut none: [u8; 0] = [];
    read_memory(&data, 16, &mut none);
    assert_eq!(read_memory_u8(&data, 0), 0);
    assert_eq!(read_memory_u8(&data, 15), 15);
}

#[test]
fn writes_only_the_requested_range() {
    let mut data = vec![0u8; 8];
    write_memory(&mut data, 2, &[9, 8, 7]);
    assert_eq!(data, vec![0, 0, 9, 8, 7, 0, 0, 0]);
    write_memory(&mut data, 7, &[1]);
    assert_eq!(data, vec![0, 0, 9, 8, 7, 0, 0, 1]);
    write_memory(&mut data, 8, &[]);
    assert_eq!(data, vec![0, 0, 9, 8, 7, 0, 0, 1]);
    let mut back = [0u8; 3];
    read_memory(&data, 2, &mut back);
    assert_eq!(back, [9, 8, 7]);
}

#[test]
fn checked_access_reports_out_of_bounds() {
    let mut data = vec![1u8, 2, 3, 4];
    let mut buffer = [7u8; 3];
    assert_eq!(
        try_read_memory(&data, 2, &mut buffer),
        Err(MemoryError::OutOfBounds { offset: 2, len: 3, size: 4 })
    );
    assert_eq!(buffer, [7, 7, 7]);
    assert_eq!(try_read_memory(&data, 1, &mut buffer), Ok(()));
    assert_eq!(buffer, [2, 3, 4]);
    assert_eq!(
        try_read_memory(&data, u64::MAX, &mut buffer),
        Err(MemoryError::OutOfBounds { offset: u64::MAX, len: 3, size: 4 })
    );
    assert_eq!(try_read_memory_u8(&data, 3), Ok(4));
    assert_eq!(
        try_read_memory_u8(&data, 4),
        Err(MemoryError::OutOfBounds { offset: 4, len: 1, size: 4 })
    );
    assert_eq!(
        try_write_memory(&mut data, 3, &[5, 6]),
        Err(MemoryError::OutOfBounds { offset: 3, len: 2, size: 4 })
    );
    assert_eq!(data, vec![1, 2, 3, 4]);
    assert_eq!(try_write_memory(&mut data, 2, &[5, 6]), Ok(()));
    assert_eq!(data, vec![1, 2, 5, 6]);
}

#[test]
fn engine_memory_has_the_initial_size() {
    let store = small_store();
    let memory = WasmtimeMemory::new(&store, 2, 4).ok().unwrap();
    let size = memory.size_bytes();
    assert_eq!(size, 2 * PAGE_SIZE);
    assert!(memory.fits_memory(0, size));
    assert!(memory.fits_memory(size - 1, 1));
    assert!(memory.fits_memory(size, 0));
    assert!(!memory.fits_memory(size, 1));
    assert!(!memory.fits_memory(0, size + 1));
    assert!(!memory.fits_memory(u64::MAX, 1));
    assert!(memory.fits_memory(0, 0));
    let empty = WasmtimeMemory::new(&store, 0, 1).ok().unwrap();
    assert_eq!(empty.size_bytes(), 0);
    assert!(empty.fits_memory(0, 0));
    assert!(!empty.fits_memory(0, 1));
    assert_eq!(empty.clone().ty().limits().min(), 0);
    assert_eq!(empty.clone().ty().limits().max(), Some(1));
}

#[test]
fn engine_memory_rejects_invalid_limits() {
    let store = small_store();
    assert!(matches!(
        WasmtimeMemory::new(&store, 3, 2),
        Err(MemoryError::InvalidLimits { initial_pages: 3, max_pages: 2 })
    ));
    assert!(matches!(
        WasmtimeMemory::new(&store, 1, 65537),
        Err(MemoryError::InvalidLimits { initial_pages: 1, max_pages: 65537 })
    ));
    assert!(WasmtimeMemory::new(&store, 0, 0).is_ok());
}

#[test]
fn cloned_handle_shares_the_memory() {
    let store = small_store();
    let memory = WasmtimeMemory::new(&store, 1, 3).ok().unwrap();
    let handle = memory.clone();
    assert_eq!(handle.ty().limits().min(), 1);
    assert_eq!(handle.ty().limits().max(), Some(3));
    assert_eq!(handle.data_size() as u64, PAGE_SIZE);
    assert_eq!(handle.grow(1).ok(), Some(1));
    assert_eq!(memory.size_bytes(), 2 * PAGE_SIZE);
    assert!(memory.fits_memory(PAGE_SIZE, PAGE_SIZE));
    assert!(!memory.fits_memory(PAGE_SIZE, PAGE_SIZE + 1));
}

#[test]
fn engine_memory_reads_back_what_was_written() {
    let store = small_store();
    let mut memory = WasmtimeMemory::new(&store, 1, 1).ok().unwrap();
    let mut buffer = [0xffu8; 4];
    assert_eq!(memory.read_memory(100, &mut buffer), Ok(()));
    assert_eq!(buffer, [0, 0, 0, 0]);
    assert_eq!(memory.write_memory(100, &[1, 2, 3, 4]), Ok(()));
    assert_eq!(memory.write_memory(PAGE_SIZE - 2, &[8, 9]), Ok(()));
    assert_eq!(memory.read_memory(101, &mut buffer), Ok(()));
    assert_eq!(buffer, [2, 3, 4, 0]);
    assert_eq!(memory.read_memory_u8(100), Ok(1));
    assert_eq!(memory.read_memory_u8(PAGE_SIZE - 1), Ok(9));
    assert_eq!(memory.read_memory_u8(99), Ok(0));
}

#[test]
fn engine_memory_reports_out_of_bounds() {
    let store = small_store();
    let mut memory = WasmtimeMemory::new(&store, 1, 1).ok().unwrap();
    let mut buffer = [7u8; 4];
    assert_eq!(
        memory.read_memory(PAGE_SIZE - 3, &mut buffer),
        Err(MemoryError::OutOfBounds { offset: PAGE_SIZE - 3, len: 4, size: PAGE_SIZE })
    );
    assert_eq!(buffer, [7, 7, 7, 7]);
    assert_eq!(
        memory.read_memory(u64::MAX, &mut buffer),
        Err(MemoryError::OutOfBounds { offset: u64::MAX, len: 4, size: PAGE_SIZE })
    );
    assert_eq!(
        memory.write_memory(PAGE_SIZE, &[1]),
        Err(MemoryError::OutOfBounds { offset: PAGE_SIZE, len: 1, size: PAGE_SIZE })
    );
    assert_eq!(
        memory.read_memory_u8(PAGE_SIZE),
        Err(MemoryError::OutOfBounds { offset: PAGE_SIZE, len: 1, size: PAGE_SIZE })
    );
    assert_eq!(memory.write_memory(PAGE_SIZE, &[]), Ok(()));
    assert_eq!(memory.read_memory_u8(PAGE_SIZE - 1), Ok(0));
}

#[test]
fn ranges_inside_the_minimum_are_always_read_and_written() {
    let store = small_store();
    let mut memory = WasmtimeMemory::new(&store, 2, 3).ok().unwrap();
    let mut buffer = vec![1u8; 2 * PAGE_SIZE as usize];
    assert_eq!(memory.read_memory(0, &mut buffer), Ok(()));
    assert!(buffer.iter().all(|b| *b == 0));
    assert_eq!(memory.write_memory(2 * PAGE_SIZE - 1, &[5]), Ok(()));
    assert_eq!(memory.read_memory_u8(2 * PAGE_SIZE - 1), Ok(5));
    assert!(memory.fits_memory(0, 2 * PAGE_SIZE));
    assert!(!memory.fits_memory(0, 3 * PAGE_SIZE + 1));
    assert_eq!(
        memory.read_memory_u8(3 * PAGE_SIZE),
        Err(MemoryError::OutOfBounds { offset: 3 * PAGE_SIZE, len: 1, size: 2 * PAGE_SIZE })
    );
    let size = memory.size_bytes();
    assert!(2 * PAGE_SIZE <= size && size <= 3 * PAGE_SIZE);
}
