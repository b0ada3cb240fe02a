use zkvm16::bus::BusDevice;
use zkvm16::error::VMError;
use zkvm16::memory::LinearMemory;

fn new_bus() -> LinearMemory {
    LinearMemory::new(1024)
}

#[test]
fn test_write2_reads_back_correct_value() {
    let mut bus = new_bus();
    let addr = 10;
    let value: u16 = 0x3005;
    bus.write2(addr, value).unwrap();
    assert_eq!(bus.read2(addr), Some(value));
}

#[test]
fn test_read_write_single_byte() {
    let mut bus = new_bus();
    let addr = 5;
    assert_eq!(bus.read(addr), Some(0));
    bus.write(addr, 42).unwrap();
    assert_eq!(bus.read(addr), Some(42));
}

#[test]
fn test_read_write_out_of_bounds() {
    let mut bus = new_bus();
    let addr = 2000; // out of bounds for 1024
    assert_eq!(bus.read(addr), None);
    assert!(bus.write(addr, 1).is_err());
}

#[test]
fn test_read2_write2_pair() {
    let mut bus = new_bus();
    let addr = 100;
    let value: u16 = 0xABCD;
    bus.write2(addr, value).unwrap();
    assert_eq!(bus.read2(addr), Some(value));
}

#[test]
fn test_read2_out_of_bounds() {
    let bus = new_bus();
    let addr = 1023; // last valid index, but read2 needs addr+1
    assert_eq!(bus.read2(addr), None);
}

#[test]
fn test_write2_out_of_bounds() {
    let mut bus = new_bus();
    let addr = 1023; // last valid index, but write2 needs addr+1
    let value: u16 = 0x1234;
    assert!(bus.write2(addr, value).is_err());
}

#[test]
fn test_copy_success() {
    let mut bus = new_bus();
    let from_addr = 20;
    let to_addr = 30;
    let value: u16 = 0xBEEF;
    bus.write2(from_addr, value).unwrap();
    bus.copy(from_addr, to_addr).unwrap();
    assert_eq!(bus.read2(to_addr), Some(value));
}

#[test]
fn test_copy_fail() {
    let mut bus = new_bus();
    let from_addr = 1023; // out of bounds for read2
    let to_addr = 10;
    assert!(bus.copy(from_addr, to_addr).is_err());
}

#[test]
fn test_get_specific_memory_location() {
    let mut bus = new_bus();
    bus.write(50, 0x34).unwrap();
    bus.write(51, 0x12).unwrap();
    let val = bus.get_specific_memory_location(50);
    assert_eq!(val, 0x1234);
}

#[test]
fn test_get_subset_of_memory() {
    let mut bus = new_bus();
    for i in 0..10 {
        bus.write(i, i as u8).unwrap();
    }
    let subset = bus.get_subset_of_memory(0, 10);
    assert_eq!(subset, (0u8..10u8).collect::<Vec<u8>>());
}

#[test]
fn test_write2_partial_write_commits_low_byte() {
    // The low byte is written first; when the high byte cannot be
    // written, the low byte stays committed and the error is reported.
    let mut bus = new_bus();
    let result = bus.write2(1023, 0x1234);
    assert_eq!(result, Err(VMError::OutOfBounds));
    assert_eq!(bus.read(1023), Some(0x34));
}

#[test]
fn test_copy_error_kind_is_copy_fail() {
    let mut bus = new_bus();
    assert_eq!(bus.copy(1023, 10), Err(VMError::CopyInstructionFail));
}

#[test]
fn test_write_out_of_bounds_error_kind() {
    let mut bus = new_bus();
    assert_eq!(bus.write(1024, 7), Err(VMError::OutOfBounds));
    assert_eq!(bus.read(1024), None);
}

#[test]
fn test_memory_range_and_fresh_zeroes() {
    let mem = LinearMemory::new(77);
    assert_eq!(mem.memory_range(), 77);
    assert_eq!(mem.as_bytes().len(), 77);
    assert_eq!(mem.read(76), Some(0));
    assert_eq!(mem.read(77), None);
}
