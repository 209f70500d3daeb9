use dashcam::nvm::{Mem, NonVolatileMemory, RamDevice};

/// Round trip: a byte pattern written to the store (after the constructor's
/// erase) and read back arrives unchanged.
#[test]
fn store_round_trip_reproduces_pattern() {
    let mut dev = RamDevice::new(0x10000, 0x1000);
    let pattern: Vec<u8> = (0..37u32).map(|i| (i * 7 + 3) as u8).collect();
    dev.fill_ram(0x100, &pattern);

    let mut nvm = NonVolatileMemory::new(dev, 0).unwrap();
    nvm.write(0x100, pattern.len()).unwrap();
    nvm.read(0x200, pattern.len()).unwrap();

    for i in 0..pattern.len() {
        assert_eq!(nvm.device.ram_byte(0x200 + i as u32), pattern[i]);
    }
}

/// Reading an erased-but-unwritten region yields all-0xFF bytes.
#[test]
fn unwritten_region_reads_erased() {
    let mut dev = RamDevice::new(0x10000, 0x1000);
    let pattern = vec![0x5Au8; 16];
    dev.fill_ram(0x000, &pattern);

    let mut nvm = NonVolatileMemory::new(dev, 0).unwrap();
    nvm.write(0x000, 16).unwrap();
    // Skip past the written bytes and read what was never written.
    nvm.read(0x100, 16).unwrap();
    nvm.read(0x200, 32).unwrap();
    for i in 0..32u32 {
        assert_eq!(nvm.device.ram_byte(0x200 + i), 0xFF);
    }
}

/// The write cursor starts at the given offset and advances by exactly the
/// written size, write after write.
#[test]
fn write_cursor_advances_monotonically() {
    let mut dev = RamDevice::new(0x10000, 0x1000);
    dev.fill_ram(0, &vec![1u8; 0x300]);
    let mut nvm = NonVolatileMemory::new(dev, 0).unwrap();
    assert_eq!(nvm.get_write_ptr(), 0);
    nvm.write(0, 0x100).unwrap();
    assert_eq!(nvm.get_write_ptr(), 0x100);
    nvm.write(0x100, 0x80).unwrap();
    assert_eq!(nvm.get_write_ptr(), 0x180);
}

/// Appended writes land one after the other and read back in order.
#[test]
fn appended_writes_read_back_in_order() {
    let mut dev = RamDevice::new(0x10000, 0x1000);
    dev.fill_ram(0x000, &vec![0x11u8; 8]);
    dev.fill_ram(0x008, &vec![0x22u8; 8]);

    let mut nvm = NonVolatileMemory::new(dev, 0).unwrap();
    nvm.write(0x000, 8).unwrap();
    nvm.write(0x008, 8).unwrap();

    nvm.read(0x100, 16).unwrap();
    for i in 0..8u32 {
        assert_eq!(nvm.device.ram_byte(0x100 + i), 0x11);
        assert_eq!(nvm.device.ram_byte(0x108 + i), 0x22);
    }
}

/// The constructor erases the whole device: even flash that held data
/// before construction reads back erased.
#[test]
fn constructor_erases_device() {
    let mut dev = RamDevice::new(0x1000, 0x100);
    // Put something in flash through a write cycle, then re-construct.
    dev.fill_ram(0, &vec![0xABu8; 16]);
    let mut nvm = NonVolatileMemory::new(dev, 0).unwrap();
    nvm.write(0, 16).unwrap();

    // Re-initialization erases everything previously written.
    let dev = nvm.device;
    let mut nvm = NonVolatileMemory::new(dev, 0).unwrap();
    nvm.read(0x20, 16).unwrap();
    for i in 0..16u32 {
        assert_eq!(nvm.device.ram_byte(0x20 + i), 0xFF);
    }
}

/// The read cursor is independent of the write cursor.
#[test]
fn read_cursor_is_independent() {
    let mut dev = RamDevice::new(0x1000, 0x100);
    dev.fill_ram(0, &[9, 8, 7, 6]);
    let mut nvm = NonVolatileMemory::new(dev, 0).unwrap();
    nvm.write(0, 4).unwrap();
    assert_eq!(nvm.get_write_ptr(), 4);
    nvm.read(0x10, 2).unwrap();
    assert_eq!(nvm.get_write_ptr(), 4);
    assert_eq!(nvm.device.ram_byte(0x10), 9);
    assert_eq!(nvm.device.ram_byte(0x11), 8);
}

/// Device loopback at an odd, non-page-aligned address with a length of
/// more than one subsector: after an erase the whole span reads back
/// erased; after a write it reads back exactly what was written.
#[test]
fn device_loopback_at_odd_address() {
    const ADDR: u32 = 0x7003;
    const LEN: usize = 4121;

    let mut dev = RamDevice::new(0x10000, 0x4000);
    let pattern: Vec<u8> = (0..LEN).map(|i| i as u8).collect();
    dev.fill_ram(0, &pattern);

    dev.erase().unwrap();
    dev.read(0x2000, ADDR, LEN).unwrap();
    for i in 0..LEN as u32 {
        assert_eq!(dev.ram_byte(0x2000 + i), 0xFF);
    }

    dev.write(ADDR, 0, LEN).unwrap();
    dev.read(0x2000, ADDR, LEN).unwrap();
    for i in 0..LEN {
        assert_eq!(dev.ram_byte(0x2000 + i as u32), pattern[i]);
    }
}
