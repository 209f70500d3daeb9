use dashcam::sccb::{SccbError, OV9655_ADDRESS, REG_COM_CNTRL_07, SCCB};

/// The expected identification words are accepted.
#[test]
fn sccb_check_id_accepts_expected_device() {
    let sccb = SCCB::new();
    let r: Result<(), SccbError<()>> = sccb.check_id_bytes(0x7F, 0xA2, 0x96, 0x57);
    assert_eq!(r, Ok(()));
}

/// A manufacturer ID mismatch is reported, before the product ID is even
/// considered.
#[test]
fn sccb_check_id_rejects_wrong_manufacturer() {
    let sccb = SCCB::new();
    let r: Result<(), SccbError<()>> = sccb.check_id_bytes(0x7F, 0xA3, 0x96, 0x57);
    assert_eq!(r, Err(SccbError::ReadManfId));
    let r: Result<(), SccbError<()>> = sccb.check_id_bytes(0x00, 0x00, 0x00, 0x00);
    assert_eq!(r, Err(SccbError::ReadManfId));
}

/// A product ID mismatch on a matching manufacturer is reported as such.
#[test]
fn sccb_check_id_rejects_wrong_product() {
    let sccb = SCCB::new();
    let r: Result<(), SccbError<()>> = sccb.check_id_bytes(0x7F, 0xA2, 0x96, 0x55);
    assert_eq!(r, Err(SccbError::ReadProdId));
}

/// A register that reads back as written passes verification; any other
/// readback reports the register and the offending value.
#[test]
fn sccb_readback_verification() {
    let sccb = SCCB::new();
    let ok: Result<(), SccbError<u8>> = sccb.verify_readback(0x12, 0x63, 0x63);
    assert_eq!(ok, Ok(()));
    let bad: Result<(), SccbError<u8>> = sccb.verify_readback(0x12, 0x63, 0x62);
    assert_eq!(bad, Err(SccbError::RegMismatch((0x12, 0x62))));
}

/// The reset command sets the top bit of common control register 7 and
/// keeps the rest of the register image.
#[test]
fn sccb_reset_value_sets_top_bit() {
    let sccb = SCCB::new();
    assert_eq!(sccb.reset_value(0x00), 0x80);
    assert_eq!(sccb.reset_value(0x63), 0xE3);
    assert_eq!(sccb.reset_value(0x80), 0x80);
    assert_eq!(REG_COM_CNTRL_07, 0x12);
}

/// The driver always addresses the sensor's fixed bus address.
#[test]
fn sccb_uses_fixed_bus_address() {
    let sccb = SCCB::new();
    assert_eq!(sccb.address, OV9655_ADDRESS);
    assert_eq!(sccb.address, 0x30);
}
