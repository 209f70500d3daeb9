//! Decision core of the Serial Camera Control Bus driver for the image
//! sensor.
//!
//! The bus itself is a two-phase register read/write exchange (write the
//! register address, then write or read the value) carried out by the
//! hardware layer; what the driver decides — whether the identification
//! registers match the expected device, whether a written register reads
//! back as written, and what value commands a reset — is here, verified.

use vstd::prelude::*;

verus! {

/// Device bus address; the bus driver left-shifts it by one on the wire.
pub const OV9655_ADDRESS: u8 = 0x30;

/// Expected manufacturer ID.
pub const OV9655_MANF_ID: u16 = 0x7FA2;

/// Expected product ID.
pub const OV9655_PROD_ID: u16 = 0x9657;

/// Common control register 7; setting its top bit resets all registers.
pub const REG_COM_CNTRL_07: u8 = 0x12;

/// Product ID register, high byte.
pub const REG_PROD_ID_MSB: u8 = 0x0A;

/// Product ID register, low byte.
pub const REG_PROD_ID_LSB: u8 = 0x0B;

/// Manufacturer ID register, high byte.
pub const REG_MANF_ID_MSB: u8 = 0x1C;

/// Manufacturer ID register, low byte.
pub const REG_MANF_ID_LSB: u8 = 0x1D;

/// SCCB errors, over the bus error type `E`.
#[derive(Debug, PartialEq, Eq)]
pub enum SccbError<E> {
    /// Bus write error.
    I2cWrite(E),
    /// Bus read error.
    I2cRead(E),
    /// Manufacturer ID mismatch.
    ReadManfId,
    /// Product ID mismatch.
    ReadProdId,
    /// Register write-readback mismatch: the register and the value that
    /// came back.
    RegMismatch((u8, u8)),
}

/// A sixteen-bit identification word assembled from its two register bytes.
pub open spec fn spec_id_word(msb: u8, lsb: u8) -> u16 {
    ((msb as u16) << 8u16) | (lsb as u16)
}

/// SCCB driver: the device's bus address and the decisions of the
/// configuration protocol.
pub struct SCCB {
    /// Device bus address used in every exchange.
    pub address: u8,
}

impl SCCB {
    /// Creates a new SCCB driver for the image sensor's fixed bus address.
    pub fn new() -> (s: SCCB)
        ensures
            s.address == OV9655_ADDRESS,
    {
        SCCB { address: OV9655_ADDRESS }
    }

    /// Decides the startup identity check from the four identification
    /// register bytes: the device is accepted exactly when both the
    /// manufacturer and the product word match; a manufacturer mismatch is
    /// reported first.
    pub fn check_id_bytes<E>(
        &self,
        manf_msb: u8,
        manf_lsb: u8,
        prod_msb: u8,
        prod_lsb: u8,
    ) -> (r: Result<(), SccbError<E>>)
        ensures
            r is Ok <==> (spec_id_word(manf_msb, manf_lsb) == OV9655_MANF_ID && spec_id_word(
                prod_msb,
                prod_lsb,
            ) == OV9655_PROD_ID),
            spec_id_word(manf_msb, manf_lsb) != OV9655_MANF_ID ==> r == Err::<(), SccbError<E>>(
                SccbError::ReadManfId,
            ),
            spec_id_word(manf_msb, manf_lsb) == OV9655_MANF_ID && spec_id_word(prod_msb, prod_lsb)
                != OV9655_PROD_ID ==> r == Err::<(), SccbError<E>>(SccbError::ReadProdId),
    {
        let manf_id: u16 = ((manf_msb as u16) << 8u16) | (manf_lsb as u16);
        if manf_id != OV9655_MANF_ID {
            return Err(SccbError::ReadManfId);
        }
        let product_id: u16 = ((prod_msb as u16) << 8u16) | (prod_lsb as u16);
        if product_id != OV9655_PROD_ID {
            return Err(SccbError::ReadProdId);
        }
        Ok(())
    }

    /// Decides the write-then-readback verification of one configuration
    /// register: the value read back must be the value written, else the
    /// register and the offending readback are reported.
    pub fn verify_readback<E>(&self, reg: u8, val: u8, readback: u8) -> (r: Result<
        (),
        SccbError<E>,
    >)
        ensures
            r is Ok <==> readback == val,
            readback != val ==> r == Err::<(), SccbError<E>>(
                SccbError::RegMismatch((reg, readback)),
            ),
    {
        if readback != val {
            Err(SccbError::RegMismatch((reg, readback)))
        } else {
            Ok(())
        }
    }

    /// The register image that commands a device reset: the current value
    /// of common control register 7 with its top bit set.
    pub fn reset_value(&self, current: u8) -> (v: u8)
        ensures
            v == current | 0x80u8,
    {
        current | 0x80
    }
}

} // verus!
