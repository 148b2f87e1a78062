//! The SPI flash driver of the ROM API.
use vstd::prelude::*;

verus! {

/// The ROM's SPI flash driver, held as the address of its function table.
#[derive(Clone, Copy, Debug, PartialEq, Eq, Structural)]
pub struct SpiFlashDriver {
    pub table: u32,
}

} // verus!
