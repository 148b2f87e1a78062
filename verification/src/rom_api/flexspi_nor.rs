//! The FlexSPI NOR flash driver of the ROM API.
use vstd::prelude::*;

verus! {

/// The ROM's FlexSPI NOR flash driver, held as the address of its function table.
#[derive(Clone, Copy, Debug, PartialEq, Eq, Structural)]
pub struct FlexspiNorFlashDriver {
    pub table: u32,
}

} // verus!
