//! The flash driver of the ROM API and its configuration block.
use vstd::prelude::*;

verus! {

/// The ROM's flash driver, held as the address of its function table.
#[derive(Clone, Copy, Debug, PartialEq, Eq, Structural)]
pub struct FlashDriver {
    pub table: u32,
}

/// Whether single-word reads check ECC.
#[derive(Clone, Copy, Debug, PartialEq, Eq, Structural)]
pub enum FlashReadEccOption {
    On,
    Off,
}

/// Read margin of single-word reads.
#[derive(Clone, Copy, Debug, PartialEq, Eq, Structural)]
pub enum FlashReadMarginOption {
    Normal,
    VsProgram,
    VsErase,
    IllegalBitCombination,
}

/// Whether single-word reads go through DMACC.
#[derive(Clone, Copy, Debug, PartialEq, Eq, Structural)]
pub enum FlashReadDmaccOption {
    Disabled,
    Enabled,
}

/// Ramp control division factor of program and erase operations.
#[derive(Clone, Copy, Debug, PartialEq, Eq, Structural)]
pub enum FlashRampControlOption {
    Reserved,
    DivisionFactor256,
    DivisionFactor128,
    DivisionFactor64,
}

/// Parameters of single-word reads.
#[derive(Clone, Copy, Debug, PartialEq, Eq, Structural)]
pub struct FlashReadSingleWordConfig {
    pub ecc: FlashReadEccOption,
    pub margin: FlashReadMarginOption,
    pub dmacc: FlashReadDmaccOption,
}

impl FlashReadSingleWordConfig {
    pub fn new(
        ecc: FlashReadEccOption,
        margin: FlashReadMarginOption,
        dmacc: FlashReadDmaccOption,
    ) -> (ret: Self)
        ensures
            ret.ecc == ecc,
            ret.margin == margin,
            ret.dmacc == dmacc,
    {
        FlashReadSingleWordConfig { ecc, margin, dmacc }
    }
}

/// Parameters of the write mode.
#[derive(Clone, Copy, Debug, PartialEq, Eq, Structural)]
pub struct FlashSetWriteModeConfig {
    pub program_ramp_control: FlashRampControlOption,
    pub erase_ramp_control: FlashRampControlOption,
}

impl FlashSetWriteModeConfig {
    pub fn new(
        program_ramp_control: FlashRampControlOption,
        erase_ramp_control: FlashRampControlOption,
    ) -> (ret: Self)
        ensures
            ret.program_ramp_control == program_ramp_control,
            ret.erase_ramp_control == erase_ramp_control,
    {
        FlashSetWriteModeConfig { program_ramp_control, erase_ramp_control }
    }
}

/// Parameters of the read mode.
#[derive(Clone, Copy, Debug, PartialEq, Eq, Structural)]
pub struct FlashSetReadModeConfig {
    pub read_interface_timing_trim: u16,
    pub read_controller_timing_trim: u16,
    pub read_wait_states: u8,
}

impl FlashSetReadModeConfig {
    pub fn new(
        read_interface_timing_trim: u16,
        read_controller_timing_trim: u16,
        read_wait_states: u8,
    ) -> (ret: Self)
        ensures
            ret.read_interface_timing_trim == read_interface_timing_trim,
            ret.read_controller_timing_trim == read_controller_timing_trim,
            ret.read_wait_states == read_wait_states,
    {
        FlashSetReadModeConfig {
            read_interface_timing_trim,
            read_controller_timing_trim,
            read_wait_states,
        }
    }
}

/// Operating modes of the flash.
#[derive(Clone, Copy, Debug, PartialEq, Eq, Structural)]
pub struct FlashModeConfig {
    pub sys_freq_in_mhz: u32,
    pub read_single_word: FlashReadSingleWordConfig,
    pub set_write_mode: FlashSetWriteModeConfig,
    pub set_read_mode: FlashSetReadModeConfig,
}

impl FlashModeConfig {
    pub fn new(
        sys_freq_in_mhz: u32,
        read_single_word: FlashReadSingleWordConfig,
        set_write_mode: FlashSetWriteModeConfig,
        set_read_mode: FlashSetReadModeConfig,
    ) -> (ret: Self)
        ensures
            ret.sys_freq_in_mhz == sys_freq_in_mhz,
            ret.read_single_word == read_single_word,
            ret.set_write_mode == set_write_mode,
            ret.set_read_mode == set_read_mode,
    {
        FlashModeConfig { sys_freq_in_mhz, read_single_word, set_write_mode, set_read_mode }
    }
}

/// Geometry of the flash's IFR (FFR) area.
#[derive(Clone, Copy, Debug, PartialEq, Eq, Structural)]
pub struct FlashFfrConfig {
    pub ffr_block_base: u32,
    pub ffr_total_size: u32,
    pub ffr_page_size: u32,
    pub sector_size: u32,
    pub cfpa_page_version: u32,
    pub cfpa_page_offset: u32,
}

/// The configuration block that the ROM's `flash_init` fills in.
#[derive(Clone, Copy, Debug, PartialEq, Eq, Structural)]
pub struct FlashConfig {
    pub pflash_block_base: u32,
    pub pflash_total_size: u32,
    pub pflash_block_count: u32,
    pub pflash_page_size: u32,
    pub pflash_sector_size: u32,
    pub ffr_config: FlashFfrConfig,
    pub mode_config: FlashModeConfig,
    /// Address of the NBOOT context; 0 for none.
    pub nboot_ctx: u32,
    pub use_ahb_read: bool,
}

} // verus!
