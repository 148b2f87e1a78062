//! The MCXA ROM API tree: where it lives, what its table holds, the driver
//! tables it points to, and the argument words of its `runBootloader` entry.
pub mod flash;
pub mod flexspi_nor;
pub mod kb;
pub mod nboot;
pub mod spi_flash;
pub mod status;

use vstd::prelude::*;

use self::flash::{
    FlashConfig, FlashDriver, FlashFfrConfig, FlashModeConfig, FlashRampControlOption,
    FlashReadDmaccOption, FlashReadEccOption, FlashReadMarginOption, FlashReadSingleWordConfig,
    FlashSetReadModeConfig, FlashSetWriteModeConfig,
};
use self::flexspi_nor::FlexspiNorFlashDriver;
use self::kb::KBApiDriver;
use self::nboot::NbootDriver;
use self::spi_flash::SpiFlashDriver;

verus! {

/// A ROM API status word.
pub type Status = u32;

/// A protected boolean as the NBOOT ROM API returns it.
pub type NbootBool = u32;

/// A protected NBOOT status word.
pub type NbootStatusProtected = u64;

/// Address of the ROM API tree (MCXA reference manual).
pub const ROM_API_BASE: u32 = 0x1303_D800;

/// Number of 32-bit words in the ROM API tree.
pub const ROM_API_TABLE_WORDS: usize = 8;

/// Fields of the ROM version word, in memory order.
#[derive(Clone, Copy, Debug, PartialEq, Eq, Structural)]
pub struct StandardVersionFields {
    pub bugfix: u8,
    pub minor: u8,
    pub major: u8,
    pub name: u8,
}

/// The ROM version, held as the 32-bit word that the ROM stores; its fields
/// are the word's bytes, least significant first.
#[derive(Clone, Copy, Debug, PartialEq, Eq, Structural)]
pub struct StandardVersion {
    pub version: u32,
}

/// The fields that a version word holds.
pub open spec fn version_fields_of(word: u32) -> StandardVersionFields {
    StandardVersionFields {
        bugfix: (word & 0xff) as u8,
        minor: ((word >> 8u32) & 0xff) as u8,
        major: ((word >> 16u32) & 0xff) as u8,
        name: (word >> 24u32) as u8,
    }
}

/// The version word that holds the given fields.
pub open spec fn version_word_of(fields: StandardVersionFields) -> u32 {
    (fields.bugfix as u32) | ((fields.minor as u32) << 8u32) | ((fields.major as u32) << 16u32) | (
    (fields.name as u32) << 24u32)
}

impl StandardVersion {
    /// The fields of this version.
    pub fn fields(&self) -> (ret: StandardVersionFields)
        ensures
            ret == version_fields_of(self.version),
    {
        let word = self.version;
        StandardVersionFields {
            bugfix: (word & 0xff) as u8,
            minor: ((word >> 8u32) & 0xff) as u8,
            major: ((word >> 16u32) & 0xff) as u8,
            name: (word >> 24u32) as u8,
        }
    }

    /// The version that holds the given fields.
    pub fn from_fields(fields: StandardVersionFields) -> (ret: StandardVersion)
        ensures
            ret.version == version_word_of(fields),
    {
        StandardVersion {
            version: (fields.bugfix as u32) | ((fields.minor as u32) << 8u32) | ((
            fields.major as u32) << 16u32) | ((fields.name as u32) << 24u32),
        }
    }
}

/// Reading the fields of a version built from fields gives those fields back.
pub proof fn lemma_version_fields_roundtrip(fields: StandardVersionFields)
    ensures
        version_fields_of(version_word_of(fields)) == fields,
{
    let b = fields.bugfix;
    let mi = fields.minor;
    let ma = fields.major;
    let n = fields.name;
    let w = version_word_of(fields);
    assert((((b as u32) | ((mi as u32) << 8u32) | ((ma as u32) << 16u32) | ((n as u32) << 24u32))
        & 0xff) as u8 == b) by (bit_vector);
    assert(((((b as u32) | ((mi as u32) << 8u32) | ((ma as u32) << 16u32) | ((n as u32) << 24u32))
        >> 8u32) & 0xff) as u8 == mi) by (bit_vector);
    assert(((((b as u32) | ((mi as u32) << 8u32) | ((ma as u32) << 16u32) | ((n as u32) << 24u32))
        >> 16u32) & 0xff) as u8 == ma) by (bit_vector);
    assert((((b as u32) | ((mi as u32) << 8u32) | ((ma as u32) << 16u32) | ((n as u32) << 24u32))
        >> 24u32) as u8 == n) by (bit_vector);
}

/// Building a version from the fields of a version word gives that word back.
pub proof fn lemma_version_word_roundtrip(word: u32)
    ensures
        version_word_of(version_fields_of(word)) == word,
{
    assert(((((word & 0xff) as u8) as u32) | (((((word >> 8u32) & 0xff) as u8) as u32) << 8u32) | (
    (((((word >> 16u32) & 0xff) as u8) as u32) << 16u32)) | ((((word >> 24u32) as u8) as u32)
        << 24u32)) == word) by (bit_vector);
}

/// The ROM API tree, held as the words that the ROM stores at
/// `ROM_API_BASE`, in this order: the `runBootloader` entry, the flash driver
/// table, the KBoot driver table, the NBOOT driver table, the FlexSPI NOR
/// driver table, the SPI flash driver table, the version word and the address
/// of the copyright string.
#[derive(Clone, Copy)]
pub struct RomApi {
    raw: [u32; 8],
}

impl View for RomApi {
    type V = Seq<u32>;

    closed spec fn view(&self) -> Seq<u32> {
        self.raw@
    }
}

/// The ROM API tree is also known as the bootloader tree.
pub type BootloaderTree = RomApi;

impl RomApi {
    /// The tree whose words are `raw`.
    pub fn from_raw(raw: [u32; 8]) -> (ret: Self)
        ensures
            ret@ == raw@,
            ret@.len() == ROM_API_TABLE_WORDS,
    {
        RomApi { raw }
    }

    /// Address of the `runBootloader` entry point.
    pub fn run_bootloader_entry(&self) -> (ret: u32)
        ensures
            ret == self@[0],
    {
        self.raw[0]
    }

    /// The flash driver whose table the tree points to.
    pub fn flash_api(&self) -> (ret: FlashDriver)
        ensures
            ret.table == self@[1],
    {
        FlashDriver { table: self.raw[1] }
    }

    /// The KBoot driver whose table the tree points to.
    pub fn kb_api(&self) -> (ret: KBApiDriver)
        ensures
            ret.table == self@[2],
    {
        KBApiDriver { table: self.raw[2] }
    }

    /// The NBOOT driver whose table the tree points to.
    pub fn nboot_api(&self) -> (ret: NbootDriver)
        ensures
            ret.table == self@[3],
    {
        NbootDriver { table: self.raw[3] }
    }

    /// The FlexSPI NOR flash driver whose table the tree points to.
    pub fn flex_spi_api(&self) -> (ret: FlexspiNorFlashDriver)
        ensures
            ret.table == self@[4],
    {
        FlexspiNorFlashDriver { table: self.raw[4] }
    }

    /// The SPI flash driver whose table the tree points to.
    pub fn spi_flash_api(&self) -> (ret: SpiFlashDriver)
        ensures
            ret.table == self@[5],
    {
        SpiFlashDriver { table: self.raw[5] }
    }

    /// The ROM version.
    pub fn version(&self) -> (ret: StandardVersion)
        ensures
            ret.version == self@[6],
    {
        StandardVersion { version: self.raw[6] }
    }

    /// Address of the ROM's copyright string.
    pub fn copyright(&self) -> (ret: u32)
        ensures
            ret == self@[7],
    {
        self.raw[7]
    }
}

/// The flash driver of the bootloader tree.
pub fn flash_driver(tree: &BootloaderTree) -> (ret: FlashDriver)
    ensures
        ret.table == tree@[1],
{
    tree.flash_api()
}

/// The NBOOT driver of the bootloader tree.
pub fn nboot(tree: &BootloaderTree) -> (ret: NbootDriver)
    ensures
        ret.table == tree@[3],
{
    tree.nboot_api()
}

/// The KBoot driver of the bootloader tree.
pub fn kb(tree: &BootloaderTree) -> (ret: KBApiDriver)
    ensures
        ret.table == tree@[2],
{
    tree.kb_api()
}

/// The FlexSPI NOR flash driver of the bootloader tree.
pub fn flexspi_nor(tree: &BootloaderTree) -> (ret: FlexspiNorFlashDriver)
    ensures
        ret.table == tree@[4],
{
    tree.flex_spi_api()
}

/// The SPI flash driver of the bootloader tree.
pub fn spi_flash(tree: &BootloaderTree) -> (ret: SpiFlashDriver)
    ensures
        ret.table == tree@[5],
{
    tree.spi_flash_api()
}

// Fields of the `runBootloader` argument word.

/// Tag in bits 24..32 that asks the ROM to enter the boot flow.
#[derive(Clone, Copy, Debug, PartialEq, Eq, Structural)]
pub enum RunBootTag {
    EnterBoot,
}

/// Boot mode in bits 20..24.
#[derive(Clone, Copy, Debug, PartialEq, Eq, Structural)]
pub enum RunBootMode {
    PrimaryMasterBoot,
    IspBoot,
    ProvFwMode,
}

/// ISP interface in bits 16..21, used with `RunBootMode::IspBoot`.
#[derive(Clone, Copy, Debug, PartialEq, Eq, Structural)]
pub enum RunBootIspInterface {
    AutoDetection,
    Uart,
    Spi,
    I2c,
    UsbHid,
}

/// Boot medium in bits 16..21, used with `RunBootMode::PrimaryMasterBoot`.
#[derive(Clone, Copy, Debug, PartialEq, Eq, Structural)]
pub enum RunBootMasterFlashBootOption {
    InternalFlash,
    FlexspiFlash,
    OneBitSpiNorFlash,
    AutoDetection,
}

/// FlexSPI port in bits 12..16.
#[derive(Clone, Copy, Debug, PartialEq, Eq, Structural)]
pub enum RunBootInterfaceInstance {
    FlexspiPortA,
    FlexspiPortB,
    FlexspiPortAAndB,
}

/// Image index in bits 8..12.
#[derive(Clone, Copy, Debug, PartialEq, Eq, Structural)]
pub enum RunBootImageIndex {
    Image0,
    Image1,
}

/// Recovery SPI NOR baud rate in bits 6..8.
#[derive(Clone, Copy, Debug, PartialEq, Eq, Structural)]
pub enum RunBootRecoveryBootCfg1 {
    SpiNorBaudRate0,
    SpiNorBaudRate1,
    SpiNorBaudRate2,
    SpiNorBaudRate3,
}

/// Recovery SPI NOR chip select in bits 4..6.
#[derive(Clone, Copy, Debug, PartialEq, Eq, Structural)]
pub enum RunBootRecoveryBootCfg0 {
    SpiNorChipSelect0,
    SpiNorChipSelect1,
    SpiNorChipSelect2,
    SpiNorChipSelect3,
}

pub open spec fn run_boot_tag_bits(tag: RunBootTag) -> u32 {
    match tag {
        RunBootTag::EnterBoot => 0xEB00_0000,
    }
}

pub open spec fn run_boot_mode_bits(mode: RunBootMode) -> u32 {
    match mode {
        RunBootMode::PrimaryMasterBoot => 0x0000_0000,
        RunBootMode::IspBoot => 0x0010_0000,
        RunBootMode::ProvFwMode => 0x0020_0000,
    }
}

pub open spec fn run_boot_isp_interface_bits(interface: RunBootIspInterface) -> u32 {
    match interface {
        RunBootIspInterface::AutoDetection => 0x0000_0000,
        RunBootIspInterface::Uart => 0x0001_0000,
        RunBootIspInterface::Spi => 0x0002_0000,
        RunBootIspInterface::I2c => 0x0008_0000,
        RunBootIspInterface::UsbHid => 0x0010_0000,
    }
}

pub open spec fn run_boot_master_flash_boot_option_bits(option: RunBootMasterFlashBootOption) -> u32 {
    match option {
        RunBootMasterFlashBootOption::InternalFlash => 0x0000_0000,
        RunBootMasterFlashBootOption::FlexspiFlash => 0x0002_0000,
        RunBootMasterFlashBootOption::OneBitSpiNorFlash => 0x0003_0000,
        RunBootMasterFlashBootOption::AutoDetection => 0x001F_0000,
    }
}

pub open spec fn run_boot_interface_instance_bits(instance: RunBootInterfaceInstance) -> u32 {
    match instance {
        RunBootInterfaceInstance::FlexspiPortA => 0x0000_0000,
        RunBootInterfaceInstance::FlexspiPortB => 0x0000_1000,
        RunBootInterfaceInstance::FlexspiPortAAndB => 0x0000_2000,
    }
}

pub open spec fn run_boot_image_index_bits(index: RunBootImageIndex) -> u32 {
    match index {
        RunBootImageIndex::Image0 => 0x0000_0000,
        RunBootImageIndex::Image1 => 0x0000_0100,
    }
}

pub open spec fn run_boot_recovery_cfg1_bits(cfg: RunBootRecoveryBootCfg1) -> u32 {
    match cfg {
        RunBootRecoveryBootCfg1::SpiNorBaudRate0 => 0x0000_0000,
        RunBootRecoveryBootCfg1::SpiNorBaudRate1 => 0x0000_0040,
        RunBootRecoveryBootCfg1::SpiNorBaudRate2 => 0x0000_0080,
        RunBootRecoveryBootCfg1::SpiNorBaudRate3 => 0x0000_00C0,
    }
}

pub open spec fn run_boot_recovery_cfg0_bits(cfg: RunBootRecoveryBootCfg0) -> u32 {
    match cfg {
        RunBootRecoveryBootCfg0::SpiNorChipSelect0 => 0x0000_0000,
        RunBootRecoveryBootCfg0::SpiNorChipSelect1 => 0x0000_0010,
        RunBootRecoveryBootCfg0::SpiNorChipSelect2 => 0x0000_0020,
        RunBootRecoveryBootCfg0::SpiNorChipSelect3 => 0x0000_0030,
    }
}

impl RunBootTag {
    /// The tag's bits in the argument word.
    pub fn bits(self) -> (ret: u32)
        ensures
            ret == run_boot_tag_bits(self),
    {
        match self {
            RunBootTag::EnterBoot => 0xEB00_0000,
        }
    }
}

impl RunBootMode {
    /// The mode's bits in the argument word.
    pub fn bits(self) -> (ret: u32)
        ensures
            ret == run_boot_mode_bits(self),
    {
        match self {
            RunBootMode::PrimaryMasterBoot => 0x0000_0000,
            RunBootMode::IspBoot => 0x0010_0000,
            RunBootMode::ProvFwMode => 0x0020_0000,
        }
    }
}

impl RunBootIspInterface {
    /// The interface's bits in the argument word.
    pub fn bits(self) -> (ret: u32)
        ensures
            ret == run_boot_isp_interface_bits(self),
    {
        match self {
            RunBootIspInterface::AutoDetection => 0x0000_0000,
            RunBootIspInterface::Uart => 0x0001_0000,
            RunBootIspInterface::Spi => 0x0002_0000,
            RunBootIspInterface::I2c => 0x0008_0000,
            RunBootIspInterface::UsbHid => 0x0010_0000,
        }
    }
}

impl RunBootMasterFlashBootOption {
    /// The option's bits in the argument word.
    pub fn bits(self) -> (ret: u32)
        ensures
            ret == run_boot_master_flash_boot_option_bits(self),
    {
        match self {
            RunBootMasterFlashBootOption::InternalFlash => 0x0000_0000,
            RunBootMasterFlashBootOption::FlexspiFlash => 0x0002_0000,
            RunBootMasterFlashBootOption::OneBitSpiNorFlash => 0x0003_0000,
            RunBootMasterFlashBootOption::AutoDetection => 0x001F_0000,
        }
    }
}

impl RunBootInterfaceInstance {
    /// The instance's bits in the argument word.
    pub fn bits(self) -> (ret: u32)
        ensures
            ret == run_boot_interface_instance_bits(self),
    {
        match self {
            RunBootInterfaceInstance::FlexspiPortA => 0x0000_0000,
            RunBootInterfaceInstance::FlexspiPortB => 0x0000_1000,
            RunBootInterfaceInstance::FlexspiPortAAndB => 0x0000_2000,
        }
    }
}

impl RunBootImageIndex {
    /// The index's bits in the argument word.
    pub fn bits(self) -> (ret: u32)
        ensures
            ret == run_boot_image_index_bits(self),
    {
        match self {
            RunBootImageIndex::Image0 => 0x0000_0000,
            RunBootImageIndex::Image1 => 0x0000_0100,
        }
    }
}

impl RunBootRecoveryBootCfg1 {
    /// The baud rate's bits in the argument word.
    pub fn bits(self) -> (ret: u32)
        ensures
            ret == run_boot_recovery_cfg1_bits(self),
    {
        match self {
            RunBootRecoveryBootCfg1::SpiNorBaudRate0 => 0x0000_0000,
            RunBootRecoveryBootCfg1::SpiNorBaudRate1 => 0x0000_0040,
            RunBootRecoveryBootCfg1::SpiNorBaudRate2 => 0x0000_0080,
            RunBootRecoveryBootCfg1::SpiNorBaudRate3 => 0x0000_00C0,
        }
    }
}

impl RunBootRecoveryBootCfg0 {
    /// The chip select's bits in the argument word.
    pub fn bits(self) -> (ret: u32)
        ensures
            ret == run_boot_recovery_cfg0_bits(self),
    {
        match self {
            RunBootRecoveryBootCfg0::SpiNorChipSelect0 => 0x0000_0000,
            RunBootRecoveryBootCfg0::SpiNorChipSelect1 => 0x0000_0010,
            RunBootRecoveryBootCfg0::SpiNorChipSelect2 => 0x0000_0020,
            RunBootRecoveryBootCfg0::SpiNorChipSelect3 => 0x0000_0030,
        }
    }
}

/// The fields of the `runBootloader` argument word (reference manual table
/// 31): each option's bits are its field value shifted to the field's
/// position: the tag at bit 24, the mode at bit 20, the ISP interface and the
/// boot medium at bit 16, the FlexSPI port at bit 12, the image index at bit
/// 8, the recovery baud rate at bit 6 and the recovery chip select at bit 4.
pub proof fn lemma_run_boot_field_positions()
    ensures
        run_boot_tag_bits(RunBootTag::EnterBoot) == 0xEBu32 << 24u32,
        run_boot_mode_bits(RunBootMode::PrimaryMasterBoot) == 0x0u32 << 20u32,
        run_boot_mode_bits(RunBootMode::IspBoot) == 0x1u32 << 20u32,
        run_boot_mode_bits(RunBootMode::ProvFwMode) == 0x2u32 << 20u32,
        run_boot_isp_interface_bits(RunBootIspInterface::AutoDetection) == 0x0u32 << 16u32,
        run_boot_isp_interface_bits(RunBootIspInterface::Uart) == 0x1u32 << 16u32,
        run_boot_isp_interface_bits(RunBootIspInterface::Spi) == 0x2u32 << 16u32,
        run_boot_isp_interface_bits(RunBootIspInterface::I2c) == 0x8u32 << 16u32,
        run_boot_isp_interface_bits(RunBootIspInterface::UsbHid) == 0x10u32 << 16u32,
        run_boot_master_flash_boot_option_bits(RunBootMasterFlashBootOption::InternalFlash) == 0x0u32
            << 16u32,
        run_boot_master_flash_boot_option_bits(RunBootMasterFlashBootOption::FlexspiFlash) == 0x2u32
            << 16u32,
        run_boot_master_flash_boot_option_bits(RunBootMasterFlashBootOption::OneBitSpiNorFlash)
            == 0x3u32 << 16u32,
        run_boot_master_flash_boot_option_bits(RunBootMasterFlashBootOption::AutoDetection) == 0x1Fu32
            << 16u32,
        run_boot_interface_instance_bits(RunBootInterfaceInstance::FlexspiPortA) == 0x0u32 << 12u32,
        run_boot_interface_instance_bits(RunBootInterfaceInstance::FlexspiPortB) == 0x1u32 << 12u32,
        run_boot_interface_instance_bits(RunBootInterfaceInstance::FlexspiPortAAndB) == 0x2u32
            << 12u32,
        run_boot_image_index_bits(RunBootImageIndex::Image0) == 0x0u32 << 8u32,
        run_boot_image_index_bits(RunBootImageIndex::Image1) == 0x1u32 << 8u32,
        run_boot_recovery_cfg1_bits(RunBootRecoveryBootCfg1::SpiNorBaudRate0) == 0x0u32 << 6u32,
        run_boot_recovery_cfg1_bits(RunBootRecoveryBootCfg1::SpiNorBaudRate1) == 0x1u32 << 6u32,
        run_boot_recovery_cfg1_bits(RunBootRecoveryBootCfg1::SpiNorBaudRate2) == 0x2u32 << 6u32,
        run_boot_recovery_cfg1_bits(RunBootRecoveryBootCfg1::SpiNorBaudRate3) == 0x3u32 << 6u32,
        run_boot_recovery_cfg0_bits(RunBootRecoveryBootCfg0::SpiNorChipSelect0) == 0x0u32 << 4u32,
        run_boot_recovery_cfg0_bits(RunBootRecoveryBootCfg0::SpiNorChipSelect1) == 0x1u32 << 4u32,
        run_boot_recovery_cfg0_bits(RunBootRecoveryBootCfg0::SpiNorChipSelect2) == 0x2u32 << 4u32,
        run_boot_recovery_cfg0_bits(RunBootRecoveryBootCfg0::SpiNorChipSelect3) == 0x3u32 << 4u32,
{
    assert(0xEBu32 << 24u32 == 0xEB00_0000u32) by (bit_vector);
    assert(0x0u32 << 20u32 == 0u32 && 0x1u32 << 20u32 == 0x0010_0000u32 && 0x2u32 << 20u32
        == 0x0020_0000u32) by (bit_vector);
    assert(0x0u32 << 16u32 == 0u32 && 0x1u32 << 16u32 == 0x0001_0000u32 && 0x2u32 << 16u32
        == 0x0002_0000u32 && 0x3u32 << 16u32 == 0x0003_0000u32 && 0x8u32 << 16u32 == 0x0008_0000u32
        && 0x10u32 << 16u32 == 0x0010_0000u32 && 0x1Fu32 << 16u32 == 0x001F_0000u32) by (bit_vector);
    assert(0x0u32 << 12u32 == 0u32 && 0x1u32 << 12u32 == 0x1000u32 && 0x2u32 << 12u32 == 0x2000u32)
        by (bit_vector);
    assert(0x0u32 << 8u32 == 0u32 && 0x1u32 << 8u32 == 0x100u32) by (bit_vector);
    assert(0x0u32 << 6u32 == 0u32 && 0x1u32 << 6u32 == 0x40u32 && 0x2u32 << 6u32 == 0x80u32 && 0x3u32
        << 6u32 == 0xC0u32) by (bit_vector);
    assert(0x0u32 << 4u32 == 0u32 && 0x1u32 << 4u32 == 0x10u32 && 0x2u32 << 4u32 == 0x20u32 && 0x3u32
        << 4u32 == 0x30u32) by (bit_vector);
}

/// The version fields are the bytes of the version word, least significant
/// first: bugfix, minor, major, name.
pub proof fn lemma_version_fields_are_bytes(word: u32)
    ensures
        version_fields_of(word).bugfix == word % 0x100,
        version_fields_of(word).minor == (word / 0x100) % 0x100,
        version_fields_of(word).major == (word / 0x1_0000) % 0x100,
        version_fields_of(word).name == word / 0x100_0000,
{
    assert((word & 0xff) as u8 == word % 0x100) by (bit_vector);
    assert(((word >> 8u32) & 0xff) as u8 == (word / 0x100) % 0x100) by (bit_vector);
    assert(((word >> 16u32) & 0xff) as u8 == (word / 0x1_0000) % 0x100) by (bit_vector);
    assert((word >> 24u32) as u8 == word / 0x100_0000) by (bit_vector);
}

/// The argument word with which the ROM's `runBootloader` entry is called to
/// enter ISP mode over UART, the recovery path when the main boot flow fails:
/// the enter-boot tag, the ISP mode and the UART interface, nothing else. The
/// ROM takes over and does not return; the call itself is made by the caller,
/// through `RomApi::run_bootloader_entry`.
pub fn run_bootloader_uart() -> (arg: u32)
    ensures
        arg == run_boot_tag_bits(RunBootTag::EnterBoot) | run_boot_mode_bits(RunBootMode::IspBoot)
            | run_boot_isp_interface_bits(RunBootIspInterface::Uart),
        arg == 0xEB11_0000,
        arg >> 24u32 == 0xEB,
        (arg >> 20u32) & 0xF == 1,
        (arg >> 16u32) & 0xF == 1,
        arg & 0xFFFF == 0,
{
    let arg = RunBootTag::EnterBoot.bits() | RunBootMode::IspBoot.bits() | RunBootIspInterface::Uart.bits();
    assert(0xEB00_0000u32 | 0x0010_0000u32 | 0x0001_0000u32 == 0xEB11_0000u32) by (bit_vector);
    assert(0xEB11_0000u32 >> 24u32 == 0xEB && (0xEB11_0000u32 >> 20u32) & 0xF == 1 && (0xEB11_0000u32
        >> 16u32) & 0xF == 1 && 0xEB11_0000u32 & 0xFFFF == 0) by (bit_vector);
    arg
}

/// The configuration block handed to the ROM's `flash_init`, which fills it
/// in: every geometry field zero, the flash mode at 0 MHz with ECC on, normal
/// read margin, DMACC off, reserved ramp control and zero read-mode trims, no
/// NBOOT context, and reads through AHB.
pub fn flash_cfg_for_rom_api() -> (ret: FlashConfig)
    ensures
        ret.pflash_block_base == 0,
        ret.pflash_total_size == 0,
        ret.pflash_block_count == 0,
        ret.pflash_page_size == 0,
        ret.pflash_sector_size == 0,
        ret.ffr_config == (FlashFfrConfig {
            ffr_block_base: 0,
            ffr_total_size: 0,
            ffr_page_size: 0,
            sector_size: 0,
            cfpa_page_version: 0,
            cfpa_page_offset: 0,
        }),
        ret.mode_config.sys_freq_in_mhz == 0,
        ret.mode_config.read_single_word.ecc == FlashReadEccOption::On,
        ret.mode_config.read_single_word.margin == FlashReadMarginOption::Normal,
        ret.mode_config.read_single_word.dmacc == FlashReadDmaccOption::Disabled,
        ret.mode_config.set_write_mode.program_ramp_control == FlashRampControlOption::Reserved,
        ret.mode_config.set_write_mode.erase_ramp_control == FlashRampControlOption::Reserved,
        ret.mode_config.set_read_mode.read_interface_timing_trim == 0,
        ret.mode_config.set_read_mode.read_controller_timing_trim == 0,
        ret.mode_config.set_read_mode.read_wait_states == 0,
        ret.nboot_ctx == 0,
        ret.use_ahb_read,
{
    FlashConfig {
        pflash_block_base: 0,
        pflash_total_size: 0,
        pflash_block_count: 0,
        pflash_page_size: 0,
        pflash_sector_size: 0,
        ffr_config: FlashFfrConfig {
            ffr_block_base: 0,
            ffr_total_size: 0,
            ffr_page_size: 0,
            sector_size: 0,
            cfpa_page_version: 0,
            cfpa_page_offset: 0,
        },
        mode_config: FlashModeConfig::new(
            0,
            FlashReadSingleWordConfig::new(
                FlashReadEccOption::On,
                FlashReadMarginOption::Normal,
                FlashReadDmaccOption::Disabled,
            ),
            FlashSetWriteModeConfig::new(
                FlashRampControlOption::Reserved,
                FlashRampControlOption::Reserved,
            ),
            FlashSetReadModeConfig::new(0, 0, 0),
        ),
        nboot_ctx: 0,
        use_ahb_read: true,
    }
}

} // verus!
