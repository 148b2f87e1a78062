use ec_slimloader_mcxa::rom_api::flash::{
    FlashRampControlOption, FlashReadDmaccOption, FlashReadEccOption, FlashReadMarginOption,
};
use ec_slimloader_mcxa::rom_api::kb::KbOperation;
use ec_slimloader_mcxa::rom_api::{
    flash_cfg_for_rom_api, flash_driver, flexspi_nor, kb, nboot, run_bootloader_uart, spi_flash,
    RomApi, RunBootImageIndex, RunBootInterfaceInstance, RunBootIspInterface,
    RunBootMasterFlashBootOption, RunBootMode, RunBootRecoveryBootCfg0, RunBootRecoveryBootCfg1,
    RunBootTag, StandardVersion, StandardVersionFields, ROM_API_BASE,
};

fn sample_tree() -> RomApi {
    RomApi::from_raw([
        0x1300_0101,
        0x1300_0200,
        0x1300_0300,
        0x1300_0400,
        0x1300_0500,
        0x1300_0600,
        0x4B03_0201,
        0x1300_0700,
    ])
}

#[test]
fn rom_api_base_address() {
    assert_eq!(ROM_API_BASE, 0x1303_D800);
}

#[test]
fn tree_words_in_order() {
    let tree = sample_tree();
    assert_eq!(tree.run_bootloader_entry(), 0x1300_0101);
    assert_eq!(tree.flash_api().table, 0x1300_0200);
    assert_eq!(tree.kb_api().table, 0x1300_0300);
    assert_eq!(tree.nboot_api().table, 0x1300_0400);
    assert_eq!(tree.flex_spi_api().table, 0x1300_0500);
    assert_eq!(tree.spi_flash_api().table, 0x1300_0600);
    assert_eq!(tree.version().version, 0x4B03_0201);
    assert_eq!(tree.copyright(), 0x1300_0700);
}

#[test]
fn driver_helpers_follow_the_tree() {
    let tree = sample_tree();
    assert_eq!(flash_driver(&tree).table, 0x1300_0200);
    assert_eq!(kb(&tree).table, 0x1300_0300);
    assert_eq!(nboot(&tree).table, 0x1300_0400);
    assert_eq!(flexspi_nor(&tree).table, 0x1300_0500);
    assert_eq!(spi_flash(&tree).table, 0x1300_0600);
}

#[test]
fn version_fields_are_bytes_low_first() {
    let fields = StandardVersion { version: 0x4B03_0201 }.fields();
    assert_eq!(
        fields,
        StandardVersionFields { bugfix: 1, minor: 2, major: 3, name: b'K' }
    );
}

#[test]
fn version_roundtrips() {
    let fields = StandardVersionFields { bugfix: 0xFE, minor: 0x10, major: 0x80, name: 0x01 };
    let version = StandardVersion::from_fields(fields);
    assert_eq!(version.version, 0x0180_10FE);
    assert_eq!(version.fields(), fields);
    let word = StandardVersion { version: 0xDEAD_BEEF };
    assert_eq!(StandardVersion::from_fields(word.fields()), word);
}

#[test]
fn uart_isp_argument_word() {
    let arg = run_bootloader_uart();
    assert_eq!(arg, 0xEB11_0000);
    assert_eq!(arg >> 24, 0xEB);
    assert_eq!((arg >> 20) & 0xF, 1);
    assert_eq!((arg >> 16) & 0xF, 1);
}

#[test]
fn run_boot_field_bits() {
    assert_eq!(RunBootTag::EnterBoot.bits(), 0xEB << 24);
    assert_eq!(RunBootMode::PrimaryMasterBoot.bits(), 0);
    assert_eq!(RunBootMode::IspBoot.bits(), 1 << 20);
    assert_eq!(RunBootMode::ProvFwMode.bits(), 2 << 20);
    assert_eq!(RunBootIspInterface::AutoDetection.bits(), 0);
    assert_eq!(RunBootIspInterface::Uart.bits(), 1 << 16);
    assert_eq!(RunBootIspInterface::Spi.bits(), 2 << 16);
    assert_eq!(RunBootIspInterface::I2c.bits(), 8 << 16);
    assert_eq!(RunBootIspInterface::UsbHid.bits(), 0x10 << 16);
    assert_eq!(RunBootMasterFlashBootOption::InternalFlash.bits(), 0);
    assert_eq!(RunBootMasterFlashBootOption::FlexspiFlash.bits(), 2 << 16);
    assert_eq!(RunBootMasterFlashBootOption::OneBitSpiNorFlash.bits(), 3 << 16);
    assert_eq!(RunBootMasterFlashBootOption::AutoDetection.bits(), 0x1F << 16);
    assert_eq!(RunBootInterfaceInstance::FlexspiPortA.bits(), 0);
    assert_eq!(RunBootInterfaceInstance::FlexspiPortB.bits(), 1 << 12);
    assert_eq!(RunBootInterfaceInstance::FlexspiPortAAndB.bits(), 2 << 12);
    assert_eq!(RunBootImageIndex::Image0.bits(), 0);
    assert_eq!(RunBootImageIndex::Image1.bits(), 1 << 8);
    assert_eq!(RunBootRecoveryBootCfg1::SpiNorBaudRate0.bits(), 0);
    assert_eq!(RunBootRecoveryBootCfg1::SpiNorBaudRate3.bits(), 3 << 6);
    assert_eq!(RunBootRecoveryBootCfg0::SpiNorChipSelect0.bits(), 0);
    assert_eq!(RunBootRecoveryBootCfg0::SpiNorChipSelect2.bits(), 2 << 4);
}

#[test]
fn flash_config_defaults() {
    let cfg = flash_cfg_for_rom_api();
    assert_eq!(cfg.pflash_block_base, 0);
    assert_eq!(cfg.pflash_total_size, 0);
    assert_eq!(cfg.pflash_block_count, 0);
    assert_eq!(cfg.pflash_page_size, 0);
    assert_eq!(cfg.pflash_sector_size, 0);
    assert_eq!(cfg.ffr_config.ffr_block_base, 0);
    assert_eq!(cfg.ffr_config.cfpa_page_offset, 0);
    assert_eq!(cfg.mode_config.sys_freq_in_mhz, 0);
    assert_eq!(cfg.mode_config.read_single_word.ecc, FlashReadEccOption::On);
    assert_eq!(cfg.mode_config.read_single_word.margin, FlashReadMarginOption::Normal);
    assert_eq!(cfg.mode_config.read_single_word.dmacc, FlashReadDmaccOption::Disabled);
    assert_eq!(cfg.mode_config.set_write_mode.program_ramp_control, FlashRampControlOption::Reserved);
    assert_eq!(cfg.mode_config.set_write_mode.erase_ramp_control, FlashRampControlOption::Reserved);
    assert_eq!(cfg.mode_config.set_read_mode.read_wait_states, 0);
    assert_eq!(cfg.nboot_ctx, 0);
    assert!(cfg.use_ahb_read);
}

#[test]
fn kb_operation_codes() {
    assert_eq!(KbOperation::AuthenticateImage.code(), 1);
    assert_eq!(KbOperation::LoadImage.code(), 2);
    assert_eq!(KbOperation::OperationCount.code(), 3);
}
