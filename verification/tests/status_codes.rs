use ec_slimloader_mcxa::rom_api::nboot::NbootStatus;
use ec_slimloader_mcxa::rom_api::status::{BootError, KbStatus};

#[test]
fn kb_status_decodes_every_known_code() {
    assert_eq!(KbStatus::from(0u32), KbStatus::Success);
    assert_eq!(KbStatus::from(1u32), KbStatus::Fail);
    assert_eq!(KbStatus::from(4u32), KbStatus::InvalidArgument);
    assert_eq!(KbStatus::from(10109u32), KbStatus::RomLdrDataUnderrun);
    assert_eq!(KbStatus::from(10110u32), KbStatus::RomLdrJumpReturned);
    assert_eq!(KbStatus::from(10115u32), KbStatus::RomLdrRollbackBlocked);
    assert_eq!(KbStatus::from(10119u32), KbStatus::RomLdrPendingJumpCommand);
    assert_eq!(KbStatus::from(10802u32), KbStatus::RomApiBufferSizeNotEnough);
    assert_eq!(KbStatus::from(10803u32), KbStatus::RomApiInvalidBuffer);
}

#[test]
fn kb_status_keeps_unknown_codes() {
    assert_eq!(KbStatus::from(2u32), KbStatus::Unknown(2));
    assert_eq!(KbStatus::from(10801u32), KbStatus::Unknown(10801));
    assert_eq!(KbStatus::from(u32::MAX), KbStatus::Unknown(u32::MAX));
}

#[test]
fn kb_status_reported_as_boot_error() {
    assert_eq!(BootError::from(KbStatus::InvalidArgument), BootError::Markers);
    assert_eq!(BootError::from(KbStatus::RomApiBufferSizeNotEnough), BootError::Markers);
    assert_eq!(BootError::from(KbStatus::RomApiInvalidBuffer), BootError::Markers);
    assert_eq!(BootError::from(KbStatus::RomLdrRollbackBlocked), BootError::Markers);
    assert_eq!(BootError::from(KbStatus::Fail), BootError::IO);
    assert_eq!(BootError::from(KbStatus::RomLdrDataUnderrun), BootError::IO);
    assert_eq!(BootError::from(KbStatus::RomLdrJumpReturned), BootError::IO);
    assert_eq!(BootError::from(KbStatus::RomLdrPendingJumpCommand), BootError::IO);
    assert_eq!(BootError::from(KbStatus::Success), BootError::IO);
    assert_eq!(BootError::from(KbStatus::Unknown(77)), BootError::IO);
}

#[test]
fn raw_kb_status_classification() {
    for raw in [4u32, 10115, 10802, 10803] {
        assert_eq!(BootError::from(KbStatus::from(raw)), BootError::Markers);
    }
    for raw in [0u32, 1, 2, 10109, 10110, 10119, 123456] {
        assert_eq!(BootError::from(KbStatus::from(raw)), BootError::IO);
    }
}

#[test]
fn nboot_status_decoding() {
    assert_eq!(NbootStatus::from(0x5A5A_5A5Au64), NbootStatus::Success);
    assert_eq!(NbootStatus::from(0x5A5A_A5A5u64), NbootStatus::Fail);
    assert_eq!(NbootStatus::from(0x5A5A_A5F0u64), NbootStatus::InvalidArgument);
    assert_eq!(NbootStatus::from(0x5A5A_A5E6u64), NbootStatus::KeyNotAvailable);
    assert_eq!(NbootStatus::from(0x5A5A_5A5Bu64), NbootStatus::Unknown(0x5A5A_5A5B));
    assert_eq!(NbootStatus::from(0u64), NbootStatus::Unknown(0));
}
