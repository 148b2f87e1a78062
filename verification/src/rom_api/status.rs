//! ROM API status codes and the classification of KBoot statuses.
use vstd::prelude::*;

verus! {

/// Generic success.
pub const KSTATUS_SUCCESS: u32 = 0;
/// Generic failure.
pub const KSTATUS_FAIL: u32 = 1;
/// Generic invalid argument.
pub const KSTATUS_INVALID_ARGUMENT: u32 = 4;

pub const KSTATUS_FLASH_SUCCESS: u32 = 0;
pub const KSTATUS_FLASH_INVALID_ARGUMENT: u32 = 4;
pub const KSTATUS_FLASH_ALIGNMENT_ERROR: u32 = 101;
pub const KSTATUS_FLASH_ADDRESS_ERROR: u32 = 102;
pub const KSTATUS_FLASH_SIZE_ERROR: u32 = 100;
pub const KSTATUS_FLASH_COMMAND_FAILURE: u32 = 105;
pub const KSTATUS_FLASH_UNKNOWN_PROPERTY: u32 = 106;
pub const KSTATUS_FLASH_ERASE_KEY_ERROR: u32 = 107;
pub const KSTATUS_FLASH_REGION_EXECUTE_ONLY: u32 = 108;
pub const KSTATUS_FLASH_COMMAND_NOT_SUPPORTED: u32 = 111;
pub const KSTATUS_FLASH_READ_ONLY_PROPERTY: u32 = 112;
pub const KSTATUS_FLASH_INVALID_PROPERTY_VALUE: u32 = 113;
pub const KSTATUS_FLASH_ECC_ERROR: u32 = 116;
pub const KSTATUS_FLASH_COMPARE_ERROR: u32 = 117;
pub const KSTATUS_FLASH_INVALID_WAIT_STATE_CYCLES: u32 = 119;

// SPI flash driver status codes.
pub const KSTATUS_SPIFLASH_SUCCESS: u32 = KSTATUS_SUCCESS;
pub const KSTATUS_SPIFLASH_FAIL: u32 = KSTATUS_FAIL;

// FlexSPI flash driver status codes.
pub const KSTATUS_FLEXSPI_SUCCESS: u32 = KSTATUS_SUCCESS;
pub const KSTATUS_FLEXSPI_FAIL: u32 = KSTATUS_FAIL;
pub const KSTATUS_FLEXSPI_INVALID_ARGUMENT: u32 = KSTATUS_INVALID_ARGUMENT;
pub const KSTATUS_FLEXSPI_SEQUENCE_EXECUTION_TIMEOUT: u32 = 6000;
pub const KSTATUS_FLEXSPI_INVALID_SEQUENCE: u32 = 6001;
pub const KSTATUS_FLEXSPI_DEVICE_TIMEOUT: u32 = 6002;

pub const KSTATUS_FLEXSPINOR_PROGRAM_FAIL: u32 = 20100;
pub const KSTATUS_FLEXSPINOR_ERASE_SECTOR_FAIL: u32 = 20101;
pub const KSTATUS_FLEXSPINOR_ERASE_ALL_FAIL: u32 = 20102;
pub const KSTATUS_FLEXSPINOR_WAIT_TIMEOUT: u32 = 20103;
pub const KSTATUS_FLEXSPINOR_WRITE_ALIGNMENT_ERROR: u32 = 20105;
pub const KSTATUS_FLEXSPINOR_COMMAND_FAILURE: u32 = 20106;
pub const KSTATUS_FLEXSPINOR_SFDP_NOT_FOUND: u32 = 20107;
pub const KSTATUS_FLEXSPINOR_UNSUPPORTED_SFDP_VERSION: u32 = 20108;
pub const KSTATUS_FLEXSPINOR_FLASH_NOT_FOUND: u32 = 20109;
pub const KSTATUS_FLEXSPINOR_DTR_READ_DUMMY_PROBE_FAILED: u32 = 20110;

// NBOOT status codes, carried in a protected 64-bit word.
pub const KSTATUS_NBOOT_SUCCESS: u64 = 0x5A5A_5A5A;
pub const KSTATUS_NBOOT_FAIL: u64 = 0x5A5A_A5A5;
pub const KSTATUS_NBOOT_INVALID_ARGUMENT: u64 = 0x5A5A_A5F0;
pub const KSTATUS_NBOOT_KEY_NOT_AVAILABLE: u64 = 0x5A5A_A5E6;

// NBOOT operation verdicts, returned by APIs such as the memory range checker.
pub const KNBOOT_OPERATION_ALLOWED: u64 = 0x3C5A_33CC;
pub const KNBOOT_OPERATION_DISALLOWED: u64 = 0x5AA5_CC33;

// NBOOT protected booleans, from the same encoding as the operation verdicts.
pub const KNBOOT_TRUE: u32 = 0x3C5A_C33C;
pub const KNBOOT_FALSE: u32 = 0x5AA5_5AA5;

pub const KSTATUS_ROMLDR_DATA_UNDERRUN: u32 = 10109;
pub const KSTATUS_ROMLDR_JUMP_RETURNED: u32 = 10110;
pub const KSTATUS_ROMLDR_ROLLBACK_BLOCKED: u32 = 10115;
pub const KSTATUS_ROMLDR_PENDING_JUMP_COMMAND: u32 = 10119;

pub const KSTATUS_ROM_API_BUFFER_SIZE_NOT_ENOUGH: u32 = 10802;
pub const KSTATUS_ROM_API_INVALID_BUFFER: u32 = 10803;

// KBoot reuses the generic, ROM loader and ROM API status spaces.
pub const KSTATUS_KB_SUCCESS: u32 = KSTATUS_SUCCESS;
pub const KSTATUS_KB_FAIL: u32 = KSTATUS_FAIL;
pub const KSTATUS_KB_INVALID_ARGUMENT: u32 = KSTATUS_INVALID_ARGUMENT;
pub const KSTATUS_KB_ROMLDR_DATA_UNDERRUN: u32 = KSTATUS_ROMLDR_DATA_UNDERRUN;
pub const KSTATUS_KB_ROMLDR_JUMP_RETURNED: u32 = KSTATUS_ROMLDR_JUMP_RETURNED;
pub const KSTATUS_KB_ROMLDR_ROLLBACK_BLOCKED: u32 = KSTATUS_ROMLDR_ROLLBACK_BLOCKED;
pub const KSTATUS_KB_ROMLDR_PENDING_JUMP_COMMAND: u32 = KSTATUS_ROMLDR_PENDING_JUMP_COMMAND;
pub const KSTATUS_KB_BUFFER_SIZE_NOT_ENOUGH: u32 = KSTATUS_ROM_API_BUFFER_SIZE_NOT_ENOUGH;
pub const KSTATUS_KB_INVALID_BUFFER: u32 = KSTATUS_ROM_API_INVALID_BUFFER;

/// Status returned by the KBoot ROM API.
#[derive(Clone, Copy, Debug, PartialEq, Eq, Structural)]
pub enum KbStatus {
    Success,
    Fail,
    InvalidArgument,
    RomLdrDataUnderrun,
    RomLdrJumpReturned,
    RomLdrRollbackBlocked,
    RomLdrPendingJumpCommand,
    RomApiBufferSizeNotEnough,
    RomApiInvalidBuffer,
    Unknown(u32),
}

/// The KBoot status that a raw status word denotes.
pub open spec fn kb_status_of(raw: u32) -> KbStatus {
    if raw == KSTATUS_KB_SUCCESS {
        KbStatus::Success
    } else if raw == KSTATUS_KB_FAIL {
        KbStatus::Fail
    } else if raw == KSTATUS_KB_INVALID_ARGUMENT {
        KbStatus::InvalidArgument
    } else if raw == KSTATUS_KB_ROMLDR_DATA_UNDERRUN {
        KbStatus::RomLdrDataUnderrun
    } else if raw == KSTATUS_KB_ROMLDR_JUMP_RETURNED {
        KbStatus::RomLdrJumpReturned
    } else if raw == KSTATUS_KB_ROMLDR_ROLLBACK_BLOCKED {
        KbStatus::RomLdrRollbackBlocked
    } else if raw == KSTATUS_KB_ROMLDR_PENDING_JUMP_COMMAND {
        KbStatus::RomLdrPendingJumpCommand
    } else if raw == KSTATUS_KB_BUFFER_SIZE_NOT_ENOUGH {
        KbStatus::RomApiBufferSizeNotEnough
    } else if raw == KSTATUS_KB_INVALID_BUFFER {
        KbStatus::RomApiInvalidBuffer
    } else {
        KbStatus::Unknown(raw)
    }
}

impl From<u32> for KbStatus {
    fn from(raw: u32) -> (ret: Self) {
        if raw == KSTATUS_KB_SUCCESS {
            KbStatus::Success
        } else if raw == KSTATUS_KB_FAIL {
            KbStatus::Fail
        } else if raw == KSTATUS_KB_INVALID_ARGUMENT {
            KbStatus::InvalidArgument
        } else if raw == KSTATUS_KB_ROMLDR_DATA_UNDERRUN {
            KbStatus::RomLdrDataUnderrun
        } else if raw == KSTATUS_KB_ROMLDR_JUMP_RETURNED {
            KbStatus::RomLdrJumpReturned
        } else if raw == KSTATUS_KB_ROMLDR_ROLLBACK_BLOCKED {
            KbStatus::RomLdrRollbackBlocked
        } else if raw == KSTATUS_KB_ROMLDR_PENDING_JUMP_COMMAND {
            KbStatus::RomLdrPendingJumpCommand
        } else if raw == KSTATUS_KB_BUFFER_SIZE_NOT_ENOUGH {
            KbStatus::RomApiBufferSizeNotEnough
        } else if raw == KSTATUS_KB_INVALID_BUFFER {
            KbStatus::RomApiInvalidBuffer
        } else {
            KbStatus::Unknown(raw)
        }
    }
}

impl vstd::std_specs::convert::FromSpecImpl<u32> for KbStatus {
    open spec fn obeys_from_spec() -> bool {
        true
    }

    open spec fn from_spec(raw: u32) -> KbStatus {
        kb_status_of(raw)
    }
}

/// Errors that end a boot attempt.
#[derive(Clone, Copy, Debug, PartialEq, Eq, Structural)]
pub enum BootError {
    /// The boot markers or the request built from them were rejected.
    Markers,
    /// A storage or transport operation failed.
    IO,
    /// The root of trust could not be established.
    RootOfTrust,
    /// The image could not be authenticated.
    Authenticate,
}

/// The boot error that a KBoot status is reported as.
pub open spec fn boot_error_of_kb_status(status: KbStatus) -> BootError {
    match status {
        KbStatus::InvalidArgument
        | KbStatus::RomApiBufferSizeNotEnough
        | KbStatus::RomApiInvalidBuffer
        | KbStatus::RomLdrRollbackBlocked => BootError::Markers,
        _ => BootError::IO,
    }
}

impl From<KbStatus> for BootError {
    fn from(status: KbStatus) -> (ret: Self) {
        match status {
            KbStatus::InvalidArgument
            | KbStatus::RomApiBufferSizeNotEnough
            | KbStatus::RomApiInvalidBuffer => BootError::Markers,
            KbStatus::Fail => BootError::IO,
            KbStatus::RomLdrRollbackBlocked => BootError::Markers,
            // Underrun and pending jump are flow control for streaming loaders;
            // surfaced as an error they are reported as I/O.
            KbStatus::RomLdrDataUnderrun
            | KbStatus::RomLdrJumpReturned
            | KbStatus::RomLdrPendingJumpCommand => BootError::IO,
            _ => BootError::IO,
        }
    }
}

impl vstd::std_specs::convert::FromSpecImpl<KbStatus> for BootError {
    open spec fn obeys_from_spec() -> bool {
        true
    }

    open spec fn from_spec(status: KbStatus) -> BootError {
        boot_error_of_kb_status(status)
    }
}

/// Whether a raw status word is one of the codes that KBoot defines.
pub open spec fn is_known_kb_code(raw: u32) -> bool {
    raw == KSTATUS_KB_SUCCESS || raw == KSTATUS_KB_FAIL || raw == KSTATUS_KB_INVALID_ARGUMENT
        || raw == KSTATUS_KB_ROMLDR_DATA_UNDERRUN || raw == KSTATUS_KB_ROMLDR_JUMP_RETURNED
        || raw == KSTATUS_KB_ROMLDR_ROLLBACK_BLOCKED || raw == KSTATUS_KB_ROMLDR_PENDING_JUMP_COMMAND
        || raw == KSTATUS_KB_BUFFER_SIZE_NOT_ENOUGH || raw == KSTATUS_KB_INVALID_BUFFER
}

/// Decoding loses nothing: distinct status words decode to distinct statuses,
/// and a word is reported as unknown, carrying the word itself, exactly when it
/// is none of the KBoot codes.
pub proof fn lemma_kb_status_decoding_is_faithful(a: u32, b: u32)
    ensures
        a != b ==> kb_status_of(a) != kb_status_of(b),
        (kb_status_of(a) is Unknown) <==> !is_known_kb_code(a),
        kb_status_of(a) is Unknown ==> kb_status_of(a)->0 == a,
{
}

/// A raw KBoot status word, once decoded and reported as a boot error, is a
/// marker error exactly for an invalid argument, a blocked rollback, or a
/// buffer that is too small or invalid; every other word, success included,
/// is reported as an I/O error.
pub proof fn lemma_kb_raw_status_classification(raw: u32)
    ensures
        boot_error_of_kb_status(kb_status_of(raw)) == (if raw == KSTATUS_KB_INVALID_ARGUMENT
            || raw == KSTATUS_KB_ROMLDR_ROLLBACK_BLOCKED || raw == KSTATUS_KB_BUFFER_SIZE_NOT_ENOUGH
            || raw == KSTATUS_KB_INVALID_BUFFER {
            BootError::Markers
        } else {
            BootError::IO
        }),
{
}

/// Each KBoot status word decodes to the status of that number: 0 success,
/// 1 failure, 4 invalid argument, 10109 data underrun, 10110 jump returned,
/// 10115 rollback blocked, 10119 pending jump, 10802 buffer too small, 10803
/// invalid buffer; every other word is unknown and kept.
pub proof fn lemma_kb_status_codes(raw: u32)
    ensures
        kb_status_of(0) == KbStatus::Success,
        kb_status_of(1) == KbStatus::Fail,
        kb_status_of(4) == KbStatus::InvalidArgument,
        kb_status_of(10109) == KbStatus::RomLdrDataUnderrun,
        kb_status_of(10110) == KbStatus::RomLdrJumpReturned,
        kb_status_of(10115) == KbStatus::RomLdrRollbackBlocked,
        kb_status_of(10119) == KbStatus::RomLdrPendingJumpCommand,
        kb_status_of(10802) == KbStatus::RomApiBufferSizeNotEnough,
        kb_status_of(10803) == KbStatus::RomApiInvalidBuffer,
        raw != 0 && raw != 1 && raw != 4 && raw != 10109 && raw != 10110 && raw != 10115 && raw
            != 10119 && raw != 10802 && raw != 10803 ==> kb_status_of(raw) == KbStatus::Unknown(raw),
{
}

/// Each KBoot status is reported as the boot error of its kind: rejected
/// requests (invalid argument, rollback blocked, buffer too small or invalid)
/// as marker errors, everything else as I/O errors.
pub proof fn lemma_kb_status_errors(code: u32)
    ensures
        boot_error_of_kb_status(KbStatus::InvalidArgument) == BootError::Markers,
        boot_error_of_kb_status(KbStatus::RomLdrRollbackBlocked) == BootError::Markers,
        boot_error_of_kb_status(KbStatus::RomApiBufferSizeNotEnough) == BootError::Markers,
        boot_error_of_kb_status(KbStatus::RomApiInvalidBuffer) == BootError::Markers,
        boot_error_of_kb_status(KbStatus::Success) == BootError::IO,
        boot_error_of_kb_status(KbStatus::Fail) == BootError::IO,
        boot_error_of_kb_status(KbStatus::RomLdrDataUnderrun) == BootError::IO,
        boot_error_of_kb_status(KbStatus::RomLdrJumpReturned) == BootError::IO,
        boot_error_of_kb_status(KbStatus::RomLdrPendingJumpCommand) == BootError::IO,
        boot_error_of_kb_status(KbStatus::Unknown(code)) == BootError::IO,
{
}

} // verus!
