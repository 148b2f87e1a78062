//! The NBOOT driver of the ROM API, its statuses and its parameter blocks.
use vstd::prelude::*;

use super::status::{
    BootError, KNBOOT_TRUE, KSTATUS_NBOOT_FAIL, KSTATUS_NBOOT_INVALID_ARGUMENT, KSTATUS_NBOOT_KEY_NOT_AVAILABLE,
    KSTATUS_NBOOT_SUCCESS,
};

verus! {

/// The ROM's NBOOT driver, held as the address of its function table.
#[derive(Clone, Copy, Debug, PartialEq, Eq, Structural)]
pub struct NbootDriver {
    pub table: u32,
}

/// Status returned by the NBOOT ROM API, decoded from its protected word.
#[derive(Clone, Copy, Debug, PartialEq, Eq, Structural)]
pub enum NbootStatus {
    Success,
    Fail,
    InvalidArgument,
    KeyNotAvailable,
    Unknown(u64),
}

/// The NBOOT status that a protected status word denotes.
pub open spec fn nboot_status_of(raw: u64) -> NbootStatus {
    if raw == KSTATUS_NBOOT_SUCCESS {
        NbootStatus::Success
    } else if raw == KSTATUS_NBOOT_FAIL {
        NbootStatus::Fail
    } else if raw == KSTATUS_NBOOT_INVALID_ARGUMENT {
        NbootStatus::InvalidArgument
    } else if raw == KSTATUS_NBOOT_KEY_NOT_AVAILABLE {
        NbootStatus::KeyNotAvailable
    } else {
        NbootStatus::Unknown(raw)
    }
}

impl From<u64> for NbootStatus {
    fn from(raw: u64) -> (ret: Self) {
        if raw == KSTATUS_NBOOT_SUCCESS {
            NbootStatus::Success
        } else if raw == KSTATUS_NBOOT_FAIL {
            NbootStatus::Fail
        } else if raw == KSTATUS_NBOOT_INVALID_ARGUMENT {
            NbootStatus::InvalidArgument
        } else if raw == KSTATUS_NBOOT_KEY_NOT_AVAILABLE {
            NbootStatus::KeyNotAvailable
        } else {
            NbootStatus::Unknown(raw)
        }
    }
}

impl vstd::std_specs::convert::FromSpecImpl<u64> for NbootStatus {
    open spec fn obeys_from_spec() -> bool {
        true
    }

    open spec fn from_spec(raw: u64) -> NbootStatus {
        nboot_status_of(raw)
    }
}

/// Only the one protected success word decodes to success: any other word,
/// including one that differs from it in a single bit, does not.
pub proof fn lemma_nboot_success_is_exact(raw: u64)
    ensures
        nboot_status_of(raw) == NbootStatus::Success <==> raw == KSTATUS_NBOOT_SUCCESS,
        nboot_status_of(raw) is Unknown ==> nboot_status_of(raw)->0 == raw,
{
}

/// The boot error that an NBOOT status is reported as: a failed NBOOT call,
/// whatever its status, means the image could not be authenticated.
pub open spec fn boot_error_of_nboot_status(status: NbootStatus) -> BootError {
    match status {
        _ => BootError::Authenticate,
    }
}

impl From<NbootStatus> for BootError {
    fn from(status: NbootStatus) -> (ret: Self) {
        match status {
            _ => BootError::Authenticate,
        }
    }
}

impl vstd::std_specs::convert::FromSpecImpl<NbootStatus> for BootError {
    open spec fn obeys_from_spec() -> bool {
        true
    }

    open spec fn from_spec(status: NbootStatus) -> BootError {
        boot_error_of_nboot_status(status)
    }
}

/// Whether a protected NBOOT boolean is true. Only the one protected true
/// word counts: the false word, and any corrupted word, is not true.
pub open spec fn nboot_bool_true(raw: u32) -> bool {
    raw == KNBOOT_TRUE
}

/// Whether a protected NBOOT boolean is true.
pub fn nboot_bool_is_true(raw: u32) -> (ret: bool)
    ensures
        ret == nboot_bool_true(raw),
        ret <==> raw == KNBOOT_TRUE,
{
    raw == KNBOOT_TRUE
}

/// Each NBOOT status word decodes to the status of that number, every other
/// word is unknown and kept; only the word 0x3C5A_C33C is a true boolean.
pub proof fn lemma_nboot_codes(raw: u64, b: u32)
    ensures
        nboot_status_of(0x5A5A_5A5A) == NbootStatus::Success,
        nboot_status_of(0x5A5A_A5A5) == NbootStatus::Fail,
        nboot_status_of(0x5A5A_A5F0) == NbootStatus::InvalidArgument,
        nboot_status_of(0x5A5A_A5E6) == NbootStatus::KeyNotAvailable,
        raw != 0x5A5A_5A5A && raw != 0x5A5A_A5A5 && raw != 0x5A5A_A5F0 && raw != 0x5A5A_A5E6
            ==> nboot_status_of(raw) == NbootStatus::Unknown(raw),
        nboot_bool_true(b) <==> b == 0x3C5A_C33C,
{
}

/// Root-of-trust part of the NBOOT image authentication parameters.
#[derive(Clone, Copy, Debug)]
pub struct NbootRotAuthParms {
    /// Revocation state of each root key.
    pub soc_rootKeyRevocation: [u32; 4],
    /// Image key revocation counter.
    pub soc_imageKeyRevocation: u32,
    /// Root key table hash.
    pub soc_rkh: [u32; 12],
    /// Root key table hash of the post-quantum keys of hybrid key pairs.
    pub soc_rkh_1: [u32; 12],
    /// Number of root keys.
    pub soc_numberOfRootKeys: u32,
    /// Usage of each root key.
    pub soc_rootKeyUsage: [u32; 4],
    /// Type and length of the root keys.
    pub soc_rootKeyTypeAndLength: u32,
    /// Lifecycle state of the device.
    pub soc_lifecycle: u32,
}

/// Parameters of the NBOOT image authentication.
#[derive(Clone, Copy, Debug)]
pub struct NbootImgAuthParms {
    pub soc_RoTNVM: NbootRotAuthParms,
    /// Trusted firmware version.
    pub soc_trustedFirmwareVersion: u32,
}

} // verus!
