//! The KBoot (KB) ROM API: its request structures and its driver. Addresses
//! that the ROM reads are held as the 32-bit words that it stores.
use vstd::prelude::*;

verus! {

/// A memory region handed to the ROM.
#[derive(Clone, Copy, Debug, PartialEq, Eq, Structural)]
pub struct KbRegion {
    /// Region base address.
    pub address: u32,
    /// Region length in bytes.
    pub length: u32,
}

/// A KBoot operation.
#[derive(Clone, Copy, Debug, PartialEq, Eq, Structural)]
pub enum KbOperation {
    /// Verify and authenticate an image.
    AuthenticateImage,
    /// Load an image.
    LoadImage,
    /// Number of KBoot operations.
    OperationCount,
}

/// The code by which the ROM knows an operation.
pub open spec fn kb_operation_code(op: KbOperation) -> u32 {
    match op {
        KbOperation::AuthenticateImage => 1,
        KbOperation::LoadImage => 2,
        KbOperation::OperationCount => 3,
    }
}

impl KbOperation {
    /// The code by which the ROM knows this operation.
    pub fn code(self) -> (ret: u32)
        ensures
            ret == kb_operation_code(self),
    {
        match self {
            KbOperation::AuthenticateImage => 1,
            KbOperation::LoadImage => 2,
            KbOperation::OperationCount => 3,
        }
    }
}

/// Distinct operations have distinct codes.
pub proof fn lemma_kb_operation_codes_distinct(a: KbOperation, b: KbOperation)
    ensures
        a != b ==> kb_operation_code(a) != kb_operation_code(b),
{
}

/// The ROM's operation codes: authenticate 1, load 2, operation count 3.
pub proof fn lemma_kb_operation_code_values()
    ensures
        kb_operation_code(KbOperation::AuthenticateImage) == 1,
        kb_operation_code(KbOperation::LoadImage) == 2,
        kb_operation_code(KbOperation::OperationCount) == 3,
{
}

/// Parameters of a load operation.
#[derive(Clone, Copy, Debug, PartialEq, Eq, Structural)]
pub struct KbLoadSb {
    /// Profile selector.
    pub profile: u32,
    /// Minimum build number.
    pub minBuildNumber: u32,
    /// Override of the SB boot section ID.
    pub overrideSBBootSectionID: u32,
    /// Address of the user SB KEK.
    pub userSBKEK: u32,
    /// Number of region descriptors.
    pub regionCount: u32,
    /// Address of the array of region descriptors.
    pub regions: u32,
}

/// Parameters of an authenticate operation.
#[derive(Clone, Copy, Debug, PartialEq, Eq, Structural)]
pub struct KbAuthenticate {
    /// Profile selector.
    pub profile: u32,
    /// Minimum build number.
    pub minBuildNumber: u32,
    /// Maximum image length.
    pub maxImageLength: u32,
    /// Address of the user RHK.
    pub userRHK: u32,
}

/// The operation-specific parameters of a request; the ROM reads them as the
/// variant that the request's operation names.
#[derive(Clone, Copy, Debug, PartialEq, Eq, Structural)]
pub enum KbOptionsParams {
    Authenticate(KbAuthenticate),
    LoadSb(KbLoadSb),
}

/// A KBoot request.
#[derive(Clone, Copy, Debug, PartialEq, Eq, Structural)]
pub struct KbOptions {
    /// The KBoot API version.
    pub version: u32,
    /// Address of the caller-provided buffer used by the ROM.
    pub buffer: u32,
    /// Length of the buffer in bytes.
    pub bufferLength: u32,
    /// Requested operation.
    pub op: KbOperation,
    /// Operation-specific parameters.
    pub params: KbOptionsParams,
}

/// A buffer descriptor kept by the ROM.
#[derive(Clone, Copy, Debug, PartialEq, Eq, Structural)]
pub struct KbBufferDesc {
    /// Buffer address.
    pub buf: u32,
    /// Buffer length in bytes.
    pub len: u32,
    /// Allocated size.
    pub allocated: u32,
}

/// A KBoot session as the ROM keeps it.
#[derive(Clone, Copy, Debug, PartialEq, Eq, Structural)]
pub struct KbSessionRef {
    /// Options used to create the session.
    pub options: KbOptions,
    /// Internal buffer descriptor.
    pub buffer_desc: KbBufferDesc,
    /// Address of the opaque operation context.
    pub op_context: u32,
}

/// The ROM's KBoot driver, held as the address of its function table, which
/// holds `kb_init`, `kb_deinit` and `kb_execute` in that order.
#[derive(Clone, Copy, Debug, PartialEq, Eq, Structural)]
pub struct KBApiDriver {
    pub table: u32,
}

} // verus!
