//! The policy of image authentication through the NBOOT ROM API: how the
//! authentication parameters are assembled from the device's IFR (CMPA and
//! CFPA pages), with strict defaults wherever a read fails, and how the ROM's
//! answers decide whether an image is authentic.
//!
//! Authentication succeeds only when the CMPA holds both root key table
//! hashes, the NBOOT context could be initialised, and the ROM reports
//! success with a true signature verdict; every other outcome is an error.
//! In a development lifecycle the root key table hash derived from the
//! image replaces the CMPA one, since keys may not be provisioned yet.
//!
//! The sequence of reads and ROM calls is the state machine `auth_step`:
//! the caller performs each action it returns and answers with the event.
use vstd::prelude::*;

use crate::rom_api::nboot::{
    boot_error_of_nboot_status, nboot_bool_is_true, nboot_bool_true, nboot_status_of,
    NbootImgAuthParms, NbootRotAuthParms, NbootStatus,
};
use crate::rom_api::NbootBool;
use crate::rom_api::status::BootError;

verus! {

/// Number of root keys; the ROM requires four.
pub const NBOOT_NUMBER_OF_ROOT_KEYS: u32 = 4;

/// The ROM's encodings of the values that the strict defaults use.
#[derive(Clone, Copy, Debug, PartialEq, Eq, Structural)]
pub struct NbootEncodings {
    /// Revocation state "revoked" of a root key.
    pub root_key_revoked: u32,
    /// Usage "unused" of a root key.
    pub root_key_unused: u32,
    /// Root key type of hybrid ECDSA P-384 and ML-DSA-87 keys.
    pub root_key_type_hybrid: u32,
    /// The device lifecycle "in field", as the ROM takes it.
    pub lifecycle_in_field: u32,
    /// The device lifecycle "develop", as the ROM takes it.
    pub lifecycle_develop: u32,
}

/// Encodings are usable when "in field", the lifecycle assumed when the
/// lifecycle read fails, cannot be mistaken for "develop": otherwise a failed
/// read would let the image supply its own root key table hash.
pub open spec fn encodings_well_formed(enc: NbootEncodings) -> bool {
    enc.lifecycle_in_field != enc.lifecycle_develop
}

impl NbootEncodings {
    /// Whether these encodings are usable.
    pub fn is_well_formed(&self) -> (ret: bool)
        ensures
            ret == encodings_well_formed(*self),
    {
        self.lifecycle_in_field != self.lifecycle_develop
    }
}

/// What was read from the CMPA and CFPA pages; `None` where a read failed.
#[derive(Clone, Copy, Debug)]
pub struct IfrReadings {
    /// Root key table hash, from the CMPA.
    pub cmpa_rotkh: Option<[u32; 12]>,
    /// Root key table hash of the post-quantum keys, from the CMPA.
    pub cmpa_pqc_rotkh: Option<[u32; 12]>,
    /// Image key revocation counter, from the CFPA.
    pub cfpa_image_key_revocation: Option<u32>,
    /// Revocation state of each root key, from the CFPA, in the ROM's encoding.
    pub cfpa_root_key_revocation: Option<[u32; 4]>,
    /// Trusted firmware version, from the CFPA.
    pub cfpa_firmware_version: Option<u32>,
    /// Usage of each root key, from the CMPA, in the ROM's encoding.
    pub cmpa_root_key_usage: Option<[u32; 4]>,
    /// Lifecycle state, from the CFPA, in the ROM's encoding.
    pub cfpa_lifecycle: Option<u32>,
}

/// A reading where there is one, and the default where the read failed.
pub open spec fn reading_or<T>(reading: Option<T>, default: T) -> T {
    match reading {
        Some(value) => value,
        None => default,
    }
}

/// The strict parameters in force before anything is read: every root key
/// revoked and unused, the highest image key revocation and firmware version,
/// zero key hashes, four hybrid root keys, and the device in field.
pub open spec fn is_strict_nboot_parms(parms: NbootImgAuthParms, enc: NbootEncodings) -> bool {
    let rot = parms.soc_RoTNVM;
    &&& rot.soc_rootKeyRevocation@ == seq![enc.root_key_revoked; 4]
    &&& rot.soc_imageKeyRevocation == 0xFFFF_FFFF
    &&& rot.soc_rkh@ == seq![0u32; 12]
    &&& rot.soc_rkh_1@ == seq![0u32; 12]
    &&& rot.soc_numberOfRootKeys == NBOOT_NUMBER_OF_ROOT_KEYS
    &&& rot.soc_rootKeyUsage@ == seq![enc.root_key_unused; 4]
    &&& rot.soc_rootKeyTypeAndLength == enc.root_key_type_hybrid
    &&& rot.soc_lifecycle == enc.lifecycle_in_field
    &&& parms.soc_trustedFirmwareVersion == 0xFFFF_FFFF
}

/// The strict parameters in force before anything is read.
pub fn default_nboot_parms(enc: &NbootEncodings) -> (ret: NbootImgAuthParms)
    ensures
        is_strict_nboot_parms(ret, *enc),
{
    let parms = NbootImgAuthParms {
        soc_RoTNVM: NbootRotAuthParms {
            soc_rootKeyRevocation: [
                enc.root_key_revoked,
                enc.root_key_revoked,
                enc.root_key_revoked,
                enc.root_key_revoked,
            ],
            soc_imageKeyRevocation: 0xFFFF_FFFF,
            soc_rkh: [0; 12],
            soc_rkh_1: [0; 12],
            soc_numberOfRootKeys: NBOOT_NUMBER_OF_ROOT_KEYS,
            soc_rootKeyUsage: [
                enc.root_key_unused,
                enc.root_key_unused,
                enc.root_key_unused,
                enc.root_key_unused,
            ],
            soc_rootKeyTypeAndLength: enc.root_key_type_hybrid,
            soc_lifecycle: enc.lifecycle_in_field,
        },
        soc_trustedFirmwareVersion: 0xFFFF_FFFF,
    };
    let rot = parms.soc_RoTNVM;
    assert(rot.soc_rootKeyRevocation@ =~= seq![enc.root_key_revoked; 4]);
    assert(rot.soc_rkh@ =~= seq![0u32; 12]);
    assert(rot.soc_rkh_1@ =~= seq![0u32; 12]);
    assert(rot.soc_rootKeyUsage@ =~= seq![enc.root_key_unused; 4]);
    parms
}

/// `parms` holds what the IFR readings give, and the strict default wherever
/// a read failed; the key hashes, which have no default, are those read.
pub open spec fn parms_from_readings(
    parms: NbootImgAuthParms,
    enc: NbootEncodings,
    ifr: IfrReadings,
) -> bool {
    let rot = parms.soc_RoTNVM;
    &&& ifr.cmpa_rotkh matches Some(rkh) && rot.soc_rkh == rkh
    &&& ifr.cmpa_pqc_rotkh matches Some(rkh_1) && rot.soc_rkh_1 == rkh_1
    &&& rot.soc_imageKeyRevocation == reading_or(ifr.cfpa_image_key_revocation, 0xFFFF_FFFFu32)
    &&& match ifr.cfpa_root_key_revocation {
        Some(revocation) => rot.soc_rootKeyRevocation == revocation,
        None => rot.soc_rootKeyRevocation@ == seq![enc.root_key_revoked; 4],
    }
    &&& parms.soc_trustedFirmwareVersion == reading_or(ifr.cfpa_firmware_version, 0xFFFF_FFFFu32)
    &&& match ifr.cmpa_root_key_usage {
        Some(usage) => rot.soc_rootKeyUsage == usage,
        None => rot.soc_rootKeyUsage@ == seq![enc.root_key_unused; 4],
    }
    &&& rot.soc_lifecycle == reading_or(ifr.cfpa_lifecycle, enc.lifecycle_in_field)
    &&& rot.soc_numberOfRootKeys == NBOOT_NUMBER_OF_ROOT_KEYS
    &&& rot.soc_rootKeyTypeAndLength == enc.root_key_type_hybrid
}

/// Assembles the NBOOT authentication parameters from the IFR readings,
/// starting from the strict defaults. Both root key table hashes are
/// required: without either, the root of trust is missing and no parameters
/// are produced. Every other value replaces its default only if it was read.
pub fn nboot_auth_parms_from_ifr(enc: &NbootEncodings, ifr: &IfrReadings) -> (ret: Result<
    NbootImgAuthParms,
    BootError,
>)
    requires
        encodings_well_formed(*enc),
    ensures
        ret is Err <==> (ifr.cmpa_rotkh is None || ifr.cmpa_pqc_rotkh is None),
        match ret {
            Ok(parms) => parms_from_readings(parms, *enc, *ifr),
            Err(e) => e == BootError::RootOfTrust,
        },
        match ret {
            Ok(parms) => {
                &&& ifr.cmpa_rotkh == Some(parms.soc_RoTNVM.soc_rkh)
                &&& ifr.cmpa_pqc_rotkh == Some(parms.soc_RoTNVM.soc_rkh_1)
                &&& parms.soc_RoTNVM.soc_imageKeyRevocation == match ifr.cfpa_image_key_revocation {
                    Some(v) => v,
                    None => 0xFFFF_FFFFu32,
                }
                &&& parms.soc_trustedFirmwareVersion == match ifr.cfpa_firmware_version {
                    Some(v) => v,
                    None => 0xFFFF_FFFFu32,
                }
                &&& parms.soc_RoTNVM.soc_lifecycle == match ifr.cfpa_lifecycle {
                    Some(v) => v,
                    None => enc.lifecycle_in_field,
                }
            },
            Err(_) => true,
        },
{
    let mut parms = default_nboot_parms(enc);

    if let Some(cmpa_rotkh) = ifr.cmpa_rotkh {
        parms.soc_RoTNVM.soc_rkh = cmpa_rotkh;
    } else {
        return Err(BootError::RootOfTrust);
    }

    if let Some(cmpa_pqc_rotkh) = ifr.cmpa_pqc_rotkh {
        parms.soc_RoTNVM.soc_rkh_1 = cmpa_pqc_rotkh;
    } else {
        return Err(BootError::RootOfTrust);
    }

    if let Some(revocation) = ifr.cfpa_image_key_revocation {
        parms.soc_RoTNVM.soc_imageKeyRevocation = revocation;
    }
    if let Some(revocation) = ifr.cfpa_root_key_revocation {
        parms.soc_RoTNVM.soc_rootKeyRevocation = revocation;
    }
    if let Some(version) = ifr.cfpa_firmware_version {
        parms.soc_trustedFirmwareVersion = version;
    }
    if let Some(usage) = ifr.cmpa_root_key_usage {
        parms.soc_RoTNVM.soc_rootKeyUsage = usage;
    }
    if let Some(lifecycle) = ifr.cfpa_lifecycle {
        parms.soc_RoTNVM.soc_lifecycle = lifecycle;
    }
    Ok(parms)
}

/// What the status of the NBOOT context initialisation means for the
/// authentication: it goes on only after success.
pub open spec fn context_init_result(status: NbootStatus) -> Result<(), BootError> {
    if status == NbootStatus::Success {
        Ok(())
    } else {
        Err(BootError::Authenticate)
    }
}

/// What the ROM's answer to the authentication request means: the image is
/// authentic only if the ROM reports success and a true signature verdict;
/// otherwise the ROM's status is reported as a boot error.
pub open spec fn authentication_result(status: NbootStatus, sig_ok: NbootBool) -> Result<
    (),
    BootError,
> {
    if status == NbootStatus::Success && nboot_bool_true(sig_ok) {
        Ok(())
    } else {
        Err(boot_error_of_nboot_status(status))
    }
}

/// Decides whether the authentication may go on after the NBOOT context
/// initialisation returned `status`.
pub fn check_context_init(status: NbootStatus) -> (ret: Result<(), BootError>)
    ensures
        ret == context_init_result(status),
{
    match status {
        NbootStatus::Success => Ok(()),
        _ => Err(BootError::Authenticate),
    }
}

/// Decides the outcome of the authentication from the ROM's status and its
/// protected signature verdict.
pub fn authentication_outcome(status: NbootStatus, sig_ok: NbootBool) -> (ret: Result<
    (),
    BootError,
>)
    ensures
        ret == authentication_result(status, sig_ok),
{
    match status {
        NbootStatus::Success if nboot_bool_is_true(sig_ok) => Ok(()),
        _ => Err(BootError::from(status)),
    }
}

/// Whether the parameters put the device in a development lifecycle.
pub open spec fn is_development(parms: NbootImgAuthParms, enc: NbootEncodings) -> bool {
    parms.soc_RoTNVM.soc_lifecycle == enc.lifecycle_develop
}

/// The parameters with the root key table hash derived from the image in
/// place of the CMPA one, where one was derived.
pub open spec fn with_image_rkth(parms: NbootImgAuthParms, image_rkth: Option<[u32; 12]>) -> NbootImgAuthParms {
    match image_rkth {
        Some(rkth) => NbootImgAuthParms {
            soc_RoTNVM: NbootRotAuthParms { soc_rkh: rkth, ..parms.soc_RoTNVM },
            ..parms
        },
        None => parms,
    }
}

/// The development-mode step: where the image's root key table hash could be
/// derived and differs from the CMPA one, it is copied into the parameters
/// so that authentication can proceed with keys not yet provisioned. Callers
/// take this step only in a development lifecycle.
pub fn use_image_rkth(parms: NbootImgAuthParms, image_rkth: Option<[u32; 12]>) -> (ret:
    NbootImgAuthParms)
    ensures
        ret == with_image_rkth(parms, image_rkth),
{
    let mut parms = parms;
    // Where the derived hash equals the CMPA one, writing it changes nothing.
    if let Some(rkth) = image_rkth {
        parms.soc_RoTNVM.soc_rkh = rkth;
    }
    parms
}

/// The reads of the CFPA and CMPA that have defaults, done once both root
/// key table hashes are in; `None` where a read failed.
#[derive(Clone, Copy, Debug)]
pub struct IfrOptionalReadings {
    pub cfpa_image_key_revocation: Option<u32>,
    pub cfpa_root_key_revocation: Option<[u32; 4]>,
    pub cfpa_firmware_version: Option<u32>,
    pub cmpa_root_key_usage: Option<[u32; 4]>,
    pub cfpa_lifecycle: Option<u32>,
}

/// All readings, once both hashes were read.
pub open spec fn readings_with_hashes(
    rotkh: [u32; 12],
    pqc_rotkh: [u32; 12],
    optional: IfrOptionalReadings,
) -> IfrReadings {
    IfrReadings {
        cmpa_rotkh: Some(rotkh),
        cmpa_pqc_rotkh: Some(pqc_rotkh),
        cfpa_image_key_revocation: optional.cfpa_image_key_revocation,
        cfpa_root_key_revocation: optional.cfpa_root_key_revocation,
        cfpa_firmware_version: optional.cfpa_firmware_version,
        cmpa_root_key_usage: optional.cmpa_root_key_usage,
        cfpa_lifecycle: optional.cfpa_lifecycle,
    }
}

/// Where an authentication attempt stands: which answer it waits for.
#[derive(Clone, Copy, Debug)]
pub enum AuthState {
    AwaitRotkh,
    AwaitPqcRotkh { rotkh: [u32; 12] },
    AwaitOptionalReads { rotkh: [u32; 12], pqc_rotkh: [u32; 12] },
    AwaitImageRkth { parms: NbootImgAuthParms },
    AwaitContextInit { parms: NbootImgAuthParms },
    AwaitAuthentication,
    AwaitContextRelease { result: Result<(), BootError> },
    Done { result: Result<(), BootError> },
}

/// What the caller is asked to do next.
#[derive(Clone, Copy, Debug)]
pub enum AuthAction {
    /// Read the root key table hash from the CMPA.
    ReadCmpaRotkh,
    /// Read the post-quantum root key table hash from the CMPA.
    ReadCmpaPqcRotkh,
    /// Read the values that have defaults from the CFPA and CMPA.
    ReadOptional,
    /// Derive the root key table hash from the image's AHAB container.
    DeriveImageRkth,
    /// Initialise the NBOOT context.
    InitContext,
    /// Ask the ROM to authenticate the image with these parameters.
    Authenticate(NbootImgAuthParms),
    /// Release the NBOOT context.
    ReleaseContext,
    /// The attempt is over, with this result.
    Finish(Result<(), BootError>),
}

/// The answer to an action.
#[derive(Clone, Copy, Debug)]
pub enum AuthEvent {
    CmpaRotkh(Option<[u32; 12]>),
    CmpaPqcRotkh(Option<[u32; 12]>),
    OptionalReads(IfrOptionalReadings),
    ImageRkth(Option<[u32; 12]>),
    /// The protected status word of the context initialisation.
    ContextInit(u64),
    /// The protected status word and signature verdict of the authentication.
    Authenticated { status: u64, sig_ok: NbootBool },
    ContextReleased,
}

/// The first state and action of an authentication attempt.
pub open spec fn auth_initial() -> (AuthState, AuthAction) {
    (AuthState::AwaitRotkh, AuthAction::ReadCmpaRotkh)
}

/// One step of an authentication attempt, from the state and the answer to
/// the pending action to the next state and action. An answer that does not
/// fit the pending action ends the attempt refused.
pub open spec fn auth_transition(
    enc: NbootEncodings,
    state: AuthState,
    event: AuthEvent,
    next: AuthState,
    action: AuthAction,
) -> bool {
    match state {
        AuthState::AwaitRotkh => match event {
            AuthEvent::CmpaRotkh(Some(rotkh)) => next == (AuthState::AwaitPqcRotkh { rotkh })
                && action == AuthAction::ReadCmpaPqcRotkh,
            AuthEvent::CmpaRotkh(None) => refused(next, action, BootError::RootOfTrust),
            _ => refused(next, action, BootError::Authenticate),
        },
        AuthState::AwaitPqcRotkh { rotkh } => match event {
            AuthEvent::CmpaPqcRotkh(Some(pqc_rotkh)) => next == (AuthState::AwaitOptionalReads {
                rotkh,
                pqc_rotkh,
            }) && action == AuthAction::ReadOptional,
            AuthEvent::CmpaPqcRotkh(None) => refused(next, action, BootError::RootOfTrust),
            _ => refused(next, action, BootError::Authenticate),
        },
        AuthState::AwaitOptionalReads { rotkh, pqc_rotkh } => match event {
            AuthEvent::OptionalReads(optional) => match next {
                AuthState::AwaitImageRkth { parms } => {
                    &&& parms_from_readings(parms, enc, readings_with_hashes(rotkh, pqc_rotkh, optional))
                    &&& is_development(parms, enc)
                    &&& action == AuthAction::DeriveImageRkth
                },
                AuthState::AwaitContextInit { parms } => {
                    &&& parms_from_readings(parms, enc, readings_with_hashes(rotkh, pqc_rotkh, optional))
                    &&& !is_development(parms, enc)
                    &&& action == AuthAction::InitContext
                },
                _ => false,
            },
            _ => refused(next, action, BootError::Authenticate),
        },
        AuthState::AwaitImageRkth { parms } => match event {
            AuthEvent::ImageRkth(image_rkth) => next == (AuthState::AwaitContextInit {
                parms: with_image_rkth(parms, image_rkth),
            }) && action == AuthAction::InitContext,
            _ => refused(next, action, BootError::Authenticate),
        },
        AuthState::AwaitContextInit { parms } => match event {
            AuthEvent::ContextInit(raw) => if nboot_status_of(raw) == NbootStatus::Success {
                next == AuthState::AwaitAuthentication && action == AuthAction::Authenticate(parms)
            } else {
                refused(next, action, BootError::Authenticate)
            },
            _ => refused(next, action, BootError::Authenticate),
        },
        AuthState::AwaitAuthentication => match event {
            AuthEvent::Authenticated { status, sig_ok } => next == (AuthState::AwaitContextRelease {
                result: authentication_result(nboot_status_of(status), sig_ok),
            }) && action == AuthAction::ReleaseContext,
            _ => refused(next, action, BootError::Authenticate),
        },
        AuthState::AwaitContextRelease { result } => match event {
            AuthEvent::ContextReleased => next == (AuthState::Done { result }) && action
                == AuthAction::Finish(result),
            _ => refused(next, action, BootError::Authenticate),
        },
        AuthState::Done { result } => next == (AuthState::Done { result }) && action
            == AuthAction::Finish(result),
    }
}

/// The attempt ends, refused with `error`.
pub open spec fn refused(next: AuthState, action: AuthAction, error: BootError) -> bool {
    next == (AuthState::Done { result: Err(error) }) && action == AuthAction::Finish(Err(error))
}

/// Starts an authentication attempt: the first thing to do is to read the
/// CMPA root key table hash.
pub fn auth_start() -> (ret: (AuthState, AuthAction))
    ensures
        ret == auth_initial(),
{
    (AuthState::AwaitRotkh, AuthAction::ReadCmpaRotkh)
}

fn refuse(error: BootError) -> (ret: (AuthState, AuthAction))
    ensures
        refused(ret.0, ret.1, error),
{
    (AuthState::Done { result: Err(error) }, AuthAction::Finish(Err(error)))
}

/// One step of an authentication attempt: takes the answer to the pending
/// action and gives the next state and action.
pub fn auth_step(enc: &NbootEncodings, state: AuthState, event: AuthEvent) -> (ret: (
    AuthState,
    AuthAction,
))
    requires
        encodings_well_formed(*enc),
    ensures
        auth_transition(*enc, state, event, ret.0, ret.1),
{
    match state {
        AuthState::AwaitRotkh => match event {
            AuthEvent::CmpaRotkh(Some(rotkh)) => (
                AuthState::AwaitPqcRotkh { rotkh },
                AuthAction::ReadCmpaPqcRotkh,
            ),
            AuthEvent::CmpaRotkh(None) => refuse(BootError::RootOfTrust),
            _ => refuse(BootError::Authenticate),
        },
        AuthState::AwaitPqcRotkh { rotkh } => match event {
            AuthEvent::CmpaPqcRotkh(Some(pqc_rotkh)) => (
                AuthState::AwaitOptionalReads { rotkh, pqc_rotkh },
                AuthAction::ReadOptional,
            ),
            AuthEvent::CmpaPqcRotkh(None) => refuse(BootError::RootOfTrust),
            _ => refuse(BootError::Authenticate),
        },
        AuthState::AwaitOptionalReads { rotkh, pqc_rotkh } => match event {
            AuthEvent::OptionalReads(optional) => {
                let ifr = IfrReadings {
                    cmpa_rotkh: Some(rotkh),
                    cmpa_pqc_rotkh: Some(pqc_rotkh),
                    cfpa_image_key_revocation: optional.cfpa_image_key_revocation,
                    cfpa_root_key_revocation: optional.cfpa_root_key_revocation,
                    cfpa_firmware_version: optional.cfpa_firmware_version,
                    cmpa_root_key_usage: optional.cmpa_root_key_usage,
                    cfpa_lifecycle: optional.cfpa_lifecycle,
                };
                assert(ifr == readings_with_hashes(rotkh, pqc_rotkh, optional));
                match nboot_auth_parms_from_ifr(enc, &ifr) {
                    Ok(parms) => {
                        if parms.soc_RoTNVM.soc_lifecycle == enc.lifecycle_develop {
                            (AuthState::AwaitImageRkth { parms }, AuthAction::DeriveImageRkth)
                        } else {
                            (AuthState::AwaitContextInit { parms }, AuthAction::InitContext)
                        }
                    },
                    Err(error) => refuse(error),
                }
            },
            _ => refuse(BootError::Authenticate),
        },
        AuthState::AwaitImageRkth { parms } => match event {
            AuthEvent::ImageRkth(image_rkth) => (
                AuthState::AwaitContextInit { parms: use_image_rkth(parms, image_rkth) },
                AuthAction::InitContext,
            ),
            _ => refuse(BootError::Authenticate),
        },
        AuthState::AwaitContextInit { parms } => match event {
            AuthEvent::ContextInit(raw) => match check_context_init(NbootStatus::from(raw)) {
                Ok(()) => (AuthState::AwaitAuthentication, AuthAction::Authenticate(parms)),
                Err(error) => refuse(error),
            },
            _ => refuse(BootError::Authenticate),
        },
        AuthState::AwaitAuthentication => match event {
            AuthEvent::Authenticated { status, sig_ok } => {
                let result = authentication_outcome(NbootStatus::from(status), sig_ok);
                (AuthState::AwaitContextRelease { result }, AuthAction::ReleaseContext)
            },
            _ => refuse(BootError::Authenticate),
        },
        AuthState::AwaitContextRelease { result } => match event {
            AuthEvent::ContextReleased => (AuthState::Done { result }, AuthAction::Finish(result)),
            _ => refuse(BootError::Authenticate),
        },
        AuthState::Done { result } => (AuthState::Done { result }, AuthAction::Finish(result)),
    }
}

/// The ROM's answer decides authenticity: an image is authentic exactly when
/// the ROM's protected status word is the success word and its protected
/// signature verdict is the true word; otherwise its status is reported as a
/// boot error.
pub proof fn lemma_authentication_result_exact(status: u64, sig_ok: NbootBool)
    ensures
        authentication_result(nboot_status_of(status), sig_ok) is Ok <==> (status
            == crate::rom_api::status::KSTATUS_NBOOT_SUCCESS && sig_ok
            == crate::rom_api::status::KNBOOT_TRUE),
        authentication_result(nboot_status_of(status), sig_ok) is Err ==> authentication_result(
            nboot_status_of(status),
            sig_ok,
        ) == Err::<(), BootError>(boot_error_of_nboot_status(nboot_status_of(status))),
{
}

/// The order of an authentication attempt: the NBOOT context is initialised
/// only once both root key table hashes were read (and, in a development
/// lifecycle, the image's hash was derived); the ROM is asked to authenticate
/// only right after a successful initialisation, with the parameters
/// assembled before; the context is released right after the authentication;
/// the image hash is derived only in a development lifecycle; and an attempt
/// ends accepted only by releasing the context after the ROM reported
/// success with a true signature verdict.
pub proof fn lemma_auth_step_order(
    enc: NbootEncodings,
    state: AuthState,
    event: AuthEvent,
    next: AuthState,
    action: AuthAction,
)
    requires
        auth_transition(enc, state, event, next, action),
    ensures
        action is InitContext ==> (state is AwaitOptionalReads || state is AwaitImageRkth),
        match action {
            AuthAction::Authenticate(p) => match (state, event) {
                (AuthState::AwaitContextInit { parms }, AuthEvent::ContextInit(raw)) => p == parms
                    && raw == crate::rom_api::status::KSTATUS_NBOOT_SUCCESS,
                _ => false,
            },
            _ => true,
        },
        (state is AwaitAuthentication && event is Authenticated) ==> action is ReleaseContext,
        action is ReleaseContext ==> state is AwaitAuthentication,
        action is DeriveImageRkth ==> match next {
            AuthState::AwaitImageRkth { parms } => is_development(parms, enc),
            _ => false,
        },
        match next {
            AuthState::AwaitContextRelease { result } => (result is Ok <==> match event {
                AuthEvent::Authenticated { status, sig_ok } => status
                    == crate::rom_api::status::KSTATUS_NBOOT_SUCCESS && sig_ok
                    == crate::rom_api::status::KNBOOT_TRUE,
                _ => false,
            }),
            _ => true,
        },
        action == AuthAction::Finish(Ok(())) ==> match state {
            AuthState::AwaitContextRelease { result } => result is Ok,
            AuthState::Done { result } => result is Ok,
            _ => false,
        },
{
}

/// An attempt that has not read both root key table hashes, or whose
/// context initialisation failed, ends at once: refused, without any
/// further read or ROM call.
pub proof fn lemma_failures_end_the_attempt(
    enc: NbootEncodings,
    state: AuthState,
    event: AuthEvent,
    next: AuthState,
    action: AuthAction,
)
    requires
        auth_transition(enc, state, event, next, action),
    ensures
        (state is AwaitRotkh && event == AuthEvent::CmpaRotkh(None)) ==> (action
            == AuthAction::Finish(Err(BootError::RootOfTrust))),
        (state is AwaitPqcRotkh && event == AuthEvent::CmpaPqcRotkh(None)) ==> (action
            == AuthAction::Finish(Err(BootError::RootOfTrust))),
        match (state, event) {
            (AuthState::AwaitContextInit { .. }, AuthEvent::ContextInit(raw)) => raw
                != crate::rom_api::status::KSTATUS_NBOOT_SUCCESS ==> action == AuthAction::Finish(
                Err(BootError::Authenticate),
            ),
            _ => true,
        },
{
}

/// The development-mode step is fail-safe: when the lifecycle read fails,
/// or reads "in field", the image's root key table hash is never asked for,
/// and the NBOOT context is initialised with the CMPA hash.
pub proof fn lemma_failed_lifecycle_read_never_derives(
    enc: NbootEncodings,
    rotkh: [u32; 12],
    pqc_rotkh: [u32; 12],
    optional: IfrOptionalReadings,
    next: AuthState,
    action: AuthAction,
)
    requires
        encodings_well_formed(enc),
        auth_transition(
            enc,
            AuthState::AwaitOptionalReads { rotkh, pqc_rotkh },
            AuthEvent::OptionalReads(optional),
            next,
            action,
        ),
        optional.cfpa_lifecycle is None || optional.cfpa_lifecycle == Some(enc.lifecycle_in_field),
    ensures
        !(action is DeriveImageRkth),
        action is InitContext,
        match next {
            AuthState::AwaitContextInit { parms } => parms.soc_RoTNVM.soc_rkh == rotkh,
            _ => false,
        },
{
}

/// Every IFR reading lands in its own field of the parameters, and a field
/// takes its strict default only when its read failed: a read of any value,
/// zero included, is used as read.
pub proof fn lemma_readings_land_in_their_fields(
    parms: NbootImgAuthParms,
    enc: NbootEncodings,
    ifr: IfrReadings,
)
    requires
        parms_from_readings(parms, enc, ifr),
    ensures
        ifr.cmpa_rotkh == Some(parms.soc_RoTNVM.soc_rkh),
        ifr.cmpa_pqc_rotkh == Some(parms.soc_RoTNVM.soc_rkh_1),
        forall|v: u32|
            ifr.cfpa_image_key_revocation == Some(v) ==> parms.soc_RoTNVM.soc_imageKeyRevocation
                == v,
        ifr.cfpa_image_key_revocation is None ==> parms.soc_RoTNVM.soc_imageKeyRevocation
            == 0xFFFF_FFFFu32,
        forall|v: u32| ifr.cfpa_firmware_version == Some(v) ==> parms.soc_trustedFirmwareVersion == v,
        ifr.cfpa_firmware_version is None ==> parms.soc_trustedFirmwareVersion == 0xFFFF_FFFFu32,
        forall|v: u32| ifr.cfpa_lifecycle == Some(v) ==> parms.soc_RoTNVM.soc_lifecycle == v,
        ifr.cfpa_lifecycle is None ==> parms.soc_RoTNVM.soc_lifecycle == enc.lifecycle_in_field,
        forall|r: [u32; 4]|
            ifr.cfpa_root_key_revocation == Some(r) ==> parms.soc_RoTNVM.soc_rootKeyRevocation == r,
        ifr.cfpa_root_key_revocation is None ==> forall|i: int|
            0 <= i < 4 ==> parms.soc_RoTNVM.soc_rootKeyRevocation@[i] == enc.root_key_revoked,
        forall|u: [u32; 4]|
            ifr.cmpa_root_key_usage == Some(u) ==> parms.soc_RoTNVM.soc_rootKeyUsage == u,
        ifr.cmpa_root_key_usage is None ==> forall|i: int|
            0 <= i < 4 ==> parms.soc_RoTNVM.soc_rootKeyUsage@[i] == enc.root_key_unused,
        parms.soc_RoTNVM.soc_numberOfRootKeys == 4,
        parms.soc_RoTNVM.soc_rootKeyTypeAndLength == enc.root_key_type_hybrid,
{
}

/// The step that takes the optional IFR reads: each reading lands in its
/// own field of the assembled parameters (its strict default only when the
/// read failed), the key hashes are the two read before, and the image's hash
/// is asked for exactly when the lifecycle read gives "develop"; on any other
/// lifecycle reading, or a failed one, the NBOOT context is initialised next
/// with the CMPA hash.
pub proof fn lemma_optional_reads_step(
    enc: NbootEncodings,
    rotkh: [u32; 12],
    pqc_rotkh: [u32; 12],
    optional: IfrOptionalReadings,
    next: AuthState,
    action: AuthAction,
)
    requires
        encodings_well_formed(enc),
        auth_transition(
            enc,
            AuthState::AwaitOptionalReads { rotkh, pqc_rotkh },
            AuthEvent::OptionalReads(optional),
            next,
            action,
        ),
    ensures
        next is AwaitImageRkth || next is AwaitContextInit,
        action is DeriveImageRkth <==> optional.cfpa_lifecycle == Some(enc.lifecycle_develop),
        optional.cfpa_lifecycle != Some(enc.lifecycle_develop) ==> (action is InitContext
            && next is AwaitContextInit),
        ({
            let parms = if next is AwaitImageRkth {
                next->AwaitImageRkth_parms
            } else {
                next->AwaitContextInit_parms
            };
            &&& parms.soc_RoTNVM.soc_rkh == rotkh
            &&& parms.soc_RoTNVM.soc_rkh_1 == pqc_rotkh
            &&& parms.soc_RoTNVM.soc_imageKeyRevocation == match optional.cfpa_image_key_revocation {
                Some(v) => v,
                None => 0xFFFF_FFFFu32,
            }
            &&& parms.soc_trustedFirmwareVersion == match optional.cfpa_firmware_version {
                Some(v) => v,
                None => 0xFFFF_FFFFu32,
            }
            &&& parms.soc_RoTNVM.soc_lifecycle == match optional.cfpa_lifecycle {
                Some(v) => v,
                None => enc.lifecycle_in_field,
            }
            &&& match optional.cfpa_root_key_revocation {
                Some(r) => parms.soc_RoTNVM.soc_rootKeyRevocation == r,
                None => forall|i: int|
                    0 <= i < 4 ==> parms.soc_RoTNVM.soc_rootKeyRevocation@[i] == enc.root_key_revoked,
            }
            &&& match optional.cmpa_root_key_usage {
                Some(u) => parms.soc_RoTNVM.soc_rootKeyUsage == u,
                None => forall|i: int|
                    0 <= i < 4 ==> parms.soc_RoTNVM.soc_rootKeyUsage@[i] == enc.root_key_unused,
            }
            &&& parms.soc_RoTNVM.soc_numberOfRootKeys == 4
            &&& parms.soc_RoTNVM.soc_rootKeyTypeAndLength == enc.root_key_type_hybrid
        }),
{
}

/// The parameters in force before anything is read: every root key revoked
/// and unused, image key revocation and firmware version at 0xFFFF_FFFF,
/// zero key hashes, four root keys of the hybrid type, device in field.
pub proof fn lemma_strict_defaults(parms: NbootImgAuthParms, enc: NbootEncodings)
    requires
        is_strict_nboot_parms(parms, enc),
    ensures
        forall|i: int| 0 <= i < 4 ==> parms.soc_RoTNVM.soc_rootKeyRevocation@[i] == enc.root_key_revoked,
        forall|i: int| 0 <= i < 4 ==> parms.soc_RoTNVM.soc_rootKeyUsage@[i] == enc.root_key_unused,
        forall|i: int| 0 <= i < 12 ==> parms.soc_RoTNVM.soc_rkh@[i] == 0,
        forall|i: int| 0 <= i < 12 ==> parms.soc_RoTNVM.soc_rkh_1@[i] == 0,
        parms.soc_RoTNVM.soc_imageKeyRevocation == 0xFFFF_FFFFu32,
        parms.soc_trustedFirmwareVersion == 0xFFFF_FFFFu32,
        parms.soc_RoTNVM.soc_numberOfRootKeys == 4,
        parms.soc_RoTNVM.soc_rootKeyTypeAndLength == enc.root_key_type_hybrid,
        parms.soc_RoTNVM.soc_lifecycle == enc.lifecycle_in_field,
{
}

/// The development-mode step changes only the root key table hash, and
/// only to a hash derived from the image.
pub proof fn lemma_image_rkth_changes_only_the_hash(
    parms: NbootImgAuthParms,
    image_rkth: Option<[u32; 12]>,
)
    ensures
        with_image_rkth(parms, image_rkth).soc_RoTNVM.soc_rkh == (match image_rkth {
            Some(rkth) => rkth,
            None => parms.soc_RoTNVM.soc_rkh,
        }),
        with_image_rkth(parms, image_rkth).soc_RoTNVM.soc_rkh_1 == parms.soc_RoTNVM.soc_rkh_1,
        with_image_rkth(parms, image_rkth).soc_RoTNVM.soc_rootKeyRevocation
            == parms.soc_RoTNVM.soc_rootKeyRevocation,
        with_image_rkth(parms, image_rkth).soc_RoTNVM.soc_imageKeyRevocation
            == parms.soc_RoTNVM.soc_imageKeyRevocation,
        with_image_rkth(parms, image_rkth).soc_RoTNVM.soc_rootKeyUsage
            == parms.soc_RoTNVM.soc_rootKeyUsage,
        with_image_rkth(parms, image_rkth).soc_RoTNVM.soc_lifecycle
            == parms.soc_RoTNVM.soc_lifecycle,
        with_image_rkth(parms, image_rkth).soc_trustedFirmwareVersion
            == parms.soc_trustedFirmwareVersion,
{
}

/// When every optional IFR read fails, the parameters are exactly the strict
/// defaults, apart from the two key hashes, which are those read.
pub proof fn lemma_failed_reads_keep_strict_defaults(
    parms: NbootImgAuthParms,
    enc: NbootEncodings,
    ifr: IfrReadings,
)
    requires
        parms_from_readings(parms, enc, ifr),
        ifr.cfpa_image_key_revocation is None,
        ifr.cfpa_root_key_revocation is None,
        ifr.cfpa_firmware_version is None,
        ifr.cmpa_root_key_usage is None,
        ifr.cfpa_lifecycle is None,
    ensures
        forall|i: int| 0 <= i < 4 ==> parms.soc_RoTNVM.soc_rootKeyRevocation@[i] == enc.root_key_revoked,
        forall|i: int| 0 <= i < 4 ==> parms.soc_RoTNVM.soc_rootKeyUsage@[i] == enc.root_key_unused,
        parms.soc_RoTNVM.soc_imageKeyRevocation == 0xFFFF_FFFF,
        parms.soc_trustedFirmwareVersion == 0xFFFF_FFFF,
        parms.soc_RoTNVM.soc_lifecycle == enc.lifecycle_in_field,
        parms.soc_RoTNVM.soc_numberOfRootKeys == NBOOT_NUMBER_OF_ROOT_KEYS,
        parms.soc_RoTNVM.soc_rootKeyTypeAndLength == enc.root_key_type_hybrid,
{
}

} // verus!
