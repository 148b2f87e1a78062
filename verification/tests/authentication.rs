use ec_slimloader_mcxa::rom_api::nboot::{nboot_bool_is_true, NbootStatus};
use ec_slimloader_mcxa::rom_api::status::BootError;
use ec_slimloader_mcxa::verification::{
    auth_start, auth_step, authentication_outcome, check_context_init, default_nboot_parms,
    nboot_auth_parms_from_ifr, use_image_rkth, AuthAction, AuthEvent, AuthState,
    IfrOptionalReadings, IfrReadings, NbootEncodings,
};

const NBOOT_SUCCESS: u64 = 0x5A5A_5A5A;
const NBOOT_FAIL: u64 = 0x5A5A_A5A5;
const NBOOT_TRUE: u32 = 0x3C5A_C33C;
const NBOOT_FALSE: u32 = 0x5AA5_5AA5;

fn encodings() -> NbootEncodings {
    NbootEncodings {
        root_key_revoked: 0xBB,
        root_key_unused: 0x7,
        root_key_type_hybrid: 0x1234,
        lifecycle_in_field: 0x0F,
        lifecycle_develop: 0x03,
    }
}

fn hashes_only() -> IfrReadings {
    IfrReadings {
        cmpa_rotkh: Some([0x11; 12]),
        cmpa_pqc_rotkh: Some([0x22; 12]),
        cfpa_image_key_revocation: None,
        cfpa_root_key_revocation: None,
        cfpa_firmware_version: None,
        cmpa_root_key_usage: None,
        cfpa_lifecycle: None,
    }
}

#[test]
fn strict_defaults() {
    let parms = default_nboot_parms(&encodings());
    assert_eq!(parms.soc_RoTNVM.soc_rootKeyRevocation, [0xBB; 4]);
    assert_eq!(parms.soc_RoTNVM.soc_imageKeyRevocation, 0xFFFF_FFFF);
    assert_eq!(parms.soc_RoTNVM.soc_rkh, [0; 12]);
    assert_eq!(parms.soc_RoTNVM.soc_rkh_1, [0; 12]);
    assert_eq!(parms.soc_RoTNVM.soc_numberOfRootKeys, 4);
    assert_eq!(parms.soc_RoTNVM.soc_rootKeyUsage, [0x7; 4]);
    assert_eq!(parms.soc_RoTNVM.soc_rootKeyTypeAndLength, 0x1234);
    assert_eq!(parms.soc_RoTNVM.soc_lifecycle, 0x0F);
    assert_eq!(parms.soc_trustedFirmwareVersion, 0xFFFF_FFFF);
}

#[test]
fn missing_root_key_hash_is_root_of_trust_error() {
    let mut ifr = hashes_only();
    ifr.cmpa_rotkh = None;
    assert!(matches!(nboot_auth_parms_from_ifr(&encodings(), &ifr), Err(BootError::RootOfTrust)));
}

#[test]
fn missing_pqc_root_key_hash_is_root_of_trust_error() {
    let mut ifr = hashes_only();
    ifr.cmpa_pqc_rotkh = None;
    ifr.cfpa_lifecycle = Some(3);
    assert!(matches!(nboot_auth_parms_from_ifr(&encodings(), &ifr), Err(BootError::RootOfTrust)));
}

#[test]
fn failed_reads_keep_strict_defaults() {
    let parms = nboot_auth_parms_from_ifr(&encodings(), &hashes_only()).unwrap();
    assert_eq!(parms.soc_RoTNVM.soc_rkh, [0x11; 12]);
    assert_eq!(parms.soc_RoTNVM.soc_rkh_1, [0x22; 12]);
    assert_eq!(parms.soc_RoTNVM.soc_rootKeyRevocation, [0xBB; 4]);
    assert_eq!(parms.soc_RoTNVM.soc_rootKeyUsage, [0x7; 4]);
    assert_eq!(parms.soc_RoTNVM.soc_imageKeyRevocation, 0xFFFF_FFFF);
    assert_eq!(parms.soc_trustedFirmwareVersion, 0xFFFF_FFFF);
    assert_eq!(parms.soc_RoTNVM.soc_lifecycle, 0x0F);
    assert_eq!(parms.soc_RoTNVM.soc_numberOfRootKeys, 4);
    assert_eq!(parms.soc_RoTNVM.soc_rootKeyTypeAndLength, 0x1234);
}

#[test]
fn successful_reads_replace_defaults() {
    let ifr = IfrReadings {
        cfpa_image_key_revocation: Some(2),
        cfpa_root_key_revocation: Some([0xAA, 0xAA, 0xBB, 0xAA]),
        cfpa_firmware_version: Some(17),
        cmpa_root_key_usage: Some([0, 1, 2, 7]),
        cfpa_lifecycle: Some(0x07),
        ..hashes_only()
    };
    let parms = nboot_auth_parms_from_ifr(&encodings(), &ifr).unwrap();
    assert_eq!(parms.soc_RoTNVM.soc_imageKeyRevocation, 2);
    assert_eq!(parms.soc_RoTNVM.soc_rootKeyRevocation, [0xAA, 0xAA, 0xBB, 0xAA]);
    assert_eq!(parms.soc_trustedFirmwareVersion, 17);
    assert_eq!(parms.soc_RoTNVM.soc_rootKeyUsage, [0, 1, 2, 7]);
    assert_eq!(parms.soc_RoTNVM.soc_lifecycle, 0x07);
    assert_eq!(parms.soc_RoTNVM.soc_numberOfRootKeys, 4);
    assert_eq!(parms.soc_RoTNVM.soc_rootKeyTypeAndLength, 0x1234);
}

#[test]
fn context_init_must_succeed() {
    assert_eq!(check_context_init(NbootStatus::Success), Ok(()));
    assert_eq!(check_context_init(NbootStatus::Fail), Err(BootError::Authenticate));
    assert_eq!(check_context_init(NbootStatus::InvalidArgument), Err(BootError::Authenticate));
    assert_eq!(check_context_init(NbootStatus::Unknown(0)), Err(BootError::Authenticate));
}

#[test]
fn protected_boolean_decoding() {
    assert!(nboot_bool_is_true(NBOOT_TRUE));
    assert!(!nboot_bool_is_true(NBOOT_FALSE));
    assert!(!nboot_bool_is_true(NBOOT_TRUE ^ 1));
    assert!(!nboot_bool_is_true(1));
    assert!(!nboot_bool_is_true(0));
}

#[test]
fn nboot_status_reported_as_boot_error() {
    assert_eq!(BootError::from(NbootStatus::Fail), BootError::Authenticate);
    assert_eq!(BootError::from(NbootStatus::InvalidArgument), BootError::Authenticate);
    assert_eq!(BootError::from(NbootStatus::KeyNotAvailable), BootError::Authenticate);
    assert_eq!(BootError::from(NbootStatus::Unknown(9)), BootError::Authenticate);
}

#[test]
fn authentication_needs_success_and_true_signature() {
    assert_eq!(authentication_outcome(NbootStatus::Success, NBOOT_TRUE), Ok(()));
    assert_eq!(authentication_outcome(NbootStatus::Success, NBOOT_FALSE), Err(BootError::Authenticate));
    assert_eq!(authentication_outcome(NbootStatus::Success, 1), Err(BootError::Authenticate));
    assert_eq!(authentication_outcome(NbootStatus::Fail, NBOOT_TRUE), Err(BootError::Authenticate));
    assert_eq!(
        authentication_outcome(NbootStatus::KeyNotAvailable, NBOOT_TRUE),
        Err(BootError::Authenticate)
    );
    assert_eq!(
        authentication_outcome(NbootStatus::from(0x5A5A_5A5Bu64), NBOOT_TRUE),
        Err(BootError::Authenticate)
    );
}

#[test]
fn image_rkth_replaces_only_the_hash() {
    let parms = nboot_auth_parms_from_ifr(&encodings(), &hashes_only()).unwrap();
    let swapped = use_image_rkth(parms, Some([0x33; 12]));
    assert_eq!(swapped.soc_RoTNVM.soc_rkh, [0x33; 12]);
    assert_eq!(swapped.soc_RoTNVM.soc_rkh_1, [0x22; 12]);
    assert_eq!(swapped.soc_RoTNVM.soc_lifecycle, 0x0F);
    let kept = use_image_rkth(parms, None);
    assert_eq!(kept.soc_RoTNVM.soc_rkh, [0x11; 12]);
}

fn no_optional() -> IfrOptionalReadings {
    IfrOptionalReadings {
        cfpa_image_key_revocation: None,
        cfpa_root_key_revocation: None,
        cfpa_firmware_version: None,
        cmpa_root_key_usage: None,
        cfpa_lifecycle: None,
    }
}

fn is_finish(action: &AuthAction, expected: Result<(), BootError>) -> bool {
    matches!(action, AuthAction::Finish(r) if *r == expected)
}

/// Runs the state machine on `events`, returning the actions in order.
fn run(events: &[AuthEvent]) -> Vec<AuthAction> {
    let enc = encodings();
    let (mut state, action) = auth_start();
    let mut actions = vec![action];
    for event in events {
        let (next, action) = auth_step(&enc, state, *event);
        state = next;
        actions.push(action);
    }
    actions
}

#[test]
fn in_field_attempt_runs_in_order() {
    let actions = run(&[
        AuthEvent::CmpaRotkh(Some([0x11; 12])),
        AuthEvent::CmpaPqcRotkh(Some([0x22; 12])),
        AuthEvent::OptionalReads(no_optional()),
        AuthEvent::ContextInit(NBOOT_SUCCESS),
        AuthEvent::Authenticated { status: NBOOT_SUCCESS, sig_ok: NBOOT_TRUE },
        AuthEvent::ContextReleased,
    ]);
    assert!(matches!(actions[0], AuthAction::ReadCmpaRotkh));
    assert!(matches!(actions[1], AuthAction::ReadCmpaPqcRotkh));
    assert!(matches!(actions[2], AuthAction::ReadOptional));
    assert!(matches!(actions[3], AuthAction::InitContext));
    match actions[4] {
        AuthAction::Authenticate(p) => {
            assert_eq!(p.soc_RoTNVM.soc_rkh, [0x11; 12]);
            assert_eq!(p.soc_RoTNVM.soc_rkh_1, [0x22; 12]);
        }
        _ => panic!("expected an authentication request"),
    }
    assert!(matches!(actions[5], AuthAction::ReleaseContext));
    assert!(is_finish(&actions[6], Ok(())));
}

#[test]
fn development_lifecycle_uses_image_hash() {
    let optional = IfrOptionalReadings { cfpa_lifecycle: Some(0x03), ..no_optional() };
    let actions = run(&[
        AuthEvent::CmpaRotkh(Some([0x11; 12])),
        AuthEvent::CmpaPqcRotkh(Some([0x22; 12])),
        AuthEvent::OptionalReads(optional),
        AuthEvent::ImageRkth(Some([0x44; 12])),
        AuthEvent::ContextInit(NBOOT_SUCCESS),
    ]);
    assert!(matches!(actions[3], AuthAction::DeriveImageRkth));
    assert!(matches!(actions[4], AuthAction::InitContext));
    match actions[5] {
        AuthAction::Authenticate(p) => assert_eq!(p.soc_RoTNVM.soc_rkh, [0x44; 12]),
        _ => panic!("expected an authentication request"),
    }
}

#[test]
fn development_lifecycle_without_image_hash_keeps_cmpa_hash() {
    let optional = IfrOptionalReadings { cfpa_lifecycle: Some(0x03), ..no_optional() };
    let actions = run(&[
        AuthEvent::CmpaRotkh(Some([0x11; 12])),
        AuthEvent::CmpaPqcRotkh(Some([0x22; 12])),
        AuthEvent::OptionalReads(optional),
        AuthEvent::ImageRkth(None),
        AuthEvent::ContextInit(NBOOT_SUCCESS),
    ]);
    match actions[5] {
        AuthAction::Authenticate(p) => assert_eq!(p.soc_RoTNVM.soc_rkh, [0x11; 12]),
        _ => panic!("expected an authentication request"),
    }
}

#[test]
fn missing_cmpa_hash_ends_before_any_rom_call() {
    let actions = run(&[AuthEvent::CmpaRotkh(None)]);
    assert!(is_finish(&actions[1], Err(BootError::RootOfTrust)));
    let actions = run(&[AuthEvent::CmpaRotkh(Some([1; 12])), AuthEvent::CmpaPqcRotkh(None)]);
    assert!(is_finish(&actions[2], Err(BootError::RootOfTrust)));
}

#[test]
fn failed_context_init_ends_without_authentication() {
    let actions = run(&[
        AuthEvent::CmpaRotkh(Some([0x11; 12])),
        AuthEvent::CmpaPqcRotkh(Some([0x22; 12])),
        AuthEvent::OptionalReads(no_optional()),
        AuthEvent::ContextInit(NBOOT_FAIL),
    ]);
    assert!(is_finish(&actions[4], Err(BootError::Authenticate)));
}

#[test]
fn failed_authentication_still_releases_context() {
    let actions = run(&[
        AuthEvent::CmpaRotkh(Some([0x11; 12])),
        AuthEvent::CmpaPqcRotkh(Some([0x22; 12])),
        AuthEvent::OptionalReads(no_optional()),
        AuthEvent::ContextInit(NBOOT_SUCCESS),
        AuthEvent::Authenticated { status: NBOOT_SUCCESS, sig_ok: NBOOT_FALSE },
        AuthEvent::ContextReleased,
    ]);
    assert!(matches!(actions[5], AuthAction::ReleaseContext));
    assert!(is_finish(&actions[6], Err(BootError::Authenticate)));
}

#[test]
fn answer_that_does_not_fit_refuses() {
    let actions = run(&[AuthEvent::ContextInit(NBOOT_SUCCESS)]);
    assert!(is_finish(&actions[1], Err(BootError::Authenticate)));
    let (state, _) = auth_start();
    let (done, _) = auth_step(&encodings(), state, AuthEvent::ContextReleased);
    assert!(matches!(done, AuthState::Done { result: Err(BootError::Authenticate) }));
}

#[test]
fn encodings_must_tell_in_field_from_develop() {
    assert!(encodings().is_well_formed());
    let same = NbootEncodings { lifecycle_develop: 0x0F, ..encodings() };
    assert!(!same.is_well_formed());
}

#[test]
fn failed_lifecycle_read_uses_cmpa_hash() {
    let actions = run(&[
        AuthEvent::CmpaRotkh(Some([0x11; 12])),
        AuthEvent::CmpaPqcRotkh(Some([0x22; 12])),
        AuthEvent::OptionalReads(no_optional()),
    ]);
    assert!(matches!(actions[3], AuthAction::InitContext));
    let in_field = IfrOptionalReadings { cfpa_lifecycle: Some(0x0F), ..no_optional() };
    let actions = run(&[
        AuthEvent::CmpaRotkh(Some([0x11; 12])),
        AuthEvent::CmpaPqcRotkh(Some([0x22; 12])),
        AuthEvent::OptionalReads(in_field),
    ]);
    assert!(matches!(actions[3], AuthAction::InitContext));
}
