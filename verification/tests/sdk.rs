use belladonna_sdk::anticheat::{session_status, AcError};
use belladonna_sdk::drm::{check_entitlement, DrmError};
use belladonna_sdk::ffi::{bd_entitlement_result, bd_status_out, entitlement_status, export_status, status_of};
use belladonna_sdk::handle::{EntitlementCode, EntitlementResult, InitConfig, SdkError, SdkHandle};
use belladonna_sdk::license_gui::{
    after_license_entry, after_trial_choice, LicenseDialogConfig, LicenseGuiError, LicenseStep,
};
use belladonna_sdk::sdk;

#[test]
fn init_and_integrity_toggle() {
    let mut sdk = SdkHandle::init(InitConfig {
        auto_integrity: false,
        demo_mode: false,
    })
    .unwrap();

    assert!(!sdk.is_integrity_enabled());
    sdk.enable_integrity().unwrap();
    assert!(sdk.is_integrity_enabled());
    sdk.disable_integrity();
    assert!(!sdk.is_integrity_enabled());
}

#[test]
fn entitlement_stub() {
    let sdk = SdkHandle::init(InitConfig {
        auto_integrity: false,
        demo_mode: false,
    })
    .unwrap();

    let res = sdk.check_entitlement("user1");
    assert!(!res.entitled);
    assert_eq!(res.code, EntitlementCode::Error);
}

#[test]
fn drm_and_anticheat_are_unimplemented() {
    assert_eq!(check_entitlement("anyone"), Err(DrmError::Unimplemented));
    assert_eq!(session_status(), Err(AcError::Unimplemented));
    assert_eq!(DrmError::Unimplemented.message(), "unimplemented");
    assert_eq!(AcError::Unimplemented.message(), "unimplemented");
}

#[test]
fn simplified_surface_answers_without_a_backend() {
    assert_eq!(sdk::init(), "belladonna_play_init_stub");
    assert!(!sdk::check_entitlement("anyone"));
    assert!(!sdk::check_entitlement(""));
    assert_eq!(sdk::status(), "uninit");
}

#[test]
fn auto_integrity_switches_monitoring_on() {
    let sdk = SdkHandle::init(InitConfig { auto_integrity: true, demo_mode: false }).unwrap();
    assert!(sdk.is_integrity_enabled());
    assert!(!sdk.is_demo_mode());
    let config = InitConfig::default();
    assert!(!config.auto_integrity);
    assert!(!config.demo_mode);
}

#[test]
fn demo_mode_knows_its_default_users() {
    let sdk = SdkHandle::init(InitConfig { auto_integrity: false, demo_mode: true }).unwrap();
    assert!(sdk.is_demo_mode());
    for user in ["demo_player_123", "valid_user", "test_player"] {
        let res = sdk.check_entitlement(user);
        assert!(res.entitled);
        assert_eq!(res.code, EntitlementCode::Entitled);
    }
    let expired = sdk.check_entitlement("expired_user");
    assert!(!expired.entitled);
    assert_eq!(expired.code, EntitlementCode::Expired);
    let unknown = sdk.check_entitlement("unknown_user");
    assert!(!unknown.entitled);
    assert_eq!(unknown.code, EntitlementCode::NotEntitled);
}

#[test]
fn demo_user_can_be_added_and_replaced() {
    let mut sdk = SdkHandle::init(InitConfig { auto_integrity: false, demo_mode: true }).unwrap();
    sdk.add_demo_user("new_player", true).unwrap();
    assert!(sdk.check_entitlement("new_player").entitled);
    sdk.add_demo_user("new_player", false).unwrap();
    assert_eq!(sdk.check_entitlement("new_player").code, EntitlementCode::Expired);
    sdk.add_demo_user("expired_user", true).unwrap();
    assert_eq!(sdk.check_entitlement("expired_user").code, EntitlementCode::Entitled);
    assert!(sdk.check_entitlement("valid_user").entitled);
}

#[test]
fn demo_functions_need_demo_mode() {
    let mut sdk = SdkHandle::init(InitConfig { auto_integrity: false, demo_mode: false }).unwrap();
    match sdk.add_demo_user("u", true) {
        Err(SdkError::Init(detail)) => assert_eq!(detail, "Demo user management requires demo_mode=true"),
        _ => panic!("an init error was expected"),
    }
    match sdk.simulate_threat("debugger") {
        Err(e) => assert_eq!(e.message(), "init_error: Threat simulation requires demo_mode=true"),
        Ok(_) => panic!("an init error was expected"),
    }
    assert_eq!(sdk.check_entitlement("u").code, EntitlementCode::Error);
}

#[test]
fn simulated_threats_have_their_answers() {
    let sdk = SdkHandle::init(InitConfig { auto_integrity: false, demo_mode: true }).unwrap();
    assert_eq!(
        sdk.simulate_threat("debugger").unwrap(),
        "Demo: Debugger detected - switching to degraded mode"
    );
    assert_eq!(
        sdk.simulate_threat("memory_scan").unwrap(),
        "Demo: Memory scanning detected - enabling enhanced protection"
    );
    assert_eq!(
        sdk.simulate_threat("injection").unwrap(),
        "Demo: Code injection attempt blocked - maintaining normal operation"
    );
    assert_eq!(sdk.simulate_threat("other").unwrap(), "Demo: Unknown threat type - no action taken");
}

#[test]
fn sdk_errors_in_words() {
    assert_eq!(SdkError::Init("a".to_string()).message(), "init_error: a");
    assert_eq!(SdkError::Integrity("b".to_string()).message(), "integrity_error: b");
    assert_eq!(SdkError::Entitlement("c".to_string()).message(), "entitlement_error: c");
    assert_eq!(
        SdkError::RuntimeNotAvailable.message(),
        "runtime_not_available: This SDK interface requires the Belladonna Play runtime library"
    );
}

#[test]
fn entitlement_codes_have_their_numbers() {
    let number = |code: EntitlementCode| entitlement_status(&EntitlementResult { entitled: false, code }).1;
    assert_eq!(number(EntitlementCode::Entitled), 0);
    assert_eq!(number(EntitlementCode::NotEntitled), 3);
    assert_eq!(number(EntitlementCode::Expired), 4);
    assert_eq!(number(EntitlementCode::SignatureInvalid), 5);
    assert_eq!(number(EntitlementCode::CacheCorrupt), 6);
    assert_eq!(number(EntitlementCode::NetworkError), 7);
    assert_eq!(number(EntitlementCode::Error), 3);
    let out = entitlement_status(&EntitlementResult { entitled: true, code: EntitlementCode::Entitled });
    assert_eq!(out.0, bd_entitlement_result { entitled: 1 });
}

#[test]
fn status_is_written_out_as_numbers() {
    let mut sdk = SdkHandle::init(InitConfig { auto_integrity: true, demo_mode: false }).unwrap();
    assert_eq!(status_of(&sdk), bd_status_out { integrity_enabled: 1, reserved: 0 });
    sdk.disable_integrity();
    assert_eq!(status_of(&sdk), bd_status_out { integrity_enabled: 0, reserved: 0 });
}

#[test]
fn export_needs_room_for_the_terminator() {
    assert_eq!(export_status(58, 58), (101, 59));
    assert_eq!(export_status(59, 58), (0, 58));
    assert_eq!(export_status(0, 0), (101, 1));
    assert_eq!(export_status(1, 0), (0, 0));
}

#[test]
fn licence_entry_is_judged() {
    let config = LicenseDialogConfig::default();
    assert_eq!(config.title, "Belladonna License Activation");
    assert!(config.allow_trial);
    match after_license_entry(&config, false, "BELL-1234-5678".to_string()) {
        LicenseStep::Finished(Err(LicenseGuiError::UserCancelled)) => {}
        _ => panic!("a cancelled dialog was expected"),
    }
    match after_license_entry(&config, true, String::new()) {
        LicenseStep::AskTrial => {}
        _ => panic!("the trial question was expected"),
    }
    match after_license_entry(&config, true, "123456789".to_string()) {
        LicenseStep::Finished(Err(e)) => {
            assert_eq!(e.message(), "License key validation failed: License key is too short")
        }
        _ => panic!("a refused key was expected"),
    }
    match after_license_entry(&config, true, "1234567890".to_string()) {
        LicenseStep::Finished(Ok(licence)) => {
            assert_eq!(licence.key, "1234567890");
            assert_eq!(licence.license_type, "Standard");
            assert_eq!(licence.hardware_fingerprint, None);
            assert!(!licence.tmp_validated);
        }
        _ => panic!("a licence was expected"),
    }
    let strict = LicenseDialogConfig { allow_trial: false, ..LicenseDialogConfig::default() };
    match after_license_entry(&strict, true, String::new()) {
        LicenseStep::Finished(Err(LicenseGuiError::UserCancelled)) => {}
        _ => panic!("a cancelled dialog was expected"),
    }
}

#[test]
fn trial_choice_is_judged() {
    let trial = after_trial_choice(true).unwrap();
    assert_eq!(trial.key, "TRIAL-MODE");
    assert_eq!(trial.license_type, "Trial");
    assert!(!trial.tmp_validated);
    match after_trial_choice(false) {
        Err(e) => assert_eq!(e.message(), "User cancelled license input"),
        Ok(_) => panic!("a cancelled dialog was expected"),
    }
}

#[test]
fn licence_errors_in_words() {
    assert_eq!(LicenseGuiError::InitFailed("x".to_string()).message(), "GUI initialization failed: x");
    assert_eq!(LicenseGuiError::ValidationFailed("y".to_string()).message(), "License key validation failed: y");
    assert_eq!(LicenseGuiError::UserCancelled.message(), "User cancelled license input");
    assert_eq!(LicenseGuiError::Io("z".to_string()).message(), "IO error: z");
}
