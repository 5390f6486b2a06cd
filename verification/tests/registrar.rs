use oauth_deeplink::registrar::{
    plan_register, register_step, RegisterPlan, RegistrationError, RegistrationState,
};
use oauth_deeplink::uri::valid_scheme;

#[test]
fn registering_twice_equals_registering_once() {
    let st0 = RegistrationState::Unregistered;
    let (st1, r1) = register_step(st0, "app", true);
    assert_eq!(r1, Ok(()));
    assert_eq!(st1, RegistrationState::Registered { scheme: "app".to_string() });

    // The second request succeeds and changes nothing, even though the
    // platform would now deny a call: it is never consulted again.
    let (st2, r2) = register_step(st1.clone(), "app", false);
    assert_eq!(r2, Ok(()));
    assert_eq!(st2, st1);
}

#[test]
fn second_registration_needs_no_platform_call() {
    let st = RegistrationState::Registered { scheme: "app".to_string() };
    assert_eq!(plan_register(&st, "app"), RegisterPlan::AlreadyDone);
    assert_eq!(plan_register(&st, "other"), RegisterPlan::CallPlatform);
    assert_eq!(plan_register(&RegistrationState::Unregistered, "app"), RegisterPlan::CallPlatform);
}

#[test]
fn invalid_scheme_is_refused_without_the_platform() {
    for bad in ["", "App", "app://", "a b", "app:", "1app", "-app"] {
        let (st, r) = register_step(RegistrationState::Unregistered, bad, true);
        assert_eq!(r, Err(RegistrationError::InvalidScheme), "scheme: {:?}", bad);
        assert_eq!(st, RegistrationState::Unregistered);
        assert_eq!(plan_register(&RegistrationState::Unregistered, bad), RegisterPlan::Reject);
    }
}

#[test]
fn platform_denial_leaves_the_state_unregistered() {
    let (st, r) = register_step(RegistrationState::Unregistered, "app", false);
    assert_eq!(r, Err(RegistrationError::PlatformDenied));
    assert_eq!(st, RegistrationState::Unregistered);
}

#[test]
fn scheme_token_shape() {
    assert!(valid_scheme("app"));
    assert!(valid_scheme("vex"));
    assert!(valid_scheme("a+b-c.2"));
    assert!(!valid_scheme(""));
    assert!(!valid_scheme("App"));
    assert!(!valid_scheme("2app"));
    assert!(!valid_scheme("app://"));
    assert!(!valid_scheme("a b"));
}
