use gl_lifecycle::context::{fallback_profiles, ContextFactory, ContextProfile, PROFILE_COUNT};
use gl_lifecycle::error::LifecycleError;

#[test]
fn fallback_chain_has_three_profiles_in_order() {
    let profiles = fallback_profiles();
    assert_eq!(profiles.len(), PROFILE_COUNT);
    assert_eq!(
        profiles,
        vec![
            ContextProfile::NativeDefault,
            ContextProfile::EmbeddedDefault,
            ContextProfile::NativeLegacy,
        ]
    );
}

#[test]
fn only_the_legacy_profile_pins_a_version() {
    assert_eq!(ContextProfile::NativeDefault.requested_version(), None);
    assert_eq!(ContextProfile::EmbeddedDefault.requested_version(), None);
    assert_eq!(ContextProfile::NativeLegacy.requested_version(), Some((2, 1)));
}

#[test]
fn two_failures_then_success_makes_exactly_three_attempts() {
    // The platform rejects the first two profiles and accepts the third:
    // exactly three attempts occur, in chain order, and the context that
    // comes out corresponds to the legacy profile's attributes.
    let mut factory = ContextFactory::new();
    let mut attempted: Vec<ContextProfile> = Vec::new();

    let first = factory.next_profile().unwrap();
    attempted.push(first);
    factory.record_failure();

    let second = factory.next_profile().unwrap();
    attempted.push(second);
    factory.record_failure();

    let third = factory.next_profile().unwrap();
    attempted.push(third);
    // The third attempt succeeds: the chain stops here.

    assert_eq!(
        attempted,
        vec![
            ContextProfile::NativeDefault,
            ContextProfile::EmbeddedDefault,
            ContextProfile::NativeLegacy,
        ]
    );
    assert_eq!(third.requested_version(), Some((2, 1)));
}

#[test]
fn three_failures_exhaust_the_chain() {
    let mut factory = ContextFactory::new();
    let mut attempts: usize = 0;
    while let Some(_profile) = factory.next_profile() {
        attempts += 1;
        factory.record_failure();
        if attempts > PROFILE_COUNT {
            panic!("chain handed out more profiles than it has");
        }
    }
    assert_eq!(attempts, PROFILE_COUNT);
    assert_eq!(factory.next_profile(), None);
    // The caller then surfaces the fatal exhaustion error.
    assert!(LifecycleError::ContextCreationExhausted.is_fatal());
}
