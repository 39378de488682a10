use voice_preset::registry::VoicePresetRegistry;
use voice_preset::RegistryError;

const A: u64 = 101;
const B: u64 = 102;
const C: u64 = 103;

#[test]
fn idempotent_read() {
    let mut reg = VoicePresetRegistry::new();
    let first = reg.get(1, &vec![A]).unwrap();
    assert_eq!(first, A);
    // Repeated reads return the same preset whatever candidate list is
    // passed, and usage counts do not move.
    for _ in 0..3 {
        assert_eq!(reg.get(1, &vec![B, C]).unwrap(), A);
        assert_eq!(reg.get(1, &vec![]).unwrap(), A);
    }
    assert_eq!(reg.usage_of(A), 1);
    assert_eq!(reg.usage_of(B), 0);
    assert_eq!(reg.usage_of(C), 0);
}

#[test]
fn least_used_selection() {
    let mut reg = VoicePresetRegistry::new();
    // Build usage counts A:2, B:0, C:1.
    assert_eq!(reg.get(1, &vec![A]).unwrap(), A);
    assert_eq!(reg.get(2, &vec![A]).unwrap(), A);
    assert_eq!(reg.get(3, &vec![C]).unwrap(), C);
    assert_eq!(reg.usage_of(A), 2);
    assert_eq!(reg.usage_of(B), 0);
    assert_eq!(reg.usage_of(C), 1);
    // B holds the unique minimum, so a new user must get B.
    assert_eq!(reg.get(4, &vec![A, B, C]).unwrap(), B);
}

#[test]
fn fair_tie_break() {
    // With a fresh registry per trial, the first assignment is a pure tie
    // between A and B; over many trials each side should win roughly half
    // the time. The bounds are loose enough that a uniform draw fails them
    // only with negligible probability.
    let trials: u64 = 400;
    let mut picks_of_a: u64 = 0;
    for user in 0..trials {
        let mut reg = VoicePresetRegistry::new();
        let picked = reg.get(user, &vec![A, B]).unwrap();
        assert!(picked == A || picked == B);
        if picked == A {
            picks_of_a += 1;
        }
    }
    assert!(picks_of_a > 100, "A picked only {picks_of_a} times of {trials}");
    assert!(picks_of_a < 300, "A picked {picks_of_a} times of {trials}");
}

#[test]
fn release_then_reuse() {
    let mut reg = VoicePresetRegistry::new();
    assert_eq!(reg.get(1, &vec![A]).unwrap(), A);
    assert_eq!(reg.usage_of(A), 1);
    assert_eq!(reg.remove(1), Ok(()));
    assert_eq!(reg.usage_of(A), 0);
    assert_eq!(reg.get(2, &vec![A]).unwrap(), A);
    assert_eq!(reg.usage_of(A), 1);
}

#[test]
fn release_unassigned_is_rejected() {
    let mut reg = VoicePresetRegistry::new();
    assert_eq!(reg.remove(1), Err(RegistryError::NotAssigned));
    // A released user is unassigned again, so a second release is rejected.
    assert_eq!(reg.get(1, &vec![A]).unwrap(), A);
    assert_eq!(reg.remove(1), Ok(()));
    assert_eq!(reg.remove(1), Err(RegistryError::NotAssigned));
}

#[test]
fn assign_with_no_candidates_is_rejected() {
    let mut reg = VoicePresetRegistry::new();
    assert_eq!(reg.get(1, &vec![]), Err(RegistryError::NoCandidate));
    // The failed call left the user unassigned and counted nothing.
    assert_eq!(reg.usage_of(A), 0);
    assert_eq!(reg.remove(1), Err(RegistryError::NotAssigned));
}

#[test]
fn usage_conservation() {
    let mut reg = VoicePresetRegistry::new();
    let presets = vec![A, B];
    let mut held = Vec::new();
    for user in 0..6u64 {
        held.push(reg.get(user, &presets).unwrap());
    }
    for p in [A, B] {
        let expected = held.iter().filter(|&&h| h == p).count();
        assert_eq!(reg.usage_of(p), expected);
    }
    // Counts follow releases one for one.
    reg.remove(0).unwrap();
    reg.remove(3).unwrap();
    for p in [A, B] {
        let expected = held[1..3]
            .iter()
            .chain(held[4..].iter())
            .filter(|&&h| h == p)
            .count();
        assert_eq!(reg.usage_of(p), expected);
    }
}

#[test]
fn round_trip() {
    let mut reg = VoicePresetRegistry::new();
    let presets = vec![A, B, C];
    // Assign and release six users across three presets in an interleaved
    // order: assignments and releases alternate rather than being batched.
    assert!(reg.get(1, &presets).is_ok());
    assert!(reg.get(2, &presets).is_ok());
    reg.remove(1).unwrap();
    assert!(reg.get(3, &presets).is_ok());
    assert!(reg.get(4, &presets).is_ok());
    reg.remove(3).unwrap();
    reg.remove(2).unwrap();
    assert!(reg.get(5, &presets).is_ok());
    assert!(reg.get(6, &presets).is_ok());
    reg.remove(5).unwrap();
    reg.remove(4).unwrap();
    reg.remove(6).unwrap();
    // Every usage count is back to zero and no user is assigned.
    for p in [A, B, C] {
        assert_eq!(reg.usage_of(p), 0);
    }
    for user in 1..=6 {
        assert_eq!(reg.remove(user), Err(RegistryError::NotAssigned));
    }
}
