use quantum_spaghetti::noodle::{nan_bits, POSITIVE_INFINITY_BITS, QUIET_NAN_BITS};
use quantum_spaghetti::{GUPTEngine, NoodleState, PastaError, PastaEvent, QuantumNoodle, SauceParticle};

fn superposed_wobble() -> u64 {
    (42.0_f64 / 0.0_f64.sin().cos().tan()).to_bits()
}

fn noodle(wobble: f64, coefficient: u128, crisis: bool) -> QuantumNoodle {
    QuantumNoodle {
        wobble_bits: wobble.to_bits(),
        sauce_entanglement: vec![SauceParticle::Alfredo { creaminess: 7 }],
        al_dente_coefficient: coefficient,
        existential_crisis: crisis,
    }
}

#[test]
fn test_noodle_existential_crisis() {
    let noodle = QuantumNoodle::superposition(superposed_wobble());
    assert!(noodle.existential_crisis, "all quantum noodles question their existence");
}

#[test]
fn test_double_crisis_entanglement_fails() {
    let noodle_a = QuantumNoodle::superposition(superposed_wobble());
    let mut noodle_b = QuantumNoodle::superposition(superposed_wobble());
    let result = noodle_a.entangle(&mut noodle_b);
    assert!(result.is_err(), "two noodles in crisis cannot entangle");
}

#[test]
fn test_gupt_engine_meatball_conservation() {
    let engine = GUPTEngine::new();
    assert_eq!(engine.meatball_count(), 42, "the answer to everything is meatballs");
}

#[test]
fn superposition_holds_its_sauces_and_coefficient() {
    let n = QuantumNoodle::superposition(superposed_wobble());
    assert_eq!(n.wobble_bits, superposed_wobble());
    assert_eq!(
        n.sauce_entanglement,
        vec![
            SauceParticle::VoidSauce,
            SauceParticle::Marinara { spiciness_bits: f64::INFINITY.to_bits() }
        ]
    );
    assert_eq!(POSITIVE_INFINITY_BITS, f64::INFINITY.to_bits());
    assert_eq!(n.al_dente_coefficient, 0xDEAD_BEEF_CAFE_BABE);
}

#[test]
fn double_crisis_leaves_partner_unchanged() {
    let a = noodle(2.0, 0b1100, true);
    let mut b = noodle(3.0, 0b1010, true);
    let result = a.entangle(&mut b);
    assert_eq!(result, Err(PastaError::TooManyExistentialCrises));
    assert_eq!(b.al_dente_coefficient, 0b1010);
    assert_eq!(a.al_dente_coefficient, 0b1100);
}

#[test]
fn entangle_xors_partner_and_spins() {
    let a = noodle(2.0, 0b1100, true);
    let mut b = noodle(3.0, 0b1010, false);
    let vortex = a.entangle(&mut b).unwrap();
    assert_eq!(b.al_dente_coefficient, 0b0110);
    assert_eq!(a.al_dente_coefficient, 0b1100);
    assert_eq!(b.wobble_bits, 3.0_f64.to_bits());
    assert_eq!(vortex.noodle_count, usize::MAX);
    assert!(vortex.is_spinning);
    let momentum = f64::from_bits(vortex.left_wobble_bits) * f64::from_bits(vortex.right_wobble_bits);
    assert_eq!(momentum, 6.0);
}

#[test]
fn entangle_succeeds_when_neither_in_crisis() {
    let a = noodle(0.5, u128::MAX, false);
    let mut b = noodle(4.0, 1, false);
    let vortex = a.entangle(&mut b).unwrap();
    assert_eq!(b.al_dente_coefficient, u128::MAX - 1);
    assert_eq!(f64::from_bits(vortex.left_wobble_bits) * f64::from_bits(vortex.right_wobble_bits), 2.0);
}

#[test]
fn measure_follows_remainder_mod_three() {
    assert_eq!(noodle(1.0, 0, false).measure(), NoodleState::PerfectlyAlDente);
    assert_eq!(noodle(1.0, 4, false).measure(), NoodleState::OvercookedIntoOblivion);
    assert_eq!(noodle(1.0, 5, false).measure(), NoodleState::SomehowFrozenAndBurning);
    assert_eq!(noodle(1.0, u128::MAX, false).measure(), NoodleState::PerfectlyAlDente);
    assert_eq!(
        QuantumNoodle::superposition(superposed_wobble()).measure(),
        NoodleState::PerfectlyAlDente
    );
}

#[test]
fn nan_bits_recognises_not_a_number() {
    assert!(nan_bits(f64::NAN.to_bits()));
    assert!(nan_bits(QUIET_NAN_BITS));
    assert!(f64::from_bits(QUIET_NAN_BITS).is_nan());
    assert!(nan_bits(0x7ff0_0000_0000_0001));
    assert!(!nan_bits(f64::INFINITY.to_bits()));
    assert!(!nan_bits(1.0_f64.to_bits()));
    assert!(!nan_bits(0));
}

#[test]
fn registering_nan_noodle_is_refused() {
    let mut engine = GUPTEngine::new();
    assert!(!engine.register_noodle("ghost".to_string(), noodle(f64::NAN, 1, false)));
    assert_eq!(engine.registry_len(), 0);
    assert_eq!(engine.sauce_field_growths(), 0);
}

#[test]
fn registering_valid_noodles_grows_field() {
    let mut engine = GUPTEngine::new();
    assert!(engine.register_noodle("a".to_string(), noodle(1.0, 0, false)));
    assert!(engine.register_noodle("b".to_string(), noodle(f64::INFINITY, 1, false)));
    assert!(engine.register_noodle("c".to_string(), noodle(-2.5, 2, true)));
    assert_eq!(engine.registry_len(), 3);
    assert_eq!(engine.sauce_field_growths(), 3);
    let mut strength = 9.81_f64;
    for _ in 0..engine.sauce_field_growths() {
        strength *= 1.001;
    }
    assert!((strength - 9.81 * 1.001_f64.powi(3)).abs() < 1e-12);
}

#[test]
fn registering_same_name_overwrites() {
    let mut engine = GUPTEngine::new();
    assert!(engine.register_noodle("a".to_string(), noodle(1.0, 0, false)));
    assert!(engine.register_noodle("a".to_string(), noodle(1.0, 1, false)));
    assert_eq!(engine.registry_len(), 1);
    assert_eq!(engine.sauce_field_growths(), 2);
    let events = engine.tick();
    assert_eq!(events.len(), 1);
    assert!(matches!(&events[0], PastaEvent::Tragedy(n) if n == "a"));
}

#[test]
fn tick_with_one_overcooked_noodle_costs_one_meatball() {
    let mut engine = GUPTEngine::new();
    assert!(engine.register_noodle("soggy".to_string(), noodle(1.0, 7, false)));
    assert_eq!(engine.overcooked_total(), 1);
    let events = engine.tick();
    assert_eq!(engine.meatball_count(), 41);
    assert_eq!(events.len(), 1);
    assert!(matches!(&events[0], PastaEvent::Tragedy(n) if n == "soggy"));
}

#[test]
fn tick_reports_each_noodle_in_registry_order() {
    let mut engine = GUPTEngine::new();
    assert!(engine.register_noodle("ideal".to_string(), noodle(1.0, 3, false)));
    assert!(engine.register_noodle("weird".to_string(), noodle(1.0, 8, false)));
    assert!(engine.register_noodle("sad".to_string(), noodle(1.0, 10, false)));
    assert!(engine.register_noodle("sadder".to_string(), noodle(1.0, 1, false)));
    assert_eq!(engine.overcooked_total(), 2);
    let events = engine.tick();
    assert_eq!(engine.meatball_count(), 40);
    assert_eq!(events.len(), 4);
    assert!(matches!(&events[0], PastaEvent::ChefKiss(n) if n == "ideal"));
    match &events[1] {
        PastaEvent::ParadoxDetected { noodle, confusion_level_bits } => {
            assert_eq!(noodle, "weird");
            assert!(f64::from_bits(*confusion_level_bits).is_nan());
        }
        other => panic!("unexpected event {:?}", other),
    }
    assert!(matches!(&events[2], PastaEvent::Tragedy(n) if n == "sad"));
    assert!(matches!(&events[3], PastaEvent::Tragedy(n) if n == "sadder"));
    let again = engine.tick();
    assert_eq!(again.len(), 4);
    assert_eq!(engine.meatball_count(), 38);
}

#[test]
fn tick_on_empty_registry_reports_nothing() {
    let mut engine = GUPTEngine::new();
    assert!(engine.tick().is_empty());
    assert_eq!(engine.meatball_count(), 42);
    assert_eq!(engine.overcooked_total(), 0);
}
