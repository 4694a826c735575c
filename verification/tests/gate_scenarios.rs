use versioned_api::error::{ConfigDefect, Error, UnsupportedCall};
use versioned_api::gate::VersionGate;

fn gate(valid: &[&str], invalid: &[&str]) -> VersionGate {
    VersionGate::new(
        valid.iter().map(|s| s.to_string()).collect(),
        invalid.iter().map(|s| s.to_string()).collect(),
    )
}

#[test]
fn warm_up_computes_conjunction_of_valid_and_invalid() {
    let mut g = gate(&[">=6.0.0"], &[]);
    assert_eq!(g.warm_up("6.0.5"), Ok(true));

    let mut g = gate(&["<6.0.0"], &[]);
    assert_eq!(g.warm_up("6.0.5"), Ok(false));

    let mut g = gate(&[">=6.0.0"], &[">=7.0.0"]);
    assert_eq!(g.warm_up("7.2.0"), Ok(false));
}

#[test]
fn empty_rule_lists_close_the_gate_permanently() {
    let mut g = gate(&[], &[]);
    let r: Result<u32, Error> = g.invoke("1.0.0", || 1u32);
    assert_eq!(
        r,
        Err(Error::Unsupported(UnsupportedCall {
            version: "1.0.0".to_string(),
            valid: vec![],
            invalid: vec![],
        }))
    );
    // Every later call returns the same refusal.
    let r: Result<u32, Error> = g.invoke("1.0.0", || 2u32);
    assert_eq!(
        r,
        Err(Error::Unsupported(UnsupportedCall {
            version: "1.0.0".to_string(),
            valid: vec![],
            invalid: vec![],
        }))
    );
}

#[test]
fn too_old_version_is_refused_with_full_diagnostics() {
    let mut g = gate(&[">=6.0.174"], &[]);
    let r: Result<u32, Error> = g.invoke("6.0.173", || 7u32);
    assert_eq!(
        r,
        Err(Error::Unsupported(UnsupportedCall {
            version: "6.0.173".to_string(),
            valid: vec![">=6.0.174".to_string()],
            invalid: vec![],
        }))
    );
}

#[test]
fn invalid_match_dominates_a_valid_match() {
    let mut g = gate(&[">=6.0.0"], &["=6.0.175"]);
    assert_eq!(g.warm_up("6.0.175"), Ok(false));
    let r: Result<u32, Error> = g.invoke("6.0.175", || 7u32);
    match r {
        Err(Error::Unsupported(u)) => {
            assert_eq!(u.version, "6.0.175");
            assert_eq!(u.valid, vec![">=6.0.0".to_string()]);
            assert_eq!(u.invalid, vec!["=6.0.175".to_string()]);
        }
        other => panic!("expected a refusal, got {:?}", other),
    }
}

#[test]
fn open_gate_wraps_the_plain_result_in_the_success_variant() {
    let mut g = gate(&[">=7.0.0"], &[]);
    let r: Result<u32, Error> = g.invoke("7.1.0", || 42u32);
    assert_eq!(r, Ok(42u32));
}

#[test]
fn open_gate_passes_an_outcome_failure_through_unmodified() {
    let e = Error::Config(ConfigDefect::ParseRequirement {
        requirement: "boom".to_string(),
    });
    let expected = e.clone();
    let mut g = gate(&[">=7.0.0"], &[]);
    let r: Result<u32, Error> = g.invoke_outcome("7.1.0", move || Err(e));
    assert_eq!(r, Err(expected));
}

#[test]
fn open_gate_passes_an_outcome_success_through_unmodified() {
    let mut g = gate(&[">=7.0.0"], &[]);
    let r: Result<u32, Error> = g.invoke_outcome("7.1.0", || Ok(5u32));
    assert_eq!(r, Ok(5u32));
}

#[test]
fn gate_evaluations_are_deterministic_within_a_process() {
    let mut g = gate(&[">=7.0.0"], &[]);
    let first = g.warm_up("7.1.0");
    let second = g.warm_up("7.1.0");
    assert_eq!(first, Ok(true));
    assert_eq!(second, first);

    let mut g = gate(&[">=7.0.0"], &[]);
    let first = g.warm_up("6.9.0");
    let second = g.warm_up("6.9.0");
    assert_eq!(first, Ok(false));
    assert_eq!(second, first);
}

#[test]
fn malformed_version_is_a_distinct_configuration_defect() {
    let mut g = gate(&[">=6.0.0"], &[]);
    assert_eq!(
        g.warm_up(""),
        Err(ConfigDefect::ParseVersion {
            version: "".to_string(),
        })
    );
}

#[test]
fn malformed_requirement_is_a_distinct_configuration_defect() {
    let mut g = gate(&["nonsense"], &[]);
    assert_eq!(
        g.warm_up("6.0.0"),
        Err(ConfigDefect::ParseRequirement {
            requirement: "nonsense".to_string(),
        })
    );
    // The defect surfaces through a gated call as the fatal error kind.
    let mut g = gate(&["nonsense"], &[]);
    let r: Result<u32, Error> = g.invoke("6.0.0", || 3u32);
    assert_eq!(
        r,
        Err(Error::Config(ConfigDefect::ParseRequirement {
            requirement: "nonsense".to_string(),
        }))
    );
}

#[test]
fn invalid_match_short_circuits_before_valid_literals_are_parsed() {
    // The invalid list is evaluated first: once it matches, the malformed
    // valid literal is never parsed and the call is simply refused.
    let mut g = gate(&["garbage"], &["=6.0.0"]);
    assert_eq!(g.warm_up("6.0.0"), Ok(false));
}

#[test]
fn valid_match_short_circuits_later_valid_literals() {
    // `any` stops at the first match, so a malformed literal after it is
    // never parsed.
    let mut g = gate(&[">=1.0.0", "garbage"], &[]);
    assert_eq!(g.warm_up("2.0.0"), Ok(true));
}
