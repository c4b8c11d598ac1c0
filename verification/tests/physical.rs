use springs::PhysicalTerms;

#[test]
fn a_new_builder_sets_only_the_mass() {
    let terms = PhysicalTerms::new(1.0);
    assert_eq!(terms.mass, 1.0);
    assert_eq!(terms.stiffness, None);
    assert_eq!(terms.damping, None);
}

#[test]
fn unset_terms_are_built_as_derived() {
    let terms = PhysicalTerms::new(2.0);
    assert_eq!(terms.stiffness_or(78.9), 78.9);
    assert_eq!(terms.damping_or(12.5), 12.5);
}

#[test]
fn set_terms_pass_through() {
    let terms = PhysicalTerms::new(1.0)
        .with_mass(2.0)
        .with_stiffness(200.0)
        .with_damping(8.0);
    assert_eq!(terms.mass, 2.0);
    assert_eq!(terms.stiffness_or(1.0), 200.0);
    assert_eq!(terms.damping_or(1.0), 8.0);
}

#[test]
fn each_setter_sets_one_term() {
    let stiff = PhysicalTerms::new(4.0).with_stiffness(900.0);
    assert_eq!(stiff.mass, 4.0);
    assert_eq!(stiff.stiffness, Some(900.0));
    assert_eq!(stiff.damping, None);

    let damped = PhysicalTerms::new(2.0).with_damping(20.0);
    assert_eq!(damped.stiffness, None);
    assert_eq!(damped.damping, Some(20.0));
    assert_eq!(damped.stiffness_or(78.9), 78.9);
}

#[test]
fn a_later_mass_replaces_the_earlier_one() {
    let terms = PhysicalTerms::new(1.0).with_stiffness(50.0).with_mass(0.5);
    assert_eq!(terms.mass, 0.5);
    assert_eq!(terms.stiffness, Some(50.0));
}
