use seclib::lattice::Labeled;
use seclib::lattice::Lattice;
use seclib::lattice::SecError;

const LOW: u64 = 0;
const MID: u64 = 1;
const HIGH: u64 = 2;

/// The two-level lattice: Low, High, with High dominating Low.
fn two_levels() -> Lattice {
    let mut lattice = Lattice::new();
    lattice.declare_level(LOW);
    lattice.declare_level(HIGH);
    lattice.declare_dominance(HIGH, LOW).unwrap();
    lattice
}

/// The three-level chain without its transitive closure: Mid dominates Low
/// and High dominates Mid, but no edge from High to Low is declared.
fn three_levels() -> Lattice {
    let mut lattice = Lattice::new();
    lattice.declare_level(LOW);
    lattice.declare_level(MID);
    lattice.declare_level(HIGH);
    lattice.declare_dominance(MID, LOW).unwrap();
    lattice.declare_dominance(HIGH, MID).unwrap();
    lattice
}

#[test]
fn declared_levels_dominate_themselves() {
    let lattice = three_levels();
    assert!(lattice.dominates(LOW, LOW));
    assert!(lattice.dominates(MID, MID));
    assert!(lattice.dominates(HIGH, HIGH));
}

#[test]
fn undeclared_pairs_do_not_dominate() {
    let lattice = two_levels();
    assert!(lattice.dominates(HIGH, LOW));
    assert!(!lattice.dominates(LOW, HIGH));
    assert!(!lattice.dominates(LOW, 7));
    assert!(!lattice.dominates(7, 7));
}

#[test]
fn declare_dominance_rejects_unknown_levels() {
    let mut lattice = Lattice::new();
    lattice.declare_level(LOW);
    assert_eq!(lattice.declare_dominance(HIGH, LOW), Err(SecError::UnknownLevel));
    assert_eq!(lattice.declare_dominance(LOW, HIGH), Err(SecError::UnknownLevel));
    assert_eq!(lattice.declare_dominance(LOW, LOW), Ok(()));
}

#[test]
fn map_preserves_the_level() {
    let lattice = two_levels();
    let value = Labeled::new(LOW, 5).map(|x: i32| x + 2);
    assert_eq!(value.level(), LOW);
    assert_eq!(value.reveal_to(&lattice, LOW), Ok(7));

    let value = Labeled::new(LOW, 5).map(|x: i32| x + 2);
    assert_eq!(value.reveal_to(&lattice, HIGH), Ok(7));
}

#[test]
fn lift_then_extract_at_high() {
    let lattice = two_levels();
    let value = Labeled::new(LOW, "secret").lift(&lattice, HIGH).unwrap();
    assert_eq!(value.level(), HIGH);
    assert_eq!(value.reveal_to(&lattice, HIGH), Ok("secret"));
}

#[test]
fn extraction_without_dominance_fails() {
    let lattice = two_levels();
    let value = Labeled::new(HIGH, 9);
    assert_eq!(value.reveal_to(&lattice, LOW), Err(SecError::MissingDominance));
}

#[test]
fn and_then_stays_at_the_same_level() {
    let lattice = two_levels();
    let value = Labeled::new(HIGH, 4).and_then(|i: i32| Labeled::new(HIGH, i + 2));
    assert_eq!(value.level(), HIGH);
    assert_eq!(value.reveal_to(&lattice, HIGH), Ok(6));
}

#[test]
fn no_implicit_transitivity() {
    let lattice = three_levels();
    assert!(lattice.dominates(MID, LOW));
    assert!(lattice.dominates(HIGH, MID));
    assert!(!lattice.dominates(HIGH, LOW));
    let value = Labeled::new(LOW, 1);
    assert_eq!(value.reveal_to(&lattice, HIGH), Err(SecError::MissingDominance));
}

#[test]
fn undeclared_levels_are_rejected_as_unknown() {
    let lattice = two_levels();
    let value = Labeled::new(LOW, 8);
    assert_eq!(value.reveal_to(&lattice, 7), Err(SecError::UnknownLevel));
    let stray = Labeled::new(7, 8);
    assert_eq!(stray.reveal_to(&lattice, HIGH), Err(SecError::UnknownLevel));
    let value = Labeled::new(LOW, 8);
    assert_eq!(value.lift(&lattice, 7), Err(SecError::UnknownLevel));
}

#[test]
fn lift_lands_exactly_on_the_target_level() {
    let lattice = three_levels();
    let value = Labeled::new(LOW, 10).lift(&lattice, MID).unwrap();
    assert_eq!(value.level(), MID);
    let value = value.lift(&lattice, HIGH).unwrap();
    assert_eq!(value.level(), HIGH);
    // the two-hop route exists, the one-hop edge does not
    let direct = Labeled::new(LOW, 10).lift(&lattice, HIGH);
    assert_eq!(direct, Err(SecError::MissingDominance));
    // no downgrade: the reverse edge was never declared
    let back = Labeled::new(MID, 10).lift(&lattice, LOW);
    assert_eq!(back, Err(SecError::MissingDominance));
}
