use datacore::Maybe;
use datacore::Outcome;

#[test]
fn test_maybe_present_unwrap() {
    let m: Maybe<i32> = Maybe::Present(42);
    assert_eq!(m.unwrap(), 42);
}

#[test]
fn test_maybe_predicates() {
    let m: Maybe<i32> = Maybe::Present(7);
    assert!(m.is_some());
    assert!(!m.is_none());
    let n: Maybe<i32> = Maybe::Absent;
    assert!(!n.is_some());
    assert!(n.is_none());
}

#[test]
fn test_maybe_map_present() {
    let m: Maybe<i32> = Maybe::Present(21);
    let doubled = m.map(|x| x * 2);
    assert_eq!(doubled, Maybe::Present(42));
}

#[test]
fn test_maybe_map_absent() {
    let m: Maybe<i32> = Maybe::Absent;
    let mapped = m.map(|x| x * 2);
    assert_eq!(mapped, Maybe::Absent);
}

#[test]
fn test_maybe_map_changes_type() {
    let m: Maybe<i32> = Maybe::Present(5);
    let as_bool = m.map(|x| x > 0);
    assert_eq!(as_bool, Maybe::Present(true));
}

#[test]
fn test_outcome_success() {
    let o: Outcome<i32, String> = Outcome::Success(10);
    assert!(o.is_ok());
    assert!(!o.is_err());
    assert_eq!(o.unwrap(), 10);
}

#[test]
fn test_outcome_failure() {
    let o: Outcome<i32, String> = Outcome::Failure(String::from("boom"));
    assert!(!o.is_ok());
    assert!(o.is_err());
}
