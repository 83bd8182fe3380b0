use backend_supervisor::resolver::resolve;

#[test]
fn resolve_returns_none_when_no_candidate_exists() {
    let exists: Vec<bool> = vec![false, false];
    assert_eq!(resolve(&exists), None);
    let empty: Vec<bool> = Vec::new();
    assert_eq!(resolve(&empty), None);
}

#[test]
fn resolve_picks_first_existing_candidate() {
    assert_eq!(resolve(&vec![false, true]), Some(1));
    assert_eq!(resolve(&vec![true, true]), Some(0));
    assert_eq!(resolve(&vec![true, false]), Some(0));
}
