use langtour::parallel::join_both;
use langtour::parallel::WorkUnit;

#[test]
fn both_units_complete_after_their_fixed_iterations() {
    let mut a = WorkUnit::new(9);
    let mut b = WorkUnit::new(9);
    for _ in 0..9 {
        a.step();
    }
    for _ in 0..9 {
        b.step();
    }
    assert!(join_both(&a, &b));
}

#[test]
fn join_refuses_while_one_unit_is_unfinished() {
    let mut a = WorkUnit::new(9);
    let b = WorkUnit::new(9);
    for _ in 0..9 {
        a.step();
    }
    assert!(a.is_complete());
    assert!(!b.is_complete());
    assert!(!join_both(&a, &b));
}

#[test]
fn unit_with_nothing_planned_is_complete_at_once() {
    let a = WorkUnit::new(0);
    let b = WorkUnit::new(0);
    assert!(join_both(&a, &b));
}
