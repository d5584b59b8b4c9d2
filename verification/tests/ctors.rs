use boot_guard::ctors::run_constructors;

#[test]
fn empty_constructor_range_plans_no_invocations() {
    let table = vec![10u64, 20, 30];
    let order = run_constructors(&table, 2, 2);
    assert_eq!(order, Vec::<u64>::new());
    let empty: Vec<u64> = Vec::new();
    let order = run_constructors(&empty, 0, 0);
    assert_eq!(order, Vec::<u64>::new());
}

#[test]
fn constructors_run_in_declared_order() {
    let table = vec![10u64, 20, 30];
    let order = run_constructors(&table, 0, 3);
    assert_eq!(order, vec![10, 20, 30]);
}

#[test]
fn constructor_range_is_half_open() {
    let table = vec![10u64, 20, 30, 40];
    let order = run_constructors(&table, 1, 3);
    assert_eq!(order, vec![20, 30]);
}
